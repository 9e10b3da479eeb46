pub mod admin_staff_controller;
pub mod booking_controller;
pub mod csrf_controller;
pub mod customer_controller;
pub mod email_controller;
pub mod login_controller;
pub mod page_controller;
pub mod payment_controller;
pub mod price_controller;
pub mod validation_controller;
