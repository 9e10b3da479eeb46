//! The data that each page shows, and the language it is shown in.
use vstd::prelude::*;
use crate::db::CustomerRow;

verus! {

/// A page shown in the visitor's language.
pub trait I18nTemplate {
    /// The language code of the page.
    spec fn language(&self) -> Seq<char>;

    /// The language code of the page (`"en"`, `"nl"`, ...).
    fn lang(&self) -> (r: &str)
        ensures
            r@ == self.language(),
    ;
}

/// Data of the page `pages/public_home.html`.
pub struct HomePublicTemplate {
    pub user_name: Option<String>,
    pub current_lang: String,
    pub payment: String,
    pub invoice: String,
    pub error: String,
}

/// Data of the page `pages/public_contact.html`.
pub struct ContactTemplate {
    pub user_name: Option<String>,
    pub current_lang: String,
}

/// Data of the page `pages/public_tos.html`.
pub struct TosTemplate {
    pub user_name: Option<String>,
    pub current_lang: String,
}

/// Data of the page `pages/public_booking1.html`.
pub struct PublicBooking1Template {
    pub user_name: Option<String>,
    pub accommodation_id: String,
    pub current_lang: String,
    pub error: String,
}

/// Data of the page `pages/public_booking2.html`.
pub struct PublicBooking2Template {
    pub user_name: Option<String>,
    pub current_lang: String,
    pub booking_id: String,
    pub lock_token: String,
    pub accommodation_id: String,
    pub check_in_date: String,
    pub check_out_date: String,
}

/// Data of the page `pages/public_booking_overview.html`.
pub struct PublicBookingOverviewTemplate {
    pub user_name: Option<String>,
    pub current_lang: String,
    pub success: bool,
    pub email: String,
    pub first_name: String,
    pub last_name: String,
    pub address: String,
    pub zip_code: String,
    pub city: String,
    pub phone: String,
    pub accommodation: String,
    pub check_in: String,
    pub check_out: String,
    pub nights: i64,
    pub price_per_night: String,
    pub total_price: String,
    pub payment_token: String,
}

/// Data of the page `pages/admin_login.html`.
pub struct AdminLoginTemplate {
    pub user_name: Option<String>,
    pub current_lang: String,
    pub error: Option<String>,
}

/// Data of the page `pages/admin_home.html`.
pub struct AdminHomeTemplate {
    pub user_name: Option<String>,
    pub current_lang: String,
}

/// One booking in the staff booking list.
pub struct BookingRow {
    pub id: i32,
    pub last_name: String,
    pub email: String,
    pub phone: Option<String>,
    pub unit_code: String,
    pub invoice_number: Option<String>,
    pub check_in: String,
    pub check_out: String,
    pub status: String,
    pub source: Option<String>,
}

/// Data of the page `pages/admin_bookings_read.html`.
pub struct AdminBookingsReadTemplate {
    pub user_name: Option<String>,
    pub current_lang: String,
    pub bookings: Vec<BookingRow>,
    pub user_role: String,
    pub error: Option<String>,
    pub success: String,
}

/// Data of the page `pages/admin_booking1_create.html`.
pub struct AdminBooking1CreateTemplate {
    pub user_name: Option<String>,
    pub current_lang: String,
    pub accommodation_id: String,
    pub error: String,
}

/// Data of the page `pages/admin_booking2_create.html`.
pub struct AdminBooking2CreateTemplate {
    pub user_name: Option<String>,
    pub current_lang: String,
    pub accommodation_id: String,
    pub check_in_date: String,
    pub check_out_date: String,
    pub first_name: String,
    pub last_name: String,
    pub address: String,
    pub zip_code: String,
    pub city: String,
    pub phone: String,
    pub email: String,
    pub error: Option<String>,
}

/// Data of the page `pages/admin_booking_overview.html`.
pub struct AdminBookingOverviewTemplate {
    pub user_name: Option<String>,
    pub current_lang: String,
    pub success: bool,
    pub email: String,
    pub first_name: String,
    pub last_name: String,
    pub address: String,
    pub zip_code: String,
    pub city: String,
    pub phone: String,
    pub accommodation: String,
    pub check_in: String,
    pub check_out: String,
    pub nights: i64,
    pub price_per_night: String,
    pub total_price: String,
}

/// Data of the page `pages/admin_booking_update.html`.
pub struct AdminBooking1UpdateTemplate {
    pub user_name: Option<String>,
    pub current_lang: String,
    pub booking_id: i32,
    pub accommodation_id: String,
    pub check_in_date: String,
    pub check_out_date: String,
    pub error: String,
}

/// Data of the page `pages/admin_booking_update_overview.html`.
pub struct AdminBookingUpdateOverviewTemplate {
    pub user_name: Option<String>,
    pub current_lang: String,
    pub success: bool,
    pub accommodation_changed: bool,
    pub old_accommodation: String,
    pub new_accommodation: String,
    pub dates_changed: bool,
    pub old_check_in: String,
    pub old_check_out: String,
    pub new_check_in: String,
    pub new_check_out: String,
    pub accommodation: String,
    pub check_in: String,
    pub check_out: String,
    pub nights: i64,
    pub price_per_night: String,
    pub total_price: String,
}

/// Data of the page `pages/admin_booking_status.html`.
pub struct AdminBookingStatusTemplate {
    pub user_name: Option<String>,
    pub current_lang: String,
    pub booking_id: i32,
    pub current_status: String,
}

/// Data of the page `pages/admin_customer_read.html`.
pub struct AdminCustomerReadTemplate {
    pub user_name: Option<String>,
    pub current_lang: String,
    pub customers: Vec<CustomerRow>,
    pub user_role: String,
    pub success: String,
    pub success_last_name: String,
}

/// Data of the page `pages/admin_customer_create.html`.
pub struct AdminCustomerCreateTemplate {
    pub user_name: Option<String>,
    pub current_lang: String,
    pub first_name: String,
    pub last_name: String,
    pub email: String,
    pub phone: String,
    pub address: String,
    pub postal_code: String,
    pub city: String,
    pub error: Option<String>,
}

/// Data of the page `pages/admin_customer_update.html`.
pub struct AdminCustomerUpdateTemplate {
    pub user_name: Option<String>,
    pub current_lang: String,
    pub customer_id: i32,
    pub first_name: String,
    pub last_name: String,
    pub email: String,
    pub phone: String,
    pub address: String,
    pub postal_code: String,
    pub city: String,
    pub error: Option<String>,
}

impl I18nTemplate for HomePublicTemplate {
    open spec fn language(&self) -> Seq<char> {
        self.current_lang@
    }

    fn lang(&self) -> (r: &str) {
        self.current_lang.as_str()
    }
}

impl I18nTemplate for ContactTemplate {
    open spec fn language(&self) -> Seq<char> {
        self.current_lang@
    }

    fn lang(&self) -> (r: &str) {
        self.current_lang.as_str()
    }
}

impl I18nTemplate for TosTemplate {
    open spec fn language(&self) -> Seq<char> {
        self.current_lang@
    }

    fn lang(&self) -> (r: &str) {
        self.current_lang.as_str()
    }
}

impl I18nTemplate for PublicBooking1Template {
    open spec fn language(&self) -> Seq<char> {
        self.current_lang@
    }

    fn lang(&self) -> (r: &str) {
        self.current_lang.as_str()
    }
}

impl I18nTemplate for PublicBooking2Template {
    open spec fn language(&self) -> Seq<char> {
        self.current_lang@
    }

    fn lang(&self) -> (r: &str) {
        self.current_lang.as_str()
    }
}

impl I18nTemplate for PublicBookingOverviewTemplate {
    open spec fn language(&self) -> Seq<char> {
        self.current_lang@
    }

    fn lang(&self) -> (r: &str) {
        self.current_lang.as_str()
    }
}

impl I18nTemplate for AdminLoginTemplate {
    open spec fn language(&self) -> Seq<char> {
        self.current_lang@
    }

    fn lang(&self) -> (r: &str) {
        self.current_lang.as_str()
    }
}

impl I18nTemplate for AdminHomeTemplate {
    open spec fn language(&self) -> Seq<char> {
        self.current_lang@
    }

    fn lang(&self) -> (r: &str) {
        self.current_lang.as_str()
    }
}

impl I18nTemplate for AdminBookingsReadTemplate {
    open spec fn language(&self) -> Seq<char> {
        self.current_lang@
    }

    fn lang(&self) -> (r: &str) {
        self.current_lang.as_str()
    }
}

impl I18nTemplate for AdminBooking1CreateTemplate {
    open spec fn language(&self) -> Seq<char> {
        self.current_lang@
    }

    fn lang(&self) -> (r: &str) {
        self.current_lang.as_str()
    }
}

impl I18nTemplate for AdminBooking2CreateTemplate {
    open spec fn language(&self) -> Seq<char> {
        self.current_lang@
    }

    fn lang(&self) -> (r: &str) {
        self.current_lang.as_str()
    }
}

impl I18nTemplate for AdminBookingOverviewTemplate {
    open spec fn language(&self) -> Seq<char> {
        self.current_lang@
    }

    fn lang(&self) -> (r: &str) {
        self.current_lang.as_str()
    }
}

impl I18nTemplate for AdminBooking1UpdateTemplate {
    open spec fn language(&self) -> Seq<char> {
        self.current_lang@
    }

    fn lang(&self) -> (r: &str) {
        self.current_lang.as_str()
    }
}

impl I18nTemplate for AdminBookingUpdateOverviewTemplate {
    open spec fn language(&self) -> Seq<char> {
        self.current_lang@
    }

    fn lang(&self) -> (r: &str) {
        self.current_lang.as_str()
    }
}

impl I18nTemplate for AdminBookingStatusTemplate {
    open spec fn language(&self) -> Seq<char> {
        self.current_lang@
    }

    fn lang(&self) -> (r: &str) {
        self.current_lang.as_str()
    }
}

impl I18nTemplate for AdminCustomerReadTemplate {
    open spec fn language(&self) -> Seq<char> {
        self.current_lang@
    }

    fn lang(&self) -> (r: &str) {
        self.current_lang.as_str()
    }
}

impl I18nTemplate for AdminCustomerCreateTemplate {
    open spec fn language(&self) -> Seq<char> {
        self.current_lang@
    }

    fn lang(&self) -> (r: &str) {
        self.current_lang.as_str()
    }
}

impl I18nTemplate for AdminCustomerUpdateTemplate {
    open spec fn language(&self) -> Seq<char> {
        self.current_lang@
    }

    fn lang(&self) -> (r: &str) {
        self.current_lang.as_str()
    }
}

} // verus!
