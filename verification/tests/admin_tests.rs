use colibri::controllers::admin_staff_controller::{
    plan_staff_create, plan_staff_delete, plan_staff_update, staff_done_url, staff_refused_url,
    CreateStaffForm, DeleteStaffForm, StaffAction, StaffPlan, UpdateStaffForm,
};
use colibri::controllers::csrf_controller::{generate_csrf_token, verify_csrf_token};
use colibri::controllers::customer_controller::{
    customer_updated_url, plan_customer_delete, CustomerDeletion,
};
use colibri::controllers::payment_controller::{
    invoice_number, invoice_number_at, invoice_number_for_today, payment_success_url,
};
use colibri::controllers::price_controller::{plan_save_price, price_redirect, PriceForm, PricePlan};

fn update(user_id: i32, password: &str, role: &str) -> UpdateStaffForm {
    UpdateStaffForm {
        user_id,
        first_name: "Piet".to_string(),
        last_name: "Bakker".to_string(),
        email: "piet@colibri.nl".to_string(),
        password: password.to_string(),
        role: role.to_string(),
    }
}

#[test]
fn only_admins_change_staff() {
    let c = CreateStaffForm {
        first_name: "Piet".to_string(),
        last_name: "Bakker".to_string(),
        email: "piet@colibri.nl".to_string(),
        password: "Geheim12!".to_string(),
    };
    assert!(matches!(plan_staff_create("staff", &c), StaffPlan::NotAllowed));
    match plan_staff_create("admin", &c) {
        StaffPlan::Apply { password_hash: Some(h) } => {
            assert_eq!(h.len(), 60);
            assert!(bcrypt::verify("Geheim12!", &h).unwrap());
        },
        _ => panic!("admin could not create staff"),
    }
    assert!(matches!(plan_staff_update("", &update(2, "", "staff")), StaffPlan::NotAllowed));
    assert!(matches!(plan_staff_delete("staff", &DeleteStaffForm { user_id: 2 }), StaffPlan::NotAllowed));
    assert_eq!(staff_refused_url(&StaffPlan::NotAllowed, true), "/admin/staff");
}

#[test]
fn primary_admin_is_protected() {
    let p = plan_staff_update("admin", &update(1, "", "staff"));
    assert!(matches!(p, StaffPlan::PrimaryAdminProtected));
    assert_eq!(staff_refused_url(&p, false), "/admin/staff?success=primary_admin_role_error");
    assert!(matches!(
        plan_staff_update("admin", &update(1, "", "admin")),
        StaffPlan::Apply { password_hash: None }
    ));
    let d = plan_staff_delete("admin", &DeleteStaffForm { user_id: 1 });
    assert!(matches!(d, StaffPlan::PrimaryAdminProtected));
    assert_eq!(staff_refused_url(&d, true), "/admin/staff?success=primary_admin_delete_error");
    assert!(matches!(
        plan_staff_delete("admin", &DeleteStaffForm { user_id: 5 }),
        StaffPlan::Apply { password_hash: None }
    ));
}

#[test]
fn staff_update_hashes_only_a_new_password() {
    assert!(matches!(
        plan_staff_update("admin", &update(3, "  ", "staff")),
        StaffPlan::Apply { password_hash: None }
    ));
    match plan_staff_update("admin", &update(3, "Nieuw123!", "staff")) {
        StaffPlan::Apply { password_hash: Some(h) } => assert!(bcrypt::verify("Nieuw123!", &h).unwrap()),
        _ => panic!("new password not hashed"),
    }
    assert_eq!(
        staff_done_url(StaffAction::Updated, "Bakker"),
        "/admin/staff?success=staff_updated&last_name=Bakker"
    );
    assert_eq!(
        staff_done_url(StaffAction::Created, "X"),
        "/admin/staff?success=staff_created&last_name=X"
    );
    assert_eq!(
        staff_done_url(StaffAction::Deleted, "Y"),
        "/admin/staff?success=staff_deleted&last_name=Y"
    );
}

#[test]
fn customers_with_bookings_stay() {
    match plan_customer_delete(2, "Jansen") {
        CustomerDeletion::Refused { redirect } => assert_eq!(
            redirect,
            "/admin/customers?success=customer_delete_error&last_name=Jansen"
        ),
        CustomerDeletion::Delete { .. } => panic!("customer with bookings deleted"),
    }
    match plan_customer_delete(0, "Jansen") {
        CustomerDeletion::Delete { redirect } => {
            assert_eq!(redirect, "/admin/customers?success=customer_deleted&last_name=Jansen")
        },
        CustomerDeletion::Refused { .. } => panic!("customer without bookings kept"),
    }
    assert_eq!(
        customer_updated_url("de Vries"),
        "/admin/customers?success=customer_updated&last_name=de Vries"
    );
}

#[test]
fn csrf_tokens() {
    let t = generate_csrf_token();
    assert_eq!(t.len(), 36);
    assert!(t.chars().enumerate().all(|(i, c)| if [8, 13, 18, 23].contains(&i) {
        c == '-'
    } else {
        c.is_ascii_hexdigit() && !c.is_ascii_uppercase()
    }));
    assert!(verify_csrf_token(Some(t.clone()), &t));
    assert!(!verify_csrf_token(Some(t.clone()), "other"));
    assert!(!verify_csrf_token(None, &t));
}

#[test]
fn invoice_numbers() {
    assert_eq!(invoice_number("20260701", 7), "CC-20260701-00007");
    assert_eq!(invoice_number("20260701", 123456), "CC-20260701-123456");
    assert_eq!(invoice_number("20260701", -3), "CC-20260701--0003");
    assert_eq!(invoice_number("20260701", 0), "CC-20260701-00000");
    let n = invoice_number_for_today(12).expect("clock after the epoch");
    assert_eq!(n.len(), 17);
    assert!(n.starts_with("CC-20") && n.ends_with("-00012"));
    // 2026-07-01T12:00:00Z and 1970-01-01T00:00:00Z
    assert_eq!(invoice_number_at(1_782_907_200, 7).unwrap(), "CC-20260701-00007");
    assert_eq!(invoice_number_at(0, 1).unwrap(), "CC-19700101-00001");
    assert_eq!(invoice_number_at(253_402_300_799, 2).unwrap(), "CC-99991231-00002");
    assert_eq!(payment_success_url("CC-1"), "/?payment=success&invoice=CC-1");
}

#[test]
fn prices() {
    let form = |price: &str| PriceForm {
        csrf_token: "t".to_string(),
        accommodation_id: 2,
        price: price.to_string(),
    };
    match plan_save_price(Some("t".to_string()), &form(" 249.50 ")) {
        PricePlan::Update { mantissa, scale, accommodation_id } => {
            assert_eq!(accommodation_id, 2);
            assert_eq!((mantissa, scale), (24950, 2));
        },
        _ => panic!("valid price refused"),
    }
    match plan_save_price(Some("t".to_string()), &form("100")) {
        PricePlan::Update { mantissa, scale, .. } => assert_eq!((mantissa, scale), (100, 0)),
        _ => panic!("valid price refused"),
    }
    let bad = plan_save_price(Some("t".to_string()), &form("twee"));
    assert!(matches!(bad, PricePlan::Invalid));
    assert_eq!(price_redirect(&bad), "/admin/prices?error=error-price-invalid");
    let forbidden = plan_save_price(Some("u".to_string()), &form("10"));
    assert!(matches!(forbidden, PricePlan::Forbidden));
    assert!(matches!(plan_save_price(None, &form("10")), PricePlan::Forbidden));
    assert_eq!(price_redirect(&forbidden), "/admin/prices");
}
