use colibri::controllers::admin_staff_controller::{CreateStaffForm, UpdateStaffForm};
use colibri::controllers::booking_controller::{AdminBookingForm, PublicBookingForm};
use colibri::controllers::customer_controller::{CreateCustomerForm, UpdateCustomerForm};
use colibri::controllers::validation_controller::{
    validate_admin_booking, validate_customer_create, validate_customer_update,
    validate_public_booking, validate_staff_create, validate_staff_update,
};

fn booking() -> PublicBookingForm {
    PublicBookingForm {
        csrf_token: String::new(),
        booking_id: "1".to_string(),
        lock_token: "token".to_string(),
        accommodation_id: "1".to_string(),
        check_in_date: "2026-07-01".to_string(),
        check_out_date: "2026-07-03".to_string(),
        first_name: "Dennis".to_string(),
        last_name: "Hettinga".to_string(),
        address: "Teststraat 1".to_string(),
        zip_code: "1234AB".to_string(),
        city: "Tilburg".to_string(),
        phone: "0612345678".to_string(),
        email: "test@test.nl".to_string(),
        tos_accepted: Some("yes".to_string()),
    }
}

fn err_of(form: &PublicBookingForm) -> String {
    validate_public_booking(form).unwrap_err()
}

#[test]
fn each_field_reports_its_own_key() {
    let mut f = booking();
    f.first_name = "D3nnis".to_string();
    assert_eq!(err_of(&f), "error-firstname-invalid");
    let mut f = booking();
    f.last_name = "   ".to_string();
    assert_eq!(err_of(&f), "error-lastname-invalid");
    let mut f = booking();
    f.address = "Teststraat 1, boven".to_string();
    assert_eq!(err_of(&f), "error-address-invalid");
    let mut f = booking();
    f.zip_code = "123".to_string();
    assert_eq!(err_of(&f), "error-zipcode-invalid");
    let mut f = booking();
    f.city = "Tilburg!".to_string();
    assert_eq!(err_of(&f), "error-city-invalid");
    let mut f = booking();
    f.phone = "0612".to_string();
    assert_eq!(err_of(&f), "error-phone-invalid");
    let mut f = booking();
    f.email = "   ".to_string();
    assert_eq!(err_of(&f), "error-email-invalid");
}

#[test]
fn first_refused_field_wins() {
    let mut f = booking();
    f.city = "".to_string();
    f.first_name = "".to_string();
    assert_eq!(err_of(&f), "error-firstname-invalid");
}

#[test]
fn names_allow_accents_apostrophes_and_hyphens() {
    let mut f = booking();
    f.first_name = "José-María".to_string();
    f.last_name = "d'Hondt".to_string();
    f.city = "'s-Hertogenbosch".to_string();
    assert!(validate_public_booking(&f).is_ok());
}

#[test]
fn surrounding_spaces_are_ignored() {
    let mut f = booking();
    f.first_name = "   Dennis  ".to_string();
    f.zip_code = "  1234 AB ".to_string();
    f.phone = " +31 6 1234 5678 ".to_string();
    f.email = " test@test.nl ".to_string();
    assert!(validate_public_booking(&f).is_ok());
    f.city = " T1lburg ".to_string();
    assert_eq!(err_of(&f), "error-city-invalid");
}

#[test]
fn lengths_are_counted_in_bytes() {
    let mut f = booking();
    f.first_name = "a".repeat(50);
    assert!(validate_public_booking(&f).is_ok());
    f.first_name = "a".repeat(51);
    assert_eq!(err_of(&f), "error-firstname-invalid");
    // 26 characters of two bytes each: 52 bytes
    f.first_name = "é".repeat(26);
    assert_eq!(err_of(&f), "error-firstname-invalid");
    f.first_name = "é".repeat(25);
    assert!(validate_public_booking(&f).is_ok());
}

#[test]
fn zip_and_phone_bounds() {
    let mut f = booking();
    f.zip_code = "1234".to_string();
    assert!(validate_public_booking(&f).is_ok());
    f.zip_code = "12345678901".to_string();
    assert_eq!(err_of(&f), "error-zipcode-invalid");
    let mut f = booking();
    f.phone = "12345678".to_string();
    assert!(validate_public_booking(&f).is_ok());
    f.phone = "1234567890123456".to_string();
    assert_eq!(err_of(&f), "error-phone-invalid");
}

#[test]
fn email_needs_an_at_sign_anywhere() {
    let mut f = booking();
    f.email = "@".to_string();
    assert!(validate_public_booking(&f).is_ok());
    f.email = "no-at-sign".to_string();
    assert_eq!(err_of(&f), "error-email-invalid");
}

#[test]
fn admin_booking_uses_the_same_rules() {
    let mut f = AdminBookingForm {
        accommodation_id: 2,
        check_in_date: "2026-07-01".to_string(),
        check_out_date: "2026-07-03".to_string(),
        first_name: "Dennis".to_string(),
        last_name: "Hettinga".to_string(),
        address: "Teststraat 1".to_string(),
        zip_code: "1234AB".to_string(),
        city: "Tilburg".to_string(),
        phone: "0612345678".to_string(),
        email: "test@test.nl".to_string(),
    };
    assert!(validate_admin_booking(&f).is_ok());
    f.phone = "+31 612345678".to_string();
    assert!(validate_admin_booking(&f).is_ok());
    f.phone = "06-12345678".to_string();
    assert!(validate_admin_booking(&f).is_ok());
}

#[test]
fn customer_forms_use_the_same_rules() {
    let c = CreateCustomerForm {
        first_name: "Anna".to_string(),
        last_name: "Jansen".to_string(),
        email: "anna@example.com".to_string(),
        phone: "0612345678".to_string(),
        address: "Dorpsstraat 12".to_string(),
        postal_code: "5000 AA".to_string(),
        city: "Breda".to_string(),
    };
    assert!(validate_customer_create(&c).is_ok());
    let mut u = UpdateCustomerForm {
        customer_id: 4,
        first_name: "Anna".to_string(),
        last_name: "Jansen".to_string(),
        email: "anna@example.com".to_string(),
        phone: "0612345678".to_string(),
        address: "Dorpsstraat 12".to_string(),
        postal_code: "5000 AA".to_string(),
        city: "Breda".to_string(),
    };
    assert!(validate_customer_update(&u).is_ok());
    u.phone = "06-12345678".to_string();
    assert!(validate_customer_update(&u).is_ok());
    let mut c2 = c;
    c2.phone = "06-12345678".to_string();
    assert!(validate_customer_create(&c2).is_ok());
    u.postal_code = "50".to_string();
    assert_eq!(validate_customer_update(&u).unwrap_err(), "error-zipcode-invalid");
}

#[test]
fn staff_passwords_must_be_strong() {
    let mut f = CreateStaffForm {
        first_name: "Piet".to_string(),
        last_name: "Bakker".to_string(),
        email: "piet@colibri.nl".to_string(),
        password: "Geheim12!".to_string(),
    };
    assert!(validate_staff_create(&f).is_ok());
    for weak in ["Geheim1!", "geheim12!", "GEHEIM12!", "Geheimen!", "Geheim123"] {
        f.password = weak.to_string();
        if weak == "Geheim1!" {
            assert!(validate_staff_create(&f).is_ok());
        } else {
            assert_eq!(validate_staff_create(&f).unwrap_err(), "error-password-invalid");
        }
    }
    f.password = "Gh1!".to_string();
    assert_eq!(validate_staff_create(&f).unwrap_err(), "error-password-invalid");
    f.email = "piet".to_string();
    assert_eq!(validate_staff_create(&f).unwrap_err(), "error-email-invalid");
}

#[test]
fn staff_update_skips_a_blank_password() {
    let mut f = UpdateStaffForm {
        user_id: 2,
        first_name: "Piet".to_string(),
        last_name: "Bakker".to_string(),
        email: "piet@colibri.nl".to_string(),
        password: "   ".to_string(),
        role: "staff".to_string(),
    };
    assert!(validate_staff_update(&f).is_ok());
    f.password = "weak".to_string();
    assert_eq!(validate_staff_update(&f).unwrap_err(), "error-password-invalid");
    f.password = "Sterk123?".to_string();
    assert!(validate_staff_update(&f).is_ok());
}
