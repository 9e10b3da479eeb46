use colibri::controllers::email_controller::{
    booking_expired_email_body, booking_status_email_body, booking_update_email_body,
    cancel_confirmation_email_body, cancel_link, confirmation_email_body, invoice_email_body,
    money_string, payment_link,
};
use colibri::templates::{AdminHomeTemplate, ContactTemplate, I18nTemplate};
use colibri::text::{decimal_string, parse_i32, text_contains, trim_text, zero_padded_string};

#[test]
fn reading_integers() {
    assert_eq!(parse_i32("42"), Some(42));
    assert_eq!(parse_i32("+42"), Some(42));
    assert_eq!(parse_i32("-0"), Some(0));
    assert_eq!(parse_i32("007"), Some(7));
    assert_eq!(parse_i32("-2147483648"), Some(i32::MIN));
    assert_eq!(parse_i32("2147483647"), Some(i32::MAX));
    assert_eq!(parse_i32("2147483648"), None);
    assert_eq!(parse_i32("99999999999999999999"), None);
    assert_eq!(parse_i32(""), None);
    assert_eq!(parse_i32("-"), None);
    assert_eq!(parse_i32(" 1"), None);
    assert_eq!(parse_i32("1a"), None);
    for n in [0, 1, -1, 123, i32::MAX, i32::MIN] {
        assert_eq!(parse_i32(&decimal_string(n as i64)), Some(n));
        assert_eq!(decimal_string(n as i64), n.to_string());
    }
}

#[test]
fn formatting_integers() {
    assert_eq!(decimal_string(i64::MIN), i64::MIN.to_string());
    assert_eq!(zero_padded_string(42, 5), format!("{:05}", 42));
    assert_eq!(zero_padded_string(-42, 5), format!("{:05}", -42));
    assert_eq!(zero_padded_string(1234567, 5), "1234567");
    assert_eq!(money_string(300), "300.00");
    assert_eq!(money_string(-5), "-5.00");
}

#[test]
fn trimming_and_searching() {
    assert_eq!(trim_text(" \t a b \n"), "a b");
    assert_eq!(trim_text("\u{3000}x\u{a0}"), "x");
    assert_eq!(trim_text("   "), "");
    assert!(text_contains("abcabd", "abd"));
    assert!(!text_contains("ab", "abc"));
    assert!(text_contains("x", ""));
}

#[test]
fn email_texts() {
    let body = confirmation_email_body(
        "Anna",
        "Jansen",
        "0612345678",
        "Dorpsstraat 1",
        "5000 AA",
        "Breda",
        "Chalet",
        "01-07-2026", "03-07-2026",
        &payment_link("http://127.0.0.1:8080", "pay"),
        &cancel_link("http://127.0.0.1:8080", "cancel"),
        2,
        300,
        600,
    );
    assert!(body.starts_with("<html>\n        <body style='font-family: Arial, sans-serif;'>\n            <p>Dear Anna,</p>"));
    assert!(body.contains("(2 nights at €300.00 per night)"));
    assert!(body.contains("Total amount: €600.00"));
    assert!(body.contains("<a href='http://127.0.0.1:8080/payment/pay/confirm'>Click here to pay</a>"));
    assert!(body.contains("<a href='http://127.0.0.1:8080/cancel/cancel'>Click here to cancel</a>"));
    assert!(body.contains("Anna Jansen<br>\n                Dorpsstraat 1<br>\n                5000 AA Breda<br>\n                Phone: 0612345678"));
    assert!(body.ends_with("</html>"));

    let body = invoice_email_body("Anna", "CC-20260701-00001", "600.00");
    assert!(body.contains("Invoice number: <strong>CC-20260701-00001</strong><br>"));
    assert!(body.contains("Total amount: <strong>€600.00</strong>"));

    let body = cancel_confirmation_email_body("Anna", "Not paid yet");
    assert!(body.contains("<p>Invoice number: <strong>Not paid yet</strong></p>"));

    let body = booking_expired_email_body("Anna");
    assert!(body.contains("within 7 days"));

    let body = booking_update_email_body("Anna", "Tent", "01-07-2026", "04-07-2026", 3, 200, 600);
    assert!(body.contains("<strong>Tent</strong>"));
    assert!(body.contains("(3 nights at €200.00 per night)"));

    let with = booking_status_email_body("Anna", "confirmed", "CC-1");
    assert!(with.contains("<strong>confirmed</strong>"));
    assert!(with.contains("Invoice number:\n                    <strong>CC-1</strong>"));
    let without = booking_status_email_body("Anna", "cancelled", "");
    assert!(!without.contains("Invoice number"));
}

#[test]
fn pages_know_their_language() {
    let c = ContactTemplate { user_name: None, current_lang: "nl".to_string() };
    assert_eq!(c.lang(), "nl");
    let h = AdminHomeTemplate { user_name: Some("Piet".to_string()), current_lang: "en".to_string() };
    assert_eq!(h.lang(), "en");
}
