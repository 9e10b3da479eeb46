use colibri::calendar::StayDate;
use colibri::controllers::booking_controller::{
    accommodation_label, admin_accommodation_label, admin_overview_url, booking_step2_url,
    get_lang, invoice_for_status, new_booking_token, plan_admin_booking, plan_booking_update,
    plan_public_booking, plan_public_booking_start, price_per_night, public_overview_url,
    quote_from_dates, quote_stay, redirect_with_error, temporary_lock_email,
    update_overview_url, update_unavailable_url, AdminBookingForm, AdminBookingUpdateForm,
    BookingRequestError, InvoiceAction, PublicBookingForm, PublicBookingStartForm,
};

fn day(n: i32) -> Option<StayDate> {
    Some(StayDate { day_number: n, display: format!("day {}", n) })
}

#[test]
fn quote_from_read_dates() {
    let q = quote_from_dates(2, day(100), day(103)).unwrap();
    assert_eq!(q.nights, 3);
    assert_eq!(q.price_per_night, 200);
    assert_eq!(q.total_price, 600);
    assert_eq!(q.check_in.display, "day 100");
    assert_eq!(q.check_out.day_number, 103);
}

#[test]
fn quote_errors_in_order() {
    assert_eq!(quote_from_dates(9, None, None).err(), Some(BookingRequestError::InvalidCheckIn));
    assert_eq!(quote_from_dates(9, day(1), None).err(), Some(BookingRequestError::InvalidCheckOut));
    assert_eq!(
        quote_from_dates(9, day(5), day(5)).err(),
        Some(BookingRequestError::CheckOutNotAfterCheckIn)
    );
    assert_eq!(
        quote_from_dates(9, day(5), day(6)).err(),
        Some(BookingRequestError::InvalidAccommodation)
    );
}

#[test]
fn nightly_prices() {
    assert_eq!(price_per_night(1), Some(300));
    assert_eq!(price_per_night(2), Some(200));
    assert_eq!(price_per_night(3), Some(100));
    assert_eq!(price_per_night(0), None);
    assert_eq!(price_per_night(4), None);
}

#[test]
fn quote_reads_iso_dates() {
    let q = quote_stay(1, "2026-07-01", "2026-07-03").unwrap();
    assert_eq!(q.nights, 2);
    assert_eq!(q.total_price, 600);
    assert_eq!(q.check_in.display, "01-07-2026");
    assert_eq!(q.check_out.display, "03-07-2026");
    // across a month and a leap day
    let q = quote_stay(3, "2028-02-27", "2028-03-02").unwrap();
    assert_eq!(q.nights, 4);
    assert_eq!(q.total_price, 400);
    assert_eq!(
        quote_stay(1, "2026-02-30", "2026-03-03").err(),
        Some(BookingRequestError::InvalidCheckIn)
    );
    assert_eq!(
        quote_stay(1, "2026-07-01", "01-07-2026").err(),
        Some(BookingRequestError::InvalidCheckOut)
    );
    assert_eq!(
        quote_stay(1, "2026-07-03", "2026-07-01").err(),
        Some(BookingRequestError::CheckOutNotAfterCheckIn)
    );
}

#[test]
fn public_start_checks_accommodation_first() {
    let f = PublicBookingStartForm {
        accommodation_id: "chalet".to_string(),
        check_in_date: "bad".to_string(),
        check_out_date: "bad".to_string(),
    };
    let e = plan_public_booking_start(&f).err().unwrap();
    assert_eq!(e, BookingRequestError::InvalidAccommodation);
    assert_eq!(e.message_string(), "Invalid accommodation.");
    let f = PublicBookingStartForm {
        accommodation_id: "+2".to_string(),
        check_in_date: "2026-08-10".to_string(),
        check_out_date: "2026-08-17".to_string(),
    };
    let q = plan_public_booking_start(&f).unwrap();
    assert_eq!((q.accommodation_id, q.nights, q.total_price), (2, 7, 1400));
    let f = PublicBookingStartForm {
        accommodation_id: "7".to_string(),
        check_in_date: "2026-08-10".to_string(),
        check_out_date: "2026-08-17".to_string(),
    };
    assert_eq!(plan_public_booking_start(&f).err(), Some(BookingRequestError::InvalidAccommodation));
}

fn step2() -> PublicBookingForm {
    PublicBookingForm {
        csrf_token: String::new(),
        booking_id: "41".to_string(),
        lock_token: "token".to_string(),
        accommodation_id: "3".to_string(),
        check_in_date: "2026-07-01".to_string(),
        check_out_date: "2026-07-03".to_string(),
        first_name: "Dennis".to_string(),
        last_name: "Hettinga".to_string(),
        address: "Teststraat 1".to_string(),
        zip_code: "1234AB".to_string(),
        city: "Tilburg".to_string(),
        phone: "0612345678".to_string(),
        email: "test@test.nl".to_string(),
        tos_accepted: Some("yes".to_string()),
    }
}

#[test]
fn public_booking_step2_decisions() {
    let (id, q) = plan_public_booking(&step2()).unwrap();
    assert_eq!((id, q.nights, q.total_price), (41, 2, 200));
    let mut f = step2();
    f.tos_accepted = None;
    f.booking_id = "x".to_string();
    let e = plan_public_booking(&f).err().unwrap();
    assert_eq!(e.message_string(), "Terms of service must be accepted.");
    let mut f = step2();
    f.booking_id = "2147483648".to_string();
    assert_eq!(plan_public_booking(&f).err(), Some(BookingRequestError::InvalidBookingId));
    let mut f = step2();
    f.check_out_date = "2026-06-30".to_string();
    let e = plan_public_booking(&f).err().unwrap();
    assert_eq!(e.message_string(), "Check-out date must be after check-in date.");
}

#[test]
fn admin_booking_and_update() {
    let f = AdminBookingForm {
        accommodation_id: 1,
        check_in_date: "2026-12-30".to_string(),
        check_out_date: "2027-01-02".to_string(),
        first_name: "A".to_string(),
        last_name: "B".to_string(),
        address: "C 1".to_string(),
        zip_code: "1234".to_string(),
        city: "D".to_string(),
        phone: "12345678".to_string(),
        email: "a@b".to_string(),
    };
    let q = plan_admin_booking(&f).unwrap();
    assert_eq!((q.nights, q.total_price), (3, 900));
    let u = AdminBookingUpdateForm {
        booking_id: 8,
        accommodation_id: 2,
        check_in_date: "2026-07-05".to_string(),
        check_out_date: "2026-07-01".to_string(),
    };
    // the update does not compare the dates
    let (a, b) = plan_booking_update(&u).unwrap();
    assert_eq!(a.display, "05-07-2026");
    assert_eq!(b.display, "01-07-2026");
    assert!(a.day_number > b.day_number);
    let u = AdminBookingUpdateForm {
        booking_id: 8,
        accommodation_id: 2,
        check_in_date: "2026-07-05".to_string(),
        check_out_date: "later".to_string(),
    };
    assert_eq!(plan_booking_update(&u).err(), Some(BookingRequestError::InvalidCheckOut));
}

#[test]
fn urls_and_labels() {
    assert_eq!(
        redirect_with_error("booking_session_expired", "2"),
        "/booking1?error=booking_session_expired&accommodation_id=2"
    );
    assert_eq!(
        booking_step2_url(-5, "tok", 3, "2026-07-01", "2026-07-03"),
        "/booking2?booking_id=-5&lock_token=tok&accommodation_id=3&check_in_date=2026-07-01&check_out_date=2026-07-03"
    );
    assert_eq!(temporary_lock_email("abc"), "lock-abc@temporary.local");
    assert_eq!(public_overview_url("p"), "/booking-overview?payment_token=p");
    assert_eq!(admin_overview_url("p"), "/admin/booking-overview?payment_token=p");
    assert_eq!(accommodation_label(3, "nl"), "Staanplaats");
    assert_eq!(accommodation_label(3, "en"), "Pitch");
    assert_eq!(accommodation_label(1, "nl"), "Chalet");
    assert_eq!(accommodation_label(0, "nl"), "Unknown");
    assert_eq!(admin_accommodation_label(3), "Pitch");
    assert_eq!(admin_accommodation_label(2), "Tent");
    assert_eq!(get_lang(None), "en");
    assert_eq!(get_lang(Some("nl".to_string())), "nl");
    assert_eq!(
        update_unavailable_url(12),
        "/admin/booking/update/12?error=Selected dates are no longer available"
    );
}

#[test]
fn update_overview_reports_changes() {
    let s = |x: &str| x.to_string();
    let url = update_overview_url(
        7,
        &s("Chalet"),
        &s("Tent"),
        &s("01-07-2026"),
        &s("03-07-2026"),
        &s("01-07-2026"),
        &s("03-07-2026"),
    );
    assert_eq!(
        url,
        "/admin/booking/update-overview?booking_id=7&accommodation_changed=true&old_accommodation=Chalet&new_accommodation=Tent&dates_changed=false&old_check_in=01-07-2026&old_check_out=03-07-2026&new_check_in=01-07-2026&new_check_out=03-07-2026"
    );
    let url = update_overview_url(
        7,
        &s("Tent"),
        &s("Tent"),
        &s("01-07-2026"),
        &s("03-07-2026"),
        &s("01-07-2026"),
        &s("04-07-2026"),
    );
    assert!(url.contains("accommodation_changed=false"));
    assert!(url.contains("dates_changed=true"));
}

#[test]
fn invoice_on_status_change() {
    assert_eq!(invoice_for_status("confirmed", None), InvoiceAction::Generate);
    assert_eq!(invoice_for_status("cancelled", None), InvoiceAction::NoInvoice);
    assert_eq!(
        invoice_for_status("cancelled", Some("CC-1".to_string())),
        InvoiceAction::Keep("CC-1".to_string())
    );
    assert_eq!(
        invoice_for_status("confirmed", Some("CC-1".to_string())),
        InvoiceAction::Keep("CC-1".to_string())
    );
}

#[test]
fn booking_tokens_are_uuids() {
    let a = new_booking_token();
    let b = new_booking_token();
    assert_eq!(a.len(), 36);
    assert_eq!(&a[8..9], "-");
    assert_ne!(a, b);
}
