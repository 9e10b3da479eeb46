//! Bookings: the forms, and the decisions the booking handlers take.
use vstd::prelude::*;
use crate::controllers::csrf_controller::{random_uuid_text, uuid_shaped};
use crate::calendar::{StayDate, iso_date, iso_day, iso_display, parse_iso_date};
use crate::text::{bool_string, bool_text, decimal_string, decimal_text, parse_i32, parsed_i32, text_equals};
use vstd::string::StringExecFns;

verus! {

broadcast use vstd::string::group_string_axioms;

/// Public booking step 1: accommodation and stay.
pub struct PublicBookingStartForm {
    pub accommodation_id: String,
    pub check_in_date: String,
    pub check_out_date: String,
}

/// Public booking step 2: the locked booking and the guest's details.
pub struct PublicBookingForm {
    pub csrf_token: String,
    pub booking_id: String,
    pub lock_token: String,
    pub accommodation_id: String,
    pub check_in_date: String,
    pub check_out_date: String,
    pub first_name: String,
    pub last_name: String,
    pub address: String,
    pub zip_code: String,
    pub city: String,
    pub phone: String,
    pub email: String,
    pub tos_accepted: Option<String>,
}

/// Booking created by staff.
pub struct AdminBookingForm {
    pub accommodation_id: i32,
    pub check_in_date: String,
    pub check_out_date: String,
    pub first_name: String,
    pub last_name: String,
    pub address: String,
    pub zip_code: String,
    pub city: String,
    pub phone: String,
    pub email: String,
}

/// Change of accommodation or dates of a booking by staff.
pub struct AdminBookingUpdateForm {
    pub booking_id: i32,
    pub accommodation_id: i32,
    pub check_in_date: String,
    pub check_out_date: String,
}

/// New status of a booking.
pub struct AdminBookingStatusForm {
    pub booking_id: i32,
    pub status: String,
}

/// Booking to delete.
pub struct DeleteBookingForm {
    pub booking_id: i32,
}


/// Why a booking request is refused before anything is stored.
#[derive(Clone, Copy, PartialEq, Eq, Debug)]
pub enum BookingRequestError {
    TermsNotAccepted,
    InvalidBookingId,
    InvalidAccommodation,
    InvalidCheckIn,
    InvalidCheckOut,
    CheckOutNotAfterCheckIn,
}

impl BookingRequestError {
    /// The text of the "bad request" answer.
    pub open spec fn message(self) -> Seq<char> {
        match self {
            BookingRequestError::TermsNotAccepted => "Terms of service must be accepted."@,
            BookingRequestError::InvalidBookingId => "Invalid booking id."@,
            BookingRequestError::InvalidAccommodation => "Invalid accommodation."@,
            BookingRequestError::InvalidCheckIn => "Invalid check-in date."@,
            BookingRequestError::InvalidCheckOut => "Invalid check-out date."@,
            BookingRequestError::CheckOutNotAfterCheckIn => "Check-out date must be after check-in date."@,
        }
    }

    /// The text of the "bad request" answer, as a `String`.
    pub fn message_string(&self) -> (r: String)
        ensures
            r@ == self.message(),
    {
        match self {
            BookingRequestError::TermsNotAccepted => "Terms of service must be accepted.".to_string(),
            BookingRequestError::InvalidBookingId => "Invalid booking id.".to_string(),
            BookingRequestError::InvalidAccommodation => "Invalid accommodation.".to_string(),
            BookingRequestError::InvalidCheckIn => "Invalid check-in date.".to_string(),
            BookingRequestError::InvalidCheckOut => "Invalid check-out date.".to_string(),
            BookingRequestError::CheckOutNotAfterCheckIn => "Check-out date must be after check-in date.".to_string(),
        }
    }
}

/// Price per night in euros: the chalet (1) 300, the tent (2) 200, the pitch (3) 100.
pub open spec fn nightly_price(accommodation_id: int) -> Option<int> {
    if accommodation_id == 1 {
        Some(300)
    } else if accommodation_id == 2 {
        Some(200)
    } else if accommodation_id == 3 {
        Some(100)
    } else {
        None
    }
}

/// Price per night of an accommodation, in euros.
pub fn price_per_night(accommodation_id: i32) -> (r: Option<i64>)
    ensures
        r matches Some(p) ==> nightly_price(accommodation_id as int) == Some(p as int),
        r is None ==> nightly_price(accommodation_id as int) is None,
{
    match accommodation_id {
        1 => Some(300),
        2 => Some(200),
        3 => Some(100),
        _ => None,
    }
}

/// An accepted stay: accommodation, dates, nights and prices in euros.
pub struct StayQuote {
    pub accommodation_id: i32,
    pub check_in: StayDate,
    pub check_out: StayDate,
    pub nights: i64,
    pub price_per_night: i64,
    pub total_price: i64,
}

/// What is decided of a stay from its accommodation and its two dates,
/// where `None` stands for a date that could not be read: the first of
/// unreadable check-in, unreadable check-out, check-out not after
/// check-in, unknown accommodation; else the day numbers of the two dates.
pub open spec fn stay_decision(
    accommodation_id: int,
    check_in: Option<int>,
    check_out: Option<int>,
) -> Result<(int, int), BookingRequestError> {
    match check_in {
        None => Err(BookingRequestError::InvalidCheckIn),
        Some(i) => match check_out {
            None => Err(BookingRequestError::InvalidCheckOut),
            Some(o) => if o <= i {
                Err(BookingRequestError::CheckOutNotAfterCheckIn)
            } else if nightly_price(accommodation_id) is None {
                Err(BookingRequestError::InvalidAccommodation)
            } else {
                Ok((i, o))
            },
        },
    }
}

/// The quote holds the accommodation and dates it was made from, the number
/// of nights between them, and the total of the nightly price over them.
pub open spec fn quote_of(q: StayQuote, accommodation_id: int, check_in: int, check_out: int) -> bool {
    &&& q.accommodation_id == accommodation_id
    &&& q.check_in.day_number == check_in
    &&& q.check_out.day_number == check_out
    &&& q.nights == check_out - check_in
    &&& nightly_price(accommodation_id) == Some(q.price_per_night as int)
    &&& q.total_price == q.price_per_night * q.nights
}

/// `r` is the outcome that `stay_decision` gives.
pub open spec fn quote_follows(
    r: Result<StayQuote, BookingRequestError>,
    accommodation_id: int,
    d: Result<(int, int), BookingRequestError>,
) -> bool {
    match d {
        Ok(days) => r matches Ok(q) && quote_of(q, accommodation_id, days.0, days.1),
        Err(e) => r == Err::<StayQuote, BookingRequestError>(e),
    }
}

pub open spec fn day_of(d: Option<StayDate>) -> Option<int> {
    match d {
        Some(x) => Some(x.day_number as int),
        None => None,
    }
}

/// Prices a stay from dates already read.
pub fn quote_from_dates(
    accommodation_id: i32,
    check_in: Option<StayDate>,
    check_out: Option<StayDate>,
) -> (r: Result<StayQuote, BookingRequestError>)
    ensures
        quote_follows(
            r,
            accommodation_id as int,
            stay_decision(accommodation_id as int, day_of(check_in), day_of(check_out)),
        ),
        r matches Ok(q) ==> check_in == Some(q.check_in) && check_out == Some(q.check_out),
{
    let check_in = match check_in {
        Some(d) => d,
        None => return Err(BookingRequestError::InvalidCheckIn),
    };
    let check_out = match check_out {
        Some(d) => d,
        None => return Err(BookingRequestError::InvalidCheckOut),
    };
    if check_out.day_number <= check_in.day_number {
        return Err(BookingRequestError::CheckOutNotAfterCheckIn);
    }
    let nights = check_out.day_number as i64 - check_in.day_number as i64;
    let price = match price_per_night(accommodation_id) {
        Some(p) => p,
        None => return Err(BookingRequestError::InvalidAccommodation),
    };
    assert(0 < nights < 0x1_0000_0000);
    assert(price * nights <= 300 * 0x1_0000_0000) by (nonlinear_arith)
        requires
            0 < nights < 0x1_0000_0000,
            0 < price <= 300,
    ;
    let total = price * nights;
    Ok(
        StayQuote {
            accommodation_id,
            check_in,
            check_out,
            nights,
            price_per_night: price,
            total_price: total,
        },
    )
}

/// Reads both dates of a stay and prices it.
pub fn quote_stay(accommodation_id: i32, check_in: &str, check_out: &str) -> (r: Result<
    StayQuote,
    BookingRequestError,
>)
    ensures
        quote_follows(
            r,
            accommodation_id as int,
            stay_decision(accommodation_id as int, iso_day(check_in@), iso_day(check_out@)),
        ),
        r matches Ok(q) ==> q.check_in.display@ == iso_display(check_in@)
            && q.check_out.display@ == iso_display(check_out@),
{
    let a = parse_iso_date(check_in);
    let b = parse_iso_date(check_out);
    quote_from_dates(accommodation_id, a, b)
}

/// What step 1 of a public booking decides: the accommodation must read
/// as an `i32`, then the stay must be accepted.
pub open spec fn public_start_decision(form: PublicBookingStartForm) -> Result<
    (int, int, int),
    BookingRequestError,
> {
    match parsed_i32(form.accommodation_id@) {
        None => Err(BookingRequestError::InvalidAccommodation),
        Some(a) => match stay_decision(
            a as int,
            iso_day(form.check_in_date@),
            iso_day(form.check_out_date@),
        ) {
            Ok(days) => Ok((a as int, days.0, days.1)),
            Err(e) => Err(e),
        },
    }
}

/// `r` is the outcome that a decision over (accommodation, check-in, check-out) gives.
pub open spec fn quote_matches(
    r: Result<StayQuote, BookingRequestError>,
    d: Result<(int, int, int), BookingRequestError>,
) -> bool {
    match d {
        Ok(t) => r matches Ok(q) && quote_of(q, t.0, t.1, t.2),
        Err(e) => r == Err::<StayQuote, BookingRequestError>(e),
    }
}

/// Decides step 1 of a public booking (before a unit is locked).
pub fn plan_public_booking_start(form: &PublicBookingStartForm) -> (r: Result<
    StayQuote,
    BookingRequestError,
>)
    ensures
        quote_matches(r, public_start_decision(*form)),
{
    let accommodation_id = match parse_i32(form.accommodation_id.as_str()) {
        Some(a) => a,
        None => return Err(BookingRequestError::InvalidAccommodation),
    };
    quote_stay(accommodation_id, form.check_in_date.as_str(), form.check_out_date.as_str())
}

/// What step 2 of a public booking decides: the terms must be accepted, the
/// booking number and the accommodation must read as `i32`, then the stay
/// must be accepted.
pub open spec fn public_booking_decision(form: PublicBookingForm) -> Result<
    (int, int, int),
    BookingRequestError,
> {
    if form.tos_accepted is None {
        Err(BookingRequestError::TermsNotAccepted)
    } else if parsed_i32(form.booking_id@) is None {
        Err(BookingRequestError::InvalidBookingId)
    } else {
        match parsed_i32(form.accommodation_id@) {
            None => Err(BookingRequestError::InvalidAccommodation),
            Some(a) => match stay_decision(
                a as int,
                iso_day(form.check_in_date@),
                iso_day(form.check_out_date@),
            ) {
                Ok(days) => Ok((a as int, days.0, days.1)),
                Err(e) => Err(e),
            },
        }
    }
}

/// Decides step 2 of a public booking; on success gives the number of the
/// locked booking with the quote.
pub fn plan_public_booking(form: &PublicBookingForm) -> (r: Result<
    (i32, StayQuote),
    BookingRequestError,
>)
    ensures
        quote_matches(
            match r {
                Ok(x) => Ok(x.1),
                Err(e) => Err(e),
            },
            public_booking_decision(*form),
        ),
        r matches Ok(x) ==> parsed_i32(form.booking_id@) == Some(x.0),
{
    if form.tos_accepted.is_none() {
        return Err(BookingRequestError::TermsNotAccepted);
    }
    let booking_id = match parse_i32(form.booking_id.as_str()) {
        Some(b) => b,
        None => return Err(BookingRequestError::InvalidBookingId),
    };
    let accommodation_id = match parse_i32(form.accommodation_id.as_str()) {
        Some(a) => a,
        None => return Err(BookingRequestError::InvalidAccommodation),
    };
    match quote_stay(accommodation_id, form.check_in_date.as_str(), form.check_out_date.as_str()) {
        Ok(q) => Ok((booking_id, q)),
        Err(e) => Err(e),
    }
}

/// Decides a booking made by staff.
pub fn plan_admin_booking(form: &AdminBookingForm) -> (r: Result<StayQuote, BookingRequestError>)
    ensures
        quote_follows(
            r,
            form.accommodation_id as int,
            stay_decision(
                form.accommodation_id as int,
                iso_day(form.check_in_date@),
                iso_day(form.check_out_date@),
            ),
        ),
{
    quote_stay(form.accommodation_id, form.check_in_date.as_str(), form.check_out_date.as_str())
}

/// Reads the new dates of a booking changed by staff. Unlike a new booking,
/// the dates are not compared: only unreadable dates are refused.
pub fn plan_booking_update(form: &AdminBookingUpdateForm) -> (r: Result<
    (StayDate, StayDate),
    BookingRequestError,
>)
    ensures
        r is Ok <==> (iso_day(form.check_in_date@) is Some && iso_day(form.check_out_date@) is Some),
        iso_date(form.check_in_date@) is None ==> r == Err::<(StayDate, StayDate), BookingRequestError>(BookingRequestError::InvalidCheckIn),
        iso_date(form.check_in_date@) is Some && iso_date(form.check_out_date@) is None
            ==> r == Err::<(StayDate, StayDate), BookingRequestError>(BookingRequestError::InvalidCheckOut),
        r matches Ok(d) ==> Some(d.0.day_number as int) == iso_day(form.check_in_date@) && Some(d.1.day_number as int)
            == iso_day(form.check_out_date@) && d.0.display@ == iso_display(form.check_in_date@)
            && d.1.display@ == iso_display(form.check_out_date@),
{
    let a = match parse_iso_date(form.check_in_date.as_str()) {
        Some(d) => d,
        None => return Err(BookingRequestError::InvalidCheckIn),
    };
    let b = match parse_iso_date(form.check_out_date.as_str()) {
        Some(d) => d,
        None => return Err(BookingRequestError::InvalidCheckOut),
    };
    Ok((a, b))
}

/// A fresh random token for a booking lock, a payment or a cancellation.
pub fn new_booking_token() -> (r: String)
    ensures
        uuid_shaped(r@),
{
    random_uuid_text()
}

/// The page language: the `lang` cookie where there is one, else `"en"`.
pub fn get_lang(lang_cookie: Option<String>) -> (r: String)
    ensures
        r@ == (match lang_cookie {
            Some(v) => v@,
            None => "en"@,
        }),
{
    match lang_cookie {
        Some(v) => v,
        None => "en".to_string(),
    }
}

/// Where step 1 sends the guest back to when the booking lock is gone.
pub fn redirect_with_error(message: &str, accommodation_id: &str) -> (r: String)
    ensures
        r@ == "/booking1?error="@ + message@ + "&accommodation_id="@ + accommodation_id@,
{
    let mut s = "/booking1?error=".to_string();
    s.append(message);
    s.append("&accommodation_id=");
    s.append(accommodation_id);
    s
}

/// Where step 1 sends the guest once a unit is locked for the stay.
pub fn booking_step2_url(
    booking_id: i32,
    lock_token: &str,
    accommodation_id: i32,
    check_in_date: &str,
    check_out_date: &str,
) -> (r: String)
    ensures
        r@ == "/booking2?booking_id="@ + decimal_text(booking_id as int) + "&lock_token="@
            + lock_token@ + "&accommodation_id="@ + decimal_text(accommodation_id as int)
            + "&check_in_date="@ + check_in_date@ + "&check_out_date="@ + check_out_date@,
{
    let mut s = "/booking2?booking_id=".to_string();
    let id = decimal_string(booking_id as i64);
    s.append(id.as_str());
    s.append("&lock_token=");
    s.append(lock_token);
    s.append("&accommodation_id=");
    let acc = decimal_string(accommodation_id as i64);
    s.append(acc.as_str());
    s.append("&check_in_date=");
    s.append(check_in_date);
    s.append("&check_out_date=");
    s.append(check_out_date);
    s
}

/// The placeholder e-mail address of the customer that holds a booking lock.
pub fn temporary_lock_email(lock_token: &str) -> (r: String)
    ensures
        r@ == "lock-"@ + lock_token@ + "@temporary.local"@,
{
    let mut s = "lock-".to_string();
    s.append(lock_token);
    s.append("@temporary.local");
    s
}

/// Where a guest sees the booking just made.
pub fn public_overview_url(payment_token: &str) -> (r: String)
    ensures
        r@ == "/booking-overview?payment_token="@ + payment_token@,
{
    let mut s = "/booking-overview?payment_token=".to_string();
    s.append(payment_token);
    s
}

/// Where staff see the booking just made.
pub fn admin_overview_url(payment_token: &str) -> (r: String)
    ensures
        r@ == "/admin/booking-overview?payment_token="@ + payment_token@,
{
    let mut s = "/admin/booking-overview?payment_token=".to_string();
    s.append(payment_token);
    s
}

/// Name of an accommodation in the guest's language (the pitch is a
/// "Staanplaats" in Dutch).
pub open spec fn accommodation_name(accommodation_id: int, lang: Seq<char>) -> Seq<char> {
    if accommodation_id == 1 {
        "Chalet"@
    } else if accommodation_id == 2 {
        "Tent"@
    } else if accommodation_id == 3 {
        if lang == "nl"@ {
            "Staanplaats"@
        } else {
            "Pitch"@
        }
    } else {
        "Unknown"@
    }
}

/// Name of an accommodation for a guest's e-mail.
pub fn accommodation_label(accommodation_id: i32, lang: &str) -> (r: String)
    ensures
        r@ == accommodation_name(accommodation_id as int, lang@),
{
    match accommodation_id {
        1 => "Chalet".to_string(),
        2 => "Tent".to_string(),
        3 => {
            if text_equals(lang, "nl") {
                "Staanplaats".to_string()
            } else {
                "Pitch".to_string()
            }
        },
        _ => "Unknown".to_string(),
    }
}

/// Name of an accommodation in a booking made by staff (always English).
pub fn admin_accommodation_label(accommodation_id: i32) -> (r: String)
    ensures
        r@ == accommodation_name(accommodation_id as int, "en"@),
{
    proof {
        reveal_strlit("en");
        reveal_strlit("nl");
        assert("en"@[0] != "nl"@[0]);
    }
    match accommodation_id {
        1 => "Chalet".to_string(),
        2 => "Tent".to_string(),
        3 => "Pitch".to_string(),
        _ => "Unknown".to_string(),
    }
}

/// Where staff are sent when the changed dates have no free unit.
pub fn update_unavailable_url(booking_id: i32) -> (r: String)
    ensures
        r@ == "/admin/booking/update/"@ + decimal_text(booking_id as int)
            + "?error=Selected dates are no longer available"@,
{
    let mut s = "/admin/booking/update/".to_string();
    let id = decimal_string(booking_id as i64);
    s.append(id.as_str());
    s.append("?error=Selected dates are no longer available");
    s
}

/// The overview of a changed booking: what changed, before and after.
pub fn update_overview_url(
    booking_id: i32,
    old_accommodation: &String,
    new_accommodation: &String,
    old_check_in: &String,
    old_check_out: &String,
    new_check_in: &String,
    new_check_out: &String,
) -> (r: String)
    ensures
        r@ == "/admin/booking/update-overview?booking_id="@ + decimal_text(booking_id as int)
            + "&accommodation_changed="@ + bool_text(old_accommodation@ != new_accommodation@)
            + "&old_accommodation="@ + old_accommodation@ + "&new_accommodation="@
            + new_accommodation@ + "&dates_changed="@ + bool_text(
            old_check_in@ != new_check_in@ || old_check_out@ != new_check_out@,
        ) + "&old_check_in="@ + old_check_in@ + "&old_check_out="@ + old_check_out@
            + "&new_check_in="@ + new_check_in@ + "&new_check_out="@ + new_check_out@,
{
    let accommodation_changed = !(*old_accommodation == *new_accommodation);
    let dates_changed = !(*old_check_in == *new_check_in) || !(*old_check_out == *new_check_out);
    let mut s = "/admin/booking/update-overview?booking_id=".to_string();
    let id = decimal_string(booking_id as i64);
    s.append(id.as_str());
    s.append("&accommodation_changed=");
    let a = bool_string(accommodation_changed);
    s.append(a.as_str());
    s.append("&old_accommodation=");
    s.append(old_accommodation.as_str());
    s.append("&new_accommodation=");
    s.append(new_accommodation.as_str());
    s.append("&dates_changed=");
    let d = bool_string(dates_changed);
    s.append(d.as_str());
    s.append("&old_check_in=");
    s.append(old_check_in.as_str());
    s.append("&old_check_out=");
    s.append(old_check_out.as_str());
    s.append("&new_check_in=");
    s.append(new_check_in.as_str());
    s.append("&new_check_out=");
    s.append(new_check_out.as_str());
    s
}

/// What happens to the invoice number when staff set a booking's status.
#[derive(PartialEq, Eq, Debug)]
pub enum InvoiceAction {
    /// Confirmed without an invoice yet: a new number is made and stored.
    Generate,
    /// The existing number stays.
    Keep(String),
    /// No number.
    NoInvoice,
}

/// Decides the invoice number for a new status: an existing number is
/// always kept; a booking confirmed without one gets a new one.
pub fn invoice_for_status(status: &str, existing: Option<String>) -> (r: InvoiceAction)
    ensures
        match existing {
            Some(n) => r == InvoiceAction::Keep(n),
            None => if status@ == "confirmed"@ {
                r == InvoiceAction::Generate
            } else {
                r == InvoiceAction::NoInvoice
            },
        },
{
    match existing {
        Some(n) => InvoiceAction::Keep(n),
        None => {
            if text_equals(status, "confirmed") {
                InvoiceAction::Generate
            } else {
                InvoiceAction::NoInvoice
            }
        },
    }
}

/// Every accepted stay lasts at least one night, and its total is the
/// nightly price of its accommodation times its nights.
pub proof fn law_accepted_stay_priced(
    accommodation_id: int,
    check_in: Option<int>,
    check_out: Option<int>,
)
    requires
        stay_decision(accommodation_id, check_in, check_out) is Ok,
    ensures
        ({
            let (i, o) = stay_decision(accommodation_id, check_in, check_out)->Ok_0;
            &&& o - i >= 1
            &&& check_in == Some(i) && check_out == Some(o)
            &&& nightly_price(accommodation_id) matches Some(p) && p > 0
        }),
{
}


/// A stay is refused only for an unreadable date, a check-out that is not
/// after the check-in, or an accommodation without a nightly price; every
/// other stay is accepted, however many nights it lasts, at the chalet's
/// (1) 300, the tent's (2) 200 or the pitch's (3) 100 euros a night, for
/// exactly the nights between the two dates.
pub proof fn law_every_stay_accepted(
    accommodation_id: int,
    check_in: Option<int>,
    check_out: Option<int>,
    q: StayQuote,
)
    ensures
        stay_decision(accommodation_id, check_in, check_out) is Err <==> (check_in is None
            || check_out is None || check_out->0 <= check_in->0 || !(1 <= accommodation_id <= 3)),
        (check_in matches Some(i) && check_out matches Some(o) && i < o && 1 <= accommodation_id
            <= 3) ==> stay_decision(accommodation_id, check_in, check_out) == Ok::<
            (int, int),
            BookingRequestError,
        >((check_in->0, check_out->0)),
        quote_of(q, accommodation_id, q.check_in.day_number as int, q.check_out.day_number as int)
            ==> q.nights == q.check_out.day_number - q.check_in.day_number && q.total_price == (
        if accommodation_id == 1 {
            300int
        } else if accommodation_id == 2 {
            200
        } else {
            100
        }) * q.nights && 1 <= accommodation_id <= 3,
{
}

} // verus!
