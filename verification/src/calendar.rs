//! Dates and clocks, read through `chrono` and the standard library.
use vstd::prelude::*;
use crate::text::all_digits;

verus! {

/// A calendar day read from a form: its number (days since the start of the
/// proleptic Gregorian calendar, 1 January of year 1 being day 1) and its
/// `DD-MM-YYYY` text, as the e-mails and pages show it.
pub struct StayDate {
    pub day_number: i32,
    pub display: String,
}

/// What `chrono::NaiveDate::parse_from_str(text, "%Y-%m-%d")` reads from
/// `text`: `None` where it fails, else the date's `num_days_from_ce()` and its
/// `format("%d-%m-%Y")` text.
pub uninterp spec fn iso_date(text: Seq<char>) -> Option<(int, Seq<char>)>;

/// The day number of the date that `text` reads as.
pub open spec fn iso_day(text: Seq<char>) -> Option<int> {
    match iso_date(text) {
        Some(p) => Some(p.0),
        None => None,
    }
}

/// The `DD-MM-YYYY` text of the date that `text` reads as.
pub open spec fn iso_display(text: Seq<char>) -> Seq<char> {
    match iso_date(text) {
        Some(p) => p.1,
        None => Seq::empty(),
    }
}

/// Reads a `YYYY-MM-DD` date with `chrono::NaiveDate::parse_from_str`.
/// The contract claims only that the result is the one named by `iso_date`
/// for this text; which texts chrono accepts is left to chrono.
#[verifier::external_body]
pub(crate) fn parse_iso_date(text: &str) -> (r: Option<StayDate>)
    ensures
        r is Some == iso_date(text@) is Some,
        r matches Some(d) ==> iso_day(text@) == Some(d.day_number as int) && d.display@
            == iso_display(text@),
{
    match chrono::NaiveDate::parse_from_str(text, "%Y-%m-%d") {
        Ok(date) => Some(
            StayDate {
                day_number: chrono::Datelike::num_days_from_ce(&date),
                display: date.format("%d-%m-%Y").to_string(),
            },
        ),
        Err(_) => None,
    }
}

/// What `chrono::DateTime::from_timestamp(secs, 0)` then `format("%Y%m%d")`
/// gives: the UTC day of the moment `secs` seconds after the Unix epoch, as
/// year, month and day; `None` where chrono refuses the timestamp.
pub uninterp spec fn utc_day_text(secs: int) -> Option<Seq<char>>;

/// First second of the year 10000 (UTC): before it, and from the epoch on,
/// a year has four digits.
pub const YEAR_10000_SECONDS: i64 = 253402300800;

/// The UTC day of a Unix timestamp as `YYYYMMDD`, by
/// `chrono::DateTime::from_timestamp(secs, 0)` and `format("%Y%m%d")`; `None`
/// where `from_timestamp` refuses the timestamp. Claimed beyond the name:
/// from the epoch to the end of the year 9999 chrono accepts the timestamp
/// and, as its format documentation says (`%Y` zero-padded to four digits,
/// a sign only outside the years 0 to 9999; `%m`, `%d` zero-padded to two),
/// writes eight digits.
#[verifier::external_body]
pub(crate) fn utc_day_compact(secs: i64) -> (r: Option<String>)
    ensures
        match utc_day_text(secs as int) {
            Some(t) => r matches Some(s) && s@ == t,
            None => r is None,
        },
        0 <= secs < YEAR_10000_SECONDS ==> r is Some,
        r matches Some(s) ==> (0 <= secs < YEAR_10000_SECONDS ==> s@.len() == 8 && all_digits(s@)),
{
    match chrono::DateTime::from_timestamp(secs, 0) {
        Some(t) => Some(t.format("%Y%m%d").to_string()),
        None => None,
    }
}

#[verifier::external_type_specification]
#[verifier::external_body]
pub struct ExSystemTime(std::time::SystemTime);

/// `std::time::SystemTime::now()`: the system clock. Nothing is claimed of
/// the value.
#[verifier::external_body]
fn system_now() -> (r: std::time::SystemTime) {
    std::time::SystemTime::now()
}

/// `t.duration_since(std::time::UNIX_EPOCH)`, `None` for its error (a time
/// before the epoch). Nothing is claimed of which case comes or of the
/// duration.
#[verifier::external_body]
fn since_unix_epoch(t: std::time::SystemTime) -> (r: Option<std::time::Duration>) {
    t.duration_since(std::time::UNIX_EPOCH).ok()
}

/// `d.as_secs()`: the whole seconds of a duration. Nothing is claimed of the
/// value, as the duration is opaque here.
#[verifier::external_body]
fn whole_seconds(d: &std::time::Duration) -> (r: u64) {
    d.as_secs()
}

/// Whole seconds from the Unix epoch to now by the system clock, `None`
/// where the clock stands before the epoch.
pub(crate) fn system_clock_seconds() -> (r: Option<u64>) {
    match since_unix_epoch(system_now()) {
        Some(d) => Some(whole_seconds(&d)),
        None => None,
    }
}

} // verus!
