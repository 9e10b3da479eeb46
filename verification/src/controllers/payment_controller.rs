//! Payment confirmation: invoice numbers and the redirect after paying.
use vstd::prelude::*;
use crate::calendar::{utc_day_compact, utc_day_text, YEAR_10000_SECONDS};
use crate::controllers::login_controller::now_unix;
use crate::text::{all_digits, digits_value, lemma_pad5_digits, zero_padded, zero_padded_string};
use vstd::string::StringExecFns;

verus! {

broadcast use vstd::string::group_string_axioms;

/// An invoice number: `CC-`, the day as `YYYYMMDD`, `-`, and the running
/// count of invoices zero-padded to five characters.
pub open spec fn invoice_text(today: Seq<char>, count: int) -> Seq<char> {
    "CC-"@ + today + "-"@ + zero_padded(count, 5)
}

/// Formats an invoice number from the day and the running count.
pub fn invoice_number(today: &str, count: i64) -> (r: String)
    ensures
        r@ == invoice_text(today@, count as int),
{
    let mut s = "CC-".to_string();
    s.append(today);
    s.append("-");
    let padded = zero_padded_string(count, 5);
    s.append(padded.as_str());
    s
}

/// The invoice number for the UTC day of the timestamp `secs` and the given
/// running count; `None` where chrono refuses the timestamp.
pub fn invoice_number_at(secs: i64, count: i64) -> (r: Option<String>)
    ensures
        match utc_day_text(secs as int) {
            Some(day) => r matches Some(n) && n@ == invoice_text(day, count as int),
            None => r is None,
        },
        0 <= secs < YEAR_10000_SECONDS ==> (r matches Some(n) && exists|day: Seq<char>|
            day.len() == 8 && all_digits(day) && n@ == invoice_text(day, count as int)),
{
    match utc_day_compact(secs) {
        Some(day) => Some(invoice_number(day.as_str(), count)),
        None => None,
    }
}

/// The invoice number for today (UTC) and the given running count; `None`
/// where the system clock cannot be read as a time after the epoch.
pub fn invoice_number_for_today(count: i64) -> (r: Option<String>)
    ensures
        r matches Some(n) ==> exists|secs: int, day: Seq<char>|
            0 <= secs && utc_day_text(secs) == Some(day) && n@ == invoice_text(day, count as int)
                && (secs < YEAR_10000_SECONDS ==> day.len() == 8 && all_digits(day)),
{
    match now_unix() {
        Some(secs) => {
            let r = invoice_number_at(secs, count);
            proof {
                if let Some(day) = utc_day_text(secs as int) {
                    assert(0 <= secs && utc_day_text(secs as int) == Some(day));
                    if secs < YEAR_10000_SECONDS {
                        let n = r->Some_0;
                        let d2 = choose|d2: Seq<char>|
                            d2.len() == 8 && all_digits(d2) && n@ == invoice_text(d2, count as int);
                        lemma_invoice_text_day(day, d2, count as int);
                    }
                }
            }
            r
        },
        None => None,
    }
}

/// Invoice numbers of one count spell their day: equal numbers come from
/// equal days.
proof fn lemma_invoice_text_day(a: Seq<char>, b: Seq<char>, count: int)
    requires
        invoice_text(a, count) == invoice_text(b, count),
    ensures
        a == b,
{
    reveal_strlit("CC-");
    reveal_strlit("-");
    let ta = invoice_text(a, count);
    assert(ta.len() == a.len() + 4 + zero_padded(count, 5).len());
    assert(a =~= ta.subrange(3, (3 + a.len()) as int));
    assert(b =~= invoice_text(b, count).subrange(3, (3 + b.len()) as int));
}

/// Where the guest lands after paying.
pub fn payment_success_url(invoice_number: &str) -> (r: String)
    ensures
        r@ == "/?payment=success&invoice="@ + invoice_number@,
{
    let mut s = "/?payment=success&invoice=".to_string();
    s.append(invoice_number);
    s
}

/// For counts 1 to 99999 the number ends in exactly five digits that spell
/// the count, so numbers of one day differ exactly when their counts do.
pub proof fn law_invoice_number_shape(today: Seq<char>, count: int)
    requires
        1 <= count <= 99999,
    ensures
        invoice_text(today, count).len() == today.len() + 9,
        invoice_text(today, count).subrange(0, today.len() + 4 as int) == "CC-"@ + today + "-"@,
        all_digits(invoice_text(today, count).subrange(today.len() + 4 as int, today.len() + 9 as int)),
        digits_value(invoice_text(today, count).subrange(today.len() + 4 as int, today.len() + 9 as int))
            == count,
{
    reveal_strlit("CC-");
    reveal_strlit("-");
    lemma_pad5_digits(count);
    let p = "CC-"@ + today + "-"@;
    assert(invoice_text(today, count) == p + zero_padded(count, 5));
    assert((p + zero_padded(count, 5)).subrange(0, p.len() as int) =~= p);
    assert((p + zero_padded(count, 5)).subrange(p.len() as int, p.len() + 5 as int) =~= zero_padded(
        count,
        5,
    ));
}


/// Two invoice numbers for the same running count are equal exactly when
/// they were made for the same day: the number follows the day it is given.
pub proof fn law_invoice_number_follows_day(a: Seq<char>, b: Seq<char>, count: int)
    ensures
        invoice_text(a, count) == invoice_text(b, count) <==> a == b,
{
    if invoice_text(a, count) == invoice_text(b, count) {
        lemma_invoice_text_day(a, b, count);
    }
}

} // verus!
