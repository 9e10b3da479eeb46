//! Nightly prices set by staff.
use vstd::prelude::*;
use crate::controllers::csrf_controller::verify_csrf_token;
use crate::text::{trim_text, trimmed};

verus! {

broadcast use vstd::string::group_string_axioms;

/// The new nightly price of an accommodation.
pub struct PriceForm {
    pub csrf_token: String,
    pub accommodation_id: i32,
    pub price: String,
}

/// What `rust_decimal::Decimal::from_str` reads from `text`: `None` where it
/// fails, else the decimal's `mantissa()` and `scale()` (the value is
/// mantissa / 10^scale).
pub uninterp spec fn decimal_read(text: Seq<char>) -> Option<(int, nat)>;

/// `rust_decimal::Decimal::from_str(text)`, given as its mantissa and
/// scale, `None` where it fails. Claimed: the result is the one that
/// `decimal_read` names for this text.
#[verifier::external_body]
fn parse_decimal(text: &str) -> (r: Option<(i128, u32)>)
    ensures
        match decimal_read(text@) {
            Some(v) => r matches Some(d) && d.0 as int == v.0 && d.1 as nat == v.1,
            None => r is None,
        },
{
    match <rust_decimal::Decimal as std::str::FromStr>::from_str(text) {
        Ok(d) => Some((d.mantissa(), d.scale())),
        Err(_) => None,
    }
}

/// What saving a price comes to.
pub enum PricePlan {
    /// The form's token is not the session's: refused.
    Forbidden,
    /// The price is not a number: back to the price page with an error.
    Invalid,
    /// Store the price `mantissa / 10^scale` for the accommodation.
    Update { mantissa: i128, scale: u32, accommodation_id: i32 },
}

/// Decides a price change: the form's token must match the session's, and
/// the trimmed price must read as a decimal number, which is then stored.
pub fn plan_save_price(session_token: Option<String>, form: &PriceForm) -> (r: PricePlan)
    ensures
        !(session_token matches Some(t) && t@ == form.csrf_token@) ==> r is Forbidden,
        (session_token matches Some(t) && t@ == form.csrf_token@) ==> match decimal_read(
            trimmed(form.price@),
        ) {
            None => r is Invalid,
            Some(v) => r matches PricePlan::Update { mantissa, scale, accommodation_id }
                && mantissa as int == v.0 && scale as nat == v.1 && accommodation_id
                == form.accommodation_id,
        },
{
    if !verify_csrf_token(session_token, form.csrf_token.as_str()) {
        return PricePlan::Forbidden;
    }
    let text = trim_text(form.price.as_str());
    match parse_decimal(text.as_str()) {
        Some(d) => PricePlan::Update {
            mantissa: d.0,
            scale: d.1,
            accommodation_id: form.accommodation_id,
        },
        None => PricePlan::Invalid,
    }
}

/// Where saving a price sends the user.
pub fn price_redirect(plan: &PricePlan) -> (r: String)
    ensures
        plan is Invalid ==> r@ == "/admin/prices?error=error-price-invalid"@,
        !(plan is Invalid) ==> r@ == "/admin/prices"@,
{
    match plan {
        PricePlan::Invalid => "/admin/prices?error=error-price-invalid".to_string(),
        _ => "/admin/prices".to_string(),
    }
}

} // verus!
