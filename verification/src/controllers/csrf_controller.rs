//! Tokens against cross-site request forgery, and the random tokens of
//! bookings.
use vstd::prelude::*;

verus! {

/// A lower-case hexadecimal digit.
pub open spec fn is_lower_hex(c: char) -> bool {
    ('0' <= c <= '9') || ('a' <= c <= 'f')
}

/// The hyphenated lower-case text of a UUID: 36 characters, hyphens at
/// positions 8, 13, 18 and 23, hexadecimal digits elsewhere.
pub open spec fn uuid_shaped(s: Seq<char>) -> bool {
    &&& s.len() == 36
    &&& forall|i: int|
        0 <= i < 36 ==> if i == 8 || i == 13 || i == 18 || i == 23 {
            #[trigger] s[i] == '-'
        } else {
            is_lower_hex(s[i])
        }
}

/// `uuid::Uuid::new_v4().to_string()`: a random UUID. Only its shape is
/// claimed (the crate formats it hyphenated and in lower case); its value
/// is chance.
#[verifier::external_body]
pub(crate) fn random_uuid_text() -> (r: String)
    ensures
        uuid_shaped(r@),
{
    uuid::Uuid::new_v4().to_string()
}

/// A fresh token for a form; the caller stores it in the session.
pub fn generate_csrf_token() -> (r: String)
    ensures
        uuid_shaped(r@),
{
    random_uuid_text()
}

/// Whether the token sent with a form is the one stored in the session.
pub fn verify_csrf_token(session_token: Option<String>, form_token: &str) -> (r: bool)
    ensures
        r == (session_token matches Some(t) && t@ == form_token@),
{
    match session_token {
        Some(t) => crate::text::text_equals(t.as_str(), form_token),
        None => false,
    }
}

} // verus!
