//! Pages: the query parameters they read and the access decisions they take.
use vstd::prelude::*;
use crate::controllers::login_controller::now_unix;
use crate::text::{
    chars_of, decode_spaces, decode_spaces_chars, lemma_split_nonempty, split_chars, split_on,
    chars_equal, string_from_chars, text_equals, texts_of,
};

verus! {

broadcast use vstd::string::group_string_axioms;

/// Alerts of the public home page after paying or cancelling.
pub struct HomeParams {
    pub payment: Option<String>,
    pub invoice: Option<String>,
    pub error: Option<String>,
}

/// The booking to leave out when listing unavailable dates.
pub struct UnavailableDatesQuery {
    pub exclude: Option<i32>,
}

/// Booking step 1: preselected accommodation and error.
pub struct BookingParams {
    pub accommodation_id: Option<String>,
    pub error: Option<String>,
}

/// Booking step 2: the locked booking.
pub struct BookingStep2Params {
    pub booking_id: Option<String>,
    pub lock_token: Option<String>,
    pub accommodation_id: Option<String>,
    pub check_in_date: Option<String>,
    pub check_out_date: Option<String>,
}

/// The booking overview: the payment token.
pub struct PublicBookingOverviewParams {
    pub payment_token: Option<String>,
}

/// Alerts of the staff booking list.
pub struct AdminBookingParams {
    pub error: Option<String>,
    pub success: Option<String>,
}

/// Staff booking step 2: accommodation and stay.
pub struct AdminBookingStep2Params {
    pub accommodation_id: Option<String>,
    pub check_in_date: Option<String>,
    pub check_out_date: Option<String>,
}

/// The staff booking overview: the payment token.
pub struct AdminBookingOverviewParams {
    pub payment_token: Option<String>,
}

/// The error of the booking change page.
pub struct AdminBookingUpdatePath {
    pub error: Option<String>,
}

/// What changed in a booking, before and after.
pub struct AdminBookingUpdateOverviewParams {
    pub booking_id: i32,
    pub accommodation_changed: bool,
    pub old_accommodation: String,
    pub new_accommodation: String,
    pub dates_changed: bool,
    pub old_check_in: String,
    pub old_check_out: String,
    pub new_check_in: String,
    pub new_check_out: String,
}

/// The booking whose status is shown.
pub struct AdminBookingStatusPath {
    pub id: i32,
}

/// Alerts of the customer list.
pub struct AdminCustomerParams {
    pub success: Option<String>,
    pub last_name: Option<String>,
}

/// The customer shown.
pub struct CustomerPath {
    pub id: i32,
}

/// Alerts of the staff list.
pub struct AdminStaffParams {
    pub success: Option<String>,
    pub last_name: Option<String>,
}

/// The staff account shown.
pub struct StaffPath {
    pub id: i32,
}

/// Hours after log-in that an admin session lasts.
pub const SESSION_TIMEOUT_HOURS: i64 = 8;

/// The session has lasted longer than the time-out.
pub open spec fn session_expired(login_at: int, now: int) -> bool {
    now - login_at > SESSION_TIMEOUT_HOURS * 60 * 60
}

/// Whether an admin page may be shown.
#[derive(Clone, Copy, PartialEq, Eq, Debug)]
pub enum AdminAccess {
    /// Not logged in: to the log-in page.
    NotLoggedIn,
    /// Logged in too long ago: the session ends, to the log-in page with a message.
    Expired,
    /// Show the page.
    Granted,
}

/// Decides access to the admin home page at time `now`.
pub fn admin_home_access(logged_in: bool, login_at: i64, now: i64) -> (r: AdminAccess)
    ensures
        !logged_in ==> r == AdminAccess::NotLoggedIn,
        logged_in && session_expired(login_at as int, now as int) ==> r == AdminAccess::Expired,
        logged_in && !session_expired(login_at as int, now as int) ==> r == AdminAccess::Granted,
{
    if !logged_in {
        return AdminAccess::NotLoggedIn;
    }
    let elapsed: i128 = now as i128 - login_at as i128;
    if elapsed > 8 * 60 * 60 {
        AdminAccess::Expired
    } else {
        AdminAccess::Granted
    }
}

/// Decides access to an admin page: only a logged-in user sees it.
pub fn admin_page_access(logged_in: bool) -> (r: AdminAccess)
    ensures
        r == (if logged_in {
            AdminAccess::Granted
        } else {
            AdminAccess::NotLoggedIn
        }),
{
    if logged_in {
        AdminAccess::Granted
    } else {
        AdminAccess::NotLoggedIn
    }
}

/// Decides access to the admin home page now, by the system clock. A user
/// who is not logged in is refused without reading the clock; otherwise
/// `None` where the clock cannot be read as a time after the epoch.
pub fn check_admin_home(logged_in: bool, login_at: i64) -> (r: Option<AdminAccess>)
    ensures
        !logged_in ==> r == Some(AdminAccess::NotLoggedIn),
        logged_in && r is Some ==> exists|now: int|
            0 <= now <= i64::MAX && r == Some(
                if session_expired(login_at as int, now) {
                    AdminAccess::Expired
                } else {
                    AdminAccess::Granted
                },
            ),
{
    if !logged_in {
        return Some(AdminAccess::NotLoggedIn);
    }
    match now_unix() {
        Some(now) => Some(admin_home_access(true, login_at, now)),
        None => None,
    }
}

/// Where an admin page sends a user it refuses.
pub fn access_redirect(access: AdminAccess) -> (r: String)
    ensures
        access == AdminAccess::Expired ==> r@ == "/admin/login?error=Sessie verlopen"@,
        access != AdminAccess::Expired ==> r@ == "/admin/login"@,
{
    match access {
        AdminAccess::Expired => "/admin/login?error=Sessie verlopen".to_string(),
        _ => "/admin/login".to_string(),
    }
}

/// Whether the staff pages that change accounts may be shown to this role.
pub fn may_manage_staff(user_role: &str) -> (r: bool)
    ensures
        r == (user_role@ == "admin"@),
{
    text_equals(user_role, "admin")
}

/// The value of the first `error=...` pair among the `&`-separated pairs
/// (the part after the first `=`, up to a second `=`), with `%20` read as
/// a space.
pub open spec fn error_param(pairs: Seq<Seq<char>>) -> Option<Seq<char>>
    decreases pairs.len(),
{
    if pairs.len() == 0 {
        None
    } else {
        let parts = split_on(pairs[0], '=');
        if parts.len() >= 2 && parts[0] == "error"@ {
            Some(decode_spaces(parts[1]))
        } else {
            error_param(pairs.drop_first())
        }
    }
}

/// The message that the log-in page shows, read from its query string.
pub open spec fn login_error(query: Seq<char>) -> Option<Seq<char>> {
    error_param(split_on(query, '&'))
}

/// Reads the message of the log-in page from its query string.
pub fn login_error_message(query: &str) -> (r: Option<String>)
    ensures
        match login_error(query@) {
            Some(m) => r matches Some(x) && x@ == m,
            None => r is None,
        },
{
    let q = chars_of(query);
    let pairs = split_chars(&q, '&');
    let error_key = chars_of("error");
    let mut i: usize = 0;
    assert(texts_of(pairs@).subrange(0, pairs@.len() as int) =~= texts_of(pairs@));
    while i < pairs.len()
        invariant
            i <= pairs@.len(),
            texts_of(pairs@) == split_on(query@, '&'),
            error_key@ == "error"@,
            error_param(texts_of(pairs@).subrange(i as int, pairs@.len() as int)) == login_error(
                query@,
            ),
        decreases pairs@.len() - i,
    {
        let ghost rest = texts_of(pairs@).subrange(i as int, pairs@.len() as int);
        assert(rest[0] == pairs@[i as int]@);
        let parts = split_chars(&pairs[i], '=');
        proof {
            lemma_split_nonempty(pairs@[i as int]@, '=');
        }
        if parts.len() >= 2 && chars_equal(&parts[0], &error_key) {
            assert(texts_of(parts@)[0] == parts@[0]@);
            assert(texts_of(parts@)[1] == parts@[1]@);
            let value = decode_spaces_chars(&parts[1]);
            return Some(string_from_chars(&value));
        }
        assert(rest.drop_first() =~= texts_of(pairs@).subrange(i + 1, pairs@.len() as int));
        assert(texts_of(parts@)[0] == parts@[0]@);
        i = i + 1;
    }
    None
}

/// A session is never cut short: it lasts eight hours to the second, and
/// a logged-in user is let in until then.
pub proof fn law_session_window(login_at: int, now: int)
    ensures
        login_at <= now <= login_at + 28800 ==> !session_expired(login_at, now),
        now > login_at + 28800 ==> session_expired(login_at, now),
{
}

} // verus!
