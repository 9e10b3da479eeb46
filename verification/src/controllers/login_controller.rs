//! Admin log-in: throttling of failed attempts and the credential check.
use vstd::prelude::*;
use crate::calendar::system_clock_seconds;
use crate::text::{byte_len, decimal_string, decimal_text, text_contains, contains_text};
use vstd::string::StringExecFns;

verus! {

broadcast use vstd::string::group_string_axioms;

/// The log-in form.
pub struct LoginForm {
    pub email: String,
    pub password: String,
}

/// The stored account that an e-mail address names.
pub struct StaffAccount {
    pub first_name: String,
    pub password_hash: String,
    pub role: String,
}

/// Failed attempts after which log-in is refused for a while.
pub const MAX_LOGIN_ATTEMPTS: i32 = 3;

/// Seconds that log-in stays refused after the last failed attempt.
pub const LOGIN_BLOCK_SECONDS: i64 = 300;

/// Whether `bcrypt::verify(password, hash)` reports a match.
pub uninterp spec fn bcrypt_verifies(password: Seq<char>, hash: Seq<char>) -> bool;

/// `bcrypt::verify(password, hash).unwrap_or(false)`: the match that
/// `bcrypt_verifies` names. The crate's source refuses (with an error, read
/// here as "no match") every hash that is not 60 bytes long; that is the one
/// fact claimed beyond the name.
#[verifier::external_body]
fn password_matches(password: &str, hash: &str) -> (r: bool)
    ensures
        r == bcrypt_verifies(password@, hash@),
        byte_len(hash@) != 60 ==> !r,
{
    bcrypt::verify(password, hash).unwrap_or(false)
}

/// Failed attempts that still count at `now`: none once the block time has
/// passed since the last one.
pub open spec fn counted_attempts(attempts: int, last_attempt: int, now: int) -> int {
    if now - last_attempt >= LOGIN_BLOCK_SECONDS {
        0
    } else {
        attempts
    }
}

/// Log-in is refused: enough counted attempts, the last one recent.
pub open spec fn login_blocked(attempts: int, last_attempt: int, now: int) -> bool {
    counted_attempts(attempts, last_attempt, now) >= MAX_LOGIN_ATTEMPTS && now - last_attempt
        < LOGIN_BLOCK_SECONDS
}

/// Whole minutes, rounded up, until log-in is allowed again.
pub open spec fn minutes_left(last_attempt: int, now: int) -> int {
    (LOGIN_BLOCK_SECONDS - (now - last_attempt) + 59) / 60
}

/// The Dutch "try again in ..." text of the refusal.
pub open spec fn wait_text(minutes: int) -> Seq<char> {
    if minutes == 1 {
        "1 minuut"@
    } else {
        decimal_text(minutes) + " minuten"@
    }
}

/// Where a refused log-in is sent.
pub open spec fn blocked_url(minutes: int) -> Seq<char> {
    "/admin/login?error=Teveel pogingen, probeer over "@ + wait_text(minutes) + " opnieuw"@
}

/// What happens before the credentials are looked at.
pub enum LoginGate {
    /// Refused; the guest is sent to the given address.
    Blocked { redirect: String },
    /// Allowed; `attempts` failed attempts still count.
    Proceed { attempts: i32 },
}

/// Decides whether a log-in attempt may go ahead.
pub fn login_gate(attempts: i32, last_attempt: i64, now: i64) -> (r: LoginGate)
    ensures
        login_blocked(attempts as int, last_attempt as int, now as int) ==> (r matches LoginGate::Blocked { redirect }
            && redirect@ == blocked_url(minutes_left(last_attempt as int, now as int))),
        !login_blocked(attempts as int, last_attempt as int, now as int) ==> r == (LoginGate::Proceed {
            attempts: counted_attempts(attempts as int, last_attempt as int, now as int) as i32,
        }),
        r matches LoginGate::Proceed { attempts } ==> attempts < MAX_LOGIN_ATTEMPTS,
        now - last_attempt >= LOGIN_BLOCK_SECONDS ==> r == (LoginGate::Proceed { attempts: 0 }),
{
    let elapsed: i128 = now as i128 - last_attempt as i128;
    let counted: i32 = if elapsed >= 300 {
        0
    } else {
        attempts
    };
    if counted >= 3 && elapsed < 300 {
        let remaining: i128 = 300 - elapsed;
        let minutes: i64 = ((remaining + 59) / 60) as i64;
        let mut url = "/admin/login?error=Teveel pogingen, probeer over ".to_string();
        if minutes == 1 {
            url.append("1 minuut");
        } else {
            let m = decimal_string(minutes);
            url.append(m.as_str());
            url.append(" minuten");
        }
        url.append(" opnieuw");
        LoginGate::Blocked { redirect: url }
    } else {
        LoginGate::Proceed { attempts: counted }
    }
}

/// The result of checking the credentials.
pub enum LoginOutcome {
    /// Logged in as `user_name` with `user_role` at time `at`; the failed
    /// attempts are reset.
    Success { user_name: String, user_role: String, at: i64 },
    /// Refused; `attempts` failed attempts now count, the last at `at`.
    Failure { attempts: i32, at: i64 },
}

/// Checks the password against the stored account, if any.
pub fn login_check(form: &LoginForm, account: Option<StaffAccount>, attempts: i32, now: i64) -> (r:
    LoginOutcome)
    requires
        attempts < i32::MAX,
    ensures
        match account {
            Some(a) => if bcrypt_verifies(form.password@, a.password_hash@) {
                r == (LoginOutcome::Success { user_name: a.first_name, user_role: a.role, at: now })
            } else {
                r == (LoginOutcome::Failure { attempts: (attempts + 1) as i32, at: now })
            },
            None => r == (LoginOutcome::Failure { attempts: (attempts + 1) as i32, at: now }),
        },
{
    if let Some(a) = account {
        if password_matches(form.password.as_str(), a.password_hash.as_str()) {
            return LoginOutcome::Success { user_name: a.first_name, user_role: a.role, at: now };
        }
    }
    LoginOutcome::Failure { attempts: attempts + 1, at: now }
}

/// Whole seconds since the Unix epoch as an `i64`: `None` for counts
/// beyond what an `i64` holds.
pub fn seconds_to_unix(s: u64) -> (r: Option<i64>)
    ensures
        r == (if s <= i64::MAX {
            Some(s as i64)
        } else {
            None::<i64>
        }),
{
    if s <= 9_223_372_036_854_775_807u64 {
        Some(s as i64)
    } else {
        None
    }
}

/// The current time for the log-in bookkeeping, in seconds since the Unix
/// epoch; `None` where the system clock stands before the epoch or beyond
/// what an `i64` holds.
pub fn now_unix() -> (r: Option<i64>)
    ensures
        r matches Some(t) ==> t >= 0,
{
    match system_clock_seconds() {
        Some(s) => seconds_to_unix(s),
        None => None,
    }
}

/// Where the log-in sends the user afterwards.
pub fn login_redirect(outcome: &LoginOutcome) -> (r: String)
    ensures
        r@ == (match outcome {
            LoginOutcome::Success { .. } => "/admin"@,
            LoginOutcome::Failure { .. } => "/admin/login?error=Email en wachtwoord komen niet overeen"@,
        }),
{
    match outcome {
        LoginOutcome::Success { .. } => "/admin".to_string(),
        LoginOutcome::Failure { .. } => "/admin/login?error=Email en wachtwoord komen niet overeen".to_string(),
    }
}

/// Where log-out sends the user: the public home page when the query asks
/// for `redirect=public`, else the log-in page.
pub fn logout_redirect(query: &str) -> (r: String)
    ensures
        r@ == (if contains_text(query@, "redirect=public"@) {
            "/"@
        } else {
            "/admin/login"@
        }),
{
    if text_contains(query, "redirect=public") {
        "/".to_string()
    } else {
        "/admin/login".to_string()
    }
}

/// A refusal names between one and five minutes, when the last failed
/// attempt does not lie in the future.
pub proof fn law_block_minutes(attempts: int, last_attempt: int, now: int)
    requires
        login_blocked(attempts, last_attempt, now),
        last_attempt <= now,
    ensures
        1 <= minutes_left(last_attempt, now) <= 5,
{
}

/// A failed attempt at `at` that brings the count to three or more blocks
/// every attempt during the next five minutes, and none after.
pub proof fn law_failures_block(attempts: int, at: int, later: int)
    requires
        at <= later,
    ensures
        login_blocked(attempts, at, later) <==> (attempts >= MAX_LOGIN_ATTEMPTS && later - at
            < LOGIN_BLOCK_SECONDS),
{
}

/// After a successful log-in (attempts reset to zero) the next attempt is
/// never refused.
pub proof fn law_success_unblocks(at: int, later: int)
    ensures
        !login_blocked(0, at, later),
{
}

/// Fewer than three failed attempts never block.
pub proof fn law_few_failures_never_block(attempts: int, last_attempt: int, now: int)
    requires
        attempts < MAX_LOGIN_ATTEMPTS,
    ensures
        !login_blocked(attempts, last_attempt, now),
{
}


/// Failures are forgotten five minutes after the last one, whatever their
/// number: log-in then goes ahead with no failures counted. Within the five
/// minutes every stored failure counts.
pub proof fn law_old_failures_forgotten(attempts: int, last_attempt: int, now: int)
    ensures
        now - last_attempt >= LOGIN_BLOCK_SECONDS ==> counted_attempts(attempts, last_attempt, now)
            == 0 && !login_blocked(attempts, last_attempt, now),
        now - last_attempt < LOGIN_BLOCK_SECONDS ==> counted_attempts(attempts, last_attempt, now)
            == attempts,
        login_blocked(attempts, last_attempt, now) <==> (attempts >= 3 && now - last_attempt < 300),
{
}

} // verus!
