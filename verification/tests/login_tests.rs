use colibri::controllers::login_controller::{
    login_check, login_gate, login_redirect, now_unix, seconds_to_unix, logout_redirect, LoginForm, LoginGate, LoginOutcome,
    StaffAccount,
};
use colibri::controllers::page_controller::{
    access_redirect, admin_home_access, admin_page_access, check_admin_home, login_error_message, may_manage_staff,
    AdminAccess,
};

fn blocked_url(g: LoginGate) -> Option<String> {
    match g {
        LoginGate::Blocked { redirect } => Some(redirect),
        LoginGate::Proceed { .. } => None,
    }
}

#[test]
fn three_failures_block_for_five_minutes() {
    assert_eq!(
        blocked_url(login_gate(3, 1000, 1000)).unwrap(),
        "/admin/login?error=Teveel pogingen, probeer over 5 minuten opnieuw"
    );
    assert_eq!(
        blocked_url(login_gate(3, 1000, 1181)).unwrap(),
        "/admin/login?error=Teveel pogingen, probeer over 2 minuten opnieuw"
    );
    assert_eq!(
        blocked_url(login_gate(4, 1000, 1250)).unwrap(),
        "/admin/login?error=Teveel pogingen, probeer over 1 minuut opnieuw"
    );
    assert!(matches!(login_gate(3, 1000, 1300), LoginGate::Proceed { attempts: 0 }));
    assert!(matches!(login_gate(2, 1000, 1001), LoginGate::Proceed { attempts: 2 }));
}

#[test]
fn credentials_are_checked_with_bcrypt() {
    let hash = bcrypt::hash("Geheim12!", 4).unwrap();
    let account = || {
        Some(StaffAccount {
            first_name: "Piet".to_string(),
            password_hash: hash.clone(),
            role: "admin".to_string(),
        })
    };
    let good = LoginForm { email: "piet@colibri.nl".to_string(), password: "Geheim12!".to_string() };
    let bad = LoginForm { email: "piet@colibri.nl".to_string(), password: "geheim12!".to_string() };
    match login_check(&good, account(), 2, 77) {
        LoginOutcome::Success { user_name, user_role, at } => {
            assert_eq!((user_name.as_str(), user_role.as_str(), at), ("Piet", "admin", 77));
        },
        LoginOutcome::Failure { .. } => panic!("the right password was refused"),
    }
    let failed = login_check(&bad, account(), 2, 78);
    assert!(matches!(failed, LoginOutcome::Failure { attempts: 3, at: 78 }));
    assert_eq!(login_redirect(&failed), "/admin/login?error=Email en wachtwoord komen niet overeen");
    let unknown = login_check(&good, None, 0, 5);
    assert!(matches!(unknown, LoginOutcome::Failure { attempts: 1, at: 5 }));
    let malformed = login_check(
        &good,
        Some(StaffAccount {
            first_name: "Piet".to_string(),
            password_hash: "not a hash".to_string(),
            role: "admin".to_string(),
        }),
        0,
        5,
    );
    assert!(matches!(malformed, LoginOutcome::Failure { attempts: 1, .. }));
    let ok = login_check(&good, account(), 0, 1);
    assert_eq!(login_redirect(&ok), "/admin");
}

#[test]
fn logout_destination() {
    assert_eq!(logout_redirect("redirect=public"), "/");
    assert_eq!(logout_redirect("x=1&redirect=public"), "/");
    assert_eq!(logout_redirect(""), "/admin/login");
    assert_eq!(logout_redirect("redirect=admin"), "/admin/login");
}

#[test]
fn login_page_error_message() {
    assert_eq!(login_error_message("error=Sessie%20verlopen"), Some("Sessie verlopen".to_string()));
    assert_eq!(login_error_message("a=1&error=x=y&error=z"), Some("x".to_string()));
    assert_eq!(login_error_message("error"), None);
    assert_eq!(login_error_message(""), None);
    assert_eq!(login_error_message("errors=1"), None);
    assert_eq!(login_error_message("error="), Some(String::new()));
    assert_eq!(login_error_message("error=%2%20%20"), Some("%2  ".to_string()));
}

#[test]
fn admin_session_lasts_eight_hours() {
    assert_eq!(admin_home_access(false, 0, 0), AdminAccess::NotLoggedIn);
    assert_eq!(admin_home_access(true, 1000, 1000 + 28800), AdminAccess::Granted);
    assert_eq!(admin_home_access(true, 1000, 1000 + 28801), AdminAccess::Expired);
    assert_eq!(check_admin_home(false, 0), Some(AdminAccess::NotLoggedIn));
    assert_eq!(check_admin_home(true, 0), Some(AdminAccess::Expired));
    assert_eq!(admin_page_access(true), AdminAccess::Granted);
    assert_eq!(admin_page_access(false), AdminAccess::NotLoggedIn);
    assert_eq!(access_redirect(AdminAccess::Expired), "/admin/login?error=Sessie verlopen");
    assert_eq!(access_redirect(AdminAccess::NotLoggedIn), "/admin/login");
    assert!(may_manage_staff("admin"));
    assert!(!may_manage_staff("staff"));
}

#[test]
fn clock_reads_seconds_after_the_epoch() {
    // 2020-01-01T00:00:00Z
    let t = now_unix().expect("clock after the epoch");
    assert!(t > 1_577_836_800);
}

#[test]
fn clock_seconds_fit_an_i64() {
    assert_eq!(seconds_to_unix(1_700_000_000), Some(1_700_000_000));
    assert_eq!(seconds_to_unix(i64::MAX as u64), Some(i64::MAX));
    assert_eq!(seconds_to_unix(i64::MAX as u64 + 1), None);
    assert_eq!(seconds_to_unix(u64::MAX), None);
}
