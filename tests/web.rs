use mydex::auth::{User, UnsafeUser};
use mydex::pokedex::{commit_precedes, pokedex_is_outdated};
use mydex::web::{
    is_own_profile, login_landing_url, login_retry_url, own_profile_url, profile_edit_access,
    EditAccess,
};

fn user(id: i32, name: &str) -> User {
    User {
        user_id: id,
        name: name.to_string(),
        creation_date: time::UtcDateTime::UNIX_EPOCH,
        session_hash: vec![1, 2, 3],
    }
}

#[test]
fn retry_keeps_the_requested_page() {
    assert_eq!(login_retry_url(&None), "/login");
    assert_eq!(login_retry_url(&Some("/user/ash".to_string())), "/login?next=/user/ash");
}

#[test]
fn landing_is_the_requested_page() {
    assert_eq!(login_landing_url(&None), "/");
    assert_eq!(login_landing_url(&Some("/user/ash".to_string())), "/user/ash");
}

#[test]
fn own_profile_needs_login() {
    assert_eq!(own_profile_url(&None), "/login");
    assert_eq!(own_profile_url(&Some(user(2, "misty"))), "/user/misty");
}

#[test]
fn own_profile_is_by_id() {
    assert!(is_own_profile(&Some(user(2, "misty")), 2));
    assert!(!is_own_profile(&Some(user(2, "misty")), 3));
    assert!(!is_own_profile(&None, 2));
}

#[test]
fn editing_other_profiles_takes_a_permission() {
    let name = "misty".to_string();
    assert_eq!(profile_edit_access(&None, &name), EditAccess::Denied);
    assert_eq!(profile_edit_access(&Some(user(2, "misty")), &name), EditAccess::Granted);
    assert_eq!(profile_edit_access(&Some(user(3, "brock")), &name), EditAccess::NeedsPermission);
}

#[test]
fn commits_compare_as_strings() {
    assert!(commit_precedes("ab", "b"));
    assert!(commit_precedes("a", "ab"));
    assert!(!commit_precedes("ab", "ab"));
    assert!(!commit_precedes("b", "ab"));
    assert!(commit_precedes("", "0"));
    assert!(!commit_precedes("0", ""));
}

#[test]
fn pokedex_update_only_when_newer() {
    assert!(pokedex_is_outdated(None, "1a2b"));
    assert!(pokedex_is_outdated(Some("1a2b"), "1a2c"));
    assert!(!pokedex_is_outdated(Some("1a2b"), "1a2b"));
    assert!(!pokedex_is_outdated(Some("1a2c"), "1a2b"));
}

#[test]
fn record_converts_once() {
    let record = UnsafeUser::new(5, "ash".to_string(), time::UtcDateTime::UNIX_EPOCH, String::new());
    assert!(record.try_into_user().is_err());
}
