use buzzer::api::LoginInfo;
use buzzer::auth::{login_claims, Authentication, Claims, VALIDITY_SECONDS};
use buzzer::rooms::UserData;

#[test]
fn validity_is_thirty_days() {
    assert_eq!(VALIDITY_SECONDS, 30 * 24 * 60 * 60);
}

#[test]
fn issued_claims_expire_after_validity() {
    let c = Claims::issued(UserData { name: "A".to_string() }, 1_000);
    assert_eq!(c.issued_at, 1_000);
    assert_eq!(c.expiry, 2_593_000);
    assert_eq!(c.user_data.name, "A");
}

#[test]
fn new_claims_use_current_time() {
    let c = Claims::new(UserData { name: "A".to_string() });
    assert!(c.issued_at > 1_600_000_000);
    assert_eq!(c.expiry - c.issued_at, VALIDITY_SECONDS);
}

#[test]
fn login_with_empty_name_is_refused() {
    assert!(login_claims(LoginInfo { username: String::new() }).is_none());
}

#[test]
fn login_with_name_gives_claims() {
    let c = login_claims(LoginInfo { username: "dana".to_string() }).unwrap();
    assert_eq!(c.user_data.name, "dana");
    assert_eq!(c.expiry - c.issued_at, VALIDITY_SECONDS);
}

#[test]
fn is_valid_needs_a_name() {
    assert!(LoginInfo { username: "x".to_string() }.is_valid());
    assert!(!LoginInfo { username: String::new() }.is_valid());
}

#[test]
fn bearer_token_wins_over_cookie() {
    assert_eq!(Authentication::pick_token(Some("h".to_string()), Some("c".to_string())), Some("h".to_string()));
    assert_eq!(Authentication::pick_token(None, Some("c".to_string())), Some("c".to_string()));
    assert_eq!(Authentication::pick_token(None, None), None);
}
