use flight_plan::gate::{authenticate, extract_bearer_token, validate_token, AuthDecision, RejectReason};
use flight_plan::models::User;
use flight_plan::pool::Pool;
use flight_plan::repository::Repository;
use flight_plan::store::Store;

fn repo_with_alice() -> (Repository, String) {
    let mut repo = Repository::new(Pool::new(2, true));
    let key = repo
        .create_user(User {
            username: "alice".to_string(),
            fullname: "Alice A".to_string(),
            api_key: String::new(),
        })
        .unwrap();
    (repo, key)
}

#[test]
fn extract_bearer_token_parses_well_formed_header() {
    assert_eq!(extract_bearer_token("Bearer abc123"), Some("abc123".to_string()));
    assert_eq!(extract_bearer_token("Bearer k"), Some("k".to_string()));
}

#[test]
fn extract_bearer_token_rejects_malformed_headers() {
    assert_eq!(extract_bearer_token(""), None);
    assert_eq!(extract_bearer_token("Bearer"), None);
    assert_eq!(extract_bearer_token("Bearer "), None);
    assert_eq!(extract_bearer_token("bearer abc"), None);
    assert_eq!(extract_bearer_token("Token abc"), None);
    assert_eq!(extract_bearer_token("Bear er abc"), None);
}

#[test]
fn authenticate_admits_a_valid_key() {
    let (mut repo, key) = repo_with_alice();
    let header = format!("Bearer {}", key);
    match authenticate(&mut repo, &header) {
        AuthDecision::Admitted(u) => {
            assert_eq!(u.username, "alice");
            assert_eq!(u.api_key, key);
        }
        AuthDecision::Rejected(_) => panic!("valid key was rejected"),
    }
}

#[test]
fn authenticate_rejects_an_unknown_token() {
    let (mut repo, _key) = repo_with_alice();
    let d = authenticate(&mut repo, "Bearer wrong-token");
    assert_eq!(d, AuthDecision::Rejected(RejectReason::UnknownToken));
}

#[test]
fn authenticate_rejects_missing_token_without_a_store_call() {
    let (mut repo, _key) = repo_with_alice();
    let idle_before = repo.pool.idle;
    let in_use_before = repo.pool.in_use;
    assert_eq!(
        authenticate(&mut repo, ""),
        AuthDecision::Rejected(RejectReason::MissingToken)
    );
    assert_eq!(
        authenticate(&mut repo, "Basic dXNlcjpwdw=="),
        AuthDecision::Rejected(RejectReason::MissingToken)
    );
    assert_eq!(repo.pool.idle, idle_before);
    assert_eq!(repo.pool.in_use, in_use_before);
}

#[test]
fn validate_token_reports_store_failure_when_pool_is_exhausted() {
    let mut pool = Pool::new(1, true);
    let _held = pool.acquire().unwrap();
    let mut repo = Repository { pool, store: Store::new() };
    let d = validate_token(&mut repo, &"some-token".to_string());
    assert_eq!(d, AuthDecision::Rejected(RejectReason::StoreFailure));
}

#[test]
fn token_presented_only_for_a_nonempty_token() {
    assert!(!flight_plan::gate::token_presented(""));
    assert!(flight_plan::gate::token_presented("k"));
}

#[test]
fn validate_token_rejects_empty_token() {
    let (mut repo, _key) = repo_with_alice();
    let d = validate_token(&mut repo, &String::new());
    assert_eq!(d, AuthDecision::Rejected(RejectReason::MissingToken));
}
