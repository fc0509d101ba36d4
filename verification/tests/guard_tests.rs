use auth_core::errors::AuthError;
use auth_core::guard::authenticate_bearer;
use auth_core::guard::extract_bearer_token;
use auth_core::guard::AuthenticatedUser;
use auth_core::token::generate_access_token;
use auth_core::token::TokenConfig;

const SUBJECT: u128 = 0x550e8400_e29b_41d4_a716_446655440000;
const NOW: i64 = 1_700_000_000;

fn config() -> TokenConfig {
    TokenConfig::from_settings("test-signing-secret", "15m", "7d").expect("valid settings")
}

#[test]
fn extracts_the_token_after_the_exact_prefix() {
    assert_eq!(extract_bearer_token("Bearer abc.def.ghi"), Some("abc.def.ghi"));
    assert_eq!(extract_bearer_token("Bearer "), Some(""));
}

#[test]
fn rejects_headers_without_the_exact_prefix() {
    assert_eq!(extract_bearer_token(""), None);
    assert_eq!(extract_bearer_token("Bearer"), None);
    assert_eq!(extract_bearer_token("bearer abc"), None);
    assert_eq!(extract_bearer_token("BEARER abc"), None);
    assert_eq!(extract_bearer_token("Basic abc"), None);
    assert_eq!(extract_bearer_token(" Bearer abc"), None);
}

#[test]
fn authenticates_a_fresh_bearer_token() {
    let cfg = config();
    let token = generate_access_token(&cfg, SUBJECT, NOW).unwrap();
    let header = format!("Bearer {}", token);
    assert_eq!(
        authenticate_bearer(&cfg, Some(&header), NOW),
        Ok(AuthenticatedUser(SUBJECT))
    );
}

#[test]
fn rejects_a_missing_header() {
    let cfg = config();
    assert_eq!(
        authenticate_bearer(&cfg, None, NOW),
        Err(AuthError::Unauthorized)
    );
}

#[test]
fn rejects_a_header_without_the_prefix() {
    let cfg = config();
    let token = generate_access_token(&cfg, SUBJECT, NOW).unwrap();
    assert_eq!(
        authenticate_bearer(&cfg, Some(&token), NOW),
        Err(AuthError::Unauthorized)
    );
}

#[test]
fn rejects_an_expired_bearer_token() {
    let cfg = config();
    let token = generate_access_token(&cfg, SUBJECT, NOW - 901).unwrap();
    let header = format!("Bearer {}", token);
    assert_eq!(
        authenticate_bearer(&cfg, Some(&header), NOW),
        Err(AuthError::Unauthorized)
    );
}

#[test]
fn rejects_a_garbage_bearer_token() {
    let cfg = config();
    assert_eq!(
        authenticate_bearer(&cfg, Some("Bearer not-a-token"), NOW),
        Err(AuthError::Unauthorized)
    );
}
