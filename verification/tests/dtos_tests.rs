use auth_core::dtos::ApiResponseEmptyEnvelope;
use auth_core::dtos::ApiResponseTokenEnvelope;
use auth_core::dtos::ApiResponseUserProfileEnvelope;
use auth_core::dtos::TokenResponse;
use auth_core::errors::invalid_credentials;
use auth_core::errors::internal_server_error;
use auth_core::errors::unauthorized;
use auth_core::errors::user_already_exists;
use auth_core::errors::validation_failed;
use auth_core::errors::ApiError;
use auth_core::errors::AuthError;
use auth_core::models::TokenPair;
use auth_core::models::User;
use auth_core::users::service_get_profile;

#[test]
fn api_error_new_keeps_its_fields() {
    let e = ApiError::new("SOME_CODE", "some description");
    assert_eq!(e.code, "SOME_CODE");
    assert_eq!(e.description, "some description");
}

#[test]
fn error_catalog_codes() {
    assert_eq!(invalid_credentials().code, "INVALID_CREDENTIALS");
    assert_eq!(unauthorized().code, "UNAUTHORIZED");
    assert_eq!(validation_failed().code, "VALIDATION_FAILED");
    assert_eq!(user_already_exists().code, "USER_ALREADY_EXISTS");
    assert_eq!(internal_server_error().code, "INTERNAL_SERVER_ERROR");
}

#[test]
fn token_response_carries_the_pair_over() {
    let pair = TokenPair {
        access_token: "access.token.value".to_string(),
        refresh_token: "refresh.token.value".to_string(),
    };
    let response = TokenResponse::from_pair(pair);
    assert_eq!(response.access_token, "access.token.value");
    assert_eq!(response.refresh_token, "refresh.token.value");
}

#[test]
fn success_envelopes_use_the_stock_fields() {
    let token_env = ApiResponseTokenEnvelope::success(TokenResponse {
        access_token: "a".to_string(),
        refresh_token: "r".to_string(),
    });
    assert_eq!(token_env.status, "success");
    assert_eq!(token_env.code, 200);
    assert_eq!(token_env.message, "OK");
    assert_eq!(token_env.data.access_token, "a");

    let empty_env = ApiResponseEmptyEnvelope::success();
    assert_eq!(empty_env.status, "success");
    assert_eq!(empty_env.code, 200);
    assert_eq!(empty_env.message, "OK");
}

#[test]
fn profile_is_the_stored_user_without_the_hash() {
    let user = User {
        id: 42,
        username: "alice".to_string(),
        email: "alice@example.com".to_string(),
        password_hash: "$argon2id$secret".to_string(),
        created_at: 1000,
        updated_at: 2000,
    };
    let profile = service_get_profile(Some(user)).expect("present user has a profile");
    assert_eq!(profile.id, 42);
    assert_eq!(profile.username, "alice");
    assert_eq!(profile.email, "alice@example.com");
    assert_eq!(profile.created_at, 1000);
    assert_eq!(profile.updated_at, 2000);

    let envelope = ApiResponseUserProfileEnvelope::success(profile);
    assert_eq!(envelope.status, "success");
    assert_eq!(envelope.data.username, "alice");
}

#[test]
fn absent_user_has_no_profile() {
    assert!(matches!(
        service_get_profile(None),
        Err(AuthError::UserNotFound)
    ));
}
