use cflare::config::{
    check_token_status, check_user_details, resolve_credential, save_credential,
    validation_probe, GlobalCredential, ValidationProbe,
};
use cflare::errors::AuthError;
use cflare::http::{ApiError, ApiErrorInfo, format_error};

#[test]
fn key_with_email_wins_first() {
    let email = String::from("user@example.com");
    let key = String::from("SECRET-REDACTED");
    let token = String::from("tok");
    let stored = GlobalCredential::Token { api_token: String::from("stored") };
    let r = resolve_credential(Some(&email), Some(&key), Some(&token), Some(&stored));
    assert_eq!(
        r,
        Ok(GlobalCredential::GlobalKey {
            email: String::from("user@example.com"),
            api_key: String::from("SECRET-REDACTED"),
        })
    );
}

#[test]
fn key_without_email_is_an_error() {
    let key = String::from("SECRET-REDACTED");
    let r = resolve_credential(None, Some(&key), None, None);
    assert_eq!(r, Err(AuthError::MissingEmailForKey));
}

#[test]
fn token_wins_over_stored() {
    let token = String::from("tok");
    let stored = GlobalCredential::Token { api_token: String::from("stored") };
    let r = resolve_credential(None, None, Some(&token), Some(&stored));
    assert_eq!(r, Ok(GlobalCredential::Token { api_token: String::from("tok") }));
}

#[test]
fn stored_credential_is_used_last() {
    let stored = GlobalCredential::GlobalKey {
        email: String::from("a@b.c"),
        api_key: String::from("SECRET-REDACTED"),
    };
    let r = resolve_credential(None, None, None, Some(&stored));
    assert_eq!(r, Ok(stored));
}

#[test]
fn nothing_to_resolve_is_an_error() {
    assert_eq!(resolve_credential(None, None, None, None), Err(AuthError::NoStoredCredential));
    assert_eq!(
        AuthError::NoStoredCredential.message(),
        "Config file does not exist. Try running `cflare config`"
    );
    // An email alone carries no credential; the stored one is still used.
    let email = String::from("a@b.c");
    assert_eq!(resolve_credential(Some(&email), None, None, None), Err(AuthError::NoStoredCredential));
}

#[test]
fn probe_follows_credential_kind() {
    let token = GlobalCredential::Token { api_token: String::from("t") };
    let key = GlobalCredential::GlobalKey {
        email: String::from("a@b.c"),
        api_key: String::from("SECRET-REDACTED"),
    };
    assert_eq!(validation_probe(&token), ValidationProbe::TokenStatus);
    assert_eq!(validation_probe(&key), ValidationProbe::UserDetails);
}

#[test]
fn active_token_status_passes() {
    assert_eq!(check_token_status(Ok(String::from("active"))), Ok(()));
}

#[test]
fn expired_token_status_is_invalid() {
    let r = check_token_status(Ok(String::from("expired")));
    assert_eq!(
        r,
        Err(AuthError::TokenInvalid(String::from(
            "Authentication check failed. Your token status is not active"
        )))
    );
}

#[test]
fn failed_token_call_is_invalid() {
    let failure = ApiError::Error {
        status: 400,
        errors: vec![ApiErrorInfo { code: 6003, message: String::from("Invalid request headers") }],
    };
    let r = check_token_status(Err(failure));
    assert_eq!(
        r,
        Err(AuthError::TokenInvalid(String::from(
            "Authentication check failed. Please make sure your API token is correct.\nCode 6003: Invalid request headers"
        )))
    );
}

#[test]
fn user_details_check() {
    assert_eq!(check_user_details(Ok(())), Ok(()));
    let failure = ApiError::Invalid { message: String::from("timed out") };
    let r = check_user_details(Err(failure));
    assert_eq!(
        r,
        Err(AuthError::KeyInvalid(String::from(
            "Authentication check failed. Please make sure your email and global API key pair are correct. (https://developers.cloudflare.com/workers/quickstart/#global-api-key)\nError: timed out"
        )))
    );
}

#[test]
fn validated_credential_becomes_default_context() {
    let cred = GlobalCredential::Token { api_token: String::from("t") };
    let config = save_credential(&cred, Ok(())).unwrap();
    assert_eq!(config.current_context, "default");
    assert_eq!(config.contexts.len(), 1);
    assert_eq!(config.contexts[0].name, "default");
    assert_eq!(config.contexts[0].credential, cred);
}

#[test]
fn failed_validation_is_never_persisted() {
    let cred = GlobalCredential::Token { api_token: String::from("t") };
    let err = AuthError::TokenInvalid(String::from("no"));
    assert_eq!(save_credential(&cred, Err(err.clone())), Err(err));
}

#[test]
fn format_error_lists_entries_and_trims() {
    let failure = ApiError::Error {
        status: 400,
        errors: vec![
            ApiErrorInfo { code: 1003, message: String::from("Invalid or missing zone id.") },
            ApiErrorInfo { code: 7003, message: String::from("Could not route to endpoint") },
        ],
    };
    assert_eq!(
        format_error(&failure),
        "Code 1003: Invalid or missing zone id.\nCode 7003: Could not route to endpoint"
    );
    let empty = ApiError::Error { status: 500, errors: vec![] };
    assert_eq!(format_error(&empty), "");
    let invalid = ApiError::Invalid { message: String::from("dns error") };
    assert_eq!(format_error(&invalid), "Error: dns error");
}
