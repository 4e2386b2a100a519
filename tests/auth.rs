use auth_service::api::{
    validate_token, AuthenticationRequest, CheckUsernameResponse, RawToken, RegisterRequest,
    VerifiedToken,
};
use auth_service::auth::{
    backup_code_is_free, code_used_fields, error_status, login_conditions, password_fields,
    register_fields, text_condition, text_pair, usable_code_id,
};
use auth_service::codes::{backup_code_text, generate_code, hash_password, hex_prefix, BACKUP_CODE_COUNT};
use auth_service::errors::{
    AuthenticationError, AuthenticationResponseError, UserBackupCodeError, UserError,
    UserTokenError,
};
use auth_service::models::{Authentication, UserBackupCode};
use auth_service::query::QueryError;
use auth_service::values::DatabaseValue;

const PASSWORD_HASH: &str = "5e884898da28047151d0e56f8dc6292773603d0d6aabbdd62a11ef721d1542d8";

fn session(expires_at: Option<i128>) -> Authentication {
    Authentication {
        id: "a1".to_string(),
        user_id: "u1".to_string(),
        token: "tok".to_string(),
        expires_at,
        created_at: None,
        updated_at: None,
        archived_at: None,
    }
}

fn code(id: Option<&str>, used: Option<bool>) -> UserBackupCode {
    UserBackupCode {
        id: id.map(|s| s.to_string()),
        code: Some("c".to_string()),
        user_id: Some("u1".to_string()),
        used,
        created_at: None,
        updated_at: None,
        archived_at: None,
    }
}

#[test]
fn error_messages() {
    assert_eq!(AuthenticationError::UserNotFound.to_string(), "User not found");
    assert_eq!(AuthenticationError::SessionCreationFailed.to_string(), "Failed to create session");
    assert_eq!(AuthenticationError::TokenExpired.to_string(), "Token expired");
    assert_eq!(UserBackupCodeError::CodeAlreadyUsed.to_string(), "Code already used");
    assert_eq!(UserBackupCodeError::CodeVerificationFailed.to_string(), "Code verification failed");
    assert_eq!(UserTokenError::UserTokenNotFound.to_string(), "User token not found");
    assert_eq!(UserError::UsernameAlreadyExists.to_string(), "Username already exists");
    let wrapped: AuthenticationResponseError = UserBackupCodeError::CodeNotFound.into();
    assert_eq!(wrapped, AuthenticationResponseError::UserBackupCode(UserBackupCodeError::CodeNotFound));
    assert_eq!(wrapped.to_string(), "Code not found");
}

#[test]
fn error_statuses() {
    assert_eq!(error_status(AuthenticationError::UserNotFound.into()), 404);
    assert_eq!(error_status(AuthenticationError::SessionUpdateFailed.into()), 500);
    assert_eq!(error_status(AuthenticationError::InvalidToken.into()), 400);
    assert_eq!(error_status(UserBackupCodeError::CodeNotFound.into()), 404);
    assert_eq!(error_status(UserBackupCodeError::CodeAlreadyUsed.into()), 400);
    assert_eq!(error_status(UserBackupCodeError::CodeUpdateFailed.into()), 500);
    assert_eq!(error_status(UserError::UsernameAlreadyExists.into()), 400);
    assert_eq!(error_status(UserError::UserUpdateFailed.into()), 500);
}

#[test]
fn username_check_answers() {
    let taken = CheckUsernameResponse::for_lookup(true);
    assert!(!taken.available);
    assert_eq!(taken.message.as_deref(), Some("Username is not available"));
    let free = CheckUsernameResponse::for_lookup(false);
    assert!(free.available);
    assert_eq!(free.message.as_deref(), Some("Username is available"));
    let built = CheckUsernameResponse::success(true, None);
    assert!(built.available && built.message.is_none());
}

#[test]
fn bearer_token_is_second_piece() {
    assert_eq!(RawToken::from_authorization(Some("Bearer abc")).value, "abc");
    assert_eq!(RawToken::from_authorization(Some("Bearer a b")).value, "a");
    assert_eq!(RawToken::from_authorization(Some("abc")).value, "");
    assert_eq!(RawToken::from_authorization(Some("Bearer ")).value, "");
    assert_eq!(RawToken::from_authorization(None).value, "");
}

#[test]
fn session_checks() {
    let raw = || RawToken { value: "tok".to_string() };
    let ok = VerifiedToken::from_session(raw(), Some(session(Some(100))), 50).unwrap();
    assert_eq!(ok.raw_token.as_deref(), Some("tok"));
    assert_eq!(ok.user_id, "u1");
    assert_eq!(ok.expires_at, Some(100));
    assert_eq!(
        VerifiedToken::from_session(raw(), Some(session(Some(100))), 101).err(),
        Some(AuthenticationError::TokenExpired)
    );
    assert_eq!(
        VerifiedToken::from_session(raw(), Some(session(None)), 0).err(),
        Some(AuthenticationError::TokenExpired)
    );
    assert_eq!(VerifiedToken::from_session(raw(), None, 0).err(), Some(AuthenticationError::InvalidToken));
}

#[test]
fn token_validation() {
    let empty = RawToken { value: String::new() };
    assert_eq!(validate_token(empty, Some(session(Some(100))), 0).err(), Some(AuthenticationError::SessionNotFound));
    let raw = || RawToken { value: "tok".to_string() };
    assert_eq!(validate_token(raw(), None, 0).err(), Some(AuthenticationError::InvalidToken));
    assert_eq!(validate_token(raw(), Some(session(Some(1))), 2).err(), Some(AuthenticationError::InvalidToken));
    assert_eq!(validate_token(raw(), Some(session(Some(3))), 2).unwrap().user_id, "u1");
}

#[test]
fn passwords_are_stored_as_sha256_hex() {
    assert_eq!(hash_password("password"), PASSWORD_HASH);
    assert_eq!(hex_prefix(&vec![0x00, 0xab, 0x0f], 2), "00ab");
}

#[test]
fn backup_codes_hash_timestamp_and_number() {
    assert_eq!(backup_code_text(0, 0), "20fdf64da3cd2c");
    assert_eq!(backup_code_text(1_700_000_000, 123456), "c24117bebdd268");
    assert_eq!(backup_code_text(-5, 42), "d3648372ceeb52");
    assert_eq!(generate_code().len(), 14);
    assert_eq!(BACKUP_CODE_COUNT, 10);
}

#[test]
fn handler_field_lists() {
    let login = login_conditions(&AuthenticationRequest {
        username: "bob".to_string(),
        password: "password".to_string(),
    });
    assert_eq!(
        login,
        vec![
            ("username".to_string(), DatabaseValue::String("bob".to_string())),
            ("user_password".to_string(), DatabaseValue::String(PASSWORD_HASH.to_string())),
        ]
    );
    let register = register_fields(&RegisterRequest {
        username: "bob".to_string(),
        password: "password".to_string(),
        first_name: "Bo".to_string(),
        last_name: "B".to_string(),
    });
    assert_eq!(register.len(), 4);
    assert_eq!(register[1].1, DatabaseValue::String(PASSWORD_HASH.to_string()));
    assert_eq!(register[3], ("last_name".to_string(), DatabaseValue::String("B".to_string())));
    assert_eq!(password_fields("password")[0].1, DatabaseValue::String(PASSWORD_HASH.to_string()));
    assert_eq!(code_used_fields(), vec![("used".to_string(), DatabaseValue::Boolean("true".to_string()))]);
    assert_eq!(text_condition("token", "t"), vec![("token".to_string(), DatabaseValue::String("t".to_string()))]);
    assert_eq!(text_pair("user_id", "u", "code", "c")[1].0, "code");
}

#[test]
fn backup_code_usability() {
    assert_eq!(usable_code_id(&code(Some("b1"), Some(false))), Ok("b1".to_string()));
    assert_eq!(usable_code_id(&code(Some("b1"), Some(true))), Err(UserBackupCodeError::CodeAlreadyUsed));
    assert_eq!(usable_code_id(&code(None, Some(false))), Err(UserBackupCodeError::CodeNotValid));
    assert_eq!(usable_code_id(&code(Some("b1"), None)), Err(UserBackupCodeError::CodeNotValid));
}

#[test]
fn drawn_code_is_kept_only_when_unused() {
    assert!(backup_code_is_free(&Ok(vec![])));
    assert!(!backup_code_is_free(&Ok(vec![code(Some("b1"), Some(false))])));
    assert!(!backup_code_is_free(&Err(QueryError::ConnectionError)));
}
