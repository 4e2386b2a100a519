use auth_service::api::VerifiedToken;
use auth_service::errors::{
    AuthenticationError, AuthenticationResponseError, UserBackupCodeError, UserError,
};
use auth_service::flows::{
    code_to_spend, created_user, found_user_id, login_outcome, or_fail, plan_session, session_plan,
    token_to_revoke,
    username_free, SessionPlan,
};
use auth_service::models::{Authentication, User, UserBackupCode};
use auth_service::query::QueryError;
use auth_service::values::DatabaseValue;

fn user(id: Option<&str>) -> User {
    User {
        id: id.map(|s| s.to_string()),
        username: Some("bob".to_string()),
        user_password: None,
        first_name: None,
        last_name: None,
        created_at: None,
        updated_at: None,
        archived_at: None,
    }
}

fn session(id: &str) -> Authentication {
    Authentication {
        id: id.to_string(),
        user_id: "u1".to_string(),
        token: "tok".to_string(),
        expires_at: Some(5),
        created_at: None,
        updated_at: None,
        archived_at: None,
    }
}

fn backup(used: Option<bool>) -> UserBackupCode {
    UserBackupCode {
        id: Some("b1".to_string()),
        code: Some("c".to_string()),
        user_id: Some("u1".to_string()),
        used,
        created_at: None,
        updated_at: None,
        archived_at: None,
    }
}

fn auth_error(e: AuthenticationError) -> AuthenticationResponseError {
    AuthenticationResponseError::Authentication(e)
}

#[test]
fn failed_step_answers_with_its_error() {
    let e = AuthenticationResponseError::User(UserError::UserCreationFailed);
    assert_eq!(or_fail(Ok::<u32, QueryError>(3), e), Ok(3));
    assert_eq!(or_fail(Err::<u32, QueryError>(QueryError::ConstraintViolation), e), Err(e));
}

#[test]
fn login_needs_a_user_with_an_id() {
    assert_eq!(found_user_id(Ok(user(Some("u1")))), Ok("u1".to_string()));
    assert_eq!(found_user_id(Ok(user(None))), Err(auth_error(AuthenticationError::UserNotFound)));
    assert_eq!(found_user_id(Err(QueryError::NotFound)), Err(auth_error(AuthenticationError::UserNotFound)));
}

#[test]
fn login_renews_or_creates_a_session() {
    match session_plan(Ok(session("a1")), "u1", "t") {
        SessionPlan::Renew(s) => assert_eq!(s.id, "a1"),
        SessionPlan::Create(_) => panic!("expected a renewal"),
    }
    match session_plan(Err(QueryError::NotFound), "u1", "t") {
        SessionPlan::Create(fields) => assert_eq!(
            fields,
            vec![
                ("user_id".to_string(), DatabaseValue::String("u1".to_string())),
                ("token".to_string(), DatabaseValue::String("t".to_string())),
            ]
        ),
        SessionPlan::Renew(_) => panic!("expected a creation"),
    }
}

#[test]
fn login_outcome_follows_the_write() {
    let renewed = login_outcome(SessionPlan::Renew(session("found")), Ok(session("written")));
    assert_eq!(renewed.unwrap().id, "found");
    let failed = login_outcome(SessionPlan::Renew(session("found")), Err(QueryError::ConnectionError));
    assert_eq!(failed.err(), Some(auth_error(AuthenticationError::SessionUpdateFailed)));
    let created = login_outcome(SessionPlan::Create(vec![]), Ok(session("new")));
    assert_eq!(created.unwrap().id, "new");
    let failed = login_outcome(SessionPlan::Create(vec![]), Err(QueryError::ConstraintViolation));
    assert_eq!(failed.err(), Some(auth_error(AuthenticationError::SessionCreationFailed)));
}

#[test]
fn reset_spends_only_unused_codes() {
    assert_eq!(code_to_spend(Ok(backup(Some(false)))), Ok("b1".to_string()));
    assert_eq!(
        code_to_spend(Ok(backup(Some(true)))),
        Err(AuthenticationResponseError::UserBackupCode(UserBackupCodeError::CodeAlreadyUsed))
    );
    assert_eq!(
        code_to_spend(Ok(backup(None))),
        Err(AuthenticationResponseError::UserBackupCode(UserBackupCodeError::CodeNotValid))
    );
    assert_eq!(
        code_to_spend(Err(QueryError::NotFound)),
        Err(AuthenticationResponseError::UserBackupCode(UserBackupCodeError::CodeNotFound))
    );
}

#[test]
fn registration_needs_a_free_username() {
    assert_eq!(
        username_free(Ok(user(Some("u1")))),
        Err(AuthenticationResponseError::User(UserError::UsernameAlreadyExists))
    );
    assert_eq!(username_free(Err(QueryError::NotFound)), Ok(()));
}

#[test]
fn logout_revokes_the_validated_token() {
    let token = VerifiedToken::new("tok".to_string(), "u1".to_string(), Some(5));
    assert_eq!(token_to_revoke(Ok(token)), Ok("tok".to_string()));
    assert_eq!(
        token_to_revoke(Err(AuthenticationError::TokenExpired)),
        Err(auth_error(AuthenticationError::InvalidToken))
    );
}

#[test]
fn registration_needs_a_stored_id() {
    let (u, id) = created_user(Ok(user(Some("u9")))).unwrap();
    assert_eq!(id, "u9");
    assert_eq!(u.id.as_deref(), Some("u9"));
    let failed = AuthenticationResponseError::User(UserError::UserCreationFailed);
    assert_eq!(created_user(Ok(user(None))).err(), Some(failed));
    assert_eq!(created_user(Err(QueryError::ConstraintViolation)).err(), Some(failed));
}

#[test]
fn fresh_session_token_is_a_uuid() {
    match plan_session(Err(QueryError::NotFound), "u1") {
        SessionPlan::Create(fields) => {
            let token = fields[1].1.text().unwrap();
            assert_eq!(token.len(), 36);
            assert_eq!(token.chars().nth(14), Some('4'));
            assert_eq!(fields[0].1, DatabaseValue::String("u1".to_string()));
        }
        SessionPlan::Renew(_) => panic!("expected a creation"),
    }
}
