//! The decisions the authentication endpoints take between database steps.
//! Each function takes the outcome of one step and says what comes next: the
//! data for the following step, or the error the endpoint answers with.

use vstd::prelude::*;
use crate::api::VerifiedToken;
use crate::clock::new_uuid;
use crate::auth::{text_pair, usable_code_id};
use crate::errors::{
    AuthenticationError, AuthenticationResponseError, UserBackupCodeError, UserError,
};
use crate::fields;
use crate::models::{Authentication, User, UserBackupCode};
use crate::query::QueryError;
use crate::values::{DatabaseValue, ValueKind};

verus! {

/// The outcome of a step, with `error` as the answer when it failed.
pub fn or_fail<T>(outcome: Result<T, QueryError>, error: AuthenticationResponseError) -> (r: Result<
    T,
    AuthenticationResponseError,
>)
    ensures
        outcome is Ok ==> r == Ok::<T, AuthenticationResponseError>(outcome->Ok_0),
        outcome is Err ==> r == Err::<T, AuthenticationResponseError>(error),
{
    match outcome {
        Ok(v) => Ok(v),
        Err(_) => Err(error),
    }
}

/// After looking a user up (by credentials for login, by name for a password
/// reset): the user's id, or `UserNotFound` when no user (or no id) was found.
pub fn found_user_id(lookup: Result<User, QueryError>) -> (r: Result<String, AuthenticationResponseError>)
    ensures
        (lookup is Ok && lookup->Ok_0.id is Some) ==> r == Ok::<
            String,
            AuthenticationResponseError,
        >(lookup->Ok_0.id.unwrap()),
        !(lookup is Ok && lookup->Ok_0.id is Some) ==> r == Err::<
            String,
            AuthenticationResponseError,
        >(AuthenticationResponseError::Authentication(AuthenticationError::UserNotFound)),
{
    match lookup {
        Ok(user) => match user.id {
            Some(id) => Ok(id),
            None => Err(AuthenticationResponseError::Authentication(AuthenticationError::UserNotFound)),
        },
        Err(_) => Err(AuthenticationResponseError::Authentication(AuthenticationError::UserNotFound)),
    }
}

/// What login does with the user's session.
pub enum SessionPlan {
    /// Renew the session that was found; the answer is that session.
    Renew(Authentication),
    /// Insert a session with these fields; the answer is the inserted row.
    Create(Vec<(String, DatabaseValue)>),
}

/// After looking the user's session up: renew the one found, or create one
/// holding the user's id and the fresh `token`.
pub fn session_plan(lookup: Result<Authentication, QueryError>, user_id: &str, token: &str) -> (r:
    SessionPlan)
    ensures
        lookup is Ok ==> r == SessionPlan::Renew(lookup->Ok_0),
        lookup is Err ==> r is Create && fields::fields_view(r->Create_0@) == seq![
            ("user_id"@, (ValueKind::String, user_id@)),
            ("token"@, (ValueKind::String, token@)),
        ],
{
    match lookup {
        Ok(session) => SessionPlan::Renew(session),
        Err(_) => {
            let f = text_pair("user_id", user_id, "token", token);
            proof {
                reveal_strlit("user_id");
                reveal_strlit("token");
            }
            SessionPlan::Create(f)
        },
    }
}

/// `session_plan` with a freshly generated token.
pub fn plan_session(lookup: Result<Authentication, QueryError>, user_id: &str) -> (r: SessionPlan)
    ensures
        lookup is Ok ==> r == SessionPlan::Renew(lookup->Ok_0),
        lookup is Err ==> r is Create && exists|token: Seq<char>|
            crate::clock::is_uuid_v4_text(token) && fields::fields_view(r->Create_0@) == seq![
                ("user_id"@, (ValueKind::String, user_id@)),
                ("token"@, (ValueKind::String, token)),
            ],
{
    let token = new_uuid();
    session_plan(lookup, user_id, token.as_str())
}

/// The session login answers with, once the plan's write has run:
/// `SessionUpdateFailed` or `SessionCreationFailed` when it failed.
pub fn login_outcome(plan: SessionPlan, written: Result<Authentication, QueryError>) -> (r: Result<
    Authentication,
    AuthenticationResponseError,
>)
    ensures
        plan is Renew ==> r == if written is Ok {
            Ok::<Authentication, AuthenticationResponseError>(plan->Renew_0)
        } else {
            Err(AuthenticationResponseError::Authentication(AuthenticationError::SessionUpdateFailed))
        },
        plan is Create ==> r == if written is Ok {
            Ok::<Authentication, AuthenticationResponseError>(written->Ok_0)
        } else {
            Err(
                AuthenticationResponseError::Authentication(
                    AuthenticationError::SessionCreationFailed,
                ),
            )
        },
{
    match plan {
        SessionPlan::Renew(session) => match written {
            Ok(_) => Ok(session),
            Err(_) => Err(
                AuthenticationResponseError::Authentication(AuthenticationError::SessionUpdateFailed),
            ),
        },
        SessionPlan::Create(_) => match written {
            Ok(session) => Ok(session),
            Err(_) => Err(
                AuthenticationResponseError::Authentication(
                    AuthenticationError::SessionCreationFailed,
                ),
            ),
        },
    }
}

/// After looking a backup code up for a password reset: the id of the code
/// to spend, `CodeNotFound` when none was found, or why it cannot be used.
pub fn code_to_spend(lookup: Result<UserBackupCode, QueryError>) -> (r: Result<
    String,
    AuthenticationResponseError,
>)
    ensures
        lookup is Err ==> r == Err::<String, AuthenticationResponseError>(
            AuthenticationResponseError::UserBackupCode(UserBackupCodeError::CodeNotFound),
        ),
        lookup is Ok ==> {
            let c = lookup->Ok_0;
            if c.used == Some(true) {
                r == Err::<String, AuthenticationResponseError>(
                    AuthenticationResponseError::UserBackupCode(UserBackupCodeError::CodeAlreadyUsed),
                )
            } else if c.used == Some(false) && c.id is Some {
                r == Ok::<String, AuthenticationResponseError>(c.id.unwrap())
            } else {
                r == Err::<String, AuthenticationResponseError>(
                    AuthenticationResponseError::UserBackupCode(UserBackupCodeError::CodeNotValid),
                )
            }
        },
{
    match lookup {
        Ok(code) => {
            let spent = usable_code_id(&code);
            proof {
                if code.used is Some {
                    assert(code.used == Some(true) || code.used == Some(false));
                }
            }
            match spent {
                Ok(id) => Ok(id),
                Err(e) => Err(AuthenticationResponseError::UserBackupCode(e)),
            }
        },
        Err(_) => Err(AuthenticationResponseError::UserBackupCode(UserBackupCodeError::CodeNotFound)),
    }
}

/// After looking the requested username up for a registration: it may
/// proceed only when the lookup found nobody (a failed lookup counts as
/// nobody), else `UsernameAlreadyExists`.
pub fn username_free(lookup: Result<User, QueryError>) -> (r: Result<(), AuthenticationResponseError>)
    ensures
        lookup is Ok ==> r == Err::<(), AuthenticationResponseError>(
            AuthenticationResponseError::User(UserError::UsernameAlreadyExists),
        ),
        lookup is Err ==> r is Ok,
{
    match lookup {
        Ok(_) => Err(AuthenticationResponseError::User(UserError::UsernameAlreadyExists)),
        Err(_) => Ok(()),
    }
}

/// After inserting a new user: the user and its id, or `UserCreationFailed`
/// when the insert failed or the stored user has no id.
pub fn created_user(inserted: Result<User, QueryError>) -> (r: Result<
    (User, String),
    AuthenticationResponseError,
>)
    ensures
        (inserted is Ok && inserted->Ok_0.id is Some) ==> r == Ok::<
            (User, String),
            AuthenticationResponseError,
        >((inserted->Ok_0, inserted->Ok_0.id.unwrap())),
        !(inserted is Ok && inserted->Ok_0.id is Some) ==> r == Err::<
            (User, String),
            AuthenticationResponseError,
        >(AuthenticationResponseError::User(UserError::UserCreationFailed)),
{
    match inserted {
        Ok(user) => match &user.id {
            Some(id) => {
                let id = id.clone();
                Ok((user, id))
            },
            None => Err(AuthenticationResponseError::User(UserError::UserCreationFailed)),
        },
        Err(_) => Err(AuthenticationResponseError::User(UserError::UserCreationFailed)),
    }
}

/// After validating the bearer token for a logout: the token whose session
/// is deleted, or `InvalidToken`.
pub fn token_to_revoke(validated: Result<VerifiedToken, AuthenticationError>) -> (r: Result<
    String,
    AuthenticationResponseError,
>)
    ensures
        (validated is Ok && validated->Ok_0.raw_token is Some) ==> r == Ok::<
            String,
            AuthenticationResponseError,
        >(validated->Ok_0.raw_token.unwrap()),
        !(validated is Ok && validated->Ok_0.raw_token is Some) ==> r == Err::<
            String,
            AuthenticationResponseError,
        >(AuthenticationResponseError::Authentication(AuthenticationError::InvalidToken)),
{
    match validated {
        Ok(token) => match token.raw_token {
            Some(raw) => Ok(raw),
            None => Err(AuthenticationResponseError::Authentication(AuthenticationError::InvalidToken)),
        },
        Err(_) => Err(AuthenticationResponseError::Authentication(AuthenticationError::InvalidToken)),
    }
}

} // verus!
