use vstd::prelude::*;
use crate::api::{AuthenticationRequest, RegisterRequest};
use crate::codes::{self, hash_password};
use crate::errors::{
    AuthenticationError, AuthenticationResponseError, UserBackupCodeError, UserError,
};
use crate::fields;
use crate::models::UserBackupCode;
use crate::query::QueryError;
use crate::values::{DatabaseValue, ValueKind};

verus! {

fn push_text(p: &mut Vec<(String, DatabaseValue)>, name: &str, text: &str)
    ensures
        fields::fields_view(final(p)@) == fields::fields_view(old(p)@).push(
            (name@, (ValueKind::String, text@)),
        ),
{
    let ghost before = p@;
    let entry = (String::from_str(name), DatabaseValue::String(String::from_str(text)));
    p.push(entry);
    proof {
        assert forall|j: int| 0 <= j < p@.len() implies fields::fields_view(p@)[j]
            == fields::fields_view(before).push((name@, (ValueKind::String, text@)))[j] by {
            if j < before.len() {
                assert(p@[j] == before[j]);
            }
        }
        assert(fields::fields_view(p@) =~= fields::fields_view(before).push(
            (name@, (ValueKind::String, text@)),
        ));
    }
}

/// Conditions that find the user a login names: the username and the stored
/// form of the password.
pub fn login_conditions(req: &AuthenticationRequest) -> (r: Vec<(String, DatabaseValue)>)
    ensures
        fields::fields_view(r@) == seq![
            ("username"@, (ValueKind::String, req.username@)),
            ("user_password"@, (ValueKind::String, codes::password_hash_of(req.password@))),
        ],
{
    let mut r: Vec<(String, DatabaseValue)> = Vec::new();
    push_text(&mut r, "username", req.username.as_str());
    let hashed = hash_password(req.password.as_str());
    push_text(&mut r, "user_password", hashed.as_str());
    proof {
        reveal_strlit("username");
        reveal_strlit("user_password");
        assert(fields::fields_view(r@) =~= seq![
            ("username"@, (ValueKind::String, req.username@)),
            ("user_password"@, (ValueKind::String, codes::password_hash_of(req.password@))),
        ]);
    }
    r
}

/// The single condition `<name> = <text>`.
pub fn text_condition(name: &str, text: &str) -> (r: Vec<(String, DatabaseValue)>)
    ensures
        fields::fields_view(r@) == seq![(name@, (ValueKind::String, text@))],
{
    let mut r: Vec<(String, DatabaseValue)> = Vec::new();
    push_text(&mut r, name, text);
    assert(fields::fields_view(r@) =~= seq![(name@, (ValueKind::String, text@))]);
    r
}

/// The two text fields `<first> = <a>`, `<second> = <b>`.
pub fn text_pair(first: &str, a: &str, second: &str, b: &str) -> (r: Vec<(String, DatabaseValue)>)
    ensures
        fields::fields_view(r@) == seq![
            (first@, (ValueKind::String, a@)),
            (second@, (ValueKind::String, b@)),
        ],
{
    let mut r: Vec<(String, DatabaseValue)> = Vec::new();
    push_text(&mut r, first, a);
    push_text(&mut r, second, b);
    assert(fields::fields_view(r@) =~= seq![
        (first@, (ValueKind::String, a@)),
        (second@, (ValueKind::String, b@)),
    ]);
    r
}

/// The fields of a new user: username, stored password, first and last name.
pub fn register_fields(req: &RegisterRequest) -> (r: Vec<(String, DatabaseValue)>)
    ensures
        fields::fields_view(r@) == seq![
            ("username"@, (ValueKind::String, req.username@)),
            ("user_password"@, (ValueKind::String, codes::password_hash_of(req.password@))),
            ("first_name"@, (ValueKind::String, req.first_name@)),
            ("last_name"@, (ValueKind::String, req.last_name@)),
        ],
{
    let mut r: Vec<(String, DatabaseValue)> = Vec::new();
    push_text(&mut r, "username", req.username.as_str());
    let hashed = hash_password(req.password.as_str());
    push_text(&mut r, "user_password", hashed.as_str());
    push_text(&mut r, "first_name", req.first_name.as_str());
    push_text(&mut r, "last_name", req.last_name.as_str());
    proof {
        reveal_strlit("username");
        reveal_strlit("user_password");
        reveal_strlit("first_name");
        reveal_strlit("last_name");
        assert(fields::fields_view(r@) =~= seq![
            ("username"@, (ValueKind::String, req.username@)),
            ("user_password"@, (ValueKind::String, codes::password_hash_of(req.password@))),
            ("first_name"@, (ValueKind::String, req.first_name@)),
            ("last_name"@, (ValueKind::String, req.last_name@)),
        ]);
    }
    r
}

/// The field that replaces a user's password.
pub fn password_fields(new_password: &str) -> (r: Vec<(String, DatabaseValue)>)
    ensures
        fields::fields_view(r@) == seq![
            ("user_password"@, (ValueKind::String, codes::password_hash_of(new_password@))),
        ],
{
    let hashed = hash_password(new_password);
    let r = text_condition("user_password", hashed.as_str());
    proof {
        reveal_strlit("user_password");
    }
    r
}

/// The field that marks a backup code as used.
pub fn code_used_fields() -> (r: Vec<(String, DatabaseValue)>)
    ensures
        fields::fields_view(r@) == seq![("used"@, (ValueKind::Boolean, "true"@))],
{
    let mut r: Vec<(String, DatabaseValue)> = Vec::new();
    r.push((String::from_str("used"), DatabaseValue::Boolean(String::from_str("true"))));
    proof {
        reveal_strlit("used");
        reveal_strlit("true");
        assert(fields::fields_view(r@) =~= seq![("used"@, (ValueKind::Boolean, "true"@))]);
    }
    r
}

/// The id of a backup code that may still be used: a used code is refused
/// with `CodeAlreadyUsed`, one whose state or id is missing with `CodeNotValid`.
pub fn usable_code_id(code: &UserBackupCode) -> (r: Result<String, UserBackupCodeError>)
    ensures
        code.used == Some(true) ==> r == Err::<String, UserBackupCodeError>(
            UserBackupCodeError::CodeAlreadyUsed,
        ),
        code.used == Some(false) && code.id is Some ==> r == Ok::<String, UserBackupCodeError>(
            code.id.unwrap(),
        ),
        (code.used is None || (code.used == Some(false) && code.id is None)) ==> r == Err::<
            String,
            UserBackupCodeError,
        >(UserBackupCodeError::CodeNotValid),
{
    match code.used {
        Some(true) => Err(UserBackupCodeError::CodeAlreadyUsed),
        Some(false) => match &code.id {
            Some(id) => Ok(id.clone()),
            None => Err(UserBackupCodeError::CodeNotValid),
        },
        None => Err(UserBackupCodeError::CodeNotValid),
    }
}

/// A freshly drawn backup code may be kept when the lookup for it succeeded
/// and found no code with that text; otherwise another is drawn.
pub fn backup_code_is_free(lookup: &Result<Vec<UserBackupCode>, QueryError>) -> (r: bool)
    ensures
        r == (lookup is Ok && lookup->Ok_0@.len() == 0),
{
    match lookup {
        Ok(found) => found.len() == 0,
        Err(_) => false,
    }
}

/// The HTTP status an endpoint answers with for each error.
pub open spec fn status_of(error: AuthenticationResponseError) -> u16 {
    match error {
        AuthenticationResponseError::Authentication(e) => match e {
            AuthenticationError::UserNotFound => 404,
            AuthenticationError::SessionCreationFailed => 500,
            AuthenticationError::SessionUpdateFailed => 500,
            AuthenticationError::SessionDeletionFailed => 500,
            _ => 400,
        },
        AuthenticationResponseError::UserBackupCode(e) => match e {
            UserBackupCodeError::CodeNotFound => 404,
            UserBackupCodeError::CodeUpdateFailed => 500,
            _ => 400,
        },
        AuthenticationResponseError::User(e) => match e {
            UserError::UserNotFound => 404,
            UserError::UserUpdateFailed => 500,
            _ => 400,
        },
    }
}

pub fn error_status(error: AuthenticationResponseError) -> (r: u16)
    ensures
        r == status_of(error),
{
    match error {
        AuthenticationResponseError::Authentication(e) => match e {
            AuthenticationError::UserNotFound => 404,
            AuthenticationError::SessionCreationFailed => 500,
            AuthenticationError::SessionUpdateFailed => 500,
            AuthenticationError::SessionDeletionFailed => 500,
            _ => 400,
        },
        AuthenticationResponseError::UserBackupCode(e) => match e {
            UserBackupCodeError::CodeNotFound => 404,
            UserBackupCodeError::CodeUpdateFailed => 500,
            _ => 400,
        },
        AuthenticationResponseError::User(e) => match e {
            UserError::UserNotFound => 404,
            UserError::UserUpdateFailed => 500,
            _ => 400,
        },
    }
}

} // verus!
