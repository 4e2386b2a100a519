use vstd::prelude::*;
use crate::errors::{AuthenticationError, AuthenticationResponseError};
use crate::clock::now_unix_nanos;
use crate::models::{Authentication, User};

verus! {

/// A JSON value, carried through unread.
#[verifier::external_type_specification]
#[verifier::external_body]
pub struct ExJsonValue(serde_json::Value);

/// The body every authentication endpoint answers with: an error and its
/// message, or data and an optional message.
#[derive(Debug)]
pub struct AuthenticationResponse {
    pub error: Option<AuthenticationResponseError>,
    pub message: Option<String>,
    pub data: Option<serde_json::Value>,
}

impl AuthenticationResponse {
    /// A successful answer carrying `data`.
    pub fn success(data: serde_json::Value, message: Option<String>) -> (r: Self)
        ensures
            r.error is None,
            r.message == message,
            r.data == Some(data),
    {
        AuthenticationResponse { error: None, message, data: Some(data) }
    }

    /// A failed answer carrying `error` and `message`.
    pub fn error(error: AuthenticationResponseError, message: String) -> (r: Self)
        ensures
            r.error == Some(error),
            r.message == Some(message),
            r.data is None,
    {
        AuthenticationResponse { error: Some(error), message: Some(message), data: None }
    }

    /// A failed answer carrying `error` and its own message.
    pub fn failure(error: AuthenticationResponseError) -> (r: Self)
        ensures
            r.error == Some(error),
            r.message is Some && r.message.unwrap()@ == error.message(),
            r.data is None,
    {
        let message = error.to_string();
        AuthenticationResponse::error(error, message)
    }
}

/// Login request body.
#[derive(Debug, Clone)]
pub struct AuthenticationRequest {
    pub username: String,
    pub password: String,
}

/// Password reset request body: a backup code stands in for the old password.
#[derive(Debug, Clone)]
pub struct ResetPasswordRequest {
    pub username: String,
    pub code: String,
    pub new_password: String,
}

/// Registration request body.
#[derive(Debug, Clone)]
pub struct RegisterRequest {
    pub username: String,
    pub password: String,
    pub first_name: String,
    pub last_name: String,
}

/// Registration answer: the new user and the backup codes issued to them.
#[derive(Debug, Clone)]
pub struct RegisterResponse {
    pub user: User,
    pub backup_codes: Vec<String>,
}

/// Username availability request body.
#[derive(Debug, Clone)]
pub struct CheckUsernameRequest {
    pub username: String,
}

/// Username availability answer.
#[derive(Debug, Clone)]
pub struct CheckUsernameResponse {
    pub available: bool,
    pub message: Option<String>,
}

impl CheckUsernameResponse {
    pub fn error(available: bool, message: Option<String>) -> (r: Self)
        ensures
            r.available == available,
            r.message == message,
    {
        CheckUsernameResponse { available, message }
    }

    pub fn success(available: bool, message: Option<String>) -> (r: Self)
        ensures
            r.available == available,
            r.message == message,
    {
        CheckUsernameResponse { available, message }
    }

    /// The answer once it is known whether a user already has the name.
    pub fn for_lookup(taken: bool) -> (r: Self)
        ensures
            r.available == !taken,
            r.message is Some,
            r.message.unwrap()@ == if taken {
                "Username is not available"@
            } else {
                "Username is available"@
            },
    {
        proof {
            reveal_strlit("Username is not available");
            reveal_strlit("Username is available");
        }
        if taken {
            CheckUsernameResponse::error(false, Some(String::from_str("Username is not available")))
        } else {
            CheckUsernameResponse::success(true, Some(String::from_str("Username is available")))
        }
    }
}

/// A session token as handed to clients.
#[derive(Debug, Clone)]
pub struct Token {
    pub user_id: String,
    pub token: String,
    pub expires_at: String,
}

/// A token as received from a client, not yet checked.
#[derive(Debug, Clone)]
pub struct RawToken {
    pub value: String,
}

/// A token checked against a live session.
#[derive(Debug, Clone)]
pub struct VerifiedToken {
    pub raw_token: Option<String>,
    pub user_id: String,
    /// Nanoseconds since the Unix epoch.
    pub expires_at: Option<i128>,
}

/// The index of the first space in `s`, if any.
pub open spec fn first_space(s: Seq<char>, i: int) -> bool {
    &&& 0 <= i < s.len()
    &&& s[i] == ' '
    &&& forall|j: int| 0 <= j < i ==> s[j] != ' '
}

/// `s` up to its first space.
pub open spec fn first_word(s: Seq<char>) -> Seq<char> {
    if exists|i: int| first_space(s, i) {
        s.take(choose|i: int| first_space(s, i))
    } else {
        s
    }
}

/// The second space-separated piece of an `Authorization` header
/// (`Bearer <token>`), or empty when there is none.
pub open spec fn bearer_value(header: Seq<char>) -> Seq<char> {
    if exists|i: int| first_space(header, i) {
        first_word(header.skip((choose|i: int| first_space(header, i)) + 1))
    } else {
        seq![]
    }
}

proof fn lemma_first_space_unique(s: Seq<char>, i: int, k: int)
    requires
        first_space(s, i),
        first_space(s, k),
    ensures
        i == k,
{
    if i < k {
        assert(s[i] != ' ');
    } else if k < i {
        assert(s[k] != ' ');
    }
}

/// The position of the first space at or after `from`, or the length.
fn find_space(s: &str, from: usize) -> (r: usize)
    requires
        from <= s@.len(),
    ensures
        from <= r <= s@.len(),
        r < s@.len() ==> s@[r as int] == ' ',
        forall|j: int| from <= j < r ==> s@[j] != ' ',
{
    let n = s.unicode_len();
    let mut i = from;
    while i < n
        invariant
            n == s@.len(),
            from <= i <= n,
            forall|j: int| from <= j < i ==> s@[j] != ' ',
        decreases n - i,
    {
        if s.get_char(i) == ' ' {
            return i;
        }
        i = i + 1;
    }
    i
}

impl RawToken {
    /// The token of an `Authorization: Bearer <token>` header; empty when the
    /// header is missing or has no second piece.
    pub fn from_authorization(header: Option<&str>) -> (r: RawToken)
        ensures
            r.value@ == match header {
                Option::Some(h) => bearer_value(h@),
                Option::None => seq![],
            },
    {
        match header {
            None => RawToken { value: String::new() },
            Some(h) => {
                let n = h.unicode_len();
                let i = find_space(h, 0);
                if i == n {
                    proof {
                        assert(!exists|k: int| first_space(h@, k));
                    }
                    return RawToken { value: String::new() };
                }
                let j = find_space(h, i + 1);
                let piece = h.substring_char(i + 1, j);
                proof {
                    assert(first_space(h@, i as int));
                    let k = choose|k: int| first_space(h@, k);
                    lemma_first_space_unique(h@, i as int, k);
                    let rest = h@.skip(i + 1);
                    if j < n {
                        assert(first_space(rest, j - i - 1));
                        let m = choose|m: int| first_space(rest, m);
                        lemma_first_space_unique(rest, (j - i - 1) as int, m);
                        assert(piece@ =~= rest.take(j - i - 1));
                    } else {
                        assert(!exists|m: int| first_space(rest, m)) by {
                            if exists|m: int| first_space(rest, m) {
                                let m = choose|m: int| first_space(rest, m);
                                assert(h@[i + 1 + m] == ' ');
                            }
                        }
                        assert(piece@ =~= rest);
                    }
                }
                RawToken { value: String::from_str(piece) }
            },
        }
    }
}

impl VerifiedToken {
    pub fn new(raw_token: String, user_id: String, expires_at: Option<i128>) -> (r: Self)
        ensures
            r.raw_token == Some(raw_token),
            r.user_id == user_id,
            r.expires_at == expires_at,
    {
        VerifiedToken { raw_token: Some(raw_token), user_id, expires_at }
    }

    /// Checks a raw token against the session found for it (`None` where the
    /// lookup failed) at the instant `now`: no session means `InvalidToken`, a
    /// session without expiry or expired before `now` means `TokenExpired`.
    pub fn from_session(raw_token: RawToken, session: Option<Authentication>, now: i128) -> (r:
        Result<Self, AuthenticationError>)
        ensures
            session is None ==> r == Err::<Self, AuthenticationError>(
                AuthenticationError::InvalidToken,
            ),
            session is Some ==> {
                let s = session.unwrap();
                if s.expires_at is None || s.expires_at.unwrap() < now {
                    r == Err::<Self, AuthenticationError>(AuthenticationError::TokenExpired)
                } else {
                    r is Ok && r.unwrap().raw_token == Some(raw_token.value) && r.unwrap().user_id
                        == s.user_id && r.unwrap().expires_at == s.expires_at
                }
            },
    {
        match session {
            None => Err(AuthenticationError::InvalidToken),
            Some(s) => match s.expires_at {
                None => Err(AuthenticationError::TokenExpired),
                Some(at) => {
                    if at < now {
                        Err(AuthenticationError::TokenExpired)
                    } else {
                        Ok(VerifiedToken::new(raw_token.value, s.user_id, Some(at)))
                    }
                },
            },
        }
    }
}

/// `r` is the outcome of validating `token` against `session` at the instant
/// `now`: an empty token means `SessionNotFound`; no session, a session
/// without expiry or one expired before `now` means `InvalidToken`; otherwise
/// the verified token carries the raw token, the session's user and expiry.
pub open spec fn validation_at(
    token: RawToken,
    session: Option<Authentication>,
    now: int,
    r: Result<VerifiedToken, AuthenticationError>,
) -> bool {
    if token.value@.len() == 0 {
        r == Err::<VerifiedToken, AuthenticationError>(AuthenticationError::SessionNotFound)
    } else {
        match session {
            Option::None => r == Err::<VerifiedToken, AuthenticationError>(
                AuthenticationError::InvalidToken,
            ),
            Option::Some(s) => if s.expires_at is None || s.expires_at.unwrap() < now {
                r == Err::<VerifiedToken, AuthenticationError>(AuthenticationError::InvalidToken)
            } else {
                r is Ok && r.unwrap().raw_token == Some(token.value) && r.unwrap().user_id
                    == s.user_id && r.unwrap().expires_at == s.expires_at
            },
        }
    }
}

/// Validates a raw token given the session found for it (see
/// `validation_at`).
pub fn validate_token(token: RawToken, session: Option<Authentication>, now: i128) -> (r: Result<
    VerifiedToken,
    AuthenticationError,
>)
    ensures
        validation_at(token, session, now as int, r),
{
    if token.value.as_str().unicode_len() == 0 {
        return Err(AuthenticationError::SessionNotFound);
    }
    match VerifiedToken::from_session(token, session, now) {
        Ok(t) => Ok(t),
        Err(_) => Err(AuthenticationError::InvalidToken),
    }
}

/// `validate_token` at the current time.
pub fn validate_token_now(token: RawToken, session: Option<Authentication>) -> (r: Result<
    VerifiedToken,
    AuthenticationError,
>)
    ensures
        exists|now: i128| validation_at(token, session, now as int, r),
{
    validate_token(token, session, now_unix_nanos())
}

} // verus!
