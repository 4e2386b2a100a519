use vstd::prelude::*;

verus! {

/// Failures of login, logout and token checks.
#[derive(Debug, Clone, Copy, PartialEq, Eq, Structural)]
pub enum AuthenticationError {
    UserNotFound,
    InvalidCredentials,
    SessionCreationFailed,
    SessionDeletionFailed,
    SessionUpdateFailed,
    SessionNotFound,
    InvalidToken,
    TokenExpired,
}

impl AuthenticationError {
    pub open spec fn message(self) -> Seq<char> {
        match self {
            AuthenticationError::UserNotFound => "User not found"@,
            AuthenticationError::InvalidCredentials => "Invalid credentials"@,
            AuthenticationError::SessionCreationFailed => "Failed to create session"@,
            AuthenticationError::SessionDeletionFailed => "Failed to delete session"@,
            AuthenticationError::SessionUpdateFailed => "Failed to update session"@,
            AuthenticationError::SessionNotFound => "Session not found"@,
            AuthenticationError::InvalidToken => "Invalid token"@,
            AuthenticationError::TokenExpired => "Token expired"@,
        }
    }

    /// The message shown to users.
    pub fn to_string(&self) -> (r: String)
        ensures
            r@ == self.message(),
    {
        proof {
            reveal_strlit("User not found");
            reveal_strlit("Invalid credentials");
            reveal_strlit("Failed to create session");
            reveal_strlit("Failed to delete session");
            reveal_strlit("Failed to update session");
            reveal_strlit("Session not found");
            reveal_strlit("Invalid token");
            reveal_strlit("Token expired");
        }
        match self {
            AuthenticationError::UserNotFound => String::from_str("User not found"),
            AuthenticationError::InvalidCredentials => String::from_str("Invalid credentials"),
            AuthenticationError::SessionCreationFailed => String::from_str(
                "Failed to create session",
            ),
            AuthenticationError::SessionDeletionFailed => String::from_str(
                "Failed to delete session",
            ),
            AuthenticationError::SessionUpdateFailed => String::from_str(
                "Failed to update session",
            ),
            AuthenticationError::SessionNotFound => String::from_str("Session not found"),
            AuthenticationError::InvalidToken => String::from_str("Invalid token"),
            AuthenticationError::TokenExpired => String::from_str("Token expired"),
        }
    }
}

/// Failures around backup codes.
#[derive(Debug, Clone, Copy, PartialEq, Eq, Structural)]
pub enum UserBackupCodeError {
    CodeAlreadyUsed,
    CodeNotFound,
    CodeExpired,
    CodeNotValid,
    CodeCreationFailed,
    CodeVerificationFailed,
    CodeDeletionFailed,
    CodeUpdateFailed,
}

impl UserBackupCodeError {
    pub open spec fn message(self) -> Seq<char> {
        match self {
            UserBackupCodeError::CodeAlreadyUsed => "Code already used"@,
            UserBackupCodeError::CodeNotFound => "Code not found"@,
            UserBackupCodeError::CodeExpired => "Code expired"@,
            UserBackupCodeError::CodeNotValid => "Code not valid"@,
            UserBackupCodeError::CodeCreationFailed => "Code creation failed"@,
            UserBackupCodeError::CodeVerificationFailed => "Code verification failed"@,
            UserBackupCodeError::CodeDeletionFailed => "Code deletion failed"@,
            UserBackupCodeError::CodeUpdateFailed => "Code update failed"@,
        }
    }

    /// The message shown to users.
    pub fn to_string(&self) -> (r: String)
        ensures
            r@ == self.message(),
    {
        proof {
            reveal_strlit("Code already used");
            reveal_strlit("Code not found");
            reveal_strlit("Code expired");
            reveal_strlit("Code not valid");
            reveal_strlit("Code creation failed");
            reveal_strlit("Code verification failed");
            reveal_strlit("Code deletion failed");
            reveal_strlit("Code update failed");
        }
        match self {
            UserBackupCodeError::CodeAlreadyUsed => String::from_str("Code already used"),
            UserBackupCodeError::CodeNotFound => String::from_str("Code not found"),
            UserBackupCodeError::CodeExpired => String::from_str("Code expired"),
            UserBackupCodeError::CodeNotValid => String::from_str("Code not valid"),
            UserBackupCodeError::CodeCreationFailed => String::from_str("Code creation failed"),
            UserBackupCodeError::CodeVerificationFailed => String::from_str(
                "Code verification failed",
            ),
            UserBackupCodeError::CodeDeletionFailed => String::from_str("Code deletion failed"),
            UserBackupCodeError::CodeUpdateFailed => String::from_str("Code update failed"),
        }
    }
}

/// Failures around stored user tokens.
#[derive(Debug, Clone, Copy, PartialEq, Eq, Structural)]
pub enum UserTokenError {
    UserTokenCreationFailed,
    UserTokenUpdateFailed,
    UserTokenDeletionFailed,
    UserTokenNotFound,
}

impl UserTokenError {
    pub open spec fn message(self) -> Seq<char> {
        match self {
            UserTokenError::UserTokenCreationFailed => "User token creation failed"@,
            UserTokenError::UserTokenUpdateFailed => "User token update failed"@,
            UserTokenError::UserTokenDeletionFailed => "User token deletion failed"@,
            UserTokenError::UserTokenNotFound => "User token not found"@,
        }
    }

    /// The message shown to users.
    pub fn to_string(&self) -> (r: String)
        ensures
            r@ == self.message(),
    {
        proof {
            reveal_strlit("User token creation failed");
            reveal_strlit("User token update failed");
            reveal_strlit("User token deletion failed");
            reveal_strlit("User token not found");
        }
        match self {
            UserTokenError::UserTokenCreationFailed => String::from_str(
                "User token creation failed",
            ),
            UserTokenError::UserTokenUpdateFailed => String::from_str("User token update failed"),
            UserTokenError::UserTokenDeletionFailed => String::from_str(
                "User token deletion failed",
            ),
            UserTokenError::UserTokenNotFound => String::from_str("User token not found"),
        }
    }
}

/// Failures around user accounts.
#[derive(Debug, Clone, Copy, PartialEq, Eq, Structural)]
pub enum UserError {
    UserNotFound,
    UsernameAlreadyExists,
    UserCreationFailed,
    UserUpdateFailed,
}

impl UserError {
    pub open spec fn message(self) -> Seq<char> {
        match self {
            UserError::UserNotFound => "User not found"@,
            UserError::UsernameAlreadyExists => "Username already exists"@,
            UserError::UserCreationFailed => "User creation failed"@,
            UserError::UserUpdateFailed => "User update failed"@,
        }
    }

    /// The message shown to users.
    pub fn to_string(&self) -> (r: String)
        ensures
            r@ == self.message(),
    {
        proof {
            reveal_strlit("User not found");
            reveal_strlit("Username already exists");
            reveal_strlit("User creation failed");
            reveal_strlit("User update failed");
        }
        match self {
            UserError::UserNotFound => String::from_str("User not found"),
            UserError::UsernameAlreadyExists => String::from_str("Username already exists"),
            UserError::UserCreationFailed => String::from_str("User creation failed"),
            UserError::UserUpdateFailed => String::from_str("User update failed"),
        }
    }
}

/// The error carried by an authentication endpoint's response.
#[derive(Debug, Clone, Copy, PartialEq, Eq, Structural)]
pub enum AuthenticationResponseError {
    User(UserError),
    UserBackupCode(UserBackupCodeError),
    Authentication(AuthenticationError),
}

impl AuthenticationResponseError {
    pub open spec fn message(self) -> Seq<char> {
        match self {
            AuthenticationResponseError::User(e) => e.message(),
            AuthenticationResponseError::UserBackupCode(e) => e.message(),
            AuthenticationResponseError::Authentication(e) => e.message(),
        }
    }

    /// The message of the wrapped error.
    pub fn to_string(&self) -> (r: String)
        ensures
            r@ == self.message(),
    {
        match self {
            AuthenticationResponseError::User(e) => e.to_string(),
            AuthenticationResponseError::UserBackupCode(e) => e.to_string(),
            AuthenticationResponseError::Authentication(e) => e.to_string(),
        }
    }
}

impl From<UserError> for AuthenticationResponseError {
    fn from(error: UserError) -> (r: Self) {
        AuthenticationResponseError::User(error)
    }
}

impl vstd::std_specs::convert::FromSpecImpl<UserError> for AuthenticationResponseError {
    open spec fn obeys_from_spec() -> bool {
        true
    }

    open spec fn from_spec(error: UserError) -> Self {
        AuthenticationResponseError::User(error)
    }
}

impl From<UserBackupCodeError> for AuthenticationResponseError {
    fn from(error: UserBackupCodeError) -> (r: Self) {
        AuthenticationResponseError::UserBackupCode(error)
    }
}

impl vstd::std_specs::convert::FromSpecImpl<UserBackupCodeError> for AuthenticationResponseError {
    open spec fn obeys_from_spec() -> bool {
        true
    }

    open spec fn from_spec(error: UserBackupCodeError) -> Self {
        AuthenticationResponseError::UserBackupCode(error)
    }
}

impl From<AuthenticationError> for AuthenticationResponseError {
    fn from(error: AuthenticationError) -> (r: Self) {
        AuthenticationResponseError::Authentication(error)
    }
}

impl vstd::std_specs::convert::FromSpecImpl<AuthenticationError> for AuthenticationResponseError {
    open spec fn obeys_from_spec() -> bool {
        true
    }

    open spec fn from_spec(error: AuthenticationError) -> Self {
        AuthenticationResponseError::Authentication(error)
    }
}

} // verus!
