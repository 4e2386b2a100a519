use vstd::prelude::*;
use crate::resource::ResourceDescriptor;

verus! {

/// A login session. Instants are nanoseconds since the Unix epoch.
#[derive(Debug, Clone)]
pub struct Authentication {
    pub id: String,
    pub user_id: String,
    pub token: String,
    pub expires_at: Option<i128>,
    pub created_at: Option<i128>,
    pub updated_at: Option<i128>,
    pub archived_at: Option<i128>,
}

/// A one-time code that lets a user reset their password.
#[derive(Debug, Clone)]
pub struct UserBackupCode {
    pub id: Option<String>,
    pub code: Option<String>,
    pub user_id: Option<String>,
    pub used: Option<bool>,
    pub created_at: Option<i128>,
    pub updated_at: Option<i128>,
    pub archived_at: Option<i128>,
}

/// A token issued to a user for a purpose named by `token_type`.
#[derive(Debug, Clone)]
pub struct UserToken {
    pub id: Option<String>,
    pub user_id: Option<String>,
    pub token_value: Option<String>,
    pub token_type: Option<String>,
    pub created_at: Option<i128>,
    pub verified_at: Option<i128>,
    pub archived_at: Option<i128>,
}

/// A user account; the password is stored hashed.
#[derive(Debug, Clone)]
pub struct User {
    pub id: Option<String>,
    pub username: Option<String>,
    pub user_password: Option<String>,
    pub first_name: Option<String>,
    pub last_name: Option<String>,
    pub created_at: Option<i128>,
    pub updated_at: Option<i128>,
    pub archived_at: Option<i128>,
}

impl Authentication {
    /// Stored in `authentications`; ids, creation, update and expiry are
    /// automatic; deleting removes the row.
    pub fn resource() -> (r: ResourceDescriptor)
        ensures
            r.wf(),
            r.name@ == "Authentication"@,
            r.has_id && r.is_creatable && r.is_updatable && r.is_expirable,
            !r.is_archivable && !r.is_verifiable,
    {
        proof {
            reveal_strlit("Authentication");
        }
        ResourceDescriptor {
            name: "Authentication",
            has_id: true,
            is_creatable: true,
            is_updatable: true,
            is_expirable: true,
            is_archivable: false,
            is_verifiable: false,
        }
    }
}

impl UserBackupCode {
    /// Stored in `user_backup_codes`; ids, creation and update are automatic;
    /// deleting archives the row.
    pub fn resource() -> (r: ResourceDescriptor)
        ensures
            r.wf(),
            r.name@ == "UserBackupCode"@,
            r.has_id && r.is_creatable && r.is_updatable && r.is_archivable,
            !r.is_expirable && !r.is_verifiable,
    {
        proof {
            reveal_strlit("UserBackupCode");
        }
        ResourceDescriptor {
            name: "UserBackupCode",
            has_id: true,
            is_creatable: true,
            is_updatable: true,
            is_expirable: false,
            is_archivable: true,
            is_verifiable: false,
        }
    }
}

impl UserToken {
    /// Stored in `user_tokens`; ids and creation are automatic; tokens are
    /// verifiable; deleting removes the row.
    pub fn resource() -> (r: ResourceDescriptor)
        ensures
            r.wf(),
            r.name@ == "UserToken"@,
            r.has_id && r.is_creatable && r.is_verifiable,
            !r.is_updatable && !r.is_expirable && !r.is_archivable,
    {
        proof {
            reveal_strlit("UserToken");
        }
        ResourceDescriptor {
            name: "UserToken",
            has_id: true,
            is_creatable: true,
            is_updatable: false,
            is_expirable: false,
            is_archivable: false,
            is_verifiable: true,
        }
    }
}

impl User {
    /// Stored in `users`; ids, creation and update are automatic; deleting
    /// removes the row.
    pub fn resource() -> (r: ResourceDescriptor)
        ensures
            r.wf(),
            r.name@ == "User"@,
            r.has_id && r.is_creatable && r.is_updatable,
            !r.is_expirable && !r.is_archivable && !r.is_verifiable,
    {
        proof {
            reveal_strlit("User");
        }
        ResourceDescriptor {
            name: "User",
            has_id: true,
            is_creatable: true,
            is_updatable: true,
            is_expirable: false,
            is_archivable: false,
            is_verifiable: false,
        }
    }
}

} // verus!
