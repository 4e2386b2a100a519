use vstd::prelude::*;

verus! {

use crate::naming;

/// How a record type maps to its table: the type's name, from which the
/// table name is derived, and the flags that decide which fields the query
/// builders fill in by themselves.
#[derive(Debug, Clone, Copy)]
pub struct ResourceDescriptor {
    pub name: &'static str,
    /// An `id` is generated on insert.
    pub has_id: bool,
    /// `created_at` is set on insert.
    pub is_creatable: bool,
    /// `updated_at` is set on insert and update.
    pub is_updatable: bool,
    /// `expires_at` is set to thirty days ahead on insert and update.
    pub is_expirable: bool,
    /// Deleting sets `archived_at` instead of removing the row.
    pub is_archivable: bool,
    pub is_verifiable: bool,
}

impl ResourceDescriptor {
    pub open spec fn wf(self) -> bool {
        naming::is_type_name(self.name@)
    }
}

} // verus!
