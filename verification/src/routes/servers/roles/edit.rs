use vstd::prelude::*;
use crate::routes::validation::{length_within, optional_length_within};
use crate::structures::role::Role;
use crate::utils::permissions::Permissions;

verus! {

pub struct EditRoleOptions {
    pub name: Option<String>,
    pub color: Option<i32>,
    pub permissions: Option<Permissions>,
    pub hoist: Option<bool>,
}

impl EditRoleOptions {
    /// A name, when one is given, has 1 to 32 characters.
    pub fn is_valid(&self) -> (r: bool)
        ensures
            r == match self.name {
                Some(n) => length_within(n@, 1, 32),
                None => true,
            },
    {
        optional_length_within(&self.name, 1, 32)
    }

    /// Merges the request into the role: each field that it gives replaces
    /// the role's, and the others stay.
    pub fn merge_into(self, role: &mut Role)
        ensures
            final(role).name == match self.name {
                Some(n) => n,
                None => old(role).name,
            },
            final(role).color == match self.color {
                Some(c) => c,
                None => old(role).color,
            },
            final(role).permissions == match self.permissions {
                Some(p) => p,
                None => old(role).permissions,
            },
            final(role).hoist == match self.hoist {
                Some(h) => h,
                None => old(role).hoist,
            },
            final(role).id == old(role).id,
            final(role).server_id == old(role).server_id,
    {
        if let Some(value) = self.name {
            role.name = value;
        }
        if let Some(value) = self.color {
            role.color = value;
        }
        if let Some(value) = self.permissions {
            role.permissions = value;
        }
        if let Some(value) = self.hoist {
            role.hoist = value;
        }
    }
}

} // verus!
