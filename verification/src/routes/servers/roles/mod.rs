//! Roles of a server.
use vstd::prelude::*;
use crate::routes::validation::{char_length_within, length_within, optional_length_within};
use crate::structures::role::Role;
use crate::utils::error::{Error, Result};
use crate::utils::permissions::Permissions;

pub mod create;
pub mod edit;

verus! {

pub struct CreateRoleOptions {
    pub name: String,
    pub color: u8,
    pub permissions: Permissions,
    pub hoist: bool,
}

impl CreateRoleOptions {
    /// The name has 1 to 32 characters.
    pub fn is_valid(&self) -> (r: bool)
        ensures
            r == length_within(self.name@, 1, 32),
    {
        char_length_within(&self.name, 1, 32)
    }

    /// Sets the role's permissions, hoisting and color from the request.
    pub fn apply_to(&self, role: &mut Role)
        ensures
            final(role).permissions == self.permissions,
            final(role).hoist == self.hoist,
            final(role).color == self.color as i32,
            final(role).name == old(role).name,
            final(role).id == old(role).id,
            final(role).server_id == old(role).server_id,
    {
        role.permissions = self.permissions;
        role.hoist = self.hoist;
        role.color = self.color as i32;
    }
}

pub struct UpdateRoleOptions {
    pub name: Option<String>,
    pub color: Option<u8>,
    pub permissions: Option<Permissions>,
    pub hoist: Option<bool>,
}

impl UpdateRoleOptions {
    /// A name, when one is given, has 1 to 32 characters.
    pub fn is_valid(&self) -> (r: bool)
        ensures
            r == match self.name {
                Some(n) => length_within(n@, 1, 32),
                None => true,
            },
    {
        optional_length_within(&self.name, 1, 32)
    }

    /// Changes the fields that the request gives and keeps the others.
    pub fn apply_to(&self, role: &mut Role)
        ensures
            match self.name {
                Some(n) => final(role).name@ == n@,
                None => final(role).name == old(role).name,
            },
            final(role).permissions == match self.permissions {
                Some(p) => p,
                None => old(role).permissions,
            },
            final(role).hoist == match self.hoist {
                Some(h) => h,
                None => old(role).hoist,
            },
            final(role).color == match self.color {
                Some(c) => c as i32,
                None => old(role).color,
            },
            final(role).id == old(role).id,
            final(role).server_id == old(role).server_id,
    {
        if let Some(name) = &self.name {
            role.name = name.clone();
        }
        if let Some(permissions) = self.permissions {
            role.permissions = permissions;
        }
        if let Some(hoist) = self.hoist {
            role.hoist = hoist;
        }
        if let Some(color) = self.color {
            role.color = color as i32;
        }
    }
}

/// A server may hold fewer than `max_roles` roles before a new one is made.
pub fn check_role_count(count: u64, max_roles: u64) -> (r: Result<()>)
    ensures
        r is Ok <==> count < max_roles,
        r is Err ==> r == Err::<(), Error>(Error::MaximumRoles),
{
    if count >= max_roles {
        return Err(Error::MaximumRoles);
    }
    Ok(())
}

} // verus!
