use vstd::prelude::*;
use crate::routes::validation::{char_length_within, length_within};
use crate::structures::role::Role;
use crate::utils::permissions::Permissions;

verus! {

pub struct CreateRoleOptions {
    pub name: String,
    pub color: i32,
    pub permissions: Permissions,
    pub hoist: bool,
}

impl CreateRoleOptions {
    /// The name has 1 to 32 characters.
    pub fn is_valid(&self) -> (r: bool)
        ensures
            r == length_within(self.name@, 1, 32),
    {
        char_length_within(&self.name, 1, 32)
    }

    /// Merges the request into a new role: every field it names is replaced.
    pub fn merge_into(self, role: &mut Role)
        ensures
            final(role).name == self.name,
            final(role).color == self.color,
            final(role).permissions == self.permissions,
            final(role).hoist == self.hoist,
            final(role).id == old(role).id,
            final(role).server_id == old(role).server_id,
    {
        role.name = self.name;
        role.color = self.color;
        role.permissions = self.permissions;
        role.hoist = self.hoist;
    }
}

} // verus!
