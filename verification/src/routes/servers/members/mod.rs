//! Members of a server.
use vstd::prelude::*;
use crate::routes::validation::{length_within, optional_length_within};
use crate::structures::member::Member;
use crate::structures::role::Role;
use crate::utils::error::{Error, Result};
use crate::utils::permissions::{
    has_bits,
    lemma_with_bits_of_view,
    Permissions,
    CHANGE_NICKNAME,
    MANAGE_NICKNAMES,
    MANAGE_ROLES,
};
use crate::utils::snowflakes::Snowflake;
use self::edit::{
    apply_member_changes, check_roles_in_order, lemma_roles_in_order_are_server_roles,
    requested_role, role_ids, roles_in_order,
};

pub mod edit;
pub mod fetch;

verus! {

pub struct UpdateMemberOptions {
    pub nickname: Option<String>,
    pub roles: Option<Vec<u64>>,
}

impl UpdateMemberOptions {
    /// A nickname, when one is given, has 1 to 32 characters.
    pub fn is_valid(&self) -> (r: bool)
        ensures
            r == match self.nickname {
                Some(n) => length_within(n@, 1, 32),
                None => true,
            },
    {
        optional_length_within(&self.nickname, 1, 32)
    }

    /// Applies the update to a member with permissions `p` on a server whose
    /// roles are `roles`. A new nickname needs either nickname permission, new
    /// roles the permission to manage roles, both held as such; each requested
    /// role must be one of the server's, named in the server's order. On an
    /// error the member is unchanged.
    pub fn apply(&self, member: &mut Member, p: Permissions, roles: &Vec<Role>) -> (r: Result<()>)
        ensures
            match update_refusal(p@, *self, role_ids(roles@)) {
                Some(e) => r == Err::<(), Error>(e) && final(member).nickname == old(member).nickname
                    && final(member).roles@ == old(member).roles@,
                None => r is Ok,
            },
            r is Ok ==> match self.nickname {
                Some(n) => if n@.len() == 0 {
                    final(member).nickname is None
                } else {
                    final(member).nickname matches Some(m) && m@ == n@
                },
                None => final(member).nickname == old(member).nickname,
            },
            r is Ok ==> final(member).roles@ == match self.roles {
                Some(ids) => ids@.map_values(|id: u64| requested_role(id)),
                None => old(member).roles@,
            },
            final(member).id == old(member).id,
            final(member).server_id == old(member).server_id,
            final(member).joined_at == old(member).joined_at,
    {
        if self.nickname.is_some() && !p.contains(Permissions::change_nickname()) && !p.contains(
            Permissions::manage_nicknames(),
        ) {
            let wanted = Permissions::change_nickname().union(Permissions::manage_nicknames());
            let missing = wanted.difference(p);
            proof {
                lemma_with_bits_of_view(missing);
            }
            return Err(Error::MissingPermissions(missing));
        }
        if let Some(ids) = &self.roles {
            p.require(Permissions::manage_roles())?;
            if !check_roles_in_order(ids, roles) {
                return Err(Error::UnknownRole);
            }
        }
        apply_member_changes(member, &self.nickname, &self.roles);
        Ok(())
    }
}

/// The error, if any, that an update meets, in the order of the checks.
pub open spec fn update_refusal(p: u64, data: UpdateMemberOptions, roles: Seq<Snowflake>) -> Option<
    Error,
> {
    if data.nickname is Some && !has_bits(p, CHANGE_NICKNAME) && !has_bits(p, MANAGE_NICKNAMES) {
        Some(
            Error::MissingPermissions(
                Permissions::spec_with_bits((CHANGE_NICKNAME | MANAGE_NICKNAMES) & !p),
            ),
        )
    } else if data.roles is Some && !has_bits(p, MANAGE_ROLES) {
        Some(Error::MissingPermissions(Permissions::spec_with_bits(MANAGE_ROLES & !p)))
    } else if data.roles is Some && !roles_in_order(data.roles.unwrap()@, roles, 0, 0) {
        Some(Error::UnknownRole)
    } else {
        None
    }
}

pub struct FetchMembersOptions {
    pub limit: Option<u64>,
}

impl FetchMembersOptions {
    /// A limit, when one is given, lies within 2..=1000.
    pub fn is_valid(&self) -> (r: bool)
        ensures
            r == match self.limit {
                Some(l) => 2 <= l <= 1000,
                None => true,
            },
    {
        match self.limit {
            Some(l) => 2 <= l && l <= 1000,
            None => true,
        }
    }
}

/// Leaving a server needs no permission; removing someone else needs the
/// permission to kick members.
pub fn kick_requires_permission(user_id: Snowflake, member_id: Snowflake) -> (r: bool)
    ensures
        r == (user_id != member_id),
{
    user_id != member_id
}

/// An update goes through only with the permissions it needs, held as such:
/// a new nickname needs the permission to change a nickname or the one to
/// manage nicknames, new roles the permission to manage roles, and every
/// requested role must be one of the server's.
pub proof fn law_update_needs_its_permissions(p: u64, data: UpdateMemberOptions, roles: Seq<Snowflake>)
    requires
        update_refusal(p, data, roles) is None,
    ensures
        data.nickname is Some ==> p & CHANGE_NICKNAME == CHANGE_NICKNAME || p & MANAGE_NICKNAMES
            == MANAGE_NICKNAMES,
        data.roles is Some ==> p & MANAGE_ROLES == MANAGE_ROLES,
        data.roles is Some ==> forall|j: int|
            0 <= j < data.roles.unwrap()@.len() ==> roles.contains(
                Snowflake(#[trigger] data.roles.unwrap()@[j] as i64),
            ),
{
    if data.roles is Some {
        lemma_roles_in_order_are_server_roles(data.roles.unwrap()@, roles, 0, 0);
        assert forall|j: int| 0 <= j < data.roles.unwrap()@.len() implies roles.contains(
            Snowflake(#[trigger] data.roles.unwrap()@[j] as i64),
        ) by {
            assert(requested_role(data.roles.unwrap()@[j]) == Snowflake(data.roles.unwrap()@[j] as i64));
        }
    }
}

} // verus!
