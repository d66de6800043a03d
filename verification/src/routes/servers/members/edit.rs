//! Editing a member: the nickname and the roles.
use vstd::prelude::*;
use crate::routes::validation::{length_within, optional_length_within};
use crate::structures::member::Member;
use crate::structures::role::Role;
use crate::utils::error::{Error, Result};
use crate::utils::permissions::{
    grants,
    Permissions,
    CHANGE_NICKNAME,
    MANAGE_NICKNAMES,
    MANAGE_ROLES,
};
use crate::utils::snowflakes::Snowflake;

verus! {

pub struct EditMemberOptions {
    pub nickname: Option<String>,
    pub roles: Option<Vec<u64>>,
}

impl EditMemberOptions {
    /// A nickname, when one is given, has 1 to 32 characters.
    pub fn is_valid(&self) -> (r: bool)
        ensures
            r == match self.nickname {
                Some(n) => length_within(n@, 1, 32),
                None => true,
            },
    {
        optional_length_within(&self.nickname, 1, 32)
    }
}

/// The id that a requested role number stands for.
pub open spec fn requested_role(id: u64) -> Snowflake {
    Snowflake(id as i64)
}

/// The first position at or after `pos` at which `roles` holds `id`, or the end.
pub open spec fn next_role(roles: Seq<Snowflake>, pos: int, id: Snowflake) -> int
    decreases roles.len() - pos,
{
    if pos >= roles.len() || roles[pos] == id {
        pos
    } else {
        next_role(roles, pos + 1, id)
    }
}

/// The requested roles from the `i`-th on are found among the server's roles
/// from position `pos` on, one after the other: the server's roles are walked
/// once, so the request must name them in the order in which the server lists
/// them.
pub open spec fn roles_in_order(ids: Seq<u64>, roles: Seq<Snowflake>, i: int, pos: int) -> bool
    decreases ids.len() - i, roles.len() - pos,
{
    if i < 0 || i >= ids.len() || pos < 0 {
        i >= ids.len()
    } else {
        let k = next_role(roles, pos, requested_role(ids[i]));
        if k >= roles.len() {
            false
        } else {
            proof {
                lemma_next_role_bounds(roles, pos, requested_role(ids[i]));
            }
            roles_in_order(ids, roles, i + 1, k + 1)
        }
    }
}

pub proof fn lemma_next_role_bounds(roles: Seq<Snowflake>, pos: int, id: Snowflake)
    requires
        0 <= pos,
    ensures
        pos <= next_role(roles, pos, id),
        pos <= roles.len() ==> next_role(roles, pos, id) <= roles.len(),
        next_role(roles, pos, id) < roles.len() ==> roles[next_role(roles, pos, id)] == id,
    decreases roles.len() - pos,
{
    if pos < roles.len() && roles[pos] != id {
        lemma_next_role_bounds(roles, pos + 1, id);
    }
}

pub open spec fn role_ids(roles: Seq<Role>) -> Seq<Snowflake> {
    roles.map_values(|r: Role| r.id)
}

/// The error, if any, that an edit meets, in the order of the checks: a new
/// nickname needs both nickname permissions, new roles need the permission to
/// manage roles, and each requested role must be one of the server's.
pub open spec fn edit_refusal(p: u64, data: EditMemberOptions, roles: Seq<Snowflake>) -> Option<
    Error,
> {
    if data.nickname is Some && !grants(p, CHANGE_NICKNAME) {
        Some(Error::MissingPermissions(missing_of(p, CHANGE_NICKNAME)))
    } else if data.nickname is Some && !grants(p, MANAGE_NICKNAMES) {
        Some(Error::MissingPermissions(missing_of(p, MANAGE_NICKNAMES)))
    } else if data.roles is Some && !grants(p, MANAGE_ROLES) {
        Some(Error::MissingPermissions(missing_of(p, MANAGE_ROLES)))
    } else if data.roles is Some && !roles_in_order(data.roles.unwrap()@, roles, 0, 0) {
        Some(Error::UnknownRole)
    } else {
        None
    }
}

/// The permissions whose bits are those of `bits` that `p` lacks.
pub open spec fn missing_of(p: u64, bits: u64) -> Permissions {
    Permissions::spec_with_bits(bits & !p)
}

/// Finds `id` among the server's roles from position `pos` on.
fn find_role(roles: &Vec<Role>, pos: usize, id: Snowflake) -> (r: usize)
    requires
        pos <= roles.len(),
    ensures
        r == next_role(role_ids(roles@), pos as int, id),
{
    let ghost ids = role_ids(roles@);
    let mut k = pos;
    proof {
        lemma_next_role_bounds(ids, pos as int, id);
    }
    while k < roles.len() && roles[k].id != id
        invariant
            pos <= k <= roles.len(),
            ids == role_ids(roles@),
            next_role(ids, k as int, id) == next_role(ids, pos as int, id),
        decreases roles.len() - k,
    {
        k = k + 1;
    }
    k
}

/// Whether the requested roles are the server's, named in the server's order.
pub fn check_roles_in_order(ids: &Vec<u64>, roles: &Vec<Role>) -> (r: bool)
    ensures
        r == roles_in_order(ids@, role_ids(roles@), 0, 0),
{
    let ghost rids = role_ids(roles@);
    let mut i: usize = 0;
    let mut pos: usize = 0;
    while i < ids.len()
        invariant
            i <= ids.len(),
            pos <= roles.len(),
            rids == role_ids(roles@),
            roles_in_order(ids@, rids, i as int, pos as int) == roles_in_order(ids@, rids, 0, 0),
        decreases ids.len() - i,
    {
        let id = Snowflake(ids[i] as i64);
        let k = find_role(roles, pos, id);
        proof {
            lemma_next_role_bounds(rids, pos as int, id);
        }
        if k >= roles.len() {
            return false;
        }
        i = i + 1;
        pos = k + 1;
    }
    true
}

/// Puts the requested nickname and roles in place: a new nickname replaces the
/// old one and an empty one removes it; new roles replace the member's roles.
pub(crate) fn apply_member_changes(
    member: &mut Member,
    nickname: &Option<String>,
    roles: &Option<Vec<u64>>,
)
    ensures
        match nickname {
            Some(n) => if n@.len() == 0 {
                final(member).nickname is None
            } else {
                final(member).nickname matches Some(m) && m@ == n@
            },
            None => final(member).nickname == old(member).nickname,
        },
        final(member).roles@ == match roles {
            Some(ids) => ids@.map_values(|id: u64| requested_role(id)),
            None => old(member).roles@,
        },
        final(member).id == old(member).id,
        final(member).server_id == old(member).server_id,
        final(member).joined_at == old(member).joined_at,
{
    if let Some(nickname) = nickname {
        member.nickname = if nickname.as_str().unicode_len() == 0 {
            None
        } else {
            Some(nickname.clone())
        };
    }
    if let Some(ids) = roles {
        let mut picked: Vec<Snowflake> = Vec::new();
        let mut i: usize = 0;
        while i < ids.len()
            invariant
                i <= ids.len(),
                picked@ == ids@.take(i as int).map_values(|id: u64| requested_role(id)),
            decreases ids.len() - i,
        {
            picked.push(Snowflake(ids[i] as i64));
            i = i + 1;
            proof {
                assert(ids@.take(i as int).map_values(|id: u64| requested_role(id))
                    =~= ids@.take(i - 1).map_values(|id: u64| requested_role(id)).push(
                    requested_role(ids@[i - 1]),
                ));
            }
        }
        proof {
            assert(ids@.take(ids.len() as int) =~= ids@);
        }
        member.roles = picked;
    }
}

/// Applies an edit to a member with permissions `p` on a server whose roles
/// are `roles`. A new nickname replaces the old one, an empty one removes it;
/// new roles replace the member's roles. On an error the member is unchanged.
pub fn edit(member: &mut Member, p: Permissions, data: &EditMemberOptions, roles: &Vec<Role>) -> (r:
    Result<()>)
    ensures
        match edit_refusal(p@, *data, role_ids(roles@)) {
            Some(e) => r == Err::<(), Error>(e) && final(member).nickname == old(member).nickname
                && final(member).roles@ == old(member).roles@,
            None => r is Ok,
        },
        r is Ok ==> match data.nickname {
            Some(n) => if n@.len() == 0 {
                final(member).nickname is None
            } else {
                final(member).nickname matches Some(m) && m@ == n@
            },
            None => final(member).nickname == old(member).nickname,
        },
        r is Ok ==> final(member).roles@ == match data.roles {
            Some(ids) => ids@.map_values(|id: u64| requested_role(id)),
            None => old(member).roles@,
        },
        final(member).id == old(member).id,
        final(member).server_id == old(member).server_id,
        final(member).joined_at == old(member).joined_at,
{
    if data.nickname.is_some() {
        p.has(Permissions::change_nickname())?;
        p.has(Permissions::manage_nicknames())?;
    }
    if let Some(ids) = &data.roles {
        p.has(Permissions::manage_roles())?;
        if !check_roles_in_order(ids, roles) {
            return Err(Error::UnknownRole);
        }
    }
    apply_member_changes(member, &data.nickname, &data.roles);
    Ok(())
}

pub(crate) proof fn lemma_roles_in_order_are_server_roles(ids: Seq<u64>, roles: Seq<Snowflake>, i: int, pos: int)
    requires
        0 <= i,
        0 <= pos,
        roles_in_order(ids, roles, i, pos),
    ensures
        forall|j: int| i <= j < ids.len() ==> roles.contains(#[trigger] requested_role(ids[j])),
    decreases ids.len() - i, roles.len() - pos,
{
    if i < ids.len() {
        let k = next_role(roles, pos, requested_role(ids[i]));
        lemma_next_role_bounds(roles, pos, requested_role(ids[i]));
        assert(roles[k] == requested_role(ids[i]));
        lemma_roles_in_order_are_server_roles(ids, roles, i + 1, k + 1);
    }
}

/// An edit goes through only with the permissions it needs: a new nickname
/// needs both the permission to change a nickname and the one to manage
/// nicknames, new roles the permission to manage roles (an administrator holds
/// them all), and every requested role must be one of the server's.
pub proof fn law_edit_needs_its_permissions(p: u64, data: EditMemberOptions, roles: Seq<Snowflake>)
    requires
        edit_refusal(p, data, roles) is None,
    ensures
        data.nickname is Some ==> p & 1u64 == 1u64 || (p & CHANGE_NICKNAME == CHANGE_NICKNAME
            && p & MANAGE_NICKNAMES == MANAGE_NICKNAMES),
        data.roles is Some ==> p & 1u64 == 1u64 || p & MANAGE_ROLES == MANAGE_ROLES,
        data.roles is Some ==> forall|j: int|
            0 <= j < data.roles.unwrap()@.len() ==> roles.contains(
                Snowflake(#[trigger] data.roles.unwrap()@[j] as i64),
            ),
{
    if data.roles is Some {
        lemma_roles_in_order_are_server_roles(data.roles.unwrap()@, roles, 0, 0);
        assert forall|j: int| 0 <= j < data.roles.unwrap()@.len() implies roles.contains(
            Snowflake(#[trigger] data.roles.unwrap()@[j] as i64),
        ) by {
            assert(requested_role(data.roles.unwrap()@[j]) == Snowflake(data.roles.unwrap()@[j] as i64));
        }
    }
}

} // verus!
