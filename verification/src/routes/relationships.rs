//! Friend requests, blocks and their removal. Each request is checked against
//! the caller's own relations first; when that lets it through, the other
//! user is loaded and both sides are updated together.
use vstd::prelude::*;
use crate::structures::user::{RelationshipStatus, User, blocked_ids, relation};
use crate::utils::error::{Error, Result};

verus! {

/// The statuses that two users may hold towards each other: none at all, a
/// friendship, a request and its other side, or a block and its other side.
pub open spec fn mutual(a: Option<RelationshipStatus>, b: Option<RelationshipStatus>) -> bool {
    match (a, b) {
        (None, None) => true,
        (Some(RelationshipStatus::Friend), Some(RelationshipStatus::Friend)) => true,
        (Some(RelationshipStatus::Outgoing), Some(RelationshipStatus::Incoming)) => true,
        (Some(RelationshipStatus::Incoming), Some(RelationshipStatus::Outgoing)) => true,
        (Some(RelationshipStatus::Blocked), Some(RelationshipStatus::BlockedByOther)) => true,
        (Some(RelationshipStatus::BlockedByOther), Some(RelationshipStatus::Blocked)) => true,
        (Some(RelationshipStatus::Blocked), Some(RelationshipStatus::Blocked)) => true,
        _ => false,
    }
}

/// The answer to a friend request, given how the requester stands towards the
/// target; `None` lets the request through.
pub open spec fn add_refusal(mine: Option<RelationshipStatus>) -> Option<Error> {
    match mine {
        Some(RelationshipStatus::Friend) => Some(Error::AlreadyFriends),
        Some(RelationshipStatus::Blocked) => Some(Error::Blocked),
        Some(RelationshipStatus::BlockedByOther) => Some(Error::BlockedByOther),
        Some(RelationshipStatus::Outgoing) => Some(Error::AlreadySendRequest),
        _ => None,
    }
}

/// The new statuses (requester's, target's) of a friend request: a request
/// that answers the target's own request makes both friends.
pub open spec fn add_statuses(theirs: Option<RelationshipStatus>) -> (
    RelationshipStatus,
    RelationshipStatus,
) {
    if theirs == Some(RelationshipStatus::Outgoing) {
        (RelationshipStatus::Friend, RelationshipStatus::Friend)
    } else {
        (RelationshipStatus::Outgoing, RelationshipStatus::Incoming)
    }
}

/// The new statuses (blocker's, blocked user's) of a block: blocking someone
/// who blocked you makes the block mutual.
pub open spec fn block_statuses(mine: Option<RelationshipStatus>) -> (
    RelationshipStatus,
    RelationshipStatus,
) {
    if mine == Some(RelationshipStatus::BlockedByOther) {
        (RelationshipStatus::Blocked, RelationshipStatus::Blocked)
    } else {
        (RelationshipStatus::Blocked, RelationshipStatus::BlockedByOther)
    }
}

/// The statuses (remover's, other's) after a relation is removed: undoing a
/// block that the other user also holds leaves the remover blocked by them;
/// anything else is forgotten on both sides.
pub open spec fn delete_statuses(theirs: Option<RelationshipStatus>) -> (
    Option<RelationshipStatus>,
    Option<RelationshipStatus>,
) {
    if theirs == Some(RelationshipStatus::Blocked) {
        (Some(RelationshipStatus::BlockedByOther), Some(RelationshipStatus::Blocked))
    } else {
        (None, None)
    }
}

/// Checks a friend request from `user` to the user with id `target_id`.
pub fn check_add(user: &User, target_id: i64) -> (r: Result<()>)
    ensures
        r is Ok <==> add_refusal(relation(*user, target_id)) is None,
        r matches Err(e) ==> add_refusal(relation(*user, target_id)) == Some(e),
{
    match user.relation_to(target_id) {
        Some(RelationshipStatus::Friend) => Err(Error::AlreadyFriends),
        Some(RelationshipStatus::Blocked) => Err(Error::Blocked),
        Some(RelationshipStatus::BlockedByOther) => Err(Error::BlockedByOther),
        Some(RelationshipStatus::Outgoing) => Err(Error::AlreadySendRequest),
        _ => Ok(()),
    }
}

/// Sends or accepts a friend request and returns the new statuses (the
/// requester's, the target's). Each user's `relationship` becomes the status
/// that the other holds, as each is sent to the other.
pub fn apply_add(user: &mut User, target: &mut User) -> (r: (RelationshipStatus, RelationshipStatus))
    ensures
        r == add_statuses(relation(*old(target), old(user).id.0)),
        final(user).relations.value()@ == old(user).relations.value()@.insert(old(target).id.0, r.0),
        final(target).relations.value()@ == old(target).relations.value()@.insert(old(user).id.0, r.1),
        final(user).relationship == Some(r.1),
        final(target).relationship == Some(r.0),
        final(user).id == old(user).id,
        final(target).id == old(target).id,
        (final(user).relations is Hidden) == (old(user).relations is Hidden),
        (final(target).relations is Hidden) == (old(target).relations is Hidden),
{
    let status = if target.relation_to(user.id.0) == Some(RelationshipStatus::Outgoing) {
        (RelationshipStatus::Friend, RelationshipStatus::Friend)
    } else {
        (RelationshipStatus::Outgoing, RelationshipStatus::Incoming)
    };
    user.set_relation(target.id.0, status.0);
    target.set_relation(user.id.0, status.1);
    user.relationship = Some(status.1);
    target.relationship = Some(status.0);
    status
}

/// Checks a block of the user with id `target_id`: `Ok(false)` when it is
/// already blocked and nothing is left to do, `Ok(true)` when the block goes
/// ahead. A user who has blocked `max_blocked` users or more cannot block
/// anyone else.
pub fn check_block(user: &User, target_id: i64, max_blocked: u64) -> (r: Result<bool>)
    ensures
        r == (if max_blocked <= blocked_ids(user.relations.value()@).len() {
            Err(Error::MaximumBlocked)
        } else if relation(*user, target_id) == Some(RelationshipStatus::Blocked) {
            Ok(false)
        } else {
            Ok(true)
        }),
{
    if max_blocked <= user.blocked_count() as u64 {
        return Err(Error::MaximumBlocked);
    }
    if user.relation_to(target_id) == Some(RelationshipStatus::Blocked) {
        return Ok(false);
    }
    Ok(true)
}

/// Blocks `target` and returns the new statuses (the blocker's, the blocked
/// user's).
pub fn apply_block(user: &mut User, target: &mut User) -> (r: (
    RelationshipStatus,
    RelationshipStatus,
))
    ensures
        r == block_statuses(relation(*old(user), old(target).id.0)),
        final(user).relations.value()@ == old(user).relations.value()@.insert(old(target).id.0, r.0),
        final(target).relations.value()@ == old(target).relations.value()@.insert(old(user).id.0, r.1),
        final(user).relationship == Some(r.1),
        final(target).relationship == Some(r.0),
        final(user).id == old(user).id,
        final(target).id == old(target).id,
        (final(user).relations is Hidden) == (old(user).relations is Hidden),
        (final(target).relations is Hidden) == (old(target).relations is Hidden),
{
    let status = if user.relation_to(target.id.0) == Some(RelationshipStatus::BlockedByOther) {
        (RelationshipStatus::Blocked, RelationshipStatus::Blocked)
    } else {
        (RelationshipStatus::Blocked, RelationshipStatus::BlockedByOther)
    };
    user.set_relation(target.id.0, status.0);
    target.set_relation(user.id.0, status.1);
    user.relationship = Some(status.1);
    target.relationship = Some(status.0);
    status
}

/// Checks the removal of the relation with the user with id `target_id`: an
/// unknown relation is an error, and a block that the other user holds cannot
/// be removed from this side (`Ok(false)`, nothing changes).
pub fn check_delete(user: &User, target_id: i64) -> (r: Result<bool>)
    ensures
        r == (match relation(*user, target_id) {
            None => Err(Error::UnknownUser),
            Some(RelationshipStatus::BlockedByOther) => Ok(false),
            Some(_) => Ok(true),
        }),
{
    match user.relation_to(target_id) {
        None => Err(Error::UnknownUser),
        Some(RelationshipStatus::BlockedByOther) => Ok(false),
        Some(_) => Ok(true),
    }
}

/// Removes the relation between the two users. The target must hold a status
/// towards the user; each `relationship` becomes the status that the other
/// holds afterwards.
pub fn apply_delete(user: &mut User, target: &mut User)
    requires
        relation(*old(target), old(user).id.0) is Some,
    ensures
        relation(*old(target), old(user).id.0) == Some(RelationshipStatus::Blocked) ==> {
            &&& final(user).relations.value()@ == old(user).relations.value()@.insert(
                old(target).id.0,
                RelationshipStatus::BlockedByOther,
            )
            &&& final(target).relations.value()@ == old(target).relations.value()@
        },
        relation(*old(target), old(user).id.0) != Some(RelationshipStatus::Blocked) ==> {
            &&& final(user).relations.value()@ == old(user).relations.value()@.remove(
                old(target).id.0,
            )
            &&& final(target).relations.value()@ == old(target).relations.value()@.remove(
                old(user).id.0,
            )
        },
        final(user).relationship == relation(*final(target), old(user).id.0),
        final(target).relationship == relation(*final(user), old(target).id.0),
        final(user).id == old(user).id,
        final(target).id == old(target).id,
        (final(user).relations is Hidden) == (old(user).relations is Hidden),
        (final(target).relations is Hidden) == (old(target).relations is Hidden),
{
    if target.relation_to(user.id.0) == Some(RelationshipStatus::Blocked) {
        user.set_relation(target.id.0, RelationshipStatus::BlockedByOther);
    } else {
        target.remove_relation(user.id.0);
        user.remove_relation(target.id.0);
    }
    user.relationship = target.relation_to(user.id.0);
    target.relationship = user.relation_to(target.id.0);
}

/// A friend request that `check_add` lets through leaves two users who held
/// matching statuses with matching statuses.
pub proof fn law_add_keeps_relations_mutual(
    mine: Option<RelationshipStatus>,
    theirs: Option<RelationshipStatus>,
)
    requires
        mutual(mine, theirs),
        add_refusal(mine) is None,
    ensures
        mutual(Some(add_statuses(theirs).0), Some(add_statuses(theirs).1)),
{
}

/// A block leaves two users who held matching statuses with matching statuses.
pub proof fn law_block_keeps_relations_mutual(
    mine: Option<RelationshipStatus>,
    theirs: Option<RelationshipStatus>,
)
    requires
        mutual(mine, theirs),
    ensures
        mutual(Some(block_statuses(mine).0), Some(block_statuses(mine).1)),
{
}

/// Removing a relation that `check_delete` lets through leaves two users who held
/// matching statuses with matching statuses; the other side always holds a
/// status then, as the removal needs.
pub proof fn law_delete_keeps_relations_mutual(
    mine: Option<RelationshipStatus>,
    theirs: Option<RelationshipStatus>,
)
    requires
        mutual(mine, theirs),
        mine is Some,
        mine != Some(RelationshipStatus::BlockedByOther),
    ensures
        theirs is Some,
        mutual(delete_statuses(theirs).0, delete_statuses(theirs).1),
{
}

/// Accepting a request: when the target had asked the requester first, the two
/// become friends on both sides.
pub proof fn law_answered_request_makes_friends(theirs: Option<RelationshipStatus>)
    requires
        theirs == Some(RelationshipStatus::Outgoing),
    ensures
        add_statuses(theirs) == (RelationshipStatus::Friend, RelationshipStatus::Friend),
{
}

/// Blocking someone who has not blocked you marks only you as blocking: you
/// hold `Blocked` and the other user learns that you block them. Blocking
/// someone who already blocks you makes the block mutual.
pub proof fn law_block_marks_only_the_blocker(mine: Option<RelationshipStatus>)
    ensures
        mine != Some(RelationshipStatus::BlockedByOther) ==> block_statuses(mine) == (
            RelationshipStatus::Blocked,
            RelationshipStatus::BlockedByOther,
        ),
        mine == Some(RelationshipStatus::BlockedByOther) ==> block_statuses(mine) == (
            RelationshipStatus::Blocked,
            RelationshipStatus::Blocked,
        ),
{
}

/// A friend request that does not answer one from the target is left
/// pending: the requester's side is outgoing, the target's incoming.
pub proof fn law_unanswered_request_is_pending(theirs: Option<RelationshipStatus>)
    ensures
        theirs != Some(RelationshipStatus::Outgoing) ==> add_statuses(theirs) == (
            RelationshipStatus::Outgoing,
            RelationshipStatus::Incoming,
        ),
{
}

/// A friend request goes through only when the requester holds no status
/// towards the target or has an incoming request from them; every other
/// status names its own refusal.
pub proof fn law_add_refusals(mine: Option<RelationshipStatus>)
    ensures
        add_refusal(mine) is None <==> (mine is None || mine == Some(
            RelationshipStatus::Incoming,
        )),
        mine == Some(RelationshipStatus::Friend) ==> add_refusal(mine) == Some(
            Error::AlreadyFriends,
        ),
        mine == Some(RelationshipStatus::Blocked) ==> add_refusal(mine) == Some(Error::Blocked),
        mine == Some(RelationshipStatus::BlockedByOther) ==> add_refusal(mine) == Some(
            Error::BlockedByOther,
        ),
        mine == Some(RelationshipStatus::Outgoing) ==> add_refusal(mine) == Some(
            Error::AlreadySendRequest,
        ),
{
}

/// Removing a relation forgets it on both sides, except when the other user
/// blocks the remover: then the remover's own block is lifted and they are
/// left blocked by the other.
pub proof fn law_removal_forgets_both_sides(theirs: Option<RelationshipStatus>)
    ensures
        theirs != Some(RelationshipStatus::Blocked) ==> delete_statuses(theirs) == (
            None::<RelationshipStatus>,
            None::<RelationshipStatus>,
        ),
        theirs == Some(RelationshipStatus::Blocked) ==> delete_statuses(theirs) == (
            Some(RelationshipStatus::BlockedByOther),
            Some(RelationshipStatus::Blocked),
        ),
{
}

} // verus!
