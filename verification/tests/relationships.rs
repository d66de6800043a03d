use itchat::routes::relationships::{
    apply_add, apply_block, apply_delete, check_add, check_block, check_delete,
};
use itchat::structures::user::{RelationshipStatus, User};
use itchat::utils::error::Error;
use itchat::utils::snowflakes::Snowflake;
use snowflake::SnowflakeIdGenerator;

fn user(id: i64) -> User {
    let mut g = SnowflakeIdGenerator::new(0, 0);
    let mut u = User::new(&mut g, format!("user{id}"), format!("{id}@x"), "pw".to_string());
    u.id = Snowflake(id);
    u
}

#[test]
fn friend_request_then_accept() {
    let mut a = user(1);
    let mut b = user(2);
    assert_eq!(check_add(&a, 2), Ok(()));
    let s = apply_add(&mut a, &mut b);
    assert_eq!(s, (RelationshipStatus::Outgoing, RelationshipStatus::Incoming));
    assert_eq!(a.relation_to(2), Some(RelationshipStatus::Outgoing));
    assert_eq!(b.relation_to(1), Some(RelationshipStatus::Incoming));
    assert_eq!(a.relationship, Some(RelationshipStatus::Incoming));
    assert_eq!(b.relationship, Some(RelationshipStatus::Outgoing));

    // Asking twice is refused.
    assert_eq!(check_add(&a, 2), Err(Error::AlreadySendRequest));

    // The other side accepts by asking back.
    assert_eq!(check_add(&b, 1), Ok(()));
    let s = apply_add(&mut b, &mut a);
    assert_eq!(s, (RelationshipStatus::Friend, RelationshipStatus::Friend));
    assert_eq!(a.relation_to(2), Some(RelationshipStatus::Friend));
    assert_eq!(b.relation_to(1), Some(RelationshipStatus::Friend));
    assert_eq!(check_add(&a, 2), Err(Error::AlreadyFriends));
}

#[test]
fn blocks() {
    let mut a = user(1);
    let mut b = user(2);
    assert_eq!(check_block(&a, 2, 10), Ok(true));
    let s = apply_block(&mut a, &mut b);
    assert_eq!(s, (RelationshipStatus::Blocked, RelationshipStatus::BlockedByOther));
    assert_eq!(check_block(&a, 2, 10), Ok(false));
    assert_eq!(check_add(&a, 2), Err(Error::Blocked));
    assert_eq!(check_add(&b, 1), Err(Error::BlockedByOther));

    // Blocking back makes the block mutual.
    assert_eq!(check_block(&b, 1, 10), Ok(true));
    let s = apply_block(&mut b, &mut a);
    assert_eq!(s, (RelationshipStatus::Blocked, RelationshipStatus::Blocked));
    assert_eq!(a.relation_to(2), Some(RelationshipStatus::Blocked));
    assert_eq!(b.relation_to(1), Some(RelationshipStatus::Blocked));

    // The limit counts the users blocked, and only them.
    assert_eq!(a.blocked_count(), 1);
    assert_eq!(check_block(&a, 3, 1), Err(Error::MaximumBlocked));
    assert_eq!(check_block(&a, 3, 2), Ok(true));
    let mut c = user(3);
    let mut d = user(4);
    apply_add(&mut c, &mut d);
    assert_eq!(c.blocked_count(), 0);
    assert_eq!(check_block(&c, 5, 1), Ok(true));
    assert_eq!(check_block(&c, 5, 0), Err(Error::MaximumBlocked));
}

#[test]
fn removing_relations() {
    let mut a = user(1);
    let mut b = user(2);
    assert_eq!(check_delete(&a, 2), Err(Error::UnknownUser));
    apply_add(&mut a, &mut b);
    assert_eq!(check_delete(&a, 2), Ok(true));
    apply_delete(&mut a, &mut b);
    assert_eq!(a.relation_to(2), None);
    assert_eq!(b.relation_to(1), None);
    assert_eq!(a.relationship, None);
    assert_eq!(b.relationship, None);

    // A block held by the other side cannot be removed from this side.
    apply_block(&mut a, &mut b);
    assert_eq!(check_delete(&b, 1), Ok(false));

    // Undoing one's half of a mutual block leaves one blocked by the other.
    apply_block(&mut b, &mut a);
    assert_eq!(check_delete(&a, 2), Ok(true));
    apply_delete(&mut a, &mut b);
    assert_eq!(a.relation_to(2), Some(RelationshipStatus::BlockedByOther));
    assert_eq!(b.relation_to(1), Some(RelationshipStatus::Blocked));
}

#[test]
fn relations_keep_their_visibility() {
    let mut a = user(1);
    let mut b = user(2);
    a.relations.set_public();
    apply_add(&mut a, &mut b);
    assert!(!a.relations.is_private());
    assert!(b.relations.is_private());
    apply_block(&mut b, &mut a);
    assert!(!a.relations.is_private());
    assert!(b.relations.is_private());
    apply_delete(&mut b, &mut a);
    assert!(!a.relations.is_private());
    assert!(b.relations.is_private());
}
