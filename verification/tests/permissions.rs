use itchat::structures::channel::{Channel, ChannelTypes, Overwrite, OverwriteTypes};
use itchat::structures::role::Role;
use itchat::structures::server::Server;
use itchat::utils::error::Error;
use itchat::utils::permissions::{
    channel_needs_category, channel_needs_member, compute_permissions, default_permission_dm,
    default_permission_everyone, server_base_permissions, server_needs_member, Permissions,
};
use itchat::utils::snowflakes::Snowflake;

fn perms(bits: u64) -> Permissions {
    Permissions::from_bits(bits).unwrap()
}

fn server(owner: i64, everyone: u64) -> Server {
    Server {
        id: 10,
        name: "s".to_string(),
        description: None,
        icon: None,
        banner: None,
        owner_id: owner,
        permissions: perms(everyone),
    }
}

fn role(id: i64, bits: u64) -> Role {
    Role {
        id: Snowflake(id),
        name: "r".to_string(),
        permissions: perms(bits),
        color: 0,
        hoist: false,
        server_id: Snowflake(10),
    }
}

fn channel(kind: ChannelTypes, overwrites: Vec<Overwrite>) -> Channel {
    Channel {
        id: Snowflake(20),
        channel_type: kind,
        name: None,
        recipients: None,
        overwrites: Some(overwrites),
        server_id: Some(Snowflake(10)),
        parent_id: None,
        owner_id: None,
        topic: None,
        permissions: None,
    }
}

#[test]
fn bits_and_sets() {
    assert_eq!(Permissions::administrator().bits(), 1);
    assert_eq!(Permissions::invite_others().bits(), 1 << 15);
    assert_eq!(Permissions::all().bits(), 0xffff);
    assert_eq!(Permissions::from_bits(0x10000), None);
    assert_eq!(Permissions::from_bits(0xffff).map(|p| p.bits()), Some(0xffff));
    assert_eq!(Permissions::from_bits_truncate(0x1_0003).bits(), 3);
    assert_eq!(Permissions::default().bits(), 0);
    assert_eq!(default_permission_dm().bits(), 62);
    assert_eq!(default_permission_everyone().bits(), 62);

    let mut p = Permissions::empty();
    p.insert(Permissions::send_messages());
    p.insert(Permissions::view_channel());
    assert!(p.contains(Permissions::send_messages()));
    assert!(p.contains(perms(6)));
    p.remove(Permissions::view_channel());
    assert_eq!(p.bits(), 4);
    p.set(Permissions::kick_members(), true);
    assert_eq!(p.bits(), 4 | 8192);
    p.set(Permissions::kick_members(), false);
    assert_eq!(p.bits(), 4);
    assert_eq!(p.union(perms(1)).bits(), 5);
    assert_eq!(perms(7).difference(perms(2)).bits(), 5);
    assert!(Permissions::empty().is_empty());
}

#[test]
fn has_grants_holders_and_administrators() {
    let p = perms(2 | 4);
    assert_eq!(p.has(Permissions::send_messages()), Ok(()));
    assert_eq!(
        p.has(perms(4 | 512)),
        Err(Error::MissingPermissions(Permissions::manage_roles()))
    );
    // An administrator passes every check.
    let admin = Permissions::administrator();
    assert_eq!(admin.has(Permissions::all()), Ok(()));
    assert_eq!(admin.has(Permissions::manage_server()), Ok(()));
}

#[test]
fn permissions_text_round_trip() {
    let p = perms(0b1010_0001);
    assert_eq!(p.to_bits_string(), "161");
    assert_eq!(Permissions::from_bits_str("161"), Some(p));
    assert_eq!(Permissions::from_bits_str(&Permissions::all().to_bits_string()), Some(Permissions::all()));
    assert_eq!(Permissions::from_bits_str("65536"), None);
    assert_eq!(Permissions::from_bits_str("abc"), None);
    assert_eq!(Permissions::from_bits_str("+3").map(|p| p.bits()), Some(3));
}

#[test]
fn server_owner_is_administrator() {
    let s = server(1, 62);
    let user = Snowflake(1);
    assert_eq!(server_base_permissions(user, &s).bits(), 63);
    assert!(!server_needs_member(user, &s));
    let p = compute_permissions(user, Some(&s), &vec![], &vec![], None, &vec![], None);
    assert!(p.contains(Permissions::administrator()));
    assert_eq!(p.bits(), 63);
}

#[test]
fn member_gets_their_roles() {
    let s = server(1, 62);
    let user = Snowflake(2);
    assert!(server_needs_member(user, &s));
    let roles = vec![role(100, 512), role(101, 8192), role(102, 4096)];
    let held = vec![Snowflake(10), Snowflake(100), Snowflake(102)];
    let p = compute_permissions(user, Some(&s), &held, &roles, None, &vec![], None);
    assert_eq!(p.bits(), 62 | 512 | 4096);
}

#[test]
fn overwrites_apply_in_order() {
    let s = server(1, 62);
    let user = Snowflake(2);
    let roles = vec![role(100, 0)];
    let held = vec![Snowflake(100)];
    let ows = vec![
        // The role takes sending away.
        Overwrite { id: Snowflake(100), overwrite_type: OverwriteTypes::Role, allow: perms(0), deny: perms(4) },
        // The member's own overwrite gives it back and adds managing messages.
        Overwrite { id: user, overwrite_type: OverwriteTypes::Member, allow: perms(4 | 256), deny: perms(16) },
        // An overwrite of another member changes nothing.
        Overwrite { id: Snowflake(3), overwrite_type: OverwriteTypes::Member, allow: perms(1), deny: perms(0) },
    ];
    let c = channel(ChannelTypes::Text, ows);
    assert!(channel_needs_member(user, &c));
    assert!(!channel_needs_category(user, &c));
    let p = compute_permissions(user, Some(&s), &held, &roles, Some(&c), &held, None);
    assert_eq!(p.bits(), (62 | 256) & !16);

    // The category's overwrites come after the channel's own.
    let category = vec![Overwrite { id: user, overwrite_type: OverwriteTypes::Member, allow: perms(0), deny: perms(256) }];
    let p = compute_permissions(user, Some(&s), &held, &roles, Some(&c), &held, Some(&category));
    assert_eq!(p.bits(), 62 & !16);
}

#[test]
fn group_and_direct_channels() {
    let user = Snowflake(2);
    let mut g = channel(ChannelTypes::Group, vec![]);
    g.server_id = None;
    g.permissions = Some(perms(2 | 4));
    assert!(!channel_needs_member(user, &g));
    let p = compute_permissions(user, None, &vec![], &vec![], Some(&g), &vec![], None);
    assert_eq!(p.bits(), 6);
    // The owner of a group is an administrator there.
    g.owner_id = Some(user);
    let p = compute_permissions(user, None, &vec![], &vec![], Some(&g), &vec![], None);
    assert_eq!(p.bits(), 1);

    let mut dm = channel(ChannelTypes::Direct, vec![]);
    dm.overwrites = None;
    let p = compute_permissions(user, None, &vec![], &vec![], Some(&dm), &vec![], None);
    assert_eq!(p.bits(), 62);
}

#[test]
fn rows_that_are_not_needed_do_not_matter() {
    // An administrator's answer ignores the roles.
    let s = server(1, 62);
    let owner = Snowflake(1);
    let roles = vec![role(100, 512)];
    let a = compute_permissions(owner, Some(&s), &vec![], &vec![], None, &vec![], None);
    let b = compute_permissions(owner, Some(&s), &vec![Snowflake(100)], &roles, None, &vec![], None);
    assert_eq!(a, b);

    // A group's answer ignores the member roles on a server.
    let user = Snowflake(2);
    let mut g = channel(ChannelTypes::Group, vec![Overwrite {
        id: user,
        overwrite_type: OverwriteTypes::Member,
        allow: perms(8),
        deny: perms(0),
    }]);
    g.permissions = Some(perms(2));
    assert!(!channel_needs_member(user, &g));
    let a = compute_permissions(user, None, &vec![], &vec![], Some(&g), &vec![], None);
    let b = compute_permissions(user, None, &vec![], &vec![], Some(&g), &vec![Snowflake(100)], None);
    assert_eq!(a, b);
    assert_eq!(a.bits(), 2 | 8);

    // A direct channel's answer ignores any category.
    let mut dm = channel(ChannelTypes::Direct, vec![]);
    dm.overwrites = None;
    let category = vec![Overwrite { id: user, overwrite_type: OverwriteTypes::Member, allow: perms(0), deny: perms(62) }];
    let a = compute_permissions(user, None, &vec![], &vec![], Some(&dm), &vec![], None);
    let b = compute_permissions(user, None, &vec![], &vec![], Some(&dm), &vec![], Some(&category));
    assert_eq!(a, b);
}

#[test]
fn administrator_needs_no_channel_details() {
    // The server part settles the answer: the channel is not looked at, even
    // one whose overwrites were never set.
    let s = server(1, 62);
    let mut c = channel(ChannelTypes::Text, vec![]);
    c.overwrites = None;
    let p = compute_permissions(Snowflake(1), Some(&s), &vec![], &vec![], Some(&c), &vec![], None);
    assert_eq!(p.bits(), 63);
}

#[test]
fn other_members_overwrites_change_nothing() {
    let s = server(1, 62);
    let user = Snowflake(2);
    let held = vec![Snowflake(100)];
    let roles = vec![role(100, 0)];
    let own = Overwrite { id: user, overwrite_type: OverwriteTypes::Member, allow: perms(256), deny: perms(4) };
    let other = Overwrite { id: Snowflake(3), overwrite_type: OverwriteTypes::Member, allow: perms(1), deny: perms(62) };
    let c = channel(ChannelTypes::Text, vec![own]);
    let c2 = channel(ChannelTypes::Text, vec![own, other]);
    let category = vec![Overwrite { id: Snowflake(100), overwrite_type: OverwriteTypes::Role, allow: perms(8192), deny: perms(0) }];
    let a = compute_permissions(user, Some(&s), &held, &roles, Some(&c), &held, Some(&category));
    let b = compute_permissions(user, Some(&s), &held, &roles, Some(&c2), &held, Some(&category));
    assert_eq!(a, b);
    assert_eq!(a.bits(), ((62 | 256) & !4) | 8192);
}
