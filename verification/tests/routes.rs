use itchat::routes::servers::channels::{
    check_channel_count, check_channel_in_server, CreateServerChannelOptions, EditServerChannelOptions,
};
use itchat::routes::servers::members::edit::{check_roles_in_order, edit, EditMemberOptions};
use itchat::routes::servers::members::fetch::FetchMembersOptions;
use itchat::routes::servers::members::{kick_requires_permission, UpdateMemberOptions};
use itchat::routes::servers::roles::edit::EditRoleOptions;
use itchat::routes::servers::roles::{check_role_count, UpdateRoleOptions};
use itchat::routes::servers::{check_server_count, check_server_owner, CreateServerOptions};
use itchat::routes::users::dm_notified_users;
use itchat::structures::channel::{Channel, ChannelTypes};
use itchat::structures::member::Member;
use itchat::structures::role::Role;
use itchat::structures::server::Server;
use itchat::structures::user::User;
use itchat::utils::error::Error;
use itchat::utils::permissions::Permissions;
use itchat::utils::snowflakes::Snowflake;
use snowflake::SnowflakeIdGenerator;

fn role(id: i64) -> Role {
    Role {
        id: Snowflake(id),
        name: "r".to_string(),
        permissions: Permissions::empty(),
        color: 0,
        hoist: false,
        server_id: Snowflake(1),
    }
}

#[test]
fn validation() {
    assert!(CreateServerOptions { name: "a".to_string() }.is_valid());
    assert!(!CreateServerOptions { name: String::new() }.is_valid());
    assert!(CreateServerOptions { name: "é".repeat(50) }.is_valid());
    assert!(!CreateServerOptions { name: "x".repeat(51) }.is_valid());
    assert!(EditMemberOptions { nickname: None, roles: None }.is_valid());
    assert!(!EditMemberOptions { nickname: Some("x".repeat(33)), roles: None }.is_valid());
    assert!(FetchMembersOptions { limit: Some(2) }.is_valid());
    assert!(!FetchMembersOptions { limit: Some(1) }.is_valid());
    assert!(!FetchMembersOptions { limit: Some(1001) }.is_valid());
    assert_eq!(FetchMembersOptions { limit: None }.limit_or_default(), 100);
    assert_eq!(FetchMembersOptions { limit: Some(7) }.limit_or_default(), 7);
}

#[test]
fn member_edits() {
    let roles = vec![role(10), role(11), role(12)];
    assert!(check_roles_in_order(&vec![10, 12], &roles));
    // The server's roles are walked once: out of order is unknown.
    assert!(!check_roles_in_order(&vec![12, 10], &roles));
    assert!(!check_roles_in_order(&vec![10, 10], &roles));
    assert!(!check_roles_in_order(&vec![13], &roles));

    let all = Permissions::from_bits(0xffff ^ 1).unwrap();
    let mut member = Member::new(Snowflake(5), Snowflake(1));
    let data = EditMemberOptions { nickname: Some("Neo".to_string()), roles: Some(vec![11, 12]) };
    assert_eq!(edit(&mut member, all, &data, &roles), Ok(()));
    assert_eq!(member.nickname.as_deref(), Some("Neo"));
    assert_eq!(member.roles, vec![Snowflake(11), Snowflake(12)]);

    let data = EditMemberOptions { nickname: Some(String::new()), roles: None };
    assert_eq!(edit(&mut member, all, &data, &roles), Ok(()));
    assert_eq!(member.nickname, None);

    // Both nickname permissions are needed.
    let change_only = Permissions::change_nickname();
    let data = EditMemberOptions { nickname: Some("x".to_string()), roles: None };
    assert_eq!(
        edit(&mut member, change_only, &data, &roles),
        Err(Error::MissingPermissions(Permissions::manage_nicknames()))
    );
    let data = EditMemberOptions { nickname: None, roles: Some(vec![10]) };
    assert_eq!(
        edit(&mut member, change_only, &data, &roles),
        Err(Error::MissingPermissions(Permissions::manage_roles()))
    );
    let data = EditMemberOptions { nickname: None, roles: Some(vec![99]) };
    assert_eq!(edit(&mut member, all, &data, &roles), Err(Error::UnknownRole));
    assert_eq!(member.roles, vec![Snowflake(11), Snowflake(12)]);
    // An administrator may do all of it.
    let data = EditMemberOptions { nickname: Some("A".to_string()), roles: Some(vec![10]) };
    assert_eq!(edit(&mut member, Permissions::administrator(), &data, &roles), Ok(()));
    assert_eq!(member.roles, vec![Snowflake(10)]);
}

#[test]
fn role_and_channel_edits() {
    let mut r = role(1);
    EditRoleOptions { name: Some("Mod".to_string()), color: None, permissions: None, hoist: Some(true) }
        .merge_into(&mut r);
    assert_eq!(r.name, "Mod");
    assert!(r.hoist);
    assert_eq!(r.color, 0);
    UpdateRoleOptions { name: None, color: Some(200), permissions: Some(Permissions::kick_members()), hoist: None }
        .apply_to(&mut r);
    assert_eq!(r.color, 200);
    assert_eq!(r.name, "Mod");
    assert_eq!(r.permissions, Permissions::kick_members());
    assert_eq!(check_role_count(3, 4), Ok(()));
    assert_eq!(check_role_count(4, 4), Err(Error::MaximumRoles));

    let mut c = Channel::new_group(&mut SnowflakeIdGenerator::new(0, 0), Snowflake(1), "g".to_string());
    EditServerChannelOptions { name: None }.merge_into(&mut c);
    assert_eq!(c.name, None);
    EditServerChannelOptions { name: Some("general".to_string()) }.merge_into(&mut c);
    assert_eq!(c.name.as_deref(), Some("general"));
    assert_eq!(check_channel_in_server(&c, 3), Err(Error::UnknownChannel));
    c.server_id = Some(Snowflake(3));
    assert_eq!(check_channel_in_server(&c, 3), Ok(()));
}

#[test]
fn servers_and_users() {
    let mut g = SnowflakeIdGenerator::new(0, 0);
    let owner = User::new(&mut g, "o".to_string(), "o@x".to_string(), "p".to_string());
    let other = User::new(&mut g, "u".to_string(), "u@x".to_string(), "p".to_string());
    let server = Server::new(&mut g, "s".to_string(), owner.id.0);
    assert_eq!(check_server_owner(&server, &owner), Ok(()));
    assert_eq!(check_server_owner(&server, &other), Err(Error::MissingAccess));
    assert_eq!(check_server_count(99, 100), Ok(()));
    assert_eq!(check_server_count(100, 100), Err(Error::MaximumServers));
    assert!(kick_requires_permission(Snowflake(1), Snowflake(2)));
    assert!(!kick_requires_permission(Snowflake(1), Snowflake(1)));
    assert_eq!(dm_notified_users(Snowflake(1), Snowflake(2)), vec![Snowflake(1), Snowflake(2)]);
    assert_eq!(dm_notified_users(Snowflake(1), Snowflake(1)), vec![Snowflake(1)]);
}

#[test]
fn member_updates() {
    let roles = vec![role(10), role(11)];
    let mut member = Member::new(Snowflake(5), Snowflake(1));

    // Either nickname permission is enough.
    let nick = UpdateMemberOptions { nickname: Some("Neo".to_string()), roles: None };
    assert_eq!(nick.apply(&mut member, Permissions::change_nickname(), &roles), Ok(()));
    assert_eq!(member.nickname.as_deref(), Some("Neo"));
    let clear = UpdateMemberOptions { nickname: Some(String::new()), roles: None };
    assert_eq!(clear.apply(&mut member, Permissions::manage_nicknames(), &roles), Ok(()));
    assert_eq!(member.nickname, None);

    // Neither: both are named as missing, and nothing changes.
    let both = Permissions::change_nickname().union(Permissions::manage_nicknames());
    assert_eq!(nick.apply(&mut member, Permissions::empty(), &roles), Err(Error::MissingPermissions(both)));
    assert_eq!(member.nickname, None);

    // An administrator is not let through on that account alone.
    let set = UpdateMemberOptions { nickname: None, roles: Some(vec![11]) };
    assert_eq!(
        set.apply(&mut member, Permissions::administrator(), &roles),
        Err(Error::MissingPermissions(Permissions::manage_roles()))
    );
    let unknown = UpdateMemberOptions { nickname: Some("X".to_string()), roles: Some(vec![12]) };
    let p = Permissions::manage_roles().union(Permissions::change_nickname());
    assert_eq!(unknown.apply(&mut member, p, &roles), Err(Error::UnknownRole));
    assert_eq!(member.nickname, None);
    let joined = member.joined_at;
    assert_eq!(set.apply(&mut member, p, &roles), Ok(()));
    assert_eq!(member.roles, vec![Snowflake(11)]);
    assert_eq!(member.joined_at, joined);
}

#[test]
fn permission_requirements() {
    let p = Permissions::manage_roles();
    assert_eq!(p.require(Permissions::manage_roles()), Ok(()));
    assert_eq!(
        Permissions::administrator().require(Permissions::manage_channels()),
        Err(Error::MissingPermissions(Permissions::manage_channels()))
    );
    assert_eq!(Permissions::administrator().has(Permissions::manage_channels()), Ok(()));
}

#[test]
fn server_channel_creation() {
    let mut generator = SnowflakeIdGenerator::new(1, 1);
    for kind in [ChannelTypes::Text, ChannelTypes::Voice, ChannelTypes::Category] {
        let data = CreateServerChannelOptions { channel_type: kind, name: "general".to_string() };
        let c = data.build(&mut generator, 7).unwrap();
        assert_eq!(c.channel_type, kind);
        assert_eq!(c.name.as_deref(), Some("general"));
        assert_eq!(c.server_id, Some(Snowflake(7)));
        assert_eq!(c.overwrites.map(|o| o.len()), Some(0));
        assert_eq!(c.owner_id, None);
    }
    for kind in [ChannelTypes::Unknown, ChannelTypes::Direct, ChannelTypes::Group] {
        let data = CreateServerChannelOptions { channel_type: kind, name: "x".to_string() };
        assert_eq!(data.build(&mut generator, 7).map(|c| c.id), Err(Error::MissingAccess));
    }
    assert_eq!(check_channel_count(49, 50), Ok(()));
    assert_eq!(check_channel_count(50, 50), Err(Error::MaximumChannels));
    assert_eq!(check_channel_count(51, 50), Err(Error::MaximumChannels));
}

#[test]
fn server_creation() {
    let mut generator = SnowflakeIdGenerator::new(1, 1);
    let owner = Snowflake(42);
    let (server, member, category, chat) =
        CreateServerOptions { name: "Home".to_string() }.build(&mut generator, owner);
    assert_eq!(server.name, "Home");
    assert_eq!(server.owner_id, 42);
    assert_eq!(server.permissions.bits(), 62);
    assert_eq!(member.id, owner);
    assert_eq!(member.server_id, Snowflake(server.id));
    assert_eq!(member.roles, vec![Snowflake(server.id)]);
    assert_eq!(category.channel_type, ChannelTypes::Category);
    assert_eq!(category.name.as_deref(), Some("General"));
    assert_eq!(category.server_id, Some(Snowflake(server.id)));
    assert_eq!(chat.channel_type, ChannelTypes::Text);
    assert_eq!(chat.name.as_deref(), Some("general"));
    assert_eq!(chat.parent_id, Some(category.id));
    assert_ne!(chat.id, category.id);
}
