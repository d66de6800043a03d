use itchat::structures::bot::Bot;
use itchat::structures::channel::{Channel, ChannelTypes};
use itchat::structures::invite::Invite;
use itchat::structures::member::Member;
use itchat::structures::message::Message;
use itchat::structures::role::Role;
use itchat::structures::server::Server;
use itchat::structures::session::Session;
use itchat::structures::user::{Presence, PresenceStatus, RelationshipStatus, User};
use itchat::utils::badges::Badges;
use itchat::utils::snowflakes::Snowflake;
use itchat::utils::types::Private;
use snowflake::SnowflakeIdGenerator;

fn gen() -> SnowflakeIdGenerator {
    SnowflakeIdGenerator::new(0, 0)
}

fn url_safe(c: char) -> bool {
    c == '_' || c == '-' || c.is_ascii_alphanumeric()
}

#[test]
fn new_rows() {
    let mut g = gen();
    let bot = Bot::new(&mut g, "Ghost Bot".to_string(), Snowflake(1));
    assert_eq!(bot.username, "Ghost Bot");
    assert_eq!(bot.owner_id, Snowflake(1));
    assert!(!bot.verified);

    let role = Role::new(&mut g, "Mod".to_string(), Snowflake(3));
    assert_eq!(role.permissions.bits(), 0);
    assert_eq!(role.color, 0);
    assert!(!role.hoist);

    let server = Server::new(&mut g, "Fake Server".to_string(), 9);
    assert_eq!(server.owner_id, 9);
    assert_eq!(server.permissions.bits(), 62);
    assert!(server.description.is_none());

    let member = Member::new(Snowflake(9), Snowflake(server.id));
    assert_eq!(member.roles, vec![Snowflake(server.id)]);
    assert!(member.nickname.is_none());

    let message = Message::new(&mut g, Snowflake(1), Snowflake(2));
    assert!(message.is_empty());

    let session = Session::new(&mut g, Snowflake(5));
    assert_eq!(session.user_id, Some(Snowflake(5)));
    assert_eq!(session.token.chars().count(), 64);
    assert!(session.token.chars().all(url_safe));

    let invite = Invite::new(Snowflake(1), Snowflake(2), None);
    assert_eq!(invite.code.chars().count(), 8);
    assert!(invite.code.chars().all(url_safe));
    assert_eq!(invite.uses, 0);
    assert_eq!(invite.id, Snowflake(0));
}

#[test]
fn channels() {
    let mut g = gen();
    let dm = Channel::new_dm(&mut g, Snowflake(1), Snowflake(2));
    assert!(dm.is_dm());
    assert!(!dm.is_group());
    assert_eq!(dm.recipients, Some(vec![Snowflake(1), Snowflake(2)]));

    let group = Channel::new_group(&mut g, Snowflake(1), "friends".to_string());
    assert!(group.is_group());
    assert_eq!(group.owner_id, Some(Snowflake(1)));
    assert_eq!(group.permissions.map(|p| p.bits()), Some(62));
    assert_eq!(group.overwrites.as_ref().map(|o| o.len()), Some(0));
    assert_eq!(group.name.as_deref(), Some("friends"));

    assert_eq!(ChannelTypes::Category.to_repr(), 5);
    assert_eq!(ChannelTypes::from_repr(2), Some(ChannelTypes::Group));
    assert_eq!(ChannelTypes::from_repr(6), None);
    assert_eq!(ChannelTypes::default(), ChannelTypes::Unknown);
}

#[test]
fn users_and_privacy() {
    let mut g = gen();
    let user = User::new(&mut g, "Ghost".to_string(), "g@x".to_string(), "hash".to_string());
    assert!(user.email.is_private());
    assert!(user.password.is_private());
    assert!(user.verified.is_private());
    assert!(user.relations.is_private());
    assert!(!user.presence.is_online());
    assert_eq!(user.badges, Badges::default());

    let shown = user.with_hidden_fields();
    assert!(!shown.email.is_private());
    assert_eq!(shown.email.get(), "g@x");
    assert_eq!(shown.password.get(), "hash");
    assert_eq!(*shown.verified.get(), false);
    assert_eq!(shown.id, user.id);
    assert_eq!(shown.username, "Ghost");

    let mut secret: Private<String> = Private::from("s".to_string());
    assert!(secret.is_private());
    secret.set_public();
    assert!(!secret.is_private());
    assert_eq!(secret.get(), "s");
    secret.set_private();
    assert!(secret.is_private());

    let p = Presence { status: PresenceStatus::Dnd, text: None };
    assert!(p.is_online());
    assert_eq!(PresenceStatus::from_repr(3), Some(PresenceStatus::Dnd));
    assert_eq!(RelationshipStatus::from_repr(4), Some(RelationshipStatus::BlockedByOther));
    assert_eq!(RelationshipStatus::Outgoing.to_repr(), 2);
}

#[test]
fn badges() {
    assert_eq!(Badges::from_bits(2 | 16).map(|b| b.bits()), Some(18));
    assert_eq!(Badges::from_bits(1), None);
    assert_eq!(Badges::from_bits(32), None);
    assert_eq!(Badges::from_bits(-2), None);
    let mut b = Badges::empty();
    b.insert(Badges::from_bits(4).unwrap());
    assert!(b.contains(Badges::from_bits(4).unwrap()));
    assert_eq!(b.bits(), 4);
}
