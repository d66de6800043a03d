//! Servers: creating, editing and deleting them.
use vstd::prelude::*;
use crate::routes::validation::{char_length_within, length_within};
use crate::routes::servers::channels::CreateServerChannelOptions;
use crate::structures::channel::{Channel, ChannelTypes};
use crate::structures::member::Member;
use crate::structures::server::Server;
use crate::structures::user::User;
use crate::utils::error::{Error, Result};
use crate::utils::permissions::DEFAULT_PERMISSION_EVERYONE_BITS;
use crate::utils::snowflakes::{id_of_state, Snowflake};
use ::snowflake::SnowflakeIdGenerator;

pub mod channels;
pub mod invites;
pub mod members;
pub mod roles;

verus! {

pub struct CreateServerOptions {
    pub name: String,
}

impl CreateServerOptions {
    /// The name has 1 to 50 characters.
    pub fn is_valid(&self) -> (r: bool)
        ensures
            r == length_within(self.name@, 1, 50),
    {
        char_length_within(&self.name, 1, 50)
    }

    /// A new server owned by `owner`, as it is first stored: the server, its
    /// owner as its first member, a category named "General" and, inside it, a
    /// text channel named "general".
    pub fn build(self, generator: &mut SnowflakeIdGenerator, owner: Snowflake) -> (r: (
        Server,
        Member,
        Channel,
        Channel,
    ))
        ensures
            ({
                let (server, member, category, chat) = r;
                &&& server.name == self.name
                &&& server.owner_id == owner.0
                &&& server.permissions@ == DEFAULT_PERMISSION_EVERYONE_BITS
                &&& server.description is None
                &&& server.icon is None
                &&& server.banner is None
                &&& member.id == owner
                &&& member.nickname is None
                &&& member.server_id == Snowflake(server.id)
                &&& member.roles@ == seq![Snowflake(server.id)]
                &&& category.channel_type == ChannelTypes::Category
                &&& category.name matches Some(n) && n@ == "General"@
                &&& category.server_id == Some(Snowflake(server.id))
                &&& category.parent_id is None
                &&& category.overwrites matches Some(o) && o@.len() == 0
                &&& category.recipients is None
                &&& category.owner_id is None
                &&& category.topic is None
                &&& category.permissions is None
                &&& chat.channel_type == ChannelTypes::Text
                &&& chat.name matches Some(n) && n@ == "general"@
                &&& chat.server_id == Some(Snowflake(server.id))
                &&& chat.parent_id == Some(category.id)
                &&& chat.id.0 == id_of_state(*final(generator))
                &&& chat.overwrites matches Some(o) && o@.len() == 0
                &&& chat.recipients is None
                &&& chat.owner_id is None
                &&& chat.topic is None
                &&& chat.permissions is None
            }),
    {
        let server = Server::new(generator, self.name, owner.0);
        let member = Member::new(owner, Snowflake(server.id));
        let category_options = CreateServerChannelOptions {
            channel_type: ChannelTypes::Category,
            name: "General".to_owned(),
        };
        let category = category_options.build(generator, server.id).unwrap();
        let chat_options = CreateServerChannelOptions {
            channel_type: ChannelTypes::Text,
            name: "general".to_owned(),
        };
        let mut chat = chat_options.build(generator, server.id).unwrap();
        chat.parent_id = Some(category.id);
        (server, member, category, chat)
    }
}

pub struct EditServerOptions {
    pub name: String,
}

impl EditServerOptions {
    /// The name has 1 to 50 characters.
    pub fn is_valid(&self) -> (r: bool)
        ensures
            r == length_within(self.name@, 1, 50),
    {
        char_length_within(&self.name, 1, 50)
    }

    /// Renames the server.
    pub fn apply_to(self, server: &mut Server)
        ensures
            final(server).name == self.name,
            final(server).id == old(server).id,
            final(server).owner_id == old(server).owner_id,
            final(server).permissions == old(server).permissions,
    {
        server.name = self.name;
    }
}

/// A user may create a server while they are a member of fewer than
/// `max_servers` servers.
pub fn check_server_count(memberships: u64, max_servers: u64) -> (r: Result<()>)
    ensures
        r is Ok <==> memberships < max_servers,
        r is Err ==> r == Err::<(), Error>(Error::MaximumServers),
{
    if memberships >= max_servers {
        return Err(Error::MaximumServers);
    }
    Ok(())
}

/// Only the owner of a server may delete it.
pub fn check_server_owner(server: &Server, user: &User) -> (r: Result<()>)
    ensures
        r is Ok <==> server.owner_id == user.id.0,
        r is Err ==> r == Err::<(), Error>(Error::MissingAccess),
{
    if server.owner_id != user.id.0 {
        return Err(Error::MissingAccess);
    }
    Ok(())
}

} // verus!
