//! Channels of a server.
use vstd::prelude::*;
use crate::routes::validation::{char_length_within, length_within, optional_length_within};
use crate::structures::channel::{Channel, ChannelTypes};
use crate::utils::error::{Error, Result};
use crate::utils::snowflakes::{id_of_state, Snowflake};
use ::snowflake::SnowflakeIdGenerator;

verus! {

pub struct CreateServerChannelOptions {
    pub channel_type: ChannelTypes,
    pub name: String,
}

impl CreateServerChannelOptions {
    /// The name has 1 to 32 characters.
    pub fn is_valid(&self) -> (r: bool)
        ensures
            r == length_within(self.name@, 1, 32),
    {
        char_length_within(&self.name, 1, 32)
    }

    /// The channel that the options ask for on server `server_id`: a text,
    /// voice or category channel with a fresh id, the name given and no
    /// overwrites yet. A channel of any other type cannot be made on a server.
    pub fn build(&self, generator: &mut SnowflakeIdGenerator, server_id: i64) -> (r: Result<Channel>)
        ensures
            match r {
                Ok(c) => {
                    &&& self.channel_type == ChannelTypes::Text || self.channel_type
                        == ChannelTypes::Voice || self.channel_type == ChannelTypes::Category
                    &&& c.channel_type == self.channel_type
                    &&& c.id.0 == id_of_state(*final(generator))
                    &&& *final(generator) != *old(generator)
                    &&& c.name matches Some(n) && n@ == self.name@
                    &&& c.server_id == Some(Snowflake(server_id))
                    &&& c.overwrites matches Some(o) && o@.len() == 0
                    &&& c.recipients is None
                    &&& c.parent_id is None
                    &&& c.owner_id is None
                    &&& c.topic is None
                    &&& c.permissions is None
                },
                Err(e) => {
                    &&& e == Error::MissingAccess
                    &&& *final(generator) == *old(generator)
                    &&& self.channel_type != ChannelTypes::Text
                    &&& self.channel_type != ChannelTypes::Voice
                    &&& self.channel_type != ChannelTypes::Category
                },
            },
    {
        match self.channel_type {
            ChannelTypes::Text | ChannelTypes::Voice | ChannelTypes::Category => {
                let mut c = Channel::new_default(generator);
                c.channel_type = self.channel_type;
                c.name = Some(self.name.clone());
                c.server_id = Some(Snowflake(server_id));
                c.overwrites = Some(Vec::new());
                Ok(c)
            },
            _ => Err(Error::MissingAccess),
        }
    }
}

/// A server may hold fewer than `max_channels` channels before a new one is
/// made: once it holds the maximum, no channel is added.
pub fn check_channel_count(count: u64, max_channels: u64) -> (r: Result<()>)
    ensures
        r is Ok <==> count < max_channels,
        r is Err ==> r == Err::<(), Error>(Error::MaximumChannels),
{
    if count >= max_channels {
        return Err(Error::MaximumChannels);
    }
    Ok(())
}

pub struct EditServerChannelOptions {
    pub name: Option<String>,
}

impl EditServerChannelOptions {
    /// A name, when one is given, has 1 to 32 characters.
    pub fn is_valid(&self) -> (r: bool)
        ensures
            r == match self.name {
                Some(n) => length_within(n@, 1, 32),
                None => true,
            },
    {
        optional_length_within(&self.name, 1, 32)
    }

    /// Merges the edit into the channel: the channel's name becomes the one
    /// given, and an edit without a name clears it, as both are optional.
    pub fn merge_into(self, channel: &mut Channel)
        ensures
            final(channel).name == self.name,
            final(channel).id == old(channel).id,
            final(channel).channel_type == old(channel).channel_type,
            final(channel).server_id == old(channel).server_id,
            final(channel).owner_id == old(channel).owner_id,
            final(channel).parent_id == old(channel).parent_id,
            final(channel).permissions == old(channel).permissions,
    {
        channel.name = self.name;
    }
}

/// A channel is found under a server only when it belongs to it.
pub fn check_channel_in_server(channel: &Channel, server_id: i64) -> (r: Result<()>)
    ensures
        r is Ok <==> channel.server_id == Some(Snowflake(server_id)),
        r is Err ==> r == Err::<(), Error>(Error::UnknownChannel),
{
    if channel.server_id != Some(Snowflake(server_id)) {
        return Err(Error::UnknownChannel);
    }
    Ok(())
}

} // verus!
