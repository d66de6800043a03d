use vstd::prelude::*;
use crate::utils::permissions::{Permissions, default_permission_dm, DEFAULT_PERMISSION_DM_BITS};
use crate::utils::snowflakes::{id_of_state, Snowflake};
use ::snowflake::SnowflakeIdGenerator;

verus! {

#[derive(Clone, Copy, Debug, PartialEq, Eq, Structural)]
pub enum ChannelTypes {
    Unknown,
    Direct,
    Group,
    Text,
    Voice,
    Category,
}

impl ChannelTypes {
    /// The number that stands for the type in rows and in JSON.
    pub fn to_repr(&self) -> (r: i32)
        ensures
            r == channel_type_repr(*self),
    {
        match self {
            ChannelTypes::Unknown => 0,
            ChannelTypes::Direct => 1,
            ChannelTypes::Group => 2,
            ChannelTypes::Text => 3,
            ChannelTypes::Voice => 4,
            ChannelTypes::Category => 5,
        }
    }

    /// The type that a number stands for.
    pub fn from_repr(v: i32) -> (r: Option<ChannelTypes>)
        ensures
            r is Some <==> 0 <= v <= 5,
            r matches Some(t) ==> channel_type_repr(t) == v,
    {
        if v == 0 {
            Some(ChannelTypes::Unknown)
        } else if v == 1 {
            Some(ChannelTypes::Direct)
        } else if v == 2 {
            Some(ChannelTypes::Group)
        } else if v == 3 {
            Some(ChannelTypes::Text)
        } else if v == 4 {
            Some(ChannelTypes::Voice)
        } else if v == 5 {
            Some(ChannelTypes::Category)
        } else {
            None
        }
    }
}

pub open spec fn channel_type_repr(t: ChannelTypes) -> i32 {
    match t {
        ChannelTypes::Unknown => 0,
        ChannelTypes::Direct => 1,
        ChannelTypes::Group => 2,
        ChannelTypes::Text => 3,
        ChannelTypes::Voice => 4,
        ChannelTypes::Category => 5,
    }
}

impl Default for ChannelTypes {
    fn default() -> (t: ChannelTypes)
        ensures
            t == ChannelTypes::Unknown,
    {
        ChannelTypes::Unknown
    }
}

/// Whom an overwrite applies to: the holders of a role, or one member.
#[derive(Clone, Copy, Debug, PartialEq, Eq, Structural)]
pub enum OverwriteTypes {
    Role,
    Member,
}

/// Permissions granted (`allow`) and taken away (`deny`) in one channel.
#[derive(Clone, Copy, Debug)]
pub struct Overwrite {
    pub id: Snowflake,
    pub overwrite_type: OverwriteTypes,
    pub allow: Permissions,
    pub deny: Permissions,
}

#[derive(Clone, Debug)]
pub struct Channel {
    pub id: Snowflake,
    pub channel_type: ChannelTypes,
    /// Text, voice, category and group channels.
    pub name: Option<String>,
    /// Direct and group channels.
    pub recipients: Option<Vec<Snowflake>>,
    /// Group, text, voice and category channels.
    pub overwrites: Option<Vec<Overwrite>>,
    /// Server channels.
    pub server_id: Option<Snowflake>,
    /// Server channels inside a category.
    pub parent_id: Option<Snowflake>,
    /// Groups.
    pub owner_id: Option<Snowflake>,
    /// Text channels.
    pub topic: Option<String>,
    /// Groups.
    pub permissions: Option<Permissions>,
}

impl Channel {
    /// A channel with a fresh id drawn from the generator, which moves on to
    /// its next state, of unknown type and with nothing set.
    pub fn new_default(generator: &mut SnowflakeIdGenerator) -> (c: Channel)
        ensures
            *final(generator) != *old(generator),
            c.id.0 == id_of_state(*final(generator)),
            c.channel_type == ChannelTypes::Unknown,
            c.name is None,
            c.recipients is None,
            c.overwrites is None,
            c.server_id is None,
            c.parent_id is None,
            c.owner_id is None,
            c.topic is None,
            c.permissions is None,
    {
        Channel {
            id: Snowflake::generate(generator),
            channel_type: ChannelTypes::Unknown,
            name: None,
            recipients: None,
            overwrites: None,
            server_id: None,
            parent_id: None,
            owner_id: None,
            topic: None,
            permissions: None,
        }
    }

    /// A direct conversation between two users.
    pub fn new_dm(generator: &mut SnowflakeIdGenerator, user: Snowflake, target: Snowflake) -> (c:
        Channel)
        ensures
            *final(generator) != *old(generator),
            c.id.0 == id_of_state(*final(generator)),
            c.channel_type == ChannelTypes::Direct,
            c.recipients matches Some(r) && r@ == seq![user, target],
            c.name is None,
            c.overwrites is None,
            c.server_id is None,
            c.parent_id is None,
            c.owner_id is None,
            c.topic is None,
            c.permissions is None,
    {
        let mut c = Channel::new_default(generator);
        c.channel_type = ChannelTypes::Direct;
        c.recipients = Some(vec![user, target]);
        c
    }

    /// A group that `user` owns and is the only member of.
    pub fn new_group(generator: &mut SnowflakeIdGenerator, user: Snowflake, name: String) -> (c:
        Channel)
        ensures
            *final(generator) != *old(generator),
            c.id.0 == id_of_state(*final(generator)),
            c.channel_type == ChannelTypes::Group,
            c.name == Some(name),
            c.recipients matches Some(r) && r@ == seq![user],
            c.owner_id == Some(user),
            c.permissions matches Some(p) && p@ == DEFAULT_PERMISSION_DM_BITS,
            c.overwrites matches Some(o) && o@.len() == 0,
            c.server_id is None,
            c.parent_id is None,
            c.topic is None,
    {
        let mut c = Channel::new_default(generator);
        c.name = Some(name);
        c.channel_type = ChannelTypes::Group;
        c.recipients = Some(vec![user]);
        c.owner_id = Some(user);
        c.permissions = Some(default_permission_dm());
        c.overwrites = Some(Vec::new());
        c
    }

    pub fn is_group(&self) -> (r: bool)
        ensures
            r == (self.channel_type == ChannelTypes::Group),
    {
        self.channel_type == ChannelTypes::Group
    }

    pub fn is_dm(&self) -> (r: bool)
        ensures
            r == (self.channel_type == ChannelTypes::Direct),
    {
        self.channel_type == ChannelTypes::Direct
    }

    pub fn is_text(&self) -> (r: bool)
        ensures
            r == (self.channel_type == ChannelTypes::Text),
    {
        self.channel_type == ChannelTypes::Text
    }

    pub fn is_voice(&self) -> (r: bool)
        ensures
            r == (self.channel_type == ChannelTypes::Voice),
    {
        self.channel_type == ChannelTypes::Voice
    }

    pub fn is_category(&self) -> (r: bool)
        ensures
            r == (self.channel_type == ChannelTypes::Category),
    {
        self.channel_type == ChannelTypes::Category
    }
}

} // verus!
