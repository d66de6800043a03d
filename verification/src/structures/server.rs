use vstd::prelude::*;
use crate::utils::permissions::{
    Permissions,
    default_permission_everyone,
    DEFAULT_PERMISSION_EVERYONE_BITS,
};
use crate::utils::snowflakes::{id_of_state, Snowflake};
use ::snowflake::SnowflakeIdGenerator;

verus! {

#[derive(Clone, Debug)]
pub struct Server {
    pub id: i64,
    pub name: String,
    pub description: Option<String>,
    pub icon: Option<String>,
    pub banner: Option<String>,
    pub owner_id: i64,
    /// What everyone on the server may do.
    pub permissions: Permissions,
}

impl Server {
    /// A new server that grants everyone the default permissions.
    pub fn new(generator: &mut SnowflakeIdGenerator, name: String, owner_id: i64) -> (s: Server)
        ensures
            *final(generator) != *old(generator),
            s.id == id_of_state(*final(generator)),
            s.name == name,
            s.owner_id == owner_id,
            s.description is None,
            s.icon is None,
            s.banner is None,
            s.permissions@ == DEFAULT_PERMISSION_EVERYONE_BITS,
    {
        Server {
            id: Snowflake::generate(generator).0,
            name,
            description: None,
            icon: None,
            banner: None,
            owner_id,
            permissions: default_permission_everyone(),
        }
    }
}

} // verus!
