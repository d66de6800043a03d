use vstd::prelude::*;
use crate::utils::permissions::Permissions;
use crate::utils::snowflakes::{id_of_state, Snowflake};
use ::snowflake::SnowflakeIdGenerator;

verus! {

#[derive(Clone, Debug)]
pub struct Role {
    pub id: Snowflake,
    pub name: String,
    pub permissions: Permissions,
    pub color: i32,
    pub hoist: bool,
    pub server_id: Snowflake,
}

impl Role {
    /// A new role that grants nothing, has no color and is not hoisted.
    pub fn new(generator: &mut SnowflakeIdGenerator, name: String, server_id: Snowflake) -> (r: Role)
        ensures
            *final(generator) != *old(generator),
            r.id.0 == id_of_state(*final(generator)),
            r.name == name,
            r.server_id == server_id,
            !r.hoist,
            r.color == 0,
            r.permissions@ == 0,
    {
        Role {
            id: Snowflake::generate(generator),
            name,
            server_id,
            hoist: false,
            color: 0,
            permissions: Permissions::empty(),
        }
    }
}

} // verus!
