use vstd::prelude::*;
use crate::structures::base::{Base, texts};
use crate::utils::snowflakes::{id_of_state, Snowflake};
use ::snowflake::SnowflakeIdGenerator;

verus! {

#[derive(Clone, Debug)]
pub struct Bot {
    pub id: Snowflake,
    pub username: String,
    pub owner_id: Snowflake,
    pub verified: bool,
}

impl Bot {
    /// A new, unverified bot with a fresh id.
    pub fn new(generator: &mut SnowflakeIdGenerator, username: String, owner_id: Snowflake) -> (b:
        Bot)
        ensures
            *final(generator) != *old(generator),
            b.id.0 == id_of_state(*final(generator)),
            b.username == username,
            b.owner_id == owner_id,
            !b.verified,
    {
        Bot { id: Snowflake::generate(generator), username, owner_id, verified: false }
    }
}

impl Base for Bot {
    open spec fn spec_table_name() -> Seq<char> {
        "bots"@
    }

    open spec fn spec_primary_key() -> Seq<char> {
        "id"@
    }

    open spec fn spec_columns() -> Seq<Seq<char>> {
        seq!["id"@, "username"@, "owner_id"@, "verified"@]
    }

    fn table_name() -> (r: &'static str) {
        "bots"
    }

    fn primary_key() -> (r: &'static str) {
        "id"
    }

    fn columns() -> (r: Vec<&'static str>) {
        let r = vec!["id", "username", "owner_id", "verified"];
        proof {
            assert(texts(r@) =~= Self::spec_columns());
        }
        r
    }
}

} // verus!
