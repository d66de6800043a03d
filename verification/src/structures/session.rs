use vstd::prelude::*;
use crate::structures::base::{Base, texts};
use crate::utils::snowflakes::{id_of_state, Snowflake};
use crate::utils::tokens::{is_url_safe, random_token};
use ::snowflake::SnowflakeIdGenerator;

verus! {

/// The length of a session token.
pub const SESSION_TOKEN_LENGTH: usize = 64;

#[derive(Clone, Debug)]
pub struct Session {
    pub id: Snowflake,
    pub token: String,
    pub user_id: Option<Snowflake>,
}

impl Session {
    /// A new session of `user_id` with a fresh random token.
    pub fn new(generator: &mut SnowflakeIdGenerator, user_id: Snowflake) -> (s: Session)
        ensures
            *final(generator) != *old(generator),
            s.id.0 == id_of_state(*final(generator)),
            s.user_id == Some(user_id),
            s.token@.len() == SESSION_TOKEN_LENGTH,
            forall|i: int| 0 <= i < SESSION_TOKEN_LENGTH ==> is_url_safe(#[trigger] s.token@[i]),
    {
        Session {
            id: Snowflake::generate(generator),
            token: random_token(SESSION_TOKEN_LENGTH),
            user_id: Some(user_id),
        }
    }
}

impl Base for Session {
    open spec fn spec_table_name() -> Seq<char> {
        "sessions"@
    }

    open spec fn spec_primary_key() -> Seq<char> {
        "id"@
    }

    open spec fn spec_columns() -> Seq<Seq<char>> {
        seq!["id"@, "token"@, "user_id"@]
    }

    fn table_name() -> (r: &'static str) {
        "sessions"
    }

    fn primary_key() -> (r: &'static str) {
        "id"
    }

    fn columns() -> (r: Vec<&'static str>) {
        let r = vec!["id", "token", "user_id"];
        proof {
            assert(texts(r@) =~= Self::spec_columns());
        }
        r
    }
}

} // verus!
