use vstd::prelude::*;
use crate::utils::snowflakes::Snowflake;
use crate::utils::time::now_naive_utc;
use chrono::NaiveDateTime;

verus! {

/// A user's membership of a server.
#[derive(Clone, Debug)]
pub struct Member {
    pub id: Snowflake,
    pub nickname: Option<String>,
    pub joined_at: NaiveDateTime,
    pub server_id: Snowflake,
    pub roles: Vec<Snowflake>,
}

impl Member {
    /// A member who joins now, with no nickname and with the server's default
    /// role, whose id is the server's.
    pub fn new(user_id: Snowflake, server_id: Snowflake) -> (m: Member)
        ensures
            m.id == user_id,
            m.server_id == server_id,
            m.nickname is None,
            m.roles@ == seq![server_id],
    {
        Member {
            id: user_id,
            nickname: None,
            server_id,
            roles: vec![server_id],
            joined_at: now_naive_utc(),
        }
    }
}

} // verus!
