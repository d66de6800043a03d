use vstd::prelude::*;
use crate::utils::snowflakes::Snowflake;
use crate::utils::tokens::{is_url_safe, random_token};

verus! {

/// The length of an invite code.
pub const INVITE_CODE_LENGTH: usize = 8;

#[derive(Clone, Debug)]
pub struct Invite {
    pub id: Snowflake,
    pub code: String,
    pub uses: i32,
    pub inviter_id: Snowflake,
    pub channel_id: Snowflake,
    pub server_id: Option<Snowflake>,
}

impl Invite {
    /// A new, unused invite with a random code; its id is the default one, zero.
    pub fn new(inviter_id: Snowflake, channel_id: Snowflake, server_id: Option<Snowflake>) -> (i:
        Invite)
        ensures
            i.id == Snowflake(0),
            i.code@.len() == INVITE_CODE_LENGTH,
            forall|k: int| 0 <= k < INVITE_CODE_LENGTH ==> is_url_safe(#[trigger] i.code@[k]),
            i.inviter_id == inviter_id,
            i.channel_id == channel_id,
            i.server_id == server_id,
            i.uses == 0,
    {
        Invite {
            id: Snowflake(0),
            code: random_token(INVITE_CODE_LENGTH),
            inviter_id,
            channel_id,
            server_id,
            uses: 0,
        }
    }
}

} // verus!
