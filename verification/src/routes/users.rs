//! Users: direct conversations.
use vstd::prelude::*;
use crate::utils::snowflakes::Snowflake;

verus! {

/// Who hears of a new direct conversation: its opener, and the other user
/// unless the user opened it with themselves.
pub fn dm_notified_users(user_id: Snowflake, target_id: Snowflake) -> (r: Vec<Snowflake>)
    ensures
        r@ == if target_id != user_id {
            seq![user_id, target_id]
        } else {
            seq![user_id]
        },
{
    let mut r: Vec<Snowflake> = Vec::new();
    r.push(user_id);
    if target_id != user_id {
        r.push(target_id);
    }
    r
}

} // verus!
