use vstd::prelude::*;

verus! {

/// The channel that a new invite leads to.
pub struct CreateServerInviteOptions {
    pub channel_id: u64,
}

} // verus!
