use vstd::prelude::*;

verus! {

/// How many members a page holds when the request names no limit.
pub const DEFAULT_MEMBER_LIMIT: u64 = 100;

pub struct FetchMembersOptions {
    pub limit: Option<u64>,
}

impl FetchMembersOptions {
    /// A limit, when one is given, lies within 2..=1000.
    pub fn is_valid(&self) -> (r: bool)
        ensures
            r == match self.limit {
                Some(l) => 2 <= l <= 1000,
                None => true,
            },
    {
        match self.limit {
            Some(l) => 2 <= l && l <= 1000,
            None => true,
        }
    }

    /// The number of members to answer with.
    pub fn limit_or_default(&self) -> (r: u64)
        ensures
            r == match self.limit {
                Some(l) => l,
                None => DEFAULT_MEMBER_LIMIT,
            },
    {
        match self.limit {
            Some(l) => l,
            None => DEFAULT_MEMBER_LIMIT,
        }
    }
}

} // verus!
