use vstd::prelude::*;
use std::collections::HashMap;
use crate::utils::badges::Badges;
use crate::utils::snowflakes::{id_of_state, Snowflake};
use crate::utils::types::Private;
use ::snowflake::SnowflakeIdGenerator;

verus! {

broadcast use vstd::std_specs::hash::group_hash_axioms;

/// How a user stands towards another.
#[derive(Clone, Copy, Debug, PartialEq, Eq, Structural)]
pub enum RelationshipStatus {
    Friend,
    /// The other user sent a friend request.
    Incoming,
    /// This user sent a friend request.
    Outgoing,
    /// This user blocked the other.
    Blocked,
    /// The other user blocked this one.
    BlockedByOther,
}

pub open spec fn relationship_repr(s: RelationshipStatus) -> i32 {
    match s {
        RelationshipStatus::Friend => 0,
        RelationshipStatus::Incoming => 1,
        RelationshipStatus::Outgoing => 2,
        RelationshipStatus::Blocked => 3,
        RelationshipStatus::BlockedByOther => 4,
    }
}

impl RelationshipStatus {
    /// The number that stands for the status in rows and in JSON.
    pub fn to_repr(&self) -> (r: i32)
        ensures
            r == relationship_repr(*self),
    {
        match self {
            RelationshipStatus::Friend => 0,
            RelationshipStatus::Incoming => 1,
            RelationshipStatus::Outgoing => 2,
            RelationshipStatus::Blocked => 3,
            RelationshipStatus::BlockedByOther => 4,
        }
    }

    pub fn from_repr(v: i32) -> (r: Option<RelationshipStatus>)
        ensures
            r is Some <==> 0 <= v <= 4,
            r matches Some(s) ==> relationship_repr(s) == v,
    {
        if v == 0 {
            Some(RelationshipStatus::Friend)
        } else if v == 1 {
            Some(RelationshipStatus::Incoming)
        } else if v == 2 {
            Some(RelationshipStatus::Outgoing)
        } else if v == 3 {
            Some(RelationshipStatus::Blocked)
        } else if v == 4 {
            Some(RelationshipStatus::BlockedByOther)
        } else {
            None
        }
    }
}

#[derive(Clone, Copy, Debug, PartialEq, Eq, Structural)]
pub enum PresenceStatus {
    Offline,
    Online,
    Idle,
    Dnd,
}

pub open spec fn presence_repr(s: PresenceStatus) -> u8 {
    match s {
        PresenceStatus::Offline => 0,
        PresenceStatus::Online => 1,
        PresenceStatus::Idle => 2,
        PresenceStatus::Dnd => 3,
    }
}

impl PresenceStatus {
    pub fn to_repr(&self) -> (r: u8)
        ensures
            r == presence_repr(*self),
    {
        match self {
            PresenceStatus::Offline => 0,
            PresenceStatus::Online => 1,
            PresenceStatus::Idle => 2,
            PresenceStatus::Dnd => 3,
        }
    }

    pub fn from_repr(v: u8) -> (r: Option<PresenceStatus>)
        ensures
            r is Some <==> v <= 3,
            r matches Some(s) ==> presence_repr(s) == v,
    {
        if v == 0 {
            Some(PresenceStatus::Offline)
        } else if v == 1 {
            Some(PresenceStatus::Online)
        } else if v == 2 {
            Some(PresenceStatus::Idle)
        } else if v == 3 {
            Some(PresenceStatus::Dnd)
        } else {
            None
        }
    }
}

#[derive(Clone, Debug)]
pub struct Presence {
    pub status: PresenceStatus,
    pub text: Option<String>,
}

impl Default for Presence {
    fn default() -> (p: Presence)
        ensures
            p.status == PresenceStatus::Offline,
            p.text is None,
    {
        Presence { status: PresenceStatus::Offline, text: None }
    }
}

impl Presence {
    pub fn is_online(&self) -> (r: bool)
        ensures
            r == (self.status != PresenceStatus::Offline),
    {
        self.status != PresenceStatus::Offline
    }
}

#[derive(Clone, Debug)]
pub struct User {
    pub id: Snowflake,
    pub username: String,
    pub avatar: Option<String>,
    pub badges: Badges,
    pub presence: Presence,
    /// How the user stands towards the one who receives this value; not stored.
    pub relationship: Option<RelationshipStatus>,
    /// How the user stands towards others, by their id.
    pub relations: Private<HashMap<i64, RelationshipStatus>>,
    pub email: Private<String>,
    pub password: Private<String>,
    pub verified: Private<bool>,
}

/// How `u` stands towards the user with id `other`.
pub open spec fn relation(u: User, other: i64) -> Option<RelationshipStatus> {
    if u.relations.value()@.contains_key(other) {
        Some(u.relations.value()@[other])
    } else {
        None
    }
}

/// The users whom a relation map records as blocked.
pub open spec fn blocked_ids(m: Map<i64, RelationshipStatus>) -> Set<i64> {
    m.dom().filter(|k: i64| m[k] == RelationshipStatus::Blocked)
}

/// A user is among the blocked ones exactly when the map holds `Blocked`
/// for them.
pub proof fn law_blocked_ids_are_the_blocked(m: Map<i64, RelationshipStatus>, k: i64)
    ensures
        blocked_ids(m).contains(k) <==> (m.contains_key(k) && m[k] == RelationshipStatus::Blocked),
{
}

/// How many of the keys in `ks` the map records as blocked.
spec fn blocked_among(m: Map<i64, RelationshipStatus>, ks: Seq<i64>) -> nat
    decreases ks.len(),
{
    if ks.len() == 0 {
        0
    } else {
        blocked_among(m, ks.drop_last()) + if m[ks.last()] == RelationshipStatus::Blocked {
            1nat
        } else {
            0nat
        }
    }
}

proof fn lemma_blocked_among(m: Map<i64, RelationshipStatus>, ks: Seq<i64>)
    requires
        ks.no_duplicates(),
    ensures
        ks.to_set().filter(|k: i64| m[k] == RelationshipStatus::Blocked).finite(),
        blocked_among(m, ks) == ks.to_set().filter(|k: i64| m[k] == RelationshipStatus::Blocked).len(),
    decreases ks.len(),
{
    let p = |k: i64| m[k] == RelationshipStatus::Blocked;
    if ks.len() == 0 {
        assert(ks.to_set().filter(p) =~= Set::empty());
    } else {
        let init = ks.drop_last();
        let x = ks.last();
        assert forall|i: int, j: int| 0 <= i < init.len() && 0 <= j < init.len() && i != j implies init[i] != init[j] by {
            assert(init[i] == ks[i] && init[j] == ks[j]);
        }
        lemma_blocked_among(m, init);
        assert(!init.to_set().contains(x)) by {
            if init.to_set().contains(x) {
                let i = choose|i: int| 0 <= i < init.len() && init[i] == x;
                assert(ks[i] == ks[ks.len() - 1]);
            }
        }
        assert(ks.to_set() =~= init.to_set().insert(x)) by {
            assert forall|a: i64| ks.to_set().contains(a) implies init.to_set().insert(x).contains(a) by {
                let i = choose|i: int| 0 <= i < ks.len() && ks[i] == a;
                if i < ks.len() - 1 {
                    assert(init[i] == a);
                }
            }
            assert forall|a: i64| init.to_set().insert(x).contains(a) implies ks.to_set().contains(a) by {
                if a == x {
                    assert(ks[ks.len() - 1] == a);
                } else {
                    let i = choose|i: int| 0 <= i < init.len() && init[i] == a;
                    assert(ks[i] == a);
                }
            }
        }
        if p(x) {
            assert(ks.to_set().filter(p) =~= init.to_set().filter(p).insert(x));
        } else {
            assert(ks.to_set().filter(p) =~= init.to_set().filter(p));
        }
    }
}

impl User {
    /// A new, unverified user who is offline, has no badges and no relations.
    /// The email, password and relations are hidden.
    pub fn new(generator: &mut SnowflakeIdGenerator, username: String, email: String, password:
        String) -> (u: User)
        ensures
            *final(generator) != *old(generator),
            u.id.0 == id_of_state(*final(generator)),
            u.username == username,
            u.email == Private::Hidden(email),
            u.password == Private::Hidden(password),
            u.verified == Private::Hidden(false),
            u.relations is Hidden,
            u.relations.value()@ == Map::<i64, RelationshipStatus>::empty(),
            u.avatar is None,
            u.relationship is None,
            u.presence.status == PresenceStatus::Offline,
            u.presence.text is None,
            u.badges@ == 0,
    {
        User {
            id: Snowflake::generate(generator),
            username,
            email: Private::Hidden(email),
            password: Private::Hidden(password),
            avatar: None,
            relationship: None,
            verified: Private::Hidden(false),
            presence: Presence::default(),
            badges: Badges::empty(),
            relations: Private::Hidden(HashMap::new()),
        }
    }

    /// A copy of the user in which the email, password, verification and
    /// relations are shown.
    pub fn with_hidden_fields(&self) -> (u: User)
        ensures
            u.id == self.id,
            u.username@ == self.username@,
            u.avatar is Some <==> self.avatar is Some,
            u.avatar matches Some(a) ==> a@ == self.avatar.unwrap()@,
            u.badges == self.badges,
            u.presence.status == self.presence.status,
            u.presence.text is Some <==> self.presence.text is Some,
            u.presence.text matches Some(t) ==> t@ == self.presence.text.unwrap()@,
            u.relationship == self.relationship,
            u.relations is Shown,
            u.relations.value()@ == self.relations.value()@,
            u.email is Shown,
            u.email.value()@ == self.email.value()@,
            u.password is Shown,
            u.password.value()@ == self.password.value()@,
            u.verified == Private::Shown(self.verified.value()),
    {
        User {
            id: self.id,
            username: self.username.clone(),
            avatar: self.avatar.clone(),
            badges: self.badges,
            presence: Presence { status: self.presence.status, text: self.presence.text.clone() },
            relationship: self.relationship,
            relations: Private::Shown(self.relations.get().clone()),
            email: Private::Shown(self.email.get().clone()),
            password: Private::Shown(self.password.get().clone()),
            verified: Private::Shown(*self.verified.get()),
        }
    }

    /// How this user stands towards the user with id `other`.
    pub fn relation_to(&self, other: i64) -> (r: Option<RelationshipStatus>)
        ensures
            r == relation(*self, other),
    {
        match self.relations.get().get(&other) {
            Some(s) => Some(*s),
            None => None,
        }
    }

    /// The number of users this one has blocked.
    pub fn blocked_count(&self) -> (r: usize)
        ensures
            r == blocked_ids(self.relations.value()@).len(),
    {
        let m = self.relations.get();
        let n = m.len();
        let ghost ks = vstd::std_specs::iter::IteratorSpec::remaining(&vstd::std_specs::hash::spec_keys_iter(m)).unref();
        proof {
            assert(ks.to_set() == m@.dom());
        }
        let mut count: usize = 0;
        for k in it: m.keys()
            invariant
                n == m@.len(),
                it.seq().unref() == ks,
                ks.len() == m@.dom().len(),
                count <= it.index(),
                count == blocked_among(m@, ks.take(it.index())),
            ensures
                it.index() == ks.len(),
                count == blocked_among(m@, ks.take(it.index())),
        {
            let ghost i = it.index();
            proof {
                assert(ks.take(i + 1).drop_last() =~= ks.take(i));
                assert(ks[i] == *k);
            }
            if m.get(k) == Some(&RelationshipStatus::Blocked) {
                count = count + 1;
            }
        }
        proof {
            assert(ks.take(ks.len() as int) =~= ks);
            lemma_blocked_among(m@, ks);
            assert(ks.to_set().filter(|k: i64| m@[k] == RelationshipStatus::Blocked) =~= blocked_ids(m@));
        }
        count
    }

    /// The number of users this one has a relation with.
    pub fn relations_count(&self) -> (r: usize)
        ensures
            r == self.relations.value()@.len(),
    {
        self.relations.get().len()
    }

    /// Records how this user stands towards `other`.
    pub fn set_relation(&mut self, other: i64, status: RelationshipStatus)
        ensures
            final(self).relations.value()@ == old(self).relations.value()@.insert(other, status),
            (final(self).relations is Hidden) == (old(self).relations is Hidden),
            final(self).id == old(self).id,
            final(self).relationship == old(self).relationship,
    {
        match &mut self.relations {
            Private::Hidden(m) => {
                m.insert(other, status);
            },
            Private::Shown(m) => {
                m.insert(other, status);
            },
        }
    }

    /// Forgets how this user stands towards `other`.
    pub fn remove_relation(&mut self, other: i64)
        ensures
            final(self).relations.value()@ == old(self).relations.value()@.remove(other),
            (final(self).relations is Hidden) == (old(self).relations is Hidden),
            final(self).id == old(self).id,
            final(self).relationship == old(self).relationship,
    {
        match &mut self.relations {
            Private::Hidden(m) => {
                m.remove(&other);
            },
            Private::Shown(m) => {
                m.remove(&other);
            },
        }
    }
}

} // verus!
