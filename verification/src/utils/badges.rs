//! The badges that staff hand out to users, stored as bits of an `i64`.
use vstd::prelude::*;
use crate::utils::text::{i64_to_string, parse_i64, parse_i64_spec, signed_decimal, lemma_parse_i64_of_signed_decimal};

verus! {

pub const STAFF: i64 = 2;
pub const DEVELOPER: i64 = 4;
pub const SUPPORTER: i64 = 8;
pub const TRANSLATOR: i64 = 16;

/// The union of every badge bit.
pub const ALL_BADGE_BITS: i64 = 30;

/// The bits that name a badge: `bits` lies among the four badge bits.
pub open spec fn known_badge_bits(bits: i64) -> bool {
    0 <= bits <= ALL_BADGE_BITS && bits % 2 == 0
}

#[derive(Clone, Copy, Debug, PartialEq, Eq, Structural, Hash)]
pub struct Badges {
    bits: i64,
}

impl View for Badges {
    type V = i64;

    closed spec fn view(&self) -> i64 {
        self.bits
    }
}

proof fn lemma_known_badge_bits(bits: i64)
    ensures
        (bits & !ALL_BADGE_BITS == 0) <==> known_badge_bits(bits),
{
    assert((bits & !30i64 == 0) <==> (0 <= bits && bits <= 30i64 && bits % 2 == 0)) by (
        bit_vector);
}

impl Badges {
    #[verifier::type_invariant]
    closed spec fn only_known_bits(self) -> bool {
        known_badge_bits(self.bits)
    }

    pub fn empty() -> (b: Badges)
        ensures
            b@ == 0,
    {
        Badges { bits: 0 }
    }

    pub fn bits(&self) -> (r: i64)
        ensures
            r == self@,
            known_badge_bits(r),
    {
        proof {
            use_type_invariant(self);
        }
        self.bits
    }

    /// The badges with exactly these bits; `None` when a bit that no badge
    /// names is set, negative numbers included.
    pub fn from_bits(bits: i64) -> (r: Option<Badges>)
        ensures
            r is Some <==> bits & !ALL_BADGE_BITS == 0,
            r is Some <==> known_badge_bits(bits),
            r matches Some(b) ==> b@ == bits,
    {
        proof {
            lemma_known_badge_bits(bits);
        }
        if bits & !ALL_BADGE_BITS == 0 {
            Some(Badges { bits })
        } else {
            None
        }
    }

    pub fn contains(&self, other: Badges) -> (r: bool)
        ensures
            r == (self@ & other@ == other@),
    {
        self.bits & other.bits == other.bits
    }

    pub fn insert(&mut self, other: Badges)
        ensures
            final(self)@ == old(self)@ | other@,
    {
        proof {
            use_type_invariant(&*self);
            use_type_invariant(&other);
            let a = self.bits;
            let b = other.bits;
            lemma_known_badge_bits(a);
            lemma_known_badge_bits(b);
            lemma_known_badge_bits(a | b);
            assert((a & !30i64 == 0 && b & !30i64 == 0) ==> (a | b) & !30i64 == 0) by (
                bit_vector);
        }
        self.bits = self.bits | other.bits;
    }
}

impl Default for Badges {
    fn default() -> (b: Badges)
        ensures
            b@ == 0,
    {
        Badges::empty()
    }
}

/// The badge bits that a decimal text denotes, when they all name a badge.
pub open spec fn badges_from_text(s: Seq<char>) -> Option<i64> {
    match parse_i64_spec(s) {
        Some(v) => if known_badge_bits(v) {
            Some(v)
        } else {
            None
        },
        None => None,
    }
}

impl Badges {
    /// The decimal text of the bits, which is how badges are written out.
    pub fn to_bits_string(&self) -> (s: String)
        ensures
            s@ == signed_decimal(self@ as int),
    {
        i64_to_string(self.bits)
    }

    /// The badges that a decimal text of bits denotes; `None` when it is not a
    /// number or names a bit that no badge has.
    pub fn from_bits_str(s: &str) -> (r: Option<Badges>)
        ensures
            r is Some <==> badges_from_text(s@) is Some,
            r matches Some(b) ==> Some(b@) == badges_from_text(s@),
    {
        match parse_i64(s) {
            Some(v) => Badges::from_bits(v),
            None => None,
        }
    }

    /// The badges whose bits are those of an unsigned number read as signed.
    pub fn from_u64_bits(v: u64) -> (r: Option<Badges>)
        ensures
            r is Some <==> known_badge_bits(v as i64),
            r matches Some(b) ==> b@ == v as i64,
    {
        Badges::from_bits(v as i64)
    }
}

/// Reading back the text that badges are written as gives the same bits.
pub proof fn law_badges_text_round_trip(bits: i64)
    requires
        known_badge_bits(bits),
    ensures
        badges_from_text(signed_decimal(bits as int)) == Some(bits),
{
    lemma_parse_i64_of_signed_decimal(bits);
}

} // verus!
