//! Snowflake identifiers: 64-bit ids whose upper bits count the milliseconds
//! since the ItChat epoch.
use vstd::prelude::*;
use crate::utils::text::{i64_to_string, parse_i64, parse_i64_spec, signed_decimal};
use core::time::Duration;
use ::snowflake::SnowflakeIdGenerator;

verus! {

/// Fri, 01 Jan 2021 00:00:00 GMT, in milliseconds since the UNIX epoch.
pub const ITCHAT_EPOCH_MILLIS: u64 = 1609459200000;

/// The ItChat epoch in whole seconds since the UNIX epoch.
pub const ITCHAT_EPOCH_SECS: u64 = 1609459200;

#[verifier::external_type_specification]
#[verifier::external_body]
pub struct ExSnowflakeIdGenerator(::snowflake::SnowflakeIdGenerator);

/// The id that a generator in the given state hands out: its time stamp, its
/// machine and node ids and its sequence counter, packed into 64 bits. It is a
/// function of the generator's fields alone.
pub uninterp spec fn id_of_state(g: SnowflakeIdGenerator) -> i64;

/// `SnowflakeIdGenerator::generate`. The call moves the generator on: it steps
/// the generator's sequence counter, `(idx + 1) % 4096`, which is always below
/// 4096, so the generator afterwards differs from the one before; when the
/// counter wraps it also reads the clock. The id is then packed from the fields
/// of the generator as the call leaves it, which is what `id_of_state` names.
/// What the clock gives is not stated.
#[verifier::external_body]
fn generator_next_id(generator: &mut SnowflakeIdGenerator) -> (id: i64)
    ensures
        *final(generator) != *old(generator),
        id == id_of_state(*final(generator)),
{
    generator.generate()
}

/// The duration of `secs` seconds and `nanos` nanoseconds.
pub uninterp spec fn duration_of(secs: u64, nanos: u32) -> Duration;

/// `Duration::new(secs, nanos)`; it panics only when the nanoseconds carry over
/// into seconds that overflow, which `nanos < 1_000_000_000` rules out.
#[verifier::external_body]
fn std_duration_new(secs: u64, nanos: u32) -> (d: Duration)
    requires
        nanos < 1_000_000_000,
    ensures
        d == duration_of(secs, nanos),
{
    Duration::new(secs, nanos)
}

#[derive(Clone, Copy, PartialEq, Eq, Structural, Debug, Hash)]
pub struct Snowflake(pub i64);

/// The milliseconds since the UNIX epoch at which an id was made: its upper
/// bits, read as unsigned, after the ItChat epoch.
pub open spec fn created_at_millis(id: i64) -> nat {
    (((id >> 22u64) as u64) + ITCHAT_EPOCH_MILLIS) as nat
}

impl Snowflake {
    /// A new id from the generator, which moves on to its next state: the id
    /// that the new state encodes.
    pub fn generate(generator: &mut SnowflakeIdGenerator) -> (s: Snowflake)
        ensures
            *final(generator) != *old(generator),
            s.0 == id_of_state(*final(generator)),
    {
        Snowflake(generator_next_id(generator))
    }

    /// The time since the UNIX epoch at which the id was made.
    pub fn created_at_timestamp(&self) -> (d: Duration)
        ensures
            d == duration_of(
                (created_at_millis(self.0) / 1000) as u64,
                ((created_at_millis(self.0) % 1000) * 1_000_000) as u32,
            ),
    {
        let since_epoch: u64 = (self.0 >> 22u64) as u64;
        let secs: u64 = since_epoch / 1000 + ITCHAT_EPOCH_SECS;
        let nanos: u32 = ((since_epoch % 1000) * 1_000_000) as u32;
        proof {
            assert(since_epoch == (self.0 >> 22u64) as u64);
            assert((since_epoch + 1609459200000) / 1000 == since_epoch / 1000 + 1609459200);
            assert((since_epoch + 1609459200000) % 1000 == since_epoch % 1000);
        }
        std_duration_new(secs, nanos)
    }

    /// The whole seconds since the UNIX epoch at which the id was made.
    pub fn created_at_secs(&self) -> (secs: i64)
        ensures
            secs == created_at_millis(self.0) / 1000,
    {
        let since_epoch: u64 = (self.0 >> 22u64) as u64;
        proof {
            assert((since_epoch + 1609459200000) / 1000 == since_epoch / 1000 + 1609459200);
        }
        (since_epoch / 1000 + ITCHAT_EPOCH_SECS) as i64
    }

    /// The id that a decimal text denotes, as `str::parse::<i64>` reads it.
    pub fn try_from_str(value: &str) -> (r: Option<Snowflake>)
        ensures
            r == (match parse_i64_spec(value@) {
                Some(v) => Some(Snowflake(v)),
                None => None,
            }),
    {
        match parse_i64(value) {
            Some(v) => Some(Snowflake(v)),
            None => None,
        }
    }

    /// The decimal text of the id.
    pub fn to_string(&self) -> (s: String)
        ensures
            s@ == signed_decimal(self.0 as int),
    {
        i64_to_string(self.0)
    }
}

impl std::ops::Deref for Snowflake {
    type Target = i64;

    fn deref(&self) -> (r: &i64)
        ensures
            *r == self.0,
    {
        &self.0
    }
}

impl From<i64> for Snowflake {
    fn from(v: i64) -> (s: Snowflake) {
        Snowflake(v)
    }
}

impl vstd::std_specs::convert::FromSpecImpl<i64> for Snowflake {
    open spec fn obeys_from_spec() -> bool {
        true
    }

    open spec fn from_spec(v: i64) -> Snowflake {
        Snowflake(v)
    }
}

} // verus!
