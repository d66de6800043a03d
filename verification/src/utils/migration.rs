//! Schema migrations: files named `NNNNN_name.sql`, numbered from one without
//! gaps, run in order from the first that the database has not seen.
use vstd::prelude::*;
use crate::utils::text::{chars_of, parse_u64, parse_u64_spec, string_from_chars};

verus! {

pub struct Migration {
    pub id: u32,
    pub name: String,
    pub content: String,
}

/// A file name that migrations are read from: its first five characters are a
/// number and the sixth is a one-byte character (the separator), so that the
/// name proper starts at the seventh.
pub open spec fn migration_file_name(f: Seq<char>) -> bool {
    &&& f.len() >= 6
    &&& parse_u64_spec(f.take(5)) is Some
    &&& (f[5] as u32) < 128
}

impl Migration {
    /// The migration that a file holds: its number is the first five
    /// characters of the file name, its name what follows the separator.
    pub fn from_file(filename: &str, content: String) -> (m: Migration)
        requires
            migration_file_name(filename@),
        ensures
            m.id as int == parse_u64_spec(filename@.take(5)).unwrap() as int,
            m.name@ == filename@.skip(6),
            m.content == content,
    {
        let chars = chars_of(filename);
        let mut head: Vec<char> = Vec::new();
        let mut i: usize = 0;
        while i < 5
            invariant
                i <= 5,
                chars@ == filename@,
                chars@.len() >= 6,
                head@ == chars@.take(i as int),
            decreases 5 - i,
        {
            head.push(chars[i]);
            i = i + 1;
            proof {
                assert(chars@.take(i as int) =~= chars@.take(i - 1).push(chars@[i - 1]));
            }
        }
        let head_text = string_from_chars(head);
        let number = parse_u64(head_text.as_str()).unwrap();
        proof {
            lemma_five_chars_fit(filename@.take(5));
        }
        let mut tail: Vec<char> = Vec::new();
        let mut k: usize = 6;
        while k < chars.len()
            invariant
                6 <= k <= chars.len(),
                tail@ == chars@.subrange(6, k as int),
            decreases chars.len() - k,
        {
            tail.push(chars[k]);
            k = k + 1;
            proof {
                assert(chars@.subrange(6, k as int) =~= chars@.subrange(6, k - 1).push(
                    chars@[k - 1],
                ));
            }
        }
        proof {
            assert(chars@.subrange(6, chars@.len() as int) =~= filename@.skip(6));
        }
        Migration { id: number as u32, name: string_from_chars(tail), content }
    }
}

proof fn lemma_five_chars_fit(s: Seq<char>)
    requires
        s.len() == 5,
        parse_u64_spec(s) is Some,
    ensures
        parse_u64_spec(s).unwrap() < 100000,
{
    let body = if s[0] == '+' { s.drop_first() } else { s };
    lemma_digits_bound(body);
    assert(pow10(0) == 1);
    assert(pow10(1) == 10);
    assert(pow10(2) == 100);
    assert(pow10(3) == 1000);
    assert(pow10(4) == 10000);
    assert(pow10(5) == 100000);
}

proof fn lemma_digits_bound(s: Seq<char>)
    requires
        crate::utils::text::all_digits(s),
    ensures
        crate::utils::text::digits_value(s) < pow10(s.len()),
    decreases s.len(),
{
    if s.len() > 0 {
        let init = s.drop_last();
        assert(crate::utils::text::all_digits(init)) by {
            assert forall|i: int| 0 <= i < init.len() implies crate::utils::text::is_digit(
                #[trigger] init[i],
            ) by {
                assert(init[i] == s[i]);
            }
        }
        lemma_digits_bound(init);
        assert(crate::utils::text::is_digit(s[s.len() - 1]));
    }
}

spec fn pow10(n: nat) -> nat
    decreases n,
{
    if n == 0 {
        1
    } else {
        10 * pow10((n - 1) as nat)
    }
}

/// The migrations are numbered without gaps: the last one's number is their
/// count (the count as a 32-bit number).
pub fn numbering_is_consistent(migrations: &Vec<Migration>) -> (r: bool)
    ensures
        r == (migrations@.len() == 0 || migrations@.last().id == migrations@.len() as u32),
{
    if migrations.len() == 0 {
        return true;
    }
    migrations[migrations.len() - 1].id == migrations.len() as u32
}

/// Where the migrations still to run start: after the last migration that the
/// database recorded, or at the start when it recorded none.
pub open spec fn pending_start(current: Option<u32>) -> int {
    match current {
        Some(c) => c as int,
        None => 0,
    }
}

/// The position of the first migration still to run: the number of the last
/// migration that the database recorded, or zero when it recorded none.
pub fn first_pending(count: usize, current: Option<u32>) -> (r: usize)
    requires
        match current {
            Some(c) => c <= count,
            None => true,
        },
    ensures
        r == pending_start(current),
        r <= count,
{
    match current {
        Some(c) => c as usize,
        None => 0,
    }
}

/// Running the migrations twice runs nothing the second time: a run records
/// each migration it runs, the last of them under the number of the last
/// file, which numbering without gaps makes the count of the files, so the
/// second run starts past the end.
pub proof fn law_second_run_runs_nothing(migrations: Seq<Migration>)
    requires
        migrations.len() > 0,
        migrations.last().id == migrations.len(),
    ensures
        migrations.skip(pending_start(Some(migrations.last().id))).len() == 0,
{
}

} // verus!
