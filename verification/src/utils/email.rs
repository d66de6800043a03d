//! Email addresses: the normal form under which an address is compared, so
//! that dots and `+tags` in the local part do not make a second account.
use vstd::prelude::*;
use crate::utils::snowflakes::Snowflake;
use crate::structures::base::{Base, texts};
use crate::utils::text::{chars_of, push_all, push_signed_decimal, signed_decimal, string_from_chars};

verus! {

/// The first position at or after `i` that holds `c`, or the end.
pub open spec fn next_of(s: Seq<char>, i: int, c: char) -> int
    decreases s.len() - i,
{
    if i >= s.len() || s[i] == c {
        i
    } else {
        next_of(s, i + 1, c)
    }
}

/// Where the pattern `([^@]+)(@.+)` first matches: the start of the local
/// part, the position of its `@`, and the end of the domain part. The local
/// part is a run of characters other than `@`; the domain part is the `@` and
/// the characters after it up to a line break, at least one of them.
pub open spec fn address_match(s: Seq<char>, i: int) -> Option<(int, int, int)>
    decreases s.len() - i,
{
    if i < 0 || i >= s.len() {
        None
    } else if s[i] == '@' {
        address_match(s, i + 1)
    } else {
        let at = next_of(s, i, '@');
        if at + 1 < s.len() && s[at + 1] != '\n' {
            Some((i, at, next_of(s, at + 1, '\n')))
        } else {
            proof {
                lemma_next_of_bounds(s, i, '@');
            }
            address_match(s, at)
        }
    }
}

/// The local part from position `p` on, without dots and without a `+` and
/// the rest of its line (when at least one character follows the `+`).
pub open spec fn clean_local(l: Seq<char>, p: int) -> Seq<char>
    decreases l.len() - p,
{
    if p < 0 || p >= l.len() {
        Seq::empty()
    } else if l[p] == '+' && p + 1 < l.len() && l[p + 1] != '\n' {
        proof {
            lemma_next_of_bounds(l, p + 1, '\n');
        }
        clean_local(l, next_of(l, p + 1, '\n'))
    } else if l[p] == '.' {
        clean_local(l, p + 1)
    } else {
        seq![l[p]] + clean_local(l, p + 1)
    }
}

/// What `str::to_lowercase` makes of a text (Unicode lower case).
pub uninterp spec fn lowercase(s: Seq<char>) -> Seq<char>;

/// `str::to_lowercase`.
#[verifier::external_body]
fn str_to_lowercase(s: &str) -> (r: String)
    ensures
        r@ == lowercase(s@),
{
    s.to_lowercase()
}

/// A plain address, a local part without `@` and a one-line domain part, is
/// matched whole: the normal form is its local part cleaned, then `@` and the
/// domain, in lower case.
pub proof fn law_plain_address_matches_whole(local: Seq<char>, domain: Seq<char>)
    requires
        local.len() > 0,
        !local.contains('@'),
        domain.len() > 0,
        !domain.contains('\n'),
    ensures
        address_match(local + seq!['@'] + domain, 0) == Some(
            (0int, local.len() as int, (local.len() + 1 + domain.len()) as int),
        ),
        normalized(local + seq!['@'] + domain) == Some(
            lowercase(clean_local(local, 0) + seq!['@'] + domain),
        ),
{
    let s = local + seq!['@'] + domain;
    let n = local.len() as int;
    assert(s[0] == local[0]);
    assert(local[0] != '@') by {
        if local[0] == '@' {
            assert(local.contains('@'));
        }
    }
    lemma_next_of_bounds(s, 0, '@');
    let at = next_of(s, 0, '@');
    assert(s[n] == '@');
    assert(at == n) by {
        if at < n {
            assert(s[at] == local[at]);
            assert(local.contains('@'));
        }
    }
    assert(s[n + 1] == domain[0]);
    assert(domain[0] != '\n') by {
        if domain[0] == '\n' {
            assert(domain.contains('\n'));
        }
    }
    lemma_next_of_bounds(s, n + 1, '\n');
    let end = next_of(s, n + 1, '\n');
    assert(end == s.len()) by {
        if end < s.len() {
            assert(s[end] == domain[end - n - 1]);
            assert(domain.contains('\n'));
        }
    }
    assert(s.subrange(0, n) =~= local);
    assert(s.subrange(n, s.len() as int) =~= seq!['@'] + domain);
    assert(clean_local(local, 0) + (seq!['@'] + domain) =~= clean_local(local, 0) + seq!['@']
        + domain);
}

proof fn lemma_clean_local_without_tag(l: Seq<char>, p: int)
    requires
        0 <= p <= l.len(),
        !l.contains('+'),
    ensures
        clean_local(l, p) == l.subrange(p, l.len() as int).filter(|c: char| c != '.'),
    decreases l.len() - p,
{
    let keep = |c: char| c != '.';
    let rest = l.subrange(p, l.len() as int);
    if p == l.len() {
        assert(rest =~= Seq::<char>::empty());
        reveal(Seq::filter);
    } else {
        assert(l[p] != '+') by {
            if l[p] == '+' {
                assert(l.contains('+'));
            }
        }
        lemma_clean_local_without_tag(l, p + 1);
        let tail = l.subrange(p + 1, l.len() as int);
        assert(rest =~= seq![l[p]] + tail);
        tail.lemma_filter_prepend(l[p], keep);
        if l[p] == '.' {
            assert(rest.filter(keep) =~= tail.filter(keep));
        } else {
            assert(rest.filter(keep) =~= seq![l[p]] + tail.filter(keep));
        }
    }
}

/// A local part without a `+` tag loses its dots and nothing else: every
/// other character is kept, in order.
pub proof fn law_local_part_loses_only_dots(l: Seq<char>)
    requires
        !l.contains('+'),
    ensures
        clean_local(l, 0) == l.filter(|c: char| c != '.'),
{
    lemma_clean_local_without_tag(l, 0);
    assert(l.subrange(0, l.len() as int) =~= l);
}

/// A `+` tag is dropped with the rest of its line: what comes before it keeps
/// all but its dots.
pub proof fn law_tag_is_dropped(l: Seq<char>, tag: Seq<char>)
    requires
        !l.contains('+'),
        tag.len() > 0,
        !tag.contains('\n'),
    ensures
        clean_local(l + seq!['+'] + tag, 0) == l.filter(|c: char| c != '.'),
{
    let whole = l + seq!['+'] + tag;
    let n = l.len() as int;
    assert(whole[n] == '+');
    assert(whole[n + 1] == tag[0]);
    assert(tag[0] != '\n') by {
        if tag[0] == '\n' {
            assert(tag.contains('\n'));
        }
    }
    lemma_next_of_bounds(whole, n + 1, '\n');
    assert(next_of(whole, n + 1, '\n') == whole.len()) by {
        if next_of(whole, n + 1, '\n') < whole.len() {
            let k = next_of(whole, n + 1, '\n');
            assert(whole[k] == tag[k - n - 1]);
            assert(tag.contains('\n'));
        }
    }
    assert(clean_local(whole, whole.len() as int) == Seq::<char>::empty());
    assert(clean_local(whole, n) == Seq::<char>::empty());
    assert(whole.subrange(0, n) =~= l);
    lemma_clean_prefix(l, whole, 0);
    assert(clean_local(l, 0) + Seq::<char>::empty() =~= clean_local(l, 0));
    law_local_part_loses_only_dots(l);
}

proof fn lemma_clean_prefix(l: Seq<char>, whole: Seq<char>, p: int)
    requires
        0 <= p <= l.len(),
        !l.contains('+'),
        whole.len() > l.len(),
        whole.subrange(0, l.len() as int) == l,
    ensures
        clean_local(whole, p) == clean_local(l, p) + clean_local(whole, l.len() as int),
    decreases l.len() - p,
{
    if p < l.len() {
        assert(whole[p] == l[p]);
        assert(l[p] != '+') by {
            if l[p] == '+' {
                assert(l.contains('+'));
            }
        }
        lemma_clean_prefix(l, whole, p + 1);
        if l[p] != '.' {
            assert(seq![l[p]] + clean_local(l, p + 1) + clean_local(whole, l.len() as int)
                =~= seq![l[p]] + (clean_local(l, p + 1) + clean_local(whole, l.len() as int)));
        }
    } else {
        assert(clean_local(l, p) == Seq::<char>::empty());
        assert(Seq::<char>::empty() + clean_local(whole, l.len() as int) =~= clean_local(whole, l.len() as int));
    }
}

/// The normal form of an address: the first match of the address pattern, its
/// local part cleaned, then all in lower case; `None` when nothing matches.
pub open spec fn normalized(s: Seq<char>) -> Option<Seq<char>> {
    match address_match(s, 0) {
        Some((start, at, end)) => Some(
            lowercase(clean_local(s.subrange(start, at), 0) + s.subrange(at, end)),
        ),
        None => None,
    }
}

pub proof fn lemma_next_of_bounds(s: Seq<char>, i: int, c: char)
    requires
        0 <= i <= s.len(),
    ensures
        i <= next_of(s, i, c) <= s.len(),
        next_of(s, i, c) < s.len() ==> s[next_of(s, i, c)] == c,
        forall|k: int| i <= k < next_of(s, i, c) ==> s[k] != c,
    decreases s.len() - i,
{
    if i < s.len() && s[i] != c {
        lemma_next_of_bounds(s, i + 1, c);
    }
}

fn find_next(s: &Vec<char>, from: usize, c: char) -> (r: usize)
    requires
        from <= s.len(),
    ensures
        r == next_of(s@, from as int, c),
{
    let mut i = from;
    proof {
        lemma_next_of_bounds(s@, from as int, c);
    }
    while i < s.len() && s[i] != c
        invariant
            from <= i <= s.len(),
            next_of(s@, i as int, c) == next_of(s@, from as int, c),
        decreases s.len() - i,
    {
        i = i + 1;
    }
    i
}

fn find_address(s: &Vec<char>) -> (r: Option<(usize, usize, usize)>)
    ensures
        r is None <==> address_match(s@, 0) is None,
        r matches Some((a, b, c)) ==> address_match(s@, 0) == Some((a as int, b as int, c as int)),
        r matches Some((a, b, c)) ==> a < b < c <= s.len(),
{
    let mut i: usize = 0;
    while i < s.len()
        invariant
            i <= s.len(),
            address_match(s@, i as int) == address_match(s@, 0),
        decreases s.len() - i,
    {
        if s[i] == '@' {
            i = i + 1;
        } else {
            let at = find_next(s, i, '@');
            proof {
                lemma_next_of_bounds(s@, i as int, '@');
            }
            if at < s.len() && at + 1 < s.len() && s[at + 1] != '\n' {
                let end = find_next(s, at + 1, '\n');
                proof {
                    lemma_next_of_bounds(s@, at + 1, '\n');
                }
                return Some((i, at, end));
            }
            proof {
                assert(at > i);
            }
            i = at;
        }
    }
    None
}

fn clean_local_part(l: &Vec<char>) -> (r: Vec<char>)
    ensures
        r@ == clean_local(l@, 0),
{
    let mut out: Vec<char> = Vec::new();
    let mut p: usize = 0;
    while p < l.len()
        invariant
            p <= l.len(),
            clean_local(l@, 0) == out@ + clean_local(l@, p as int),
        decreases l.len() - p,
    {
        let c = l[p];
        if c == '+' && p + 1 < l.len() && l[p + 1] != '\n' {
            let next = find_next(l, p + 1, '\n');
            proof {
                lemma_next_of_bounds(l@, p + 1, '\n');
            }
            p = next;
        } else if c == '.' {
            p = p + 1;
        } else {
            proof {
                assert(out@ + clean_local(l@, p as int) == out@.push(c) + clean_local(
                    l@,
                    p + 1,
                ));
            }
            out.push(c);
            p = p + 1;
        }
    }
    proof {
        assert(out@ + Seq::<char>::empty() =~= out@);
    }
    out
}

/// The normal form of an email address: dots and any `+tag` are dropped from
/// the local part and the whole is put in lower case, so that
/// `John.Doe+news@Example.com` reads `johndoe@example.com`. `None` when the
/// text holds no local part followed by `@` and a domain.
pub fn normalize(email: String) -> (r: Option<String>)
    ensures
        match normalized(email@) {
            Some(n) => r matches Some(x) && x@ == n,
            None => r is None,
        },
{
    let s = chars_of(email.as_str());
    match find_address(&s) {
        None => None,
        Some((start, at, end)) => {
            let mut local: Vec<char> = Vec::new();
            let mut i = start;
            while i < at
                invariant
                    start <= i <= at,
                    at <= s.len(),
                    local@ == s@.subrange(start as int, i as int),
                decreases at - i,
            {
                local.push(s[i]);
                i = i + 1;
                proof {
                    assert(s@.subrange(start as int, i as int) =~= s@.subrange(
                        start as int,
                        i - 1,
                    ).push(s@[i - 1]));
                }
            }
            let mut clean = clean_local_part(&local);
            let ghost cleaned = clean@;
            let mut k = at;
            while k < end
                invariant
                    at <= k <= end,
                    end <= s.len(),
                    clean@ == cleaned + s@.subrange(at as int, k as int),
                decreases end - k,
            {
                clean.push(s[k]);
                k = k + 1;
                proof {
                    assert(s@.subrange(at as int, k as int) =~= s@.subrange(at as int, k - 1).push(
                        s@[k - 1],
                    ));
                }
            }
            let joined = string_from_chars(clean);
            proof {
                assert(s@ == email@);
                assert(local@ == s@.subrange(start as int, at as int));
                assert(joined@ == clean_local(s@.subrange(start as int, at as int), 0)
                    + s@.subrange(at as int, end as int));
            }
            let lowered = str_to_lowercase(joined.as_str());
            Some(lowered)
        },
    }
}


/// How long a verification code stays valid, in seconds.
pub const THREE_HOURS_IN_SECONDS: i64 = 10800;

/// `s` from position `i` on, with every occurrence of `pat` replaced by `rep`,
/// scanning from the left as `str::replace` does.
pub open spec fn replace_from(s: Seq<char>, pat: Seq<char>, rep: Seq<char>, i: int) -> Seq<char>
    recommends
        pat.len() > 0,
    decreases s.len() - i,
{
    if i < 0 || i >= s.len() || pat.len() == 0 {
        if 0 <= i < s.len() {
            s.subrange(i, s.len() as int)
        } else {
            Seq::empty()
        }
    } else if i + pat.len() <= s.len() && s.subrange(i, i + pat.len()) == pat {
        rep + replace_from(s, pat, rep, i + pat.len())
    } else {
        seq![s[i]] + replace_from(s, pat, rep, i + 1)
    }
}

pub open spec fn replaced(s: Seq<char>, pat: Seq<char>, rep: Seq<char>) -> Seq<char> {
    replace_from(s, pat, rep, 0)
}

proof fn lemma_replace_without_pattern(s: Seq<char>, pat: Seq<char>, rep: Seq<char>, i: int)
    requires
        0 <= i <= s.len(),
        pat.len() > 0,
        forall|j: int| 0 <= j && j + pat.len() <= s.len() ==> #[trigger] s.subrange(j, j + pat.len()) != pat,
    ensures
        replace_from(s, pat, rep, i) == s.subrange(i, s.len() as int),
    decreases s.len() - i,
{
    if i < s.len() {
        lemma_replace_without_pattern(s, pat, rep, i + 1);
        if i + pat.len() <= s.len() {
            assert(s.subrange(i, i + pat.len()) != pat);
        }
        assert(seq![s[i]] + s.subrange(i + 1, s.len() as int) =~= s.subrange(i, s.len() as int));
    } else {
        assert(s.subrange(i, s.len() as int) =~= Seq::<char>::empty());
    }
}

proof fn lemma_replace_shift(a: Seq<char>, t: Seq<char>, pat: Seq<char>, rep: Seq<char>, k: int)
    requires
        0 <= k <= t.len(),
        pat.len() > 0,
    ensures
        replace_from(a + t, pat, rep, a.len() + k) == replace_from(t, pat, rep, k),
    decreases t.len() - k,
{
    let s = a + t;
    let i = a.len() + k;
    if k < t.len() {
        assert(s[i] == t[k]);
        if k + pat.len() <= t.len() {
            assert(s.subrange(i, i + pat.len()) =~= t.subrange(k, k + pat.len()));
            if t.subrange(k, k + pat.len()) == pat {
                lemma_replace_shift(a, t, pat, rep, k + pat.len());
            } else {
                lemma_replace_shift(a, t, pat, rep, k + 1);
            }
        } else {
            lemma_replace_shift(a, t, pat, rep, k + 1);
        }
    }
}

/// A text in which the pattern never occurs comes back unchanged.
pub proof fn law_replace_without_pattern_changes_nothing(s: Seq<char>, pat: Seq<char>, rep: Seq<char>)
    requires
        pat.len() > 0,
        forall|j: int| 0 <= j && j + pat.len() <= s.len() ==> #[trigger] s.subrange(j, j + pat.len()) != pat,
    ensures
        replaced(s, pat, rep) == s,
{
    lemma_replace_without_pattern(s, pat, rep, 0);
    assert(s.subrange(0, s.len() as int) =~= s);
}

/// An occurrence of the pattern at the start is replaced, and the rest of
/// the text is then treated on its own.
pub proof fn law_replace_leading_pattern(pat: Seq<char>, t: Seq<char>, rep: Seq<char>)
    requires
        pat.len() > 0,
    ensures
        replaced(pat + t, pat, rep) == rep + replaced(t, pat, rep),
{
    let s = pat + t;
    assert(s.subrange(0, pat.len() as int) =~= pat);
    lemma_replace_shift(pat, t, pat, rep, 0);
}

fn matches_at(s: &Vec<char>, i: usize, pat: &Vec<char>) -> (r: bool)
    requires
        i <= s.len(),
    ensures
        r == (i + pat.len() <= s.len() && s@.subrange(i as int, i + pat.len()) == pat@),
{
    if pat.len() > s.len() - i {
        return false;
    }
    let mut k: usize = 0;
    while k < pat.len()
        invariant
            k <= pat.len(),
            i + pat.len() <= s.len(),
            forall|j: int| 0 <= j < k ==> s@[i + j] == pat@[j],
        decreases pat.len() - k,
    {
        if s[i + k] != pat[k] {
            proof {
                assert(s@.subrange(i as int, i + pat.len())[k as int] != pat@[k as int]);
            }
            return false;
        }
        k = k + 1;
    }
    proof {
        assert(s@.subrange(i as int, i + pat.len()) =~= pat@);
    }
    true
}

/// `s.replace(pat, rep)` for a pattern that is not empty.
pub fn replace_all(s: &str, pat: &str, rep: &str) -> (r: String)
    requires
        pat@.len() > 0,
    ensures
        r@ == replaced(s@, pat@, rep@),
{
    let sv = chars_of(s);
    let pv = chars_of(pat);
    let rv = chars_of(rep);
    let mut out: Vec<char> = Vec::new();
    let mut i: usize = 0;
    while i < sv.len()
        invariant
            i <= sv.len(),
            pv@.len() > 0,
            replaced(sv@, pv@, rv@) == out@ + replace_from(sv@, pv@, rv@, i as int),
        decreases sv.len() - i,
    {
        if matches_at(&sv, i, &pv) {
            let ghost before = out@;
            push_all(&mut out, &rv);
            proof {
                assert(before + (rv@ + replace_from(sv@, pv@, rv@, i + pv.len())) =~= out@
                    + replace_from(sv@, pv@, rv@, i + pv.len()));
            }
            i = i + pv.len();
        } else {
            proof {
                assert((out@ + seq![sv@[i as int]]) + replace_from(sv@, pv@, rv@, i + 1)
                    =~= out@ + (seq![sv@[i as int]] + replace_from(sv@, pv@, rv@, i + 1)));
            }
            out.push(sv[i]);
            i = i + 1;
        }
    }
    proof {
        assert(out@ + Seq::<char>::empty() =~= out@);
    }
    string_from_chars(out)
}

/// The body of the verification mail: the template with the address, the code
/// and the user's id put in place of `%%EMAIL%%`, `%%CODE%%` and `%%USER_ID%%`.
pub open spec fn verification_mail(
    template: Seq<char>,
    email: Seq<char>,
    code: Seq<char>,
    user_id: Snowflake,
) -> Seq<char> {
    replaced(
        replaced(replaced(template, "%%EMAIL%%"@, email), "%%CODE%%"@, code),
        "%%USER_ID%%"@,
        signed_decimal(user_id.0 as int),
    )
}

/// Fills in the template of the verification mail.
pub fn render_verification_mail(template: &str, email: &str, code: &str, user_id: Snowflake) -> (r:
    String)
    ensures
        r@ == verification_mail(template@, email@, code@, user_id),
{
    proof {
        reveal_strlit("%%EMAIL%%");
        reveal_strlit("%%CODE%%");
        reveal_strlit("%%USER_ID%%");
    }
    let a = replace_all(template, "%%EMAIL%%", email);
    let b = replace_all(a.as_str(), "%%CODE%%", code);
    let mut id: Vec<char> = Vec::new();
    push_signed_decimal(&mut id, user_id.0);
    let id_text = string_from_chars(id);
    replace_all(b.as_str(), "%%USER_ID%%", id_text.as_str())
}

/// A verification code is accepted when it is the one stored for the user.
pub fn verification_code_matches(code: &str, stored: Option<&str>) -> (r: bool)
    ensures
        r == (stored is Some && stored.unwrap()@ == code@),
{
    match stored {
        None => false,
        Some(t) => {
            let a = chars_of(code);
            let b = chars_of(t);
            if a.len() != b.len() {
                return false;
            }
            let mut i: usize = 0;
            while i < a.len()
                invariant
                    i <= a.len(),
                    a.len() == b.len(),
                    a@ == code@,
                    b@ == t@,
                    stored == Some(t),
                    forall|j: int| 0 <= j < i ==> a@[j] == b@[j],
                decreases a.len() - i,
            {
                if a[i] != b[i] {
                    proof {
                        assert(code@[i as int] != t@[i as int]);
                    }
                    return false;
                }
                i = i + 1;
            }
            proof {
                assert(a@ =~= b@);
            }
            true
        },
    }
}

/// An invite code that lets one account be made; `code` is the code's UUID
/// as a 128-bit number.
pub struct AccountInvite {
    pub code: u128,
    pub used: bool,
    pub taken_by: Option<Snowflake>,
}

impl AccountInvite {
    /// The key of the row: the code.
    pub fn id(&self) -> (r: u128)
        ensures
            r == self.code,
    {
        self.code
    }
}

impl Base for AccountInvite {
    open spec fn spec_table_name() -> Seq<char> {
        "account_invites"@
    }

    open spec fn spec_primary_key() -> Seq<char> {
        "code"@
    }

    open spec fn spec_columns() -> Seq<Seq<char>> {
        seq!["code"@, "used"@, "taken_by"@]
    }

    fn table_name() -> (r: &'static str) {
        "account_invites"
    }

    fn primary_key() -> (r: &'static str) {
        "code"
    }

    fn columns() -> (r: Vec<&'static str>) {
        let r = vec!["code", "used", "taken_by"];
        proof {
            assert(texts(r@) =~= Self::spec_columns());
        }
        r
    }
}

} // verus!
