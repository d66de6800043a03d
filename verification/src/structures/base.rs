//! The rows of the data layer: the `Base` trait that each stored type
//! implements, and the SQL texts of its queries.
use vstd::prelude::*;
use crate::utils::text::{decimal, push_decimal, push_str_chars, string_from_chars};

verus! {

/// Parts joined by a separator.
pub open spec fn join(parts: Seq<Seq<char>>, sep: Seq<char>) -> Seq<char>
    decreases parts.len(),
{
    if parts.len() == 0 {
        Seq::empty()
    } else if parts.len() == 1 {
        parts[0]
    } else {
        join(parts.drop_last(), sep) + sep + parts.last()
    }
}

/// The texts of a list of string slices.
pub open spec fn texts(v: Seq<&'static str>) -> Seq<Seq<char>> {
    v.map_values(|s: &'static str| s@)
}

/// `$1`, `$2`, ..., `$n`.
pub open spec fn placeholders(n: nat) -> Seq<Seq<char>> {
    Seq::new(n, |i: int| "$"@ + decimal((i + 1) as nat))
}

/// `col1 = $1`, `col2 = $2`, ...
pub open spec fn assignments(columns: Seq<Seq<char>>) -> Seq<Seq<char>> {
    Seq::new(columns.len(), |i: int| columns[i] + " = $"@ + decimal((i + 1) as nat))
}

/// `UPDATE table SET col1 = $1,... WHERE key = $n+1`.
pub open spec fn update_sql(table: Seq<char>, columns: Seq<Seq<char>>, key: Seq<char>) -> Seq<
    char,
> {
    "UPDATE "@ + table + " SET "@ + join(assignments(columns), ","@) + " WHERE "@ + key + " = $"@
        + decimal(columns.len() + 1)
}

/// `INSERT INTO table (col1,...) VALUES ($1,...)`.
pub open spec fn insert_sql(table: Seq<char>, columns: Seq<Seq<char>>) -> Seq<char> {
    "INSERT INTO "@ + table + " ("@ + join(columns, ","@) + ") VALUES ("@ + join(
        placeholders(columns.len()),
        ","@,
    ) + ")"@
}

/// `SELECT * FROM table WHERE filter`.
pub open spec fn select_sql(table: Seq<char>, filter: Seq<char>) -> Seq<char> {
    "SELECT * FROM "@ + table + " WHERE "@ + filter
}

/// `SELECT * FROM table WHERE filter LIMIT limit`.
pub open spec fn select_limit_sql(table: Seq<char>, filter: Seq<char>, limit: nat) -> Seq<char> {
    select_sql(table, filter) + " LIMIT "@ + decimal(limit)
}

/// `SELECT * FROM table WHERE key = id`.
pub open spec fn select_by_key_sql(table: Seq<char>, key: Seq<char>, id: Seq<char>) -> Seq<char> {
    "SELECT * FROM "@ + table + " WHERE "@ + key + " = "@ + id
}

/// `SELECT COUNT(*) FROM table WHERE filter`.
pub open spec fn count_sql(table: Seq<char>, filter: Seq<char>) -> Seq<char> {
    "SELECT COUNT(*) FROM "@ + table + " WHERE "@ + filter
}

/// `<verb> table WHERE key = id`, where the verb is `DELETE FROM`, or, inside
/// a transaction, `DELETE FORM`.
pub open spec fn delete_sql(verb: Seq<char>, table: Seq<char>, key: Seq<char>, id: Seq<char>) -> Seq<
    char,
> {
    verb + " "@ + table + " WHERE "@ + key + " = "@ + id
}

proof fn lemma_join_step(parts: Seq<Seq<char>>, sep: Seq<char>, i: int)
    requires
        0 <= i < parts.len(),
    ensures
        join(parts.take(i + 1), sep) == if i == 0 {
            parts[0]
        } else {
            join(parts.take(i), sep) + sep + parts[i]
        },
{
    let t = parts.take(i + 1);
    if i > 0 {
        assert(t.drop_last() =~= parts.take(i));
    }
}

/// Appends the parts joined by commas.
fn push_joined(out: &mut Vec<char>, parts: &Vec<&'static str>)
    ensures
        final(out)@ == old(out)@ + join(texts(parts@), ","@),
{
    let ghost p = texts(parts@);
    let mut i: usize = 0;
    while i < parts.len()
        invariant
            i <= parts.len(),
            p == texts(parts@),
            out@ == old(out)@ + join(p.take(i as int), ","@),
        decreases parts.len() - i,
    {
        proof {
            lemma_join_step(p, ","@, i as int);
        }
        if i > 0 {
            push_str_chars(out, ",");
        }
        push_str_chars(out, parts[i]);
        i = i + 1;
    }
    proof {
        assert(p.take(parts.len() as int) =~= p);
    }
}

/// Appends `col1 = $1,col2 = $2,...`.
fn push_assignments(out: &mut Vec<char>, columns: &Vec<&'static str>)
    requires
        columns.len() < u64::MAX,
    ensures
        final(out)@ == old(out)@ + join(assignments(texts(columns@)), ","@),
{
    let ghost p = assignments(texts(columns@));
    let mut i: usize = 0;
    while i < columns.len()
        invariant
            i <= columns.len(),
            columns.len() < u64::MAX,
            p == assignments(texts(columns@)),
            out@ == old(out)@ + join(p.take(i as int), ","@),
        decreases columns.len() - i,
    {
        proof {
            lemma_join_step(p, ","@, i as int);
        }
        let ghost before = out@;
        if i > 0 {
            push_str_chars(out, ",");
        }
        let ghost mid = out@;
        push_str_chars(out, columns[i]);
        push_str_chars(out, " = $");
        push_decimal(out, (i + 1) as u64);
        proof {
            assert(out@ == mid + (p[i as int]));
        }
        i = i + 1;
    }
    proof {
        assert(p.take(columns.len() as int) =~= p);
    }
}

/// Appends `$1,$2,...,$n`.
fn push_placeholders(out: &mut Vec<char>, n: usize)
    requires
        n < u64::MAX,
    ensures
        final(out)@ == old(out)@ + join(placeholders(n as nat), ","@),
{
    let ghost p = placeholders(n as nat);
    let mut i: usize = 0;
    while i < n
        invariant
            i <= n,
            n < u64::MAX,
            p == placeholders(n as nat),
            out@ == old(out)@ + join(p.take(i as int), ","@),
        decreases n - i,
    {
        proof {
            lemma_join_step(p, ","@, i as int);
        }
        if i > 0 {
            push_str_chars(out, ",");
        }
        let ghost mid = out@;
        push_str_chars(out, "$");
        push_decimal(out, (i + 1) as u64);
        proof {
            assert(out@ == mid + (p[i as int]));
        }
        i = i + 1;
    }
    proof {
        assert(p.take(n as int) =~= p);
    }
}

/// The text of the statement that writes every column of a row, found by its key.
pub fn update_query(table: &str, columns: &Vec<&'static str>, key: &str) -> (r: String)
    requires
        columns.len() < u64::MAX,
    ensures
        r@ == update_sql(table@, texts(columns@), key@),
{
    let mut v: Vec<char> = Vec::new();
    push_str_chars(&mut v, "UPDATE ");
    push_str_chars(&mut v, table);
    push_str_chars(&mut v, " SET ");
    push_assignments(&mut v, columns);
    push_str_chars(&mut v, " WHERE ");
    push_str_chars(&mut v, key);
    push_str_chars(&mut v, " = $");
    push_decimal(&mut v, columns.len() as u64 + 1);
    proof {
        assert(texts(columns@).len() == columns@.len());
    }
    string_from_chars(v)
}

/// The text of the statement that adds a row.
pub fn insert_query(table: &str, columns: &Vec<&'static str>) -> (r: String)
    requires
        columns.len() < u64::MAX,
    ensures
        r@ == insert_sql(table@, texts(columns@)),
{
    let mut v: Vec<char> = Vec::new();
    push_str_chars(&mut v, "INSERT INTO ");
    push_str_chars(&mut v, table);
    push_str_chars(&mut v, " (");
    push_joined(&mut v, columns);
    push_str_chars(&mut v, ") VALUES (");
    push_placeholders(&mut v, columns.len());
    push_str_chars(&mut v, ")");
    proof {
        assert(texts(columns@).len() == columns@.len());
    }
    string_from_chars(v)
}

/// The text of the query for the rows that pass a filter.
pub fn select_query(table: &str, filter: &str) -> (r: String)
    ensures
        r@ == select_sql(table@, filter@),
{
    let mut v: Vec<char> = Vec::new();
    push_str_chars(&mut v, "SELECT * FROM ");
    push_str_chars(&mut v, table);
    push_str_chars(&mut v, " WHERE ");
    push_str_chars(&mut v, filter);
    string_from_chars(v)
}

/// The text of the query for at most `limit` rows that pass a filter.
pub fn select_limit_query(table: &str, filter: &str, limit: usize) -> (r: String)
    ensures
        r@ == select_limit_sql(table@, filter@, limit as nat),
{
    let mut v: Vec<char> = Vec::new();
    push_str_chars(&mut v, "SELECT * FROM ");
    push_str_chars(&mut v, table);
    push_str_chars(&mut v, " WHERE ");
    push_str_chars(&mut v, filter);
    push_str_chars(&mut v, " LIMIT ");
    push_decimal(&mut v, limit as u64);
    string_from_chars(v)
}

/// The text of the query for the first row that passes a filter.
pub fn select_one_query(table: &str, filter: &str) -> (r: String)
    ensures
        r@ == select_sql(table@, filter@) + " LIMIT 1"@,
{
    let mut v: Vec<char> = Vec::new();
    push_str_chars(&mut v, "SELECT * FROM ");
    push_str_chars(&mut v, table);
    push_str_chars(&mut v, " WHERE ");
    push_str_chars(&mut v, filter);
    push_str_chars(&mut v, " LIMIT 1");
    string_from_chars(v)
}

/// The text of the query for the row with a given key.
pub fn select_by_key_query(table: &str, key: &str, id: &str) -> (r: String)
    ensures
        r@ == select_by_key_sql(table@, key@, id@),
{
    let mut v: Vec<char> = Vec::new();
    push_str_chars(&mut v, "SELECT * FROM ");
    push_str_chars(&mut v, table);
    push_str_chars(&mut v, " WHERE ");
    push_str_chars(&mut v, key);
    push_str_chars(&mut v, " = ");
    push_str_chars(&mut v, id);
    string_from_chars(v)
}

/// The text of the query that counts the rows that pass a filter.
pub fn count_query(table: &str, filter: &str) -> (r: String)
    ensures
        r@ == count_sql(table@, filter@),
{
    let mut v: Vec<char> = Vec::new();
    push_str_chars(&mut v, "SELECT COUNT(*) FROM ");
    push_str_chars(&mut v, table);
    push_str_chars(&mut v, " WHERE ");
    push_str_chars(&mut v, filter);
    string_from_chars(v)
}

fn delete_with_verb(verb: &str, table: &str, key: &str, id: &str) -> (r: String)
    ensures
        r@ == delete_sql(verb@, table@, key@, id@),
{
    let mut v: Vec<char> = Vec::new();
    push_str_chars(&mut v, verb);
    push_str_chars(&mut v, " ");
    push_str_chars(&mut v, table);
    push_str_chars(&mut v, " WHERE ");
    push_str_chars(&mut v, key);
    push_str_chars(&mut v, " = ");
    push_str_chars(&mut v, id);
    string_from_chars(v)
}

/// The text of the statement that removes the row with a given key.
pub fn delete_query(table: &str, key: &str, id: &str) -> (r: String)
    ensures
        r@ == delete_sql("DELETE FROM"@, table@, key@, id@),
{
    delete_with_verb("DELETE FROM", table, key, id)
}

/// The text that a transaction sends to remove the row with a given key. It
/// reads `DELETE FORM`, which the database rejects.
pub fn delete_tx_query(table: &str, key: &str, id: &str) -> (r: String)
    ensures
        r@ == delete_sql("DELETE FORM"@, table@, key@, id@),
{
    delete_with_verb("DELETE FORM", table, key, id)
}

/// A type that is stored as a row of a table.
pub trait Base {
    spec fn spec_table_name() -> Seq<char>;

    spec fn spec_primary_key() -> Seq<char>;

    spec fn spec_columns() -> Seq<Seq<char>>;

    fn table_name() -> (r: &'static str)
        ensures
            r@ == Self::spec_table_name(),
    ;

    fn primary_key() -> (r: &'static str)
        ensures
            r@ == Self::spec_primary_key(),
    ;

    /// The columns in the order in which the row's values are bound.
    fn columns() -> (r: Vec<&'static str>)
        ensures
            texts(r@) == Self::spec_columns(),
            r.len() < 64,
    ;

    fn update_query() -> (r: String)
        ensures
            r@ == update_sql(Self::spec_table_name(), Self::spec_columns(), Self::spec_primary_key()),
    {
        update_query(Self::table_name(), &Self::columns(), Self::primary_key())
    }

    fn insert_query() -> (r: String)
        ensures
            r@ == insert_sql(Self::spec_table_name(), Self::spec_columns()),
    {
        insert_query(Self::table_name(), &Self::columns())
    }
}

} // verus!
