use vstd::prelude::*;

use crate::ident::{is_valid_table_name, TableName};

verus! {

/// What a write does with a record whose `id` is already in the table.
#[derive(Debug, Clone, Copy, PartialEq, Eq)]
pub enum ConflictPolicy {
    /// The stored row is left as it is and the record is skipped.
    IgnoreDuplicate,
    /// The record's inventory is added to the stored row's inventory.
    MergeInventory,
}

impl ConflictPolicy {
    /// The policy of an import (`true`) or of a plain write (`false`).
    pub fn from_import(import: bool) -> (r: ConflictPolicy)
        ensures
            import ==> r == ConflictPolicy::MergeInventory,
            !import ==> r == ConflictPolicy::IgnoreDuplicate,
    {
        if import {
            ConflictPolicy::MergeInventory
        } else {
            ConflictPolicy::IgnoreDuplicate
        }
    }
}

/// A single step of an inventory adjustment.
#[derive(Debug, Clone, Copy, PartialEq, Eq)]
pub enum Step {
    Increment,
    Decrement,
}

/// `prefix`, then the table name, then `suffix`.
pub open spec fn around(prefix: Seq<char>, t: Seq<char>, suffix: Seq<char>) -> Seq<char> {
    prefix + t + suffix
}

pub open spec fn create_table_text(t: Seq<char>) -> Seq<char> {
    around(
        "CREATE TABLE IF NOT EXISTS "@,
        t,
        " (id TEXT PRIMARY KEY, name TEXT NOT NULL, price NUMBER NOT NULL, inventory NUMBER, brand TEXT)"@,
    )
}

pub open spec fn insert_text(t: Seq<char>, policy: ConflictPolicy) -> Seq<char> {
    match policy {
        ConflictPolicy::IgnoreDuplicate => around(
            "INSERT OR IGNORE INTO "@,
            t,
            " (id, name, price, inventory, brand) VALUES (?1, ?2, ?3, ?4, ?5)"@,
        ),
        ConflictPolicy::MergeInventory => around(
            "INSERT INTO "@,
            t,
            " (id, name, price, inventory, brand) VALUES (?1, ?2, ?3, ?4, ?5) ON CONFLICT(id) DO UPDATE SET inventory = inventory + excluded.inventory"@,
        ),
    }
}

pub open spec fn adjust_text(t: Seq<char>, step: Step) -> Seq<char> {
    match step {
        Step::Increment => around("UPDATE "@, t, " SET inventory = inventory + 1 WHERE id = ?1"@),
        Step::Decrement => around("UPDATE "@, t, " SET inventory = inventory - 1 WHERE id = ?1"@),
    }
}

pub open spec fn count_text(t: Seq<char>) -> Seq<char> {
    around("SELECT COUNT(*) FROM "@, t, " WHERE id LIKE ?1 ESCAPE '\\' AND name LIKE ?2 ESCAPE '\\'"@)
}

pub open spec fn page_text(t: Seq<char>) -> Seq<char> {
    around("SELECT * FROM "@, t, " WHERE id LIKE ?1 ESCAPE '\\' AND name LIKE ?2 ESCAPE '\\' LIMIT ?3 OFFSET ?4"@)
}

/// A character that LIKE would read as a wildcard or as the escape.
pub open spec fn is_like_special(c: char) -> bool {
    c == '%' || c == '_' || c == '\\'
}

/// `s` with each wildcard and escape character preceded by the escape `\`.
pub open spec fn escape_like(s: Seq<char>) -> Seq<char>
    decreases s.len(),
{
    if s.len() == 0 {
        Seq::empty()
    } else if is_like_special(s.last()) {
        escape_like(s.drop_last()) + seq!['\\', s.last()]
    } else {
        escape_like(s.drop_last()).push(s.last())
    }
}

/// The LIKE pattern (with `ESCAPE '\'`) that matches every text containing
/// `s` as a substring.
pub open spec fn contains_pattern_text(s: Seq<char>) -> Seq<char> {
    "%"@ + escape_like(s) + "%"@
}

/// The query that lists the tables, all of them or those whose name matches
/// the pattern bound to `?1`.
pub open spec fn list_text(filtered: bool) -> Seq<char> {
    if filtered {
        "SELECT name FROM sqlite_schema WHERE type='table' AND name LIKE ?1 ESCAPE '\\'"@
    } else {
        "SELECT name FROM sqlite_schema WHERE type='table'"@
    }
}

/// The query that finds the table whose name is bound to `?1`.
pub open spec fn lookup_text() -> Seq<char> {
    "SELECT name FROM sqlite_schema WHERE type='table' AND name = ?1"@
}

fn build_around(prefix: &str, t: &TableName, suffix: &str) -> (r: String)
    ensures
        r@ == around(prefix@, t@, suffix@),
        is_valid_table_name(t@),
{
    let mut r = String::from_str(prefix);
    r.append(t.as_str());
    r.append(suffix);
    r
}

/// The statement that creates the item table `t` unless it exists.
pub fn create_table_sql(t: &TableName) -> (r: String)
    ensures
        r@ == create_table_text(t@),
{
    build_around(
        "CREATE TABLE IF NOT EXISTS ",
        t,
        " (id TEXT PRIMARY KEY, name TEXT NOT NULL, price NUMBER NOT NULL, inventory NUMBER, brand TEXT)",
    )
}

/// The statement that writes one row into `t` under `policy`.
pub fn insert_sql(t: &TableName, policy: ConflictPolicy) -> (r: String)
    ensures
        r@ == insert_text(t@, policy),
{
    match policy {
        ConflictPolicy::IgnoreDuplicate => build_around(
            "INSERT OR IGNORE INTO ",
            t,
            " (id, name, price, inventory, brand) VALUES (?1, ?2, ?3, ?4, ?5)",
        ),
        ConflictPolicy::MergeInventory => build_around(
            "INSERT INTO ",
            t,
            " (id, name, price, inventory, brand) VALUES (?1, ?2, ?3, ?4, ?5) ON CONFLICT(id) DO UPDATE SET inventory = inventory + excluded.inventory",
        ),
    }
}

/// The statement that moves the inventory of one row of `t` by one.
pub fn adjust_sql(t: &TableName, step: Step) -> (r: String)
    ensures
        r@ == adjust_text(t@, step),
{
    match step {
        Step::Increment => build_around(
            "UPDATE ",
            t,
            " SET inventory = inventory + 1 WHERE id = ?1",
        ),
        Step::Decrement => build_around(
            "UPDATE ",
            t,
            " SET inventory = inventory - 1 WHERE id = ?1",
        ),
    }
}

/// The statement that counts the rows of `t` matching an id and a name pattern.
pub fn count_sql(t: &TableName) -> (r: String)
    ensures
        r@ == count_text(t@),
{
    build_around("SELECT COUNT(*) FROM ", t, " WHERE id LIKE ?1 ESCAPE '\\' AND name LIKE ?2 ESCAPE '\\'")
}

/// The statement that fetches one page of the matching rows of `t`.
pub fn page_sql(t: &TableName) -> (r: String)
    ensures
        r@ == page_text(t@),
{
    build_around("SELECT * FROM ", t, " WHERE id LIKE ?1 ESCAPE '\\' AND name LIKE ?2 ESCAPE '\\' LIMIT ?3 OFFSET ?4")
}

/// The catalog query: every table, or with `filtered` those whose name
/// matches the pattern bound to `?1`.
pub fn list_sql(filtered: bool) -> (r: String)
    ensures
        r@ == list_text(filtered),
{
    if filtered {
        String::from_str("SELECT name FROM sqlite_schema WHERE type='table' AND name LIKE ?1 ESCAPE '\\'")
    } else {
        String::from_str("SELECT name FROM sqlite_schema WHERE type='table'")
    }
}

/// The query that finds the table whose name is bound to `?1`.
pub fn lookup_sql() -> (r: String)
    ensures
        r@ == lookup_text(),
{
    String::from_str("SELECT name FROM sqlite_schema WHERE type='table' AND name = ?1")
}

/// The LIKE pattern for "contains `s`", to be used with `ESCAPE '\'`: the
/// characters `%`, `_` and `\` in `s` match only themselves. ASCII letters
/// match regardless of case, as SQLite's LIKE does by default.
pub fn contains_pattern(s: &str) -> (r: String)
    ensures
        r@ == contains_pattern_text(s@),
{
    let mut r = String::from_str("%");
    let n = s.unicode_len();
    let mut i: usize = 0;
    proof {
        reveal_strlit("%");
        reveal_strlit("\\");
        assert(s@.subrange(0, 0) =~= Seq::<char>::empty());
    }
    while i < n
        invariant
            n == s@.len(),
            i <= n,
            r@ == "%"@ + escape_like(s@.subrange(0, i as int)),
        decreases n - i,
    {
        let c = s.get_char(i);
        let one = s.substring_char(i, i + 1);
        proof {
            assert(s@.subrange(0, i + 1).drop_last() =~= s@.subrange(0, i as int));
            assert(s@.subrange(0, i + 1).last() == c);
            assert(one@ =~= seq![c]);
        }
        if c == '%' || c == '_' || c == '\\' {
            let ghost before = r@;
            r.append("\\");
            r.append(one);
            proof {
                reveal_strlit("\\");
                assert("\\"@ =~= seq!['\\']);
                assert(escape_like(s@.subrange(0, i + 1)) == escape_like(s@.subrange(0, i as int))
                    + seq!['\\', c]);
                assert(r@ =~= before + seq!['\\', c]);
                assert(r@ =~= "%"@ + escape_like(s@.subrange(0, i + 1)));
            }
        } else {
            r.append(one);
            proof {
                assert(r@ =~= "%"@ + escape_like(s@.subrange(0, i + 1)));
            }
        }
        i = i + 1;
    }
    proof {
        assert(s@.subrange(0, n as int) =~= s@);
    }
    r.append("%");
    r
}

} // verus!
