//! Construction of the single-key point-lookup query.
//!
//! A backing store dialect says how identifiers are quoted and how the one
//! bound parameter is written; from a table name and a key column the layer
//! builds the `SELECT` statement it hands to the backing-store loader.

use vstd::prelude::*;
use vstd::string::StringExecFns;

verus! {

/// Capabilities a backing-store dialect provides for building the point
/// lookup: the identifier quote and the placeholder for the bound key.
pub trait QueryBuilder {
    /// The identifier quote, as a sequence of characters.
    spec fn spec_quote() -> Seq<char>;

    /// The key placeholder, as a sequence of characters.
    spec fn spec_placeholder() -> Seq<char>;

    /// The character sequence used to quote identifiers such as table and
    /// column names.
    fn quote() -> (s: &'static str)
        ensures
            s@ == Self::spec_quote(),
    ;

    /// The placeholder that stands for the bound key in a parameterized
    /// query.
    fn placeholder() -> (s: &'static str)
        ensures
            s@ == Self::spec_placeholder(),
    ;
}

/// The SQLite dialect: double-quoted identifiers, `?` placeholders.
pub struct Sqlite;

/// The MySQL dialect: backtick-quoted identifiers, `?` placeholders.
pub struct MySql;

/// The PostgreSQL dialect: double-quoted identifiers, `$1` placeholders.
pub struct Postgres;

impl QueryBuilder for Sqlite {
    open spec fn spec_quote() -> Seq<char> {
        "\""@
    }

    open spec fn spec_placeholder() -> Seq<char> {
        "?"@
    }

    fn quote() -> (s: &'static str) {
        "\""
    }

    fn placeholder() -> (s: &'static str) {
        "?"
    }
}

impl QueryBuilder for MySql {
    open spec fn spec_quote() -> Seq<char> {
        "`"@
    }

    open spec fn spec_placeholder() -> Seq<char> {
        "?"@
    }

    fn quote() -> (s: &'static str) {
        "`"
    }

    fn placeholder() -> (s: &'static str) {
        "?"
    }
}

impl QueryBuilder for Postgres {
    open spec fn spec_quote() -> Seq<char> {
        "\""@
    }

    open spec fn spec_placeholder() -> Seq<char> {
        "$1"@
    }

    fn quote() -> (s: &'static str) {
        "\""
    }

    fn placeholder() -> (s: &'static str) {
        "$1"
    }
}

/// The text of the point lookup for one table, one key column, one dialect:
/// `SELECT * FROM "table" WHERE "id" = placeholder`, with the dialect's quote
/// and placeholder.
pub open spec fn spec_point_query(
    quote: Seq<char>,
    placeholder: Seq<char>,
    table: Seq<char>,
    id: Seq<char>,
) -> Seq<char> {
    "SELECT * FROM "@ + quote + table + quote + " WHERE "@ + quote + id + quote + " = "@
        + placeholder
}

/// Builds the point-lookup query for `table`, keyed by the column `id`, in
/// the dialect `DB`.
pub fn point_query<DB: QueryBuilder>(table: &str, id: &str) -> (q: String)
    ensures
        q@ == spec_point_query(DB::spec_quote(), DB::spec_placeholder(), table@, id@),
{
    let mut q: String = "SELECT * FROM ".to_owned();
    q.append(DB::quote());
    q.append(table);
    q.append(DB::quote());
    q.append(" WHERE ");
    q.append(DB::quote());
    q.append(id);
    q.append(DB::quote());
    q.append(" = ");
    q.append(DB::placeholder());
    q
}

} // verus!
