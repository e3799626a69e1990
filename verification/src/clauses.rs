//! Adding a condition to the filter of a query.
use vstd::prelude::*;
use vstd::string::*;
use vstd::utf8::{decode_utf8, encode_utf8, encode_utf8_decode_utf8, is_char_boundary};
use crate::pattern::{regex_compiles, regex_find, regex_find_span, regex_is_match, regex_matches};
use crate::text::{first_occurrence, has_substring, replace_first, replace_first_spec, trim, trim_spec, lemma_first_occurrence, occurs_at};

verus! {

/// The pattern that tells whether a query already filters: the word `where` in any case.
pub open spec fn where_pattern() -> Seq<char> {
    "(?i)\\bWHERE\\b"@
}

/// The pattern of the clauses that come after the filter: `group`, `order` or `limit`.
pub open spec fn tail_pattern() -> Seq<char> {
    "(?i)\\b(GROUP|ORDER|LIMIT)\\b"@
}

/// Both patterns compile.
pub open spec fn patterns_compile() -> bool {
    regex_compiles(where_pattern()) && regex_compiles(tail_pattern())
}

/// The characters whose UTF-8 encoding is the first `b` bytes of that of `s`.
pub open spec fn before_byte(s: Seq<char>, b: int) -> Seq<char> {
    decode_utf8(encode_utf8(s).subrange(0, b))
}

/// The characters whose UTF-8 encoding follows the first `b` bytes of that of `s`.
pub open spec fn from_byte(s: Seq<char>, b: int) -> Seq<char> {
    decode_utf8(encode_utf8(s).subrange(b, encode_utf8(s).len() as int))
}

pub open spec fn opt_nat(o: Option<usize>) -> Option<nat> {
    match o {
        Some(b) => Some(b as nat),
        None => None,
    }
}

/// The query with `cond` added to its filter, given whether it has a `where`
/// and where (in bytes) its first `group`/`order`/`limit` starts:
/// joined to the first literal `WHERE` with `AND`, else put in a new `WHERE`
/// before the trailing clauses, else at the end.
pub open spec fn with_condition(
    query: Seq<char>,
    cond: Seq<char>,
    where_found: bool,
    tail_start: Option<nat>,
) -> Seq<char> {
    if where_found {
        replace_first_spec(query, "WHERE"@, "WHERE "@ + cond + " AND"@)
    } else {
        match tail_start {
            Some(b) => trim_spec(before_byte(query, b as int)) + " WHERE "@ + cond + " "@
                + from_byte(query, b as int),
            None => trim_spec(query) + " WHERE "@ + cond,
        }
    }
}

/// Where a match starts, given its span.
pub open spec fn span_start(span: Option<(nat, nat)>) -> Option<nat> {
    match span {
        Some((b, _)) => Some(b),
        None => None,
    }
}

/// The query with `cond` added to its filter, the `where` and the trailing clauses
/// found by the two patterns.
pub open spec fn add_condition_spec(query: Seq<char>, cond: Seq<char>) -> Seq<char> {
    with_condition(
        query,
        cond,
        regex_is_match(where_pattern(), query),
        span_start(regex_find_span(tail_pattern(), query)),
    )
}

/// Adds `cond` to the filter of `query`, given whether a `where` was found and
/// the byte offset at which the trailing clauses start.
pub fn insert_condition(query: &str, cond: &str, where_found: bool, tail_start: Option<usize>) -> (r:
    String)
    requires
        tail_start matches Some(b) ==> b <= query.spec_bytes().len() && is_char_boundary(
            query.spec_bytes(),
            b as int,
        ),
    ensures
        r@ == with_condition(query@, cond@, where_found, opt_nat(tail_start)),
{
    if where_found {
        let mut with = String::from_str("WHERE ");
        with.append(cond);
        with.append(" AND");
        replace_first(query, "WHERE", with.as_str())
    } else {
        match tail_start {
            Some(b) => {
                let (head, tail) = query.split_at(b);
                proof {
                    encode_utf8_decode_utf8(head@);
                    encode_utf8_decode_utf8(tail@);
                }
                let mut r = trim(head);
                r.append(" WHERE ");
                r.append(cond);
                r.append(" ");
                r.append(tail);
                r
            },
            None => {
                let mut r = trim(query);
                r.append(" WHERE ");
                r.append(cond);
                r
            },
        }
    }
}

/// Adds `cond` to the filter of `query`.
pub fn add_condition(query: &str, cond: &str) -> (r: String)
    requires
        patterns_compile(),
    ensures
        r@ == add_condition_spec(query@, cond@),
{
    if regex_matches("(?i)\\bWHERE\\b", query) {
        insert_condition(query, cond, true, None)
    } else {
        let tail = match regex_find("(?i)\\b(GROUP|ORDER|LIMIT)\\b", query) {
            Some((b, _)) => Some(b),
            None => None,
        };
        insert_condition(query, cond, false, tail)
    }
}

/// The condition is in the rewritten query, except when the query has a `where`
/// that is not written in capitals: then there is no literal `WHERE` to join it to
/// and the query is left as it was.
pub proof fn law_condition_is_added(
    query: Seq<char>,
    cond: Seq<char>,
    where_found: bool,
    tail_start: Option<nat>,
)
    requires
        where_found ==> has_substring(query, "WHERE"@),
    ensures
        has_substring(with_condition(query, cond, where_found, tail_start), cond),
{
    let r = with_condition(query, cond, where_found, tail_start);
    if where_found {
        lemma_first_occurrence(query, "WHERE"@);
        let i = first_occurrence(query, "WHERE"@)->0;
        let k = i + "WHERE "@.len();
        assert(r.subrange(k, k + cond.len()) =~= cond);
        assert(occurs_at(r, cond, k));
    } else {
        match tail_start {
            Some(b) => {
                let pre = trim_spec(before_byte(query, b as int)) + " WHERE "@;
                assert(r.subrange(pre.len() as int, pre.len() + cond.len() as int) =~= cond);
                assert(occurs_at(r, cond, pre.len() as int));
            },
            None => {
                let pre = trim_spec(query) + " WHERE "@;
                assert(r.subrange(pre.len() as int, pre.len() + cond.len() as int) =~= cond);
                assert(occurs_at(r, cond, pre.len() as int));
            },
        }
    }
}

/// Whatever the two patterns find, the condition is in the rewritten query, unless
/// the query's `where` is not written in capitals.
pub proof fn law_added_condition_is_present(query: Seq<char>, cond: Seq<char>)
    requires
        regex_is_match(where_pattern(), query) ==> has_substring(query, "WHERE"@),
    ensures
        has_substring(add_condition_spec(query, cond), cond),
{
    law_condition_is_added(
        query,
        cond,
        regex_is_match(where_pattern(), query),
        span_start(regex_find_span(tail_pattern(), query)),
    );
}

/// When the query has a `where` but no literal `WHERE`, it is left unchanged.
pub proof fn law_lowercase_where_left_unchanged(query: Seq<char>, cond: Seq<char>, tail_start: Option<nat>)
    requires
        !has_substring(query, "WHERE"@),
    ensures
        with_condition(query, cond, true, tail_start) == query,
{
    lemma_first_occurrence(query, "WHERE"@);
}

/// A query that the `where` pattern matches keeps its filter and has the
/// condition joined to it, whatever clauses follow: its first literal `WHERE`
/// becomes `WHERE <cond> AND`, and nothing else changes (a query without a
/// literal `WHERE` is left as it is).
pub proof fn law_existing_filter_is_joined(query: Seq<char>, cond: Seq<char>)
    requires
        regex_is_match(where_pattern(), query),
    ensures
        add_condition_spec(query, cond) == match first_occurrence(query, "WHERE"@) {
            Some(i) => query.subrange(0, i) + "WHERE "@ + cond + " AND"@ + query.subrange(
                i + 5,
                query.len() as int,
            ),
            None => query,
        },
{
    reveal_strlit("WHERE");
}

/// A query that the `where` pattern does not match gets a new `WHERE <cond>`:
/// just before its first `group`, `order` or `limit` (the text before it
/// trimmed), or at the end of the trimmed query when it has none.
pub proof fn law_new_filter_is_placed_before_tail(query: Seq<char>, cond: Seq<char>)
    requires
        !regex_is_match(where_pattern(), query),
    ensures
        add_condition_spec(query, cond) == match regex_find_span(tail_pattern(), query) {
            Some((b, _)) => trim_spec(before_byte(query, b as int)) + " WHERE "@ + cond + " "@
                + from_byte(query, b as int),
            None => trim_spec(query) + " WHERE "@ + cond,
        },
{
}

} // verus!
