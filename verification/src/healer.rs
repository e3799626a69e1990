//! Repairing a query that failed.
use vstd::prelude::*;
use vstd::string::*;
use crate::model::{DatabaseDialect, QueryPlan, Schema};
use crate::text::{has_substring, occurs_at};

verus! {

/// A healer that answers every failure with a safe fallback query, keeping the
/// failed query and its error as comments.
pub struct SimpleHealer;

/// The query that replaces a failed one.
pub open spec fn healed_query(query: Seq<char>, error: Seq<char>) -> Seq<char> {
    "-- Healed query for: "@ + query + "\n-- Error was: "@ + error + "\nSELECT * FROM users LIMIT 5;"@
}

impl SimpleHealer {
    /// A plan in the same dialect whose query selects five users, commented with
    /// the failed query and its error, at no cost.
    pub fn heal(&self, query: &str, error: &str, _schema: &Schema, dialect: DatabaseDialect) -> (r:
        QueryPlan)
        ensures
            r.dialect == dialect,
            r.raw_query@ == healed_query(query@, error@),
            r.explanation@ == "Healed query after error: "@ + error@,
            r.cost == Some(0u64),
    {
        let mut raw_query = String::from_str("-- Healed query for: ");
        raw_query.append(query);
        raw_query.append("\n-- Error was: ");
        raw_query.append(error);
        raw_query.append("\nSELECT * FROM users LIMIT 5;");
        let mut explanation = String::from_str("Healed query after error: ");
        explanation.append(error);
        QueryPlan { dialect, raw_query, explanation, cost: Some(0) }
    }
}

/// The healed query keeps the failed query and the error in it.
pub proof fn law_healed_query_records_failure(query: Seq<char>, error: Seq<char>)
    ensures
        has_substring(healed_query(query, error), query),
        has_substring(healed_query(query, error), error),
{
    let h = healed_query(query, error);
    let a = "-- Healed query for: "@.len() as int;
    assert(h.subrange(a, a + query.len()) =~= query);
    assert(occurs_at(h, query, a));
    let b = ("-- Healed query for: "@ + query + "\n-- Error was: "@).len() as int;
    assert(h.subrange(b, b + error.len()) =~= error);
    assert(occurs_at(h, error, b));
}

} // verus!
