//! Looking at the data as it was at a point in time.
use vstd::prelude::*;
use vstd::string::*;
use crate::clauses::{add_condition, add_condition_spec, patterns_compile};
use crate::pattern::regex_valid;
use crate::time::{UtcTime, rfc3339_text};

verus! {

/// Restricts queries to the rows stamped no later than a given time.
pub struct TemporalModifier;

/// The condition `<column> <= '<time>'`.
pub open spec fn as_of_clause(timestamp_column: Seq<char>, time_text: Seq<char>) -> Seq<char> {
    timestamp_column + " <= '"@ + time_text + "'"@
}

impl TemporalModifier {
    /// Adds `<timestamp_column> <= '<target_time in RFC 3339>'` to the filter of the query.
    pub fn modify_query(query: &str, target_time: &UtcTime, timestamp_column: &str) -> (r: String)
        requires
            patterns_compile(),
        ensures
            r@ == add_condition_spec(
                query@,
                as_of_clause(
                    timestamp_column@,
                    rfc3339_text(target_time.secs() as int, target_time.nanos() as int),
                ),
            ),
    {
        let time_str = target_time.to_rfc3339();
        let mut clause = String::from_str(timestamp_column);
        clause.append(" <= '");
        clause.append(time_str.as_str());
        clause.append("'");
        add_condition(query, clause.as_str())
    }

    /// Checks that the patterns compile, then modifies the query; `None` when they do not.
    pub fn try_modify_query(query: &str, target_time: &UtcTime, timestamp_column: &str) -> (r:
        Option<String>)
        ensures
            r is Some <==> patterns_compile(),
            r matches Some(s) ==> s@ == add_condition_spec(
                query@,
                as_of_clause(
                    timestamp_column@,
                    rfc3339_text(target_time.secs() as int, target_time.nanos() as int),
                ),
            ),
    {
        if regex_valid("(?i)\\bWHERE\\b") && regex_valid("(?i)\\b(GROUP|ORDER|LIMIT)\\b") {
            Some(Self::modify_query(query, target_time, timestamp_column))
        } else {
            None
        }
    }
}

} // verus!
