//! Scoping queries to one tenant.
use vstd::prelude::*;
use vstd::string::*;
use crate::clauses::{add_condition, add_condition_spec, patterns_compile};
use crate::pattern::regex_valid;

verus! {

/// Restricts queries to the rows of one tenant.
pub struct TenantScoper;

/// The condition that keeps the rows of one tenant: `<column> = '<tenant>'`.
pub open spec fn scope_clause(tenant_column: Seq<char>, tenant_id: Seq<char>) -> Seq<char> {
    tenant_column + " = '"@ + tenant_id + "'"@
}

/// Builds the condition that keeps the rows of one tenant.
pub fn make_scope_clause(tenant_column: &str, tenant_id: &str) -> (r: String)
    ensures
        r@ == scope_clause(tenant_column@, tenant_id@),
{
    let mut r = String::from_str(tenant_column);
    r.append(" = '");
    r.append(tenant_id);
    r.append("'");
    r
}

impl TenantScoper {
    /// Adds `<tenant_column> = '<tenant_id>'` to the filter of the query.
    pub fn apply_scope(query: &str, tenant_id: &str, tenant_column: &str) -> (r: String)
        requires
            patterns_compile(),
        ensures
            r@ == add_condition_spec(query@, scope_clause(tenant_column@, tenant_id@)),
    {
        let clause = make_scope_clause(tenant_column, tenant_id);
        add_condition(query, clause.as_str())
    }

    /// Checks that the patterns compile, then scopes the query; `None` when they do not.
    pub fn try_apply_scope(query: &str, tenant_id: &str, tenant_column: &str) -> (r: Option<String>)
        ensures
            r is Some <==> patterns_compile(),
            r matches Some(s) ==> s@ == add_condition_spec(
                query@,
                scope_clause(tenant_column@, tenant_id@),
            ),
    {
        if regex_valid("(?i)\\bWHERE\\b") && regex_valid("(?i)\\b(GROUP|ORDER|LIMIT)\\b") {
            Some(Self::apply_scope(query, tenant_id, tenant_column))
        } else {
            None
        }
    }
}

} // verus!
