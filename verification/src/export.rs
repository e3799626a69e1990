//! Exporting a plan as code to run elsewhere.
use vstd::prelude::*;
use vstd::string::*;
use crate::model::QueryPlan;

verus! {

/// Writes a plan as a Supabase Edge Function that runs its query.
pub struct SupabaseExporter;

/// The code of the Edge Function: the explanation in a comment, the query in
/// the call to `execute_ai_query`.
pub open spec fn edge_function(explanation: Seq<char>, sql: Seq<char>) -> Seq<char> {
    r#"// Supabase Edge Function: AIQL Export
// Prompt Explanation: "#@ + explanation + r#"

import { serve } from "https://deno.land/std@0.168.0/http/server.ts"
import { createClient } from "https://esm.sh/@supabase/supabase-js@2"

serve(async (req) => {
  const supabase = createClient(
    Deno.env.get('SUPABASE_URL') ?? '',
    Deno.env.get('SUPABASE_SERVICE_ROLE_KEY') ?? ''
  )

  const { data, error } = await supabase
    .rpc('execute_ai_query', { query_text: `"#@ + sql + r#"` })

  if (error) return new Response(JSON.stringify({ error: error.message }), { status: 500 })

  return new Response(
    JSON.stringify(data),
    { headers: { "Content-Type": "application/json" } },
  )
})
"#@
}

impl SupabaseExporter {
    /// The Edge Function that runs the plan's query.
    pub fn export(&self, plan: &QueryPlan) -> (r: String)
        ensures
            r@ == edge_function(plan.explanation@, plan.raw_query@),
    {
        let mut code = String::from_str(r#"// Supabase Edge Function: AIQL Export
// Prompt Explanation: "#);
        code.append(plan.explanation.as_str());
        code.append(r#"

import { serve } from "https://deno.land/std@0.168.0/http/server.ts"
import { createClient } from "https://esm.sh/@supabase/supabase-js@2"

serve(async (req) => {
  const supabase = createClient(
    Deno.env.get('SUPABASE_URL') ?? '',
    Deno.env.get('SUPABASE_SERVICE_ROLE_KEY') ?? ''
  )

  const { data, error } = await supabase
    .rpc('execute_ai_query', { query_text: `"#);
        code.append(plan.raw_query.as_str());
        code.append(r#"` })

  if (error) return new Response(JSON.stringify({ error: error.message }), { status: 500 })

  return new Response(
    JSON.stringify(data),
    { headers: { "Content-Type": "application/json" } },
  )
})
"#);
        code
    }
}

} // verus!
