//! Running queries against MongoDB.
use vstd::prelude::*;
use vstd::string::*;

verus! {

/// The whitespace that JSON allows between tokens.
pub open spec fn is_json_ws(c: char) -> bool {
    c == ' ' || c == '\n' || c == '\t' || c == '\r'
}

/// The first position at or after `i` that holds no JSON whitespace (the length
/// of the text when there is none).
pub open spec fn skip_ws(t: Seq<char>, i: int) -> int
    decreases t.len() - i,
{
    if i < 0 || i >= t.len() || !is_json_ws(t[i]) {
        i
    } else {
        skip_ws(t, i + 1)
    }
}

/// The last position of the first `n` characters that holds no JSON whitespace
/// (-1 when there is none).
pub open spec fn last_non_ws(t: Seq<char>, n: int) -> int
    decreases n,
{
    if n <= 0 {
        -1
    } else if !is_json_ws(t[n - 1]) {
        n - 1
    } else {
        last_non_ws(t, n - 1)
    }
}

/// The text has the outline of an aggregation pipeline: a JSON array (a `[` and,
/// last, a `]`, around them only whitespace) that is empty or begins with an
/// object.
pub open spec fn pipeline_outline(t: Seq<char>) -> bool {
    let i = skip_ws(t, 0);
    let k = skip_ws(t, i + 1);
    let j = last_non_ws(t, t.len() as int);
    &&& 0 <= i < t.len()
    &&& t[i] == '['
    &&& k < t.len()
    &&& (t[k] == ']' || t[k] == '{')
    &&& i < j
    &&& t[j] == ']'
}

/// Whether `serde_json::from_str` reads the text as a list of BSON documents.
pub uninterp spec fn parses_as_pipeline(text: Seq<char>) -> bool;

/// Calls `serde_json::from_str::<Vec<bson::Document>>` and tells whether it succeeded.
/// Trusted: the answer is a function of the text. As serde_json's deserializer
/// shows, a list is read only from a `[` after leading whitespace, up to a `]`
/// followed only by whitespace, and a document only from a `{`; so when the text
/// is read, it has the outline of a pipeline.
#[verifier::external_body]
fn pipeline_parses(text: &str) -> (r: bool)
    ensures
        r == parses_as_pipeline(text@),
        r ==> pipeline_outline(text@),
{
    serde_json::from_str::<Vec<mongodb::bson::Document>>(text).is_ok()
}

/// Runs aggregation pipelines against a MongoDB database.
pub struct MongoExecutionEngine {
    db: mongodb::Database,
}

impl MongoExecutionEngine {
    /// An engine that runs queries against the database.
    pub fn new(db: mongodb::Database) -> (r: Self)
        ensures
            r.db() == db,
    {
        MongoExecutionEngine { db }
    }

    /// The database handle the engine holds.
    pub closed spec fn db(self) -> mongodb::Database {
        self.db
    }

    /// The database that the engine queries.
    pub fn database(&self) -> (r: &mongodb::Database)
        ensures
            *r == self.db(),
    {
        &self.db
    }

    /// The collection that pipelines run against.
    pub fn target_collection(&self) -> (r: String)
        ensures
            r@ == "sample_collection"@,
    {
        String::from_str("sample_collection")
    }

    /// Checks a pipeline before it runs: it passes when it reads as a list of
    /// documents, as the engine reads it to run it; a text that is not a JSON
    /// array of objects never passes.
    pub fn dry_run(&self, query: &str) -> (r: bool)
        ensures
            r == parses_as_pipeline(query@),
            r ==> pipeline_outline(query@),
    {
        pipeline_parses(query)
    }
}

} // verus!
