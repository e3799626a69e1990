//! Translation of prompts into queries: the instructions given to a language
//! model, and the reading of its reply.
use vstd::prelude::*;
use vstd::string::*;
use vstd::utf8::{
    decode_utf8, encode_utf8, encode_utf8_decode_utf8, encode_utf8_valid_utf8, is_char_boundary,
    is_char_boundary_iff_not_is_continuation_byte, is_char_boundary_start_end_of_seq, valid_utf8,
    valid_utf8_split,
};
use crate::json::{JsonValue, JsonView, json_text_value, parse_json};
use crate::model::{
    DatabaseDialect, MigrationPlan, QueryPlan, Schema, TranslateError, TranslateResult, opt_str,
};
use crate::pattern::{regex_compiles, regex_find, regex_find_span, regex_valid};
use crate::time::{UtcTime, display_text};

verus! {

/// What a model is asked to produce.
#[derive(Clone, Copy, Debug, PartialEq, Eq, Structural)]
pub enum RequestKind {
    /// A query that answers the prompt.
    Query,
    /// A statement that changes the schema as the prompt asks.
    Migration,
    /// A query that searches by vector similarity.
    Vector,
}

/// How the target language of a request is named to the model.
pub open spec fn target_label_spec(kind: RequestKind, d: DatabaseDialect) -> Seq<char> {
    match kind {
        RequestKind::Query => match d {
            DatabaseDialect::MongoDB => "MongoDB Aggregation Pipeline JSON"@,
            DatabaseDialect::Postgres => "PostgreSQL"@,
            DatabaseDialect::MySQL => "MySQL"@,
            DatabaseDialect::SQLite => "SQLite"@,
        },
        RequestKind::Migration => match d {
            DatabaseDialect::MongoDB => "MongoDB Collection operations"@,
            DatabaseDialect::Postgres => "PostgreSQL"@,
            DatabaseDialect::MySQL => "MySQL"@,
            DatabaseDialect::SQLite => "SQLite"@,
        },
        RequestKind::Vector => match d {
            DatabaseDialect::MongoDB => "MongoDB Aggregation Pipeline JSON"@,
            DatabaseDialect::Postgres => "PostgreSQL (with pgvector)"@,
            DatabaseDialect::MySQL => "MySQL (with vector extensions)"@,
            DatabaseDialect::SQLite => "SQLite (with vector extensions)"@,
        },
    }
}

/// Names the target language of a request.
pub fn target_label(kind: RequestKind, d: DatabaseDialect) -> (r: String)
    ensures
        r@ == target_label_spec(kind, d),
{
    match kind {
        RequestKind::Query => match d {
            DatabaseDialect::MongoDB => String::from_str("MongoDB Aggregation Pipeline JSON"),
            DatabaseDialect::Postgres => String::from_str("PostgreSQL"),
            DatabaseDialect::MySQL => String::from_str("MySQL"),
            DatabaseDialect::SQLite => String::from_str("SQLite"),
        },
        RequestKind::Migration => match d {
            DatabaseDialect::MongoDB => String::from_str("MongoDB Collection operations"),
            DatabaseDialect::Postgres => String::from_str("PostgreSQL"),
            DatabaseDialect::MySQL => String::from_str("MySQL"),
            DatabaseDialect::SQLite => String::from_str("SQLite"),
        },
        RequestKind::Vector => match d {
            DatabaseDialect::MongoDB => String::from_str("MongoDB Aggregation Pipeline JSON"),
            DatabaseDialect::Postgres => String::from_str("PostgreSQL (with pgvector)"),
            DatabaseDialect::MySQL => String::from_str("MySQL (with vector extensions)"),
            DatabaseDialect::SQLite => String::from_str("SQLite (with vector extensions)"),
        },
    }
}

/// The instructions for a local model (without the current time).
pub open spec fn local_system_prompt_spec(kind: RequestKind, d: DatabaseDialect, context: Seq<char>) -> Seq<
    char,
> {
    match kind {
        RequestKind::Query => "You are an expert SQL/NoSQL translator. Convert natural language to "@
            + target_label_spec(kind, d)
            + " based on the schema below.\nReturn ONLY a JSON object with 'query' and 'explanation' fields.\n\n"@
            + context,
        RequestKind::Migration => "You are an expert database architect. Convert natural language migration requests to "@
            + target_label_spec(kind, d)
            + " DDL.\nReturn ONLY a JSON object with 'sql' and 'explanation' fields.\n\n"@
            + context,
        RequestKind::Vector => "You are an expert SQL/NoSQL translator specializing in Vector Search. Convert natural language to "@
            + target_label_spec(kind, d)
            + " with vector operators.\nUse '$VECTOR' as a placeholder for the generated embedding vector.\nReturn ONLY a JSON object with 'query' and 'explanation' fields.\n\n"@
            + context,
    }
}

/// Builds the instructions for a local model.
pub fn local_system_prompt(kind: RequestKind, d: DatabaseDialect, context: &str) -> (r: String)
    ensures
        r@ == local_system_prompt_spec(kind, d, context@),
{
    let label = target_label(kind, d);
    let mut r = match kind {
        RequestKind::Query => String::from_str(
            "You are an expert SQL/NoSQL translator. Convert natural language to ",
        ),
        RequestKind::Migration => String::from_str(
            "You are an expert database architect. Convert natural language migration requests to ",
        ),
        RequestKind::Vector => String::from_str(
            "You are an expert SQL/NoSQL translator specializing in Vector Search. Convert natural language to ",
        ),
    };
    r.append(label.as_str());
    match kind {
        RequestKind::Query => r.append(
            " based on the schema below.\nReturn ONLY a JSON object with 'query' and 'explanation' fields.\n\n",
        ),
        RequestKind::Migration => r.append(
            " DDL.\nReturn ONLY a JSON object with 'sql' and 'explanation' fields.\n\n",
        ),
        RequestKind::Vector => r.append(
            " with vector operators.\nUse '$VECTOR' as a placeholder for the generated embedding vector.\nReturn ONLY a JSON object with 'query' and 'explanation' fields.\n\n",
        ),
    }
    r.append(context);
    r
}

/// The instructions for a hosted model, which are told the current time and
/// may ask for clarification of a query request.
pub open spec fn hosted_system_prompt_spec(
    kind: RequestKind,
    d: DatabaseDialect,
    now: Seq<char>,
    context: Seq<char>,
) -> Seq<char> {
    match kind {
        RequestKind::Query => "You are an expert SQL/NoSQL translator. Convert natural language to "@
            + target_label_spec(kind, d) + " based on the schema below.\nCurrent Time: "@ + now
            + "\nIf the prompt is ambiguous or lacks enough information, return a clarification request.\nReturn ONLY a JSON object.\nFor successful translation: { \"type\": \"plan\", \"query\": \"...\", \"explanation\": \"...\" }\nFor ambiguity: { \"type\": \"clarification\", \"reason\": \"...\", \"suggestions\": [\"...\", \"...\"] }\n\n"@
            + context,
        RequestKind::Migration => local_system_prompt_spec(kind, d, context),
        RequestKind::Vector => "You are an expert SQL/NoSQL translator specializing in Vector Search. Convert natural language to "@
            + target_label_spec(kind, d) + " with vector operators.\nCurrent Time: "@ + now
            + "\nUse '$VECTOR' as a placeholder for the generated embedding vector.\nReturn ONLY a JSON object with 'query' and 'explanation' fields.\n\n"@
            + context,
    }
}

/// Builds the instructions for a hosted model; the time is written as
/// `DateTime<Utc>` displays it.
pub fn hosted_system_prompt(kind: RequestKind, d: DatabaseDialect, now: &UtcTime, context: &str) -> (r:
    String)
    ensures
        r@ == hosted_system_prompt_spec(
            kind,
            d,
            display_text(now.secs() as int, now.nanos() as int),
            context@,
        ),
{
    match kind {
        RequestKind::Migration => local_system_prompt(kind, d, context),
        RequestKind::Query => {
            let label = target_label(kind, d);
            let now_text = now.to_display();
            let mut r = String::from_str(
                "You are an expert SQL/NoSQL translator. Convert natural language to ",
            );
            r.append(label.as_str());
            r.append(" based on the schema below.\nCurrent Time: ");
            r.append(now_text.as_str());
            r.append(
                "\nIf the prompt is ambiguous or lacks enough information, return a clarification request.\nReturn ONLY a JSON object.\nFor successful translation: { \"type\": \"plan\", \"query\": \"...\", \"explanation\": \"...\" }\nFor ambiguity: { \"type\": \"clarification\", \"reason\": \"...\", \"suggestions\": [\"...\", \"...\"] }\n\n",
            );
            r.append(context);
            r
        },
        RequestKind::Vector => {
            let label = target_label(kind, d);
            let now_text = now.to_display();
            let mut r = String::from_str(
                "You are an expert SQL/NoSQL translator specializing in Vector Search. Convert natural language to ",
            );
            r.append(label.as_str());
            r.append(" with vector operators.\nCurrent Time: ");
            r.append(now_text.as_str());
            r.append(
                "\nUse '$VECTOR' as a placeholder for the generated embedding vector.\nReturn ONLY a JSON object with 'query' and 'explanation' fields.\n\n",
            );
            r.append(context);
            r
        },
    }
}

/// The instructions for generating synthetic data.
pub open spec fn mock_data_system_prompt_spec(d: DatabaseDialect, context: Seq<char>) -> Seq<char> {
    "You are an expert data engineer. Generate realistic synthetic data for "@ + (if d
        == DatabaseDialect::MongoDB {
        "MongoDB"@
    } else {
        "SQL"@
    })
        + " based on the schema below.\nReturn ONLY a JSON object with a 'queries' field containing an array of INSERT/update statements.\n\n"@
        + context
}

/// Builds the instructions for generating synthetic data.
pub fn mock_data_system_prompt(d: DatabaseDialect, context: &str) -> (r: String)
    ensures
        r@ == mock_data_system_prompt_spec(d, context@),
{
    let mut r = String::from_str(
        "You are an expert data engineer. Generate realistic synthetic data for ",
    );
    match d {
        DatabaseDialect::MongoDB => r.append("MongoDB"),
        _ => r.append("SQL"),
    }
    r.append(
        " based on the schema below.\nReturn ONLY a JSON object with a 'queries' field containing an array of INSERT/update statements.\n\n",
    );
    r.append(context);
    r
}

/// One turn of a conversation with the query layer.
#[derive(Debug)]
pub struct ChatTurn {
    pub role: String,
    pub content: String,
}

/// The turns of a conversation so far.
#[derive(Debug)]
pub struct Session {
    pub history: Vec<ChatTurn>,
}

/// The contents of the turns that the user wrote, in order.
pub open spec fn user_contents(turns: Seq<ChatTurn>) -> Seq<Seq<char>>
    decreases turns.len(),
{
    if turns.len() == 0 {
        Seq::empty()
    } else {
        user_contents(turns.drop_last()) + (if turns.last().role@ == "user"@ {
            seq![turns.last().content@]
        } else {
            Seq::empty()
        })
    }
}

impl Session {
    /// The contents of the turns that the user wrote, which are sent again with a new prompt.
    pub fn user_messages(&self) -> (r: Vec<String>)
        ensures
            r@.map_values(|s: String| s@) == user_contents(self.history@),
    {
        let user = String::from_str("user");
        let mut r: Vec<String> = Vec::new();
        let mut i: usize = 0;
        while i < self.history.len()
            invariant
                user@ == "user"@,
                i <= self.history@.len(),
                r@.map_values(|s: String| s@) == user_contents(self.history@.take(i as int)),
            decreases self.history.len() - i,
        {
            proof {
                assert(self.history@.take(i + 1).drop_last() =~= self.history@.take(i as int));
            }
            let ghost before = r@;
            if self.history[i].role == user {
                r.push(self.history[i].content.clone());
                assert(r@.map_values(|s: String| s@) =~= before.map_values(|s: String| s@).push(
                    self.history@[i as int].content@,
                ));
            }
            assert(r@.map_values(|s: String| s@) =~= user_contents(self.history@.take(i + 1)));
            i = i + 1;
        }
        assert(self.history@.take(self.history@.len() as int) =~= self.history@);
        r
    }
}

/// The pattern of the JSON object in a local model's reply: from a `{` to a `}`,
/// anything between.
pub open spec fn json_object_pattern() -> Seq<char> {
    "\\{[\\s\\S]*\\}"@
}

/// The characters whose UTF-8 encoding lies between the byte offsets `b` and `e`
/// of that of `s`.
pub open spec fn between_bytes(s: Seq<char>, b: int, e: int) -> Seq<char> {
    decode_utf8(encode_utf8(s).subrange(b, e))
}

/// The text that the pattern matches in the reply, if it matches.
pub open spec fn json_object_span(content: Seq<char>) -> Option<Seq<char>> {
    match regex_find_span(json_object_pattern(), content) {
        Some((b, e)) => Some(between_bytes(content, b as int, e as int)),
        None => None,
    }
}

/// A character boundary of a valid text is one of every prefix that reaches it.
proof fn lemma_prefix_boundary(bytes: Seq<u8>, e: int, b: int)
    requires
        valid_utf8(bytes),
        is_char_boundary(bytes, e),
        is_char_boundary(bytes, b),
        0 <= b <= e <= bytes.len(),
    ensures
        is_char_boundary(bytes.subrange(0, e), b),
{
    valid_utf8_split(bytes, e);
    let pre = bytes.subrange(0, e);
    if b == e {
        is_char_boundary_start_end_of_seq(pre);
    } else {
        is_char_boundary_iff_not_is_continuation_byte(bytes, b);
        is_char_boundary_iff_not_is_continuation_byte(pre, b);
    }
}

/// Finds the JSON object in a model's reply with the pattern `\{[\s\S]*\}`.
pub fn extract_json_object(content: &str) -> (r: Option<String>)
    requires
        regex_compiles(json_object_pattern()),
    ensures
        opt_str(r) == json_object_span(content@),
{
    match regex_find("\\{[\\s\\S]*\\}", content) {
        Some((b, e)) => {
            proof {
                encode_utf8_valid_utf8(content@);
                lemma_prefix_boundary(content.spec_bytes(), e as int, b as int);
            }
            let (pre, _) = content.split_at(e);
            let (_, mid) = pre.split_at(b);
            proof {
                encode_utf8_decode_utf8(mid@);
                assert(mid.spec_bytes() =~= content.spec_bytes().subrange(b as int, e as int));
            }
            Some(String::from_str(mid))
        },
        None => None,
    }
}

/// The member of an object with this key (the first, should the key repeat).
pub open spec fn find_member(members: Seq<(Seq<char>, JsonView)>, key: Seq<char>) -> Option<JsonView>
    decreases members.len(),
{
    if members.len() == 0 {
        None
    } else if members[0].0 == key {
        Some(members[0].1)
    } else {
        find_member(members.drop_first(), key)
    }
}

/// The string under the key of an object, as `value[key].as_str()` reads it.
pub open spec fn member_str(v: JsonView, key: Seq<char>) -> Option<Seq<char>> {
    match v {
        JsonView::Object(members) => match find_member(members, key) {
            Some(JsonView::Str(s)) => Some(s),
            _ => None,
        },
        _ => None,
    }
}

/// The strings among the items, in order.
pub open spec fn strings_of(items: Seq<JsonView>) -> Seq<Seq<char>>
    decreases items.len(),
{
    if items.len() == 0 {
        Seq::empty()
    } else {
        strings_of(items.drop_last()) + match items.last() {
            JsonView::Str(s) => seq![s],
            _ => Seq::empty(),
        }
    }
}

/// The strings of the array under the key of an object; none when there is no such array.
pub open spec fn member_strings(v: JsonView, key: Seq<char>) -> Seq<Seq<char>> {
    match v {
        JsonView::Object(members) => match find_member(members, key) {
            Some(JsonView::Array(items)) => strings_of(items),
            _ => Seq::empty(),
        },
        _ => Seq::empty(),
    }
}

/// The value under the key of an object.
fn get_member<'a>(v: &'a JsonValue, key: &str) -> (r: Option<&'a JsonValue>)
    ensures
        match v@ {
            JsonView::Object(members) => match find_member(members, key@) {
                Some(x) => r is Some && r->0@ == x,
                None => r is None,
            },
            _ => r is None,
        },
{
    match v {
        JsonValue::Object(members) => {
            let ghost ms = v@->Object_0;
            let k = String::from_str(key);
            assert(ms.skip(0) =~= ms);
            let mut i: usize = 0;
            while i < members.len()
                invariant
                    *v == JsonValue::Object(*members),
                    ms == v@->Object_0,
                    ms.len() == members@.len(),
                    forall|j: int|
                        0 <= j < ms.len() ==> ms[j] == (
                            members@[j].0@,
                            crate::json::json_view(members@[j].1),
                        ),
                    k@ == key@,
                    i <= members@.len(),
                    find_member(ms, key@) == find_member(ms.skip(i as int), key@),
                decreases members.len() - i,
            {
                proof {
                    assert(ms.skip(i as int).drop_first() =~= ms.skip(i + 1));
                    assert(ms.skip(i as int)[0] == ms[i as int]);
                }
                if members[i].0 == k {
                    return Some(&members[i].1);
                }
                i = i + 1;
            }
            proof {
                assert(ms.skip(i as int).len() == 0);
            }
            None
        },
        _ => None,
    }
}

/// The string under the key of an object.
pub fn member_string(v: &JsonValue, key: &str) -> (r: Option<String>)
    ensures
        opt_str(r) == member_str(v@, key@),
{
    match get_member(v, key) {
        Some(JsonValue::String(s)) => Some(s.clone()),
        _ => None,
    }
}

/// The strings of the array under the key of an object.
pub fn member_string_list(v: &JsonValue, key: &str) -> (r: Vec<String>)
    ensures
        r@.map_values(|s: String| s@) == member_strings(v@, key@),
{
    match get_member(v, key) {
        Some(JsonValue::Array(items)) => {
            let ghost xs = crate::json::json_view(JsonValue::Array(*items))->Array_0;
            let mut r: Vec<String> = Vec::new();
            let mut i: usize = 0;
            while i < items.len()
                invariant
                    xs.len() == items@.len(),
                    forall|j: int| 0 <= j < xs.len() ==> xs[j] == crate::json::json_view(items@[j]),
                    i <= items@.len(),
                    r@.map_values(|s: String| s@) == strings_of(xs.take(i as int)),
                decreases items.len() - i,
            {
                proof {
                    assert(xs.take(i + 1).drop_last() =~= xs.take(i as int));
                }
                let ghost before = r@;
                match &items[i] {
                    JsonValue::String(s) => {
                        r.push(s.clone());
                        assert(r@.map_values(|s: String| s@) =~= before.map_values(|s: String| s@).push(s@));
                    },
                    _ => {},
                }
                assert(r@.map_values(|s: String| s@) =~= strings_of(xs.take(i + 1)));
                i = i + 1;
            }
            assert(xs.take(items@.len() as int) =~= xs);
            r
        },
        _ => {
            let r: Vec<String> = Vec::new();
            assert(r@.map_values(|s: String| s@) =~= Seq::<Seq<char>>::empty());
            r
        },
    }
}

/// The text of the string under the key, or the fallback.
pub open spec fn str_or(v: JsonView, key: Seq<char>, fallback: Seq<char>) -> Seq<char> {
    match member_str(v, key) {
        Some(s) => s,
        None => fallback,
    }
}

/// An error with this message.
fn fail(message: &str) -> (r: TranslateError)
    ensures
        r.message@ == message@,
{
    TranslateError { message: String::from_str(message) }
}

/// The message of the error for a reply that is not JSON.
pub open spec fn not_json_message() -> Seq<char> {
    "The reply is not valid JSON"@
}

/// `r` is what a reply `v` gives for a query plan: the plan of its `query` and
/// `explanation` (the explanation empty when missing), or the error with the
/// message `missing` when it has no `query` string.
pub open spec fn reads_plan(
    v: JsonView,
    dialect: DatabaseDialect,
    missing: Seq<char>,
    r: Result<QueryPlan, TranslateError>,
) -> bool {
    match member_str(v, "query"@) {
        Some(q) => r matches Ok(p) && p.dialect == dialect && p.raw_query@ == q && p.explanation@
            == str_or(v, "explanation"@, Seq::empty()) && p.cost is None,
        None => r matches Err(e) && e.message@ == missing,
    }
}

/// `r` is what a reply `v` gives for a migration: the plan of its `sql` and
/// `explanation`, or the error with the message `missing` when it has no `sql` string.
pub open spec fn reads_migration(
    v: JsonView,
    dialect: DatabaseDialect,
    missing: Seq<char>,
    r: Result<MigrationPlan, TranslateError>,
) -> bool {
    match member_str(v, "sql"@) {
        Some(q) => r matches Ok(p) && p.dialect == dialect && p.raw_sql@ == q && p.explanation@
            == str_or(v, "explanation"@, Seq::empty()),
        None => r matches Err(e) && e.message@ == missing,
    }
}

/// `r` is what a hosted model's reply `v` to a query request gives: a
/// clarification when its `type` is `clarification` (the `type` defaults to
/// `plan`), else a plan.
pub open spec fn reads_hosted_result(
    v: JsonView,
    dialect: DatabaseDialect,
    r: Result<TranslateResult, TranslateError>,
) -> bool {
    if str_or(v, "type"@, "plan"@) == "clarification"@ {
        r matches Ok(TranslateResult::ClarificationNeeded { reason, suggestions }) && reason@
            == str_or(v, "reason"@, "Ambiguous prompt"@) && suggestions@.map_values(
            |s: String| s@,
        ) == member_strings(v, "suggestions"@)
    } else {
        reads_plan_result(v, dialect, r)
    }
}

/// `r` is the plan of a hosted model's reply `v`, or the error for a missing `query`.
pub open spec fn reads_plan_result(
    v: JsonView,
    dialect: DatabaseDialect,
    r: Result<TranslateResult, TranslateError>,
) -> bool {
    match member_str(v, "query"@) {
        Some(q) => r matches Ok(TranslateResult::Plan(p)) && p.dialect == dialect && p.raw_query@
            == q && p.explanation@ == str_or(v, "explanation"@, Seq::empty()) && p.cost is None,
        None => r matches Err(e) && e.message@ == "Missing 'query' in response"@,
    }
}

/// A query plan from the `query` and `explanation` of a reply; an error with the
/// message when the reply has no `query` string.
fn plan_from_fields(reply: &JsonValue, dialect: DatabaseDialect, missing: &str) -> (r: Result<
    QueryPlan,
    TranslateError,
>)
    ensures
        reads_plan(reply@, dialect, missing@, r),
{
    match member_string(reply, "query") {
        Some(raw_query) => {
            let explanation = match member_string(reply, "explanation") {
                Some(e) => e,
                None => String::new(),
            };
            Ok(QueryPlan { dialect, raw_query, explanation, cost: None })
        },
        None => Err(fail(missing)),
    }
}

/// A migration plan from the `sql` and `explanation` of a reply; an error with
/// the message when the reply has no `sql` string.
fn migration_from_fields(reply: &JsonValue, dialect: DatabaseDialect, missing: &str) -> (r: Result<
    MigrationPlan,
    TranslateError,
>)
    ensures
        reads_migration(reply@, dialect, missing@, r),
{
    match member_string(reply, "sql") {
        Some(raw_sql) => {
            let explanation = match member_string(reply, "explanation") {
                Some(e) => e,
                None => String::new(),
            };
            Ok(MigrationPlan { dialect, raw_sql, explanation })
        },
        None => Err(fail(missing)),
    }
}

/// The message when a local model's reply holds no JSON object: it names the
/// reply for a query request.
pub open spec fn no_json_message(kind: RequestKind, content: Seq<char>) -> Seq<char> {
    if kind == RequestKind::Query {
        "Failed to find JSON in Ollama response: "@ + content
    } else {
        "Failed to find JSON in Ollama response"@
    }
}

/// The JSON object in a local model's reply; when there is none, the error that
/// names the reply (for a query request) or not (for the others). When the
/// pattern does not compile, an error too.
pub fn local_reply_object(kind: RequestKind, content: &str) -> (r: Result<String, TranslateError>)
    ensures
        !regex_compiles(json_object_pattern()) ==> r is Err,
        regex_compiles(json_object_pattern()) ==> match json_object_span(content@) {
            Some(s) => r matches Ok(t) && t@ == s,
            None => r matches Err(e) && e.message@ == no_json_message(kind, content@),
        },
{
    if !regex_valid("\\{[\\s\\S]*\\}") {
        return Err(fail("The pattern of a JSON object does not compile"));
    }
    match extract_json_object(content) {
        Some(s) => Ok(s),
        None => {
            match kind {
                RequestKind::Query => {
                    let mut m = String::from_str("Failed to find JSON in Ollama response: ");
                    m.append(content);
                    Err(TranslateError { message: m })
                },
                _ => Err(fail("Failed to find JSON in Ollama response")),
            }
        },
    }
}

/// The JSON value of a local model's reply: the object found in the text, read
/// as JSON; an error when there is no object, or when it is not valid JSON.
pub fn local_reply_from_content(kind: RequestKind, content: &str) -> (r: Result<
    JsonValue,
    TranslateError,
>)
    ensures
        !regex_compiles(json_object_pattern()) ==> r is Err,
        regex_compiles(json_object_pattern()) ==> match json_object_span(content@) {
            Some(s) => match json_text_value(s) {
                Some(v) => r matches Ok(j) && j@ == v,
                None => r matches Err(e) && e.message@ == not_json_message(),
            },
            None => r matches Err(e) && e.message@ == no_json_message(kind, content@),
        },
{
    match local_reply_object(kind, content) {
        Ok(text) => match parse_json(text.as_str()) {
            Some(j) => Ok(j),
            None => Err(fail("The reply is not valid JSON")),
        },
        Err(e) => Err(e),
    }
}

/// The plan in a local model's reply to a query or vector request.
pub fn local_plan_from_reply(reply: &JsonValue, dialect: DatabaseDialect) -> (r: Result<
    QueryPlan,
    TranslateError,
>)
    ensures
        reads_plan(reply@, dialect, "Missing 'query'"@, r),
{
    plan_from_fields(reply, dialect, "Missing 'query'")
}

/// The migration in a local model's reply.
pub fn local_migration_from_reply(reply: &JsonValue, dialect: DatabaseDialect) -> (r: Result<
    MigrationPlan,
    TranslateError,
>)
    ensures
        reads_migration(reply@, dialect, "Missing 'sql'"@, r),
{
    migration_from_fields(reply, dialect, "Missing 'sql'")
}

/// What a hosted model's reply to a query request asks for: a clarification when
/// its `type` is `clarification`, else a plan (the `type` defaults to `plan`).
pub fn hosted_result_from_reply(reply: &JsonValue, dialect: DatabaseDialect) -> (r: Result<
    TranslateResult,
    TranslateError,
>)
    ensures
        reads_hosted_result(reply@, dialect, r),
{
    let result_type = match member_string(reply, "type") {
        Some(t) => t,
        None => String::from_str("plan"),
    };
    if result_type == String::from_str("clarification") {
        let reason = match member_string(reply, "reason") {
            Some(t) => t,
            None => String::from_str("Ambiguous prompt"),
        };
        let suggestions = member_string_list(reply, "suggestions");
        Ok(TranslateResult::ClarificationNeeded { reason, suggestions })
    } else {
        hosted_vector_result_from_reply(reply, dialect)
    }
}

/// What the text of a hosted model's reply to a query request asks for; an
/// error when the text is not JSON.
pub fn hosted_result_from_content(content: &str, dialect: DatabaseDialect) -> (r: Result<
    TranslateResult,
    TranslateError,
>)
    ensures
        match json_text_value(content@) {
            Some(v) => reads_hosted_result(v, dialect, r),
            None => r matches Err(e) && e.message@ == not_json_message(),
        },
{
    match parse_json(content) {
        Some(reply) => hosted_result_from_reply(&reply, dialect),
        None => Err(fail("The reply is not valid JSON")),
    }
}

/// The plan in a hosted model's reply to a vector request.
pub fn hosted_vector_result_from_reply(reply: &JsonValue, dialect: DatabaseDialect) -> (r: Result<
    TranslateResult,
    TranslateError,
>)
    ensures
        reads_plan_result(reply@, dialect, r),
{
    match plan_from_fields(reply, dialect, "Missing 'query' in response") {
        Ok(p) => Ok(TranslateResult::Plan(p)),
        Err(e) => Err(e),
    }
}

/// The plan in the text of a hosted model's reply to a vector request; an error
/// when the text is not JSON.
pub fn hosted_vector_result_from_content(content: &str, dialect: DatabaseDialect) -> (r: Result<
    TranslateResult,
    TranslateError,
>)
    ensures
        match json_text_value(content@) {
            Some(v) => reads_plan_result(v, dialect, r),
            None => r matches Err(e) && e.message@ == not_json_message(),
        },
{
    match parse_json(content) {
        Some(reply) => hosted_vector_result_from_reply(&reply, dialect),
        None => Err(fail("The reply is not valid JSON")),
    }
}

/// The migration in a hosted model's reply.
pub fn hosted_migration_from_reply(reply: &JsonValue, dialect: DatabaseDialect) -> (r: Result<
    MigrationPlan,
    TranslateError,
>)
    ensures
        reads_migration(reply@, dialect, "Missing 'sql' in response"@, r),
{
    migration_from_fields(reply, dialect, "Missing 'sql' in response")
}

/// The migration in the text of a hosted model's reply; an error when the text
/// is not JSON.
pub fn hosted_migration_from_content(content: &str, dialect: DatabaseDialect) -> (r: Result<
    MigrationPlan,
    TranslateError,
>)
    ensures
        match json_text_value(content@) {
            Some(v) => reads_migration(v, dialect, "Missing 'sql' in response"@, r),
            None => r matches Err(e) && e.message@ == not_json_message(),
        },
{
    match parse_json(content) {
        Some(reply) => hosted_migration_from_reply(&reply, dialect),
        None => Err(fail("The reply is not valid JSON")),
    }
}

/// The statements in a reply to a request for synthetic data: the strings of its
/// `queries` array, none when it has no such array.
pub fn mock_queries_from_reply(reply: &JsonValue) -> (r: Vec<String>)
    ensures
        r@.map_values(|s: String| s@) == member_strings(reply@, "queries"@),
{
    member_string_list(reply, "queries")
}

/// The statements in the text of a reply to a request for synthetic data; an
/// error when the text is not JSON.
pub fn mock_queries_from_content(content: &str) -> (r: Result<Vec<String>, TranslateError>)
    ensures
        match json_text_value(content@) {
            Some(v) => r matches Ok(qs) && qs@.map_values(|s: String| s@) == member_strings(
                v,
                "queries"@,
            ),
            None => r matches Err(e) && e.message@ == not_json_message(),
        },
{
    match parse_json(content) {
        Some(reply) => Ok(mock_queries_from_reply(&reply)),
        None => Err(fail("The reply is not valid JSON")),
    }
}

/// A hosted model's reply whose `type` is the string `clarification` is read as a
/// request for clarification that keeps the model's words: its reason is the
/// reply's `reason` string (`Ambiguous prompt` only when there is none), and its
/// suggestions are the strings of the reply's `suggestions` array, in order.
pub proof fn law_clarification_keeps_reason(
    v: JsonView,
    dialect: DatabaseDialect,
    r: Result<TranslateResult, TranslateError>,
)
    requires
        reads_hosted_result(v, dialect, r),
        member_str(v, "type"@) == Some("clarification"@),
    ensures
        r matches Ok(TranslateResult::ClarificationNeeded { reason, suggestions }) && (match member_str(
            v,
            "reason"@,
        ) {
            Some(t) => reason@ == t,
            None => reason@ == "Ambiguous prompt"@,
        }) && suggestions@.map_values(|x: String| x@) == (match v {
            JsonView::Object(members) => match find_member(members, "suggestions"@) {
                Some(JsonView::Array(items)) => strings_of(items),
                _ => Seq::empty(),
            },
            _ => Seq::empty(),
        }),
{
}

/// Any other hosted reply is read as a plan of its `query` string, with its
/// `explanation` string (empty when there is none); without a `query` string it
/// is the error `Missing 'query' in response`.
pub proof fn law_plan_reply_keeps_query(
    v: JsonView,
    dialect: DatabaseDialect,
    r: Result<TranslateResult, TranslateError>,
)
    requires
        reads_hosted_result(v, dialect, r),
        member_str(v, "type"@) != Some("clarification"@),
    ensures
        match member_str(v, "query"@) {
            Some(q) => r matches Ok(TranslateResult::Plan(p)) && p.dialect == dialect
                && p.raw_query@ == q && p.explanation@ == (match member_str(v, "explanation"@) {
                Some(e) => e,
                None => Seq::empty(),
            }),
            None => r matches Err(e) && e.message@ == "Missing 'query' in response"@,
        },
{
    if member_str(v, "type"@) is None {
        reveal_strlit("plan");
        reveal_strlit("clarification");
        assert("plan"@ != "clarification"@) by {
            assert("plan"@.len() != "clarification"@.len());
        }
    }
}

/// A translator that answers every prompt with the same query, for tests and demos.
pub struct MockTranslator;

/// The mock query for a prompt.
pub open spec fn mock_query(prompt: Seq<char>) -> Seq<char> {
    "-- Mock query for: "@ + prompt + "\nSELECT * FROM users LIMIT 10;"@
}

/// The mock explanation for a prompt.
pub open spec fn mock_explanation(prompt: Seq<char>) -> Seq<char> {
    "This is a mock translation for '"@ + prompt + "'."@
}

impl MockTranslator {
    /// A plan whose query selects ten users, commented with the prompt, at no cost.
    pub fn translate(&self, prompt: &str, _schema: &Schema, dialect: DatabaseDialect) -> (r: QueryPlan)
        ensures
            r.dialect == dialect,
            r.raw_query@ == mock_query(prompt@),
            r.explanation@ == mock_explanation(prompt@),
            r.cost == Some(0u64),
    {
        let mut raw_query = String::from_str("-- Mock query for: ");
        raw_query.append(prompt);
        raw_query.append("\nSELECT * FROM users LIMIT 10;");
        let mut explanation = String::from_str("This is a mock translation for '");
        explanation.append(prompt);
        explanation.append("'.");
        QueryPlan { dialect, raw_query, explanation, cost: Some(0) }
    }
}

} // verus!
