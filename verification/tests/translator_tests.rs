use aiql_core::json::JsonValue;
use aiql_core::model::{DatabaseDialect, Schema, TranslateResult};
use aiql_core::time::UtcTime;
use aiql_core::translator::{
    extract_json_object, hosted_migration_from_reply, hosted_result_from_reply, hosted_system_prompt,
    hosted_vector_result_from_reply, local_migration_from_reply, local_plan_from_reply, local_reply_object,
    local_system_prompt, mock_data_system_prompt, mock_queries_from_reply, target_label, ChatTurn,
    MockTranslator, RequestKind, Session, hosted_migration_from_content, hosted_result_from_content,
    hosted_vector_result_from_content, local_reply_from_content, mock_queries_from_content,
};

fn obj(members: Vec<(&str, JsonValue)>) -> JsonValue {
    JsonValue::Object(members.into_iter().map(|(k, v)| (k.to_string(), v)).collect())
}

fn s(x: &str) -> JsonValue {
    JsonValue::String(x.to_string())
}

#[test]
fn mock_translation() {
    let plan = MockTranslator.translate("top users", &Schema { tables: Vec::new() }, DatabaseDialect::Postgres);
    assert_eq!(plan.raw_query, "-- Mock query for: top users\nSELECT * FROM users LIMIT 10;");
    assert_eq!(plan.explanation, "This is a mock translation for 'top users'.");
    assert_eq!(plan.cost, Some(0));
    assert_eq!(plan.dialect, DatabaseDialect::Postgres);
}

#[test]
fn labels_per_dialect() {
    assert_eq!(target_label(RequestKind::Query, DatabaseDialect::MongoDB), "MongoDB Aggregation Pipeline JSON");
    assert_eq!(target_label(RequestKind::Migration, DatabaseDialect::MongoDB), "MongoDB Collection operations");
    assert_eq!(target_label(RequestKind::Vector, DatabaseDialect::Postgres), "PostgreSQL (with pgvector)");
    assert_eq!(target_label(RequestKind::Vector, DatabaseDialect::SQLite), "SQLite (with vector extensions)");
    assert_eq!(target_label(RequestKind::Query, DatabaseDialect::MySQL), "MySQL");
}

#[test]
fn local_prompt_text() {
    assert_eq!(
        local_system_prompt(RequestKind::Migration, DatabaseDialect::Postgres, "CTX"),
        "You are an expert database architect. Convert natural language migration requests to PostgreSQL DDL.\nReturn ONLY a JSON object with 'sql' and 'explanation' fields.\n\nCTX"
    );
    assert_eq!(
        local_system_prompt(RequestKind::Query, DatabaseDialect::SQLite, "C"),
        "You are an expert SQL/NoSQL translator. Convert natural language to SQLite based on the schema below.\nReturn ONLY a JSON object with 'query' and 'explanation' fields.\n\nC"
    );
}

#[test]
fn hosted_prompt_has_time() {
    let now = UtcTime::from_timestamp(0, 0).unwrap();
    let p = hosted_system_prompt(RequestKind::Vector, DatabaseDialect::MySQL, &now, "C");
    assert_eq!(
        p,
        "You are an expert SQL/NoSQL translator specializing in Vector Search. Convert natural language to MySQL (with vector extensions) with vector operators.\nCurrent Time: 1970-01-01 00:00:00 UTC\nUse '$VECTOR' as a placeholder for the generated embedding vector.\nReturn ONLY a JSON object with 'query' and 'explanation' fields.\n\nC"
    );
    let q = hosted_system_prompt(RequestKind::Query, DatabaseDialect::Postgres, &now, "C");
    assert!(q.contains("For ambiguity: { \"type\": \"clarification\", \"reason\": \"...\", \"suggestions\": [\"...\", \"...\"] }\n\nC"));
    assert!(q.starts_with("You are an expert SQL/NoSQL translator. Convert natural language to PostgreSQL based on the schema below.\nCurrent Time: 1970-01-01 00:00:00 UTC\n"));
}

#[test]
fn mock_data_prompt() {
    assert!(mock_data_system_prompt(DatabaseDialect::MySQL, "C").starts_with("You are an expert data engineer. Generate realistic synthetic data for SQL based"));
    assert!(mock_data_system_prompt(DatabaseDialect::MongoDB, "C").contains("for MongoDB based"));
}

#[test]
fn extracts_outer_json_object() {
    assert_eq!(extract_json_object("Sure! {\"query\": \"a\", \"x\": {\"b\": 1}} done").unwrap(), "{\"query\": \"a\", \"x\": {\"b\": 1}}");
    assert!(extract_json_object("no json here").is_none());
    assert!(extract_json_object("} backwards {").is_none());
    assert_eq!(extract_json_object("{}").unwrap(), "{}");
    assert_eq!(extract_json_object("é {\"a\": \"ü\"} } ñ").unwrap(), "{\"a\": \"ü\"} }");
    assert_eq!(extract_json_object("line\n{\n\"a\": 1\n}\n").unwrap(), "{\n\"a\": 1\n}");
}

#[test]
fn local_reply_errors() {
    assert_eq!(local_reply_object(RequestKind::Query, "nope").unwrap_err().message, "Failed to find JSON in Ollama response: nope");
    assert_eq!(local_reply_object(RequestKind::Vector, "nope").unwrap_err().message, "Failed to find JSON in Ollama response");
    assert_eq!(local_reply_object(RequestKind::Migration, "x {1} y").unwrap(), "{1}");
}

#[test]
fn local_replies() {
    let reply = obj(vec![("query", s("SELECT 1")), ("explanation", s("one"))]);
    let plan = local_plan_from_reply(&reply, DatabaseDialect::MySQL).unwrap();
    assert_eq!(plan.raw_query, "SELECT 1");
    assert_eq!(plan.explanation, "one");
    assert_eq!(plan.cost, None);
    let missing = local_plan_from_reply(&obj(vec![]), DatabaseDialect::MySQL).unwrap_err();
    assert_eq!(missing.message, "Missing 'query'");
    let m = local_migration_from_reply(&obj(vec![("sql", s("ALTER TABLE t ADD c int"))]), DatabaseDialect::Postgres).unwrap();
    assert_eq!(m.raw_sql, "ALTER TABLE t ADD c int");
    assert_eq!(m.explanation, "");
    assert_eq!(local_migration_from_reply(&s("x"), DatabaseDialect::Postgres).unwrap_err().message, "Missing 'sql'");
}

#[test]
fn hosted_replies() {
    let clar = obj(vec![
        ("type", s("clarification")),
        ("suggestions", JsonValue::Array(vec![s("by day"), JsonValue::Number("3".to_string()), s("by month")])),
    ]);
    match hosted_result_from_reply(&clar, DatabaseDialect::Postgres).unwrap() {
        TranslateResult::ClarificationNeeded { reason, suggestions } => {
            assert_eq!(reason, "Ambiguous prompt");
            assert_eq!(suggestions, vec!["by day".to_string(), "by month".to_string()]);
        }
        _ => panic!("expected a clarification"),
    }
    match hosted_result_from_reply(&obj(vec![("query", s("SELECT 2"))]), DatabaseDialect::SQLite).unwrap() {
        TranslateResult::Plan(p) => assert_eq!(p.raw_query, "SELECT 2"),
        _ => panic!("expected a plan"),
    }
    assert_eq!(hosted_result_from_reply(&obj(vec![("type", s("plan"))]), DatabaseDialect::SQLite).unwrap_err().message, "Missing 'query' in response");
    assert_eq!(hosted_vector_result_from_reply(&obj(vec![]), DatabaseDialect::SQLite).unwrap_err().message, "Missing 'query' in response");
    assert_eq!(hosted_migration_from_reply(&obj(vec![]), DatabaseDialect::SQLite).unwrap_err().message, "Missing 'sql' in response");
    assert_eq!(
        mock_queries_from_reply(&obj(vec![("queries", JsonValue::Array(vec![s("INSERT 1"), s("INSERT 2")]))])),
        vec!["INSERT 1".to_string(), "INSERT 2".to_string()]
    );
    assert!(mock_queries_from_reply(&obj(vec![("queries", s("INSERT"))])).is_empty());
}

#[test]
fn session_keeps_user_turns() {
    let session = Session {
        history: vec![
            ChatTurn { role: "user".to_string(), content: "a".to_string() },
            ChatTurn { role: "assistant".to_string(), content: "b".to_string() },
            ChatTurn { role: "user".to_string(), content: "c".to_string() },
        ],
    };
    assert_eq!(session.user_messages(), vec!["a".to_string(), "c".to_string()]);
}

#[test]
fn replies_read_from_text() {
    match hosted_result_from_content("{\"type\": \"plan\", \"query\": \"SELECT 1\", \"explanation\": \"one\"}", DatabaseDialect::MySQL).unwrap() {
        TranslateResult::Plan(p) => {
            assert_eq!(p.raw_query, "SELECT 1");
            assert_eq!(p.explanation, "one");
        }
        _ => panic!("expected a plan"),
    }
    match hosted_result_from_content("{\"type\": \"clarification\", \"suggestions\": [\"a\", 2, \"b\"]}", DatabaseDialect::MySQL).unwrap() {
        TranslateResult::ClarificationNeeded { reason, suggestions } => {
            assert_eq!(reason, "Ambiguous prompt");
            assert_eq!(suggestions, vec!["a".to_string(), "b".to_string()]);
        }
        _ => panic!("expected a clarification"),
    }
    assert_eq!(hosted_result_from_content("not json", DatabaseDialect::MySQL).unwrap_err().message, "The reply is not valid JSON");
    assert_eq!(hosted_vector_result_from_content("{}", DatabaseDialect::Postgres).unwrap_err().message, "Missing 'query' in response");
    assert_eq!(hosted_migration_from_content("{\"sql\": \"ALTER TABLE t\"}", DatabaseDialect::Postgres).unwrap().raw_sql, "ALTER TABLE t");
    assert_eq!(mock_queries_from_content("{\"queries\": [\"INSERT 1\", \"INSERT 2\"]}").unwrap(), vec!["INSERT 1".to_string(), "INSERT 2".to_string()]);
    assert!(mock_queries_from_content("{\"queries\": 1").is_err());
}

#[test]
fn local_reply_read_from_text() {
    let reply = local_reply_from_content(RequestKind::Query, "Here: {\"query\": \"SELECT 2\", \"n\": 1.50} ok").unwrap();
    let plan = local_plan_from_reply(&reply, DatabaseDialect::SQLite).unwrap();
    assert_eq!(plan.raw_query, "SELECT 2");
    assert_eq!(plan.explanation, "");
    assert_eq!(local_reply_from_content(RequestKind::Vector, "{not json}").unwrap_err().message, "The reply is not valid JSON");
    assert_eq!(local_reply_from_content(RequestKind::Query, "none").unwrap_err().message, "Failed to find JSON in Ollama response: none");
}
