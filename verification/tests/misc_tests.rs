use aiql_core::context::{brief_schema_context, pruned_schema_context};
use aiql_core::crawlers::{column_from_row, infer_columns, mongo_index, try_index_from_definition};
use aiql_core::execution::MongoExecutionEngine;
use aiql_core::export::SupabaseExporter;
use aiql_core::healer::SimpleHealer;
use aiql_core::model::{explain_query, Column, DatabaseDialect, ExecutionResult, ForeignKey, Index, QueryPlan, Schema, Table};
use aiql_core::text::{join_text, replace_first, split_text, trim};

fn column(name: &str, ty: &str, nullable: bool, pk: bool) -> Column {
    Column { name: name.to_string(), data_type: ty.to_string(), is_nullable: nullable, is_primary_key: pk, default_value: None, description: None }
}

fn users() -> (String, Table) {
    (
        "users".to_string(),
        Table {
            name: "users".to_string(),
            columns: vec![column("id", "integer", false, true), column("email", "text", true, false)],
            indexes: vec![Index { name: "users_email_key".to_string(), columns: vec!["email".to_string()], is_unique: true }],
            foreign_keys: vec![ForeignKey {
                constraint_name: "fk".to_string(),
                column_name: "org_id".to_string(),
                foreign_table: "orgs".to_string(),
                foreign_column: "id".to_string(),
            }],
            description: None,
        },
    )
}

#[test]
fn brief_context() {
    let schema = Schema { tables: vec![users()] };
    assert_eq!(brief_schema_context(&schema), "Database Schema:\nTable: users\n  - id (integer)\n  - email (text)\n");
}

#[test]
fn detailed_context() {
    let schema = Schema { tables: vec![users()] };
    assert_eq!(
        pruned_schema_context(&schema, "anything"),
        "Database Schema:\nTable: users\n  - id integer  NOT NULL (PK)\n  - email text \n  Foreign Keys:\n    - org_id references orgs(id)\n  Indexes:\n    - users_email_key on (email) (UNIQUE)\n"
    );
}

#[test]
fn large_schemas_are_pruned() {
    let mut tables = Vec::new();
    for i in 0..11 {
        let name = format!("t{}x", i);
        tables.push((name.clone(), Table { name, columns: vec![column(&format!("c{}y", i), "int", true, false)], indexes: vec![], foreign_keys: vec![], description: None }));
    }
    let schema = Schema { tables };
    let ctx = pruned_schema_context(&schema, "Show T3X and column C5Y");
    assert_eq!(ctx, "Database Schema:\nTable: t3x\n  - c3y int \nTable: t5x\n  - c5y int \n");
}

#[test]
fn mongo_fields_become_columns() {
    let fields = vec![
        ("_id".to_string(), "ObjectId".to_string()),
        ("name".to_string(), "String".to_string()),
        ("_id".to_string(), "ObjectId".to_string()),
        ("name".to_string(), "Null".to_string()),
        ("age".to_string(), "Int32".to_string()),
    ];
    let cols = infer_columns(&fields);
    assert_eq!(cols.len(), 3);
    assert_eq!(cols[0].name, "_id");
    assert!(cols[0].is_primary_key);
    assert_eq!(cols[1].name, "name");
    assert_eq!(cols[1].data_type, "Null");
    assert!(!cols[1].is_primary_key);
    assert!(cols[2].is_nullable);
    let idx = mongo_index(None, vec!["a".to_string()]);
    assert_eq!(idx.name, "unnamed");
    assert!(!idx.is_unique);
}

#[test]
fn postgres_rows_become_columns_and_indexes() {
    let c = column_from_row("id".to_string(), "integer".to_string(), "NO", Some("nextval('s')".to_string()), Some(1));
    assert!(!c.is_nullable);
    assert!(c.is_primary_key);
    assert_eq!(c.default_value.as_deref(), Some("nextval('s')"));
    let d = column_from_row("x".to_string(), "text".to_string(), "YES", None, None);
    assert!(d.is_nullable && !d.is_primary_key);
    let i = try_index_from_definition("idx".to_string(), "CREATE UNIQUE INDEX idx ON public.t USING btree (a, b DESC)").unwrap();
    assert!(i.is_unique);
    assert_eq!(i.columns, vec!["a".to_string(), "b DESC".to_string()]);
    let j = try_index_from_definition("bad".to_string(), "no parentheses").unwrap();
    assert!(!j.is_unique);
    assert_eq!(j.columns, vec!["".to_string()]);
}

#[test]
fn healer_and_exporter() {
    let plan = SimpleHealer.heal("SELEC 1", "syntax error", &Schema { tables: Vec::new() }, DatabaseDialect::Postgres);
    assert_eq!(plan.raw_query, "-- Healed query for: SELEC 1\n-- Error was: syntax error\nSELECT * FROM users LIMIT 5;");
    assert_eq!(plan.explanation, "Healed query after error: syntax error");
    assert_eq!(plan.cost, Some(0));
    let code = SupabaseExporter.export(&QueryPlan { dialect: DatabaseDialect::Postgres, raw_query: "SELECT 1".to_string(), explanation: "one".to_string(), cost: None });
    assert!(code.starts_with("// Supabase Edge Function: AIQL Export\n// Prompt Explanation: one\n\nimport { serve }"));
    assert!(code.contains(".rpc('execute_ai_query', { query_text: `SELECT 1` })"));
    assert!(code.ends_with("  )\n})\n"));
}

#[test]
fn execution_helpers() {
    assert_eq!(explain_query("SELECT 1"), "EXPLAIN SELECT 1");
    let ok = ExecutionResult::from_outcome(None, 7);
    assert!(ok.success && ok.error.is_none() && ok.execution_time_ms == 7);
    let bad = ExecutionResult::from_outcome(Some("boom".to_string()), 3);
    assert!(!bad.success);
    assert_eq!(bad.error.as_deref(), Some("boom"));
    let rows = ExecutionResult::with_rows(vec![], 1);
    assert!(rows.success && rows.data.is_some());
}

#[test]
fn text_helpers() {
    assert_eq!(trim("\u{3000} a b \t\n"), "a b");
    assert_eq!(split_text("a,,b", ","), vec!["a".to_string(), "".to_string(), "b".to_string()]);
    assert_eq!(join_text(&vec!["a".to_string(), "b".to_string()], ", "), "a, b");
    assert_eq!(replace_first("x WHERE y WHERE", "WHERE", "W"), "x W y WHERE");
    assert_eq!(replace_first("abc", "z", "W"), "abc");
}

#[test]
fn mongo_engine_parts() {
    let runtime = tokio::runtime::Runtime::new().unwrap();
    let _guard = runtime.enter();
    let client = aiql_core_test_client();
    let engine = MongoExecutionEngine::new(client.database("db"));
    assert!(engine.dry_run("[]"));
    assert!(engine.dry_run(" [ {\"$match\": {\"a\": 1}}, {\"$limit\": 5} ]\n"));
    assert!(!engine.dry_run("not json"));
    assert!(!engine.dry_run("[1, 2]"));
    assert!(!engine.dry_run("{\"$match\": {}}"));
    assert!(!engine.dry_run("[{}] x"));
    assert_eq!(engine.target_collection(), "sample_collection");
    assert_eq!(engine.database().name(), "db");
    let crawler = aiql_core::crawlers::MongoSchemaCrawler::new(client, "shop");
    assert_eq!(crawler.database().name(), "shop");
}

fn aiql_core_test_client() -> mongodb::Client {
    let options = mongodb::options::ClientOptions::builder()
        .hosts(vec![mongodb::options::ServerAddress::Tcp { host: "localhost".to_string(), port: Some(27017) }])
        .build();
    mongodb::Client::with_options(options).unwrap()
}
