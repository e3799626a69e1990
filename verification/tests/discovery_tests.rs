use aiql_core::discovery::NameBasedRelationshipDiscoverer;
use aiql_core::model::{Column, ForeignKey, Schema, Table};

fn col(name: &str, pk: bool) -> Column {
    Column {
        name: name.to_string(),
        data_type: "integer".to_string(),
        is_nullable: !pk,
        is_primary_key: pk,
        default_value: None,
        description: None,
    }
}

fn table(name: &str, columns: Vec<Column>) -> (String, Table) {
    (
        name.to_string(),
        Table {
            name: name.to_string(),
            columns,
            indexes: Vec::new(),
            foreign_keys: Vec::new(),
            description: None,
        },
    )
}

fn shop() -> Schema {
    Schema {
        tables: vec![
            table("users", vec![col("id", true), col("name", false)]),
            table("orders", vec![col("id", true), col("users_id", false), col("total", false)]),
        ],
    }
}

#[test]
fn discovers_foreign_key_from_column_name() {
    let mut schema = shop();
    NameBasedRelationshipDiscoverer.discover(&mut schema);
    let orders = &schema.tables[1].1;
    assert_eq!(orders.foreign_keys.len(), 1);
    let fk = &orders.foreign_keys[0];
    assert_eq!(fk.constraint_name, "discovered_fk_orders_users_id_users");
    assert_eq!(fk.column_name, "users_id");
    assert_eq!(fk.foreign_table, "users");
    assert_eq!(fk.foreign_column, "id");
    assert!(schema.tables[0].1.foreign_keys.is_empty());
}

#[test]
fn discovery_matches_names_in_any_case_and_suffix() {
    let mut schema = Schema {
        tables: vec![
            table("team", vec![col("uuid", true)]),
            table("member", vec![col("TeamId", false), col("team_uuid", false)]),
        ],
    };
    NameBasedRelationshipDiscoverer.discover(&mut schema);
    let fks = &schema.tables[1].1.foreign_keys;
    assert_eq!(fks.len(), 2);
    assert_eq!(fks[0].column_name, "TeamId");
    assert_eq!(fks[0].foreign_column, "uuid");
    assert_eq!(fks[1].column_name, "team_uuid");
}

#[test]
fn discovery_needs_a_target_column() {
    let mut schema = Schema {
        tables: vec![
            table("tag", vec![col("label", false)]),
            table("post", vec![col("tag_id", false)]),
        ],
    };
    NameBasedRelationshipDiscoverer.discover(&mut schema);
    assert!(schema.tables[1].1.foreign_keys.is_empty());
}

#[test]
fn discovery_keeps_existing_keys_and_adds_no_duplicate() {
    let mut schema = shop();
    schema.tables[1].1.foreign_keys.push(ForeignKey {
        constraint_name: "orders_users_fk".to_string(),
        column_name: "users_id".to_string(),
        foreign_table: "users".to_string(),
        foreign_column: "id".to_string(),
    });
    NameBasedRelationshipDiscoverer.discover(&mut schema);
    let fks = &schema.tables[1].1.foreign_keys;
    assert_eq!(fks.len(), 1);
    assert_eq!(fks[0].constraint_name, "orders_users_fk");
}

#[test]
fn discovery_twice_changes_nothing() {
    let mut once = shop();
    NameBasedRelationshipDiscoverer.discover(&mut once);
    let mut twice = shop();
    NameBasedRelationshipDiscoverer.discover(&mut twice);
    NameBasedRelationshipDiscoverer.discover(&mut twice);
    assert_eq!(format!("{:?}", once), format!("{:?}", twice));
}
