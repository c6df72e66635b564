use myr::schema_cache::{
    ColumnSchema, DatabaseSchema, ForeignKeySchema, RelationshipDirection, SchemaCacheService,
    SchemaCatalog, TableSchema,
};

fn column(name: &str, data_type: &str) -> ColumnSchema {
    ColumnSchema {
        name: name.to_string(),
        data_type: data_type.to_string(),
        nullable: false,
        default_value: None,
    }
}

fn sample_schema() -> SchemaCatalog {
    SchemaCatalog {
        databases: vec![
            DatabaseSchema {
                name: "app".to_string(),
                tables: vec![
                    TableSchema {
                        name: "users".to_string(),
                        columns: vec![column("id", "bigint"), column("email", "varchar(255)")],
                        foreign_keys: Vec::new(),
                    },
                    TableSchema {
                        name: "sessions".to_string(),
                        columns: vec![column("user_id", "bigint"), column("token", "varchar(255)")],
                        foreign_keys: vec![ForeignKeySchema {
                            constraint_name: "fk_sessions_users".to_string(),
                            column_name: "user_id".to_string(),
                            referenced_database: "app".to_string(),
                            referenced_table: "users".to_string(),
                            referenced_column: "id".to_string(),
                        }],
                    },
                ],
            },
            DatabaseSchema {
                name: "analytics".to_string(),
                tables: vec![TableSchema {
                    name: "events".to_string(),
                    columns: vec![column("occurred_at", "datetime")],
                    foreign_keys: Vec::new(),
                }],
            },
        ],
    }
}

#[test]
fn uses_cache_within_ttl() {
    let mut cache = SchemaCacheService::new(60_000);
    assert!(cache.schema(0).is_none());
    cache.refresh(0, sample_schema());
    let schema = cache.schema(59_000).expect("still valid");
    assert_eq!(schema.list_databases(), vec!["app".to_string(), "analytics".to_string()]);
    assert_eq!(schema.list_tables("app"), vec!["users".to_string(), "sessions".to_string()]);
    assert!(cache.schema(60_001).is_none());
    assert_eq!(
        cache.list_tables(1, "app"),
        Some(vec!["users".to_string(), "sessions".to_string()])
    );
    assert_eq!(cache.list_columns(1, "analytics", "events"), Some(vec!["occurred_at".to_string()]));
    assert_eq!(cache.list_related_tables(1, "app", "users").map(|r| r.len()), Some(1));
    assert_eq!(cache.list_databases(60_001), None);
}

#[test]
fn zero_ttl_refetches_on_each_request() {
    let mut cache = SchemaCacheService::new(0);
    cache.refresh(10, sample_schema());
    assert!(cache.schema(10).is_some());
    assert!(cache.schema(11).is_none());
    cache.invalidate();
    assert!(cache.schema(10).is_none());
    assert_eq!(cache.ttl(), 0);
}

#[test]
fn list_columns_returns_expected_shape() {
    let schema = sample_schema();
    let columns = schema.list_columns("app", "users");
    assert_eq!(columns, vec!["id".to_string(), "email".to_string()]);
    assert!(schema.list_columns("app", "missing").is_empty());
    assert!(schema.list_tables("missing").is_empty());
    assert_eq!(schema.database("analytics").map(|d| d.tables.len()), Some(1));
}

#[test]
fn list_related_tables_returns_outbound_and_inbound_relationships() {
    let schema = sample_schema();
    let related = schema.list_related_tables("app", "users");
    assert_eq!(related.len(), 1);
    assert_eq!(related[0].direction, RelationshipDirection::Inbound);
    assert_eq!(related[0].related_table, "sessions");
    assert_eq!(related[0].related_column, "user_id");

    let outbound = schema.list_related_tables("app", "sessions");
    assert_eq!(outbound.len(), 1);
    assert_eq!(outbound[0].direction, RelationshipDirection::Outbound);
    assert_eq!(outbound[0].related_table, "users");
    assert_eq!(outbound[0].related_column, "id");
}

#[test]
fn related_tables_sort_by_target_then_outbound_first() {
    let fk = |name: &str, col: &str, table: &str, rcol: &str| ForeignKeySchema {
        constraint_name: name.to_string(),
        column_name: col.to_string(),
        referenced_database: "app".to_string(),
        referenced_table: table.to_string(),
        referenced_column: rcol.to_string(),
    };
    let schema = SchemaCatalog {
        databases: vec![DatabaseSchema {
            name: "app".to_string(),
            tables: vec![TableSchema {
                name: "nodes".to_string(),
                columns: vec![column("id", "int"), column("parent_id", "int")],
                foreign_keys: vec![
                    fk("fk_z", "zone_id", "zones", "id"),
                    fk("fk_parent", "parent_id", "nodes", "id"),
                ],
            }],
        }],
    };
    let related = schema.list_related_tables("app", "nodes");
    let summary: Vec<(RelationshipDirection, &str, &str)> = related
        .iter()
        .map(|r| (r.direction, r.related_table.as_str(), r.related_column.as_str()))
        .collect();
    assert_eq!(
        summary,
        vec![
            (RelationshipDirection::Outbound, "nodes", "id"),
            (RelationshipDirection::Inbound, "nodes", "parent_id"),
            (RelationshipDirection::Outbound, "zones", "id"),
        ]
    );
}
