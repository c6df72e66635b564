use myr::sql_generator::{
    count_estimate_sql, describe_table_sql, filtered_sorted_preview_sql, keyset_first_page_sql,
    keyset_page_sql, offset_page_sql, preview_select_sql, quote_identifier, quote_sql_literal,
    select_column_preview_sql, show_create_table_sql, show_index_sql, PaginationDirection,
    SqlGenerationError, SqlTarget,
};

#[test]
fn quotes_identifiers_with_backticks() {
    assert_eq!(quote_identifier("users"), "`users`");
    assert_eq!(quote_identifier("odd`name"), "`odd``name`");
}

#[test]
fn generates_preview_describe_and_show_statements() {
    let target = SqlTarget::new(Some("app"), "users").expect("valid target");

    assert_eq!(
        preview_select_sql(&target, 200),
        "SELECT * FROM `app`.`users` LIMIT 200"
    );
    assert_eq!(describe_table_sql(&target), "DESCRIBE `app`.`users`");
    assert_eq!(
        show_create_table_sql(&target),
        "SHOW CREATE TABLE `app`.`users`"
    );
    assert_eq!(show_index_sql(&target), "SHOW INDEX FROM `app`.`users`");
}

#[test]
fn generates_column_preview_with_safe_identifier() {
    let target = SqlTarget::new(Some("app"), "users").expect("valid target");

    let sql = select_column_preview_sql(&target, "email", 50).expect("sql generation");
    assert_eq!(sql, "SELECT `email` FROM `app`.`users` LIMIT 50");
}

#[test]
fn generates_count_estimate_query_against_information_schema() {
    let target = SqlTarget::new(Some("app"), "users").expect("valid target");
    let sql = count_estimate_sql(&target).expect("count estimate query");
    assert_eq!(
        sql,
        "SELECT TABLE_ROWS AS estimated_rows FROM information_schema.TABLES \
         WHERE TABLE_SCHEMA = 'app' AND TABLE_NAME = 'users'"
    );
}

#[test]
fn count_estimate_requires_database() {
    let target = SqlTarget::new(None, "users").expect("valid target");
    let err = count_estimate_sql(&target).expect_err("should require database");
    assert_eq!(err, SqlGenerationError::MissingDatabaseForEstimate);
}

#[test]
fn generates_filtered_sorted_preview_for_selected_column() {
    let target = SqlTarget::new(Some("app"), "users").expect("valid target");
    let sql = filtered_sorted_preview_sql(&target, "email", 200).expect("filter/sort sql");
    assert_eq!(
        sql,
        "SELECT * FROM `app`.`users` WHERE `email` LIKE '%search%' ORDER BY `email` ASC LIMIT 200"
    );
}

#[test]
fn generates_keyset_first_and_followup_pages() {
    let target = SqlTarget::new(Some("app"), "events").expect("valid target");

    let first = keyset_first_page_sql(&target, "id", 200).expect("first-page sql");
    assert_eq!(
        first,
        "SELECT * FROM `app`.`events` ORDER BY `id` ASC LIMIT 200"
    );

    let next = keyset_page_sql(&target, "id", "250", PaginationDirection::Next, 200)
        .expect("next-page sql");
    assert_eq!(
        next,
        "SELECT * FROM `app`.`events` WHERE `id` > 250 ORDER BY `id` ASC LIMIT 200"
    );

    let previous = keyset_page_sql(&target, "id", "251", PaginationDirection::Previous, 200)
        .expect("previous-page sql");
    assert_eq!(
        previous,
        "SELECT * FROM (SELECT * FROM `app`.`events` WHERE `id` < 251 ORDER BY `id` DESC LIMIT 200) \
         AS page_window ORDER BY `id` ASC"
    );
}

#[test]
fn keyset_sql_quotes_non_numeric_boundaries() {
    let target = SqlTarget::new(Some("app"), "events").expect("valid target");

    let sql = keyset_page_sql(&target, "event_id", "a'b", PaginationDirection::Next, 100)
        .expect("next-page sql");
    assert_eq!(
        sql,
        "SELECT * FROM `app`.`events` WHERE `event_id` > 'a''b' ORDER BY `event_id` ASC LIMIT 100"
    );
}

#[test]
fn generates_offset_pagination_sql() {
    let target = SqlTarget::new(Some("app"), "events").expect("valid target");
    let sql = offset_page_sql(&target, 100, 300);
    assert_eq!(sql, "SELECT * FROM `app`.`events` LIMIT 100 OFFSET 300");
}

#[test]
fn target_rejects_blank_names() {
    assert_eq!(
        SqlTarget::new(Some("app"), "  ").unwrap_err(),
        SqlGenerationError::EmptyTableName
    );
    assert_eq!(
        SqlTarget::new(Some(" \t"), "users").unwrap_err(),
        SqlGenerationError::EmptyDatabaseName
    );
    let bare = SqlTarget::new(None, "users").expect("valid target");
    assert_eq!(preview_select_sql(&bare, 5), "SELECT * FROM `users` LIMIT 5");
}

#[test]
fn column_statements_reject_blank_columns() {
    let target = SqlTarget::new(Some("app"), "users").expect("valid target");
    assert_eq!(
        select_column_preview_sql(&target, " ", 10).unwrap_err(),
        SqlGenerationError::EmptyColumnName
    );
    assert_eq!(
        keyset_first_page_sql(&target, "", 10).unwrap_err(),
        SqlGenerationError::EmptyColumnName
    );
    assert_eq!(
        keyset_page_sql(&target, "\n", "1", PaginationDirection::Next, 10).unwrap_err(),
        SqlGenerationError::EmptyColumnName
    );
    assert_eq!(
        filtered_sorted_preview_sql(&target, "", 10).unwrap_err(),
        SqlGenerationError::EmptyColumnName
    );
}

#[test]
fn literals_keep_numbers_bare_and_quote_the_rest() {
    assert_eq!(quote_sql_literal(" 42 "), "42");
    assert_eq!(quote_sql_literal("-3.5e10"), "-3.5e10");
    assert_eq!(quote_sql_literal(".5"), ".5");
    assert_eq!(quote_sql_literal("7."), "7.");
    assert_eq!(quote_sql_literal("+inf"), "+inf");
    assert_eq!(quote_sql_literal("NaN"), "NaN");
    assert_eq!(quote_sql_literal("1e"), "'1e'");
    assert_eq!(quote_sql_literal("."), "'.'");
    assert_eq!(quote_sql_literal("12abc"), "'12abc'");
    assert_eq!(quote_sql_literal("it's"), "'it''s'");
    assert_eq!(quote_sql_literal(""), "''");
}
