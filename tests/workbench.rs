use myr::query_runner::QueryRow;
use myr::results_buffer::ResultsRingBuffer;
use myr::workbench::{
    build_preview_pagination_state, candidate_key_column, connection_badge_and_marker,
    decide_query_failure, extract_key_bounds, finalize_pagination, find_results_match_index,
    is_connection_lost_error, is_transient_query_error, pagination_capabilities, pagination_sql,
    plan_page_transition, pulse_char, retry_connect_after_failure, spinner_char,
    suggest_limit_in_editor, ConnectIntent, FailureAction, PageTransition, PaginationError,
    PaginationPlan, Pane, SchemaLane, WizardField,
};
use myr::actions_engine::SchemaSelection;

fn selection(db: &str, table: &str) -> SchemaSelection {
    SchemaSelection {
        database: Some(db.to_string()),
        table: Some(table.to_string()),
        column: None,
    }
}

fn strings(items: &[&str]) -> Vec<String> {
    items.iter().map(|s| s.to_string()).collect()
}

#[test]
fn pane_cycles_in_expected_order() {
    assert_eq!(Pane::ConnectionWizard.next(), Pane::SchemaExplorer);
    assert_eq!(Pane::SchemaExplorer.next(), Pane::Results);
    assert_eq!(Pane::Results.next(), Pane::QueryEditor);
    assert_eq!(Pane::QueryEditor.next(), Pane::SchemaExplorer);
}

#[test]
fn lanes_and_fields_cycle_both_ways() {
    assert_eq!(SchemaLane::Tables.next(), SchemaLane::Columns);
    assert_eq!(SchemaLane::Databases.previous(), SchemaLane::Columns);
    assert_eq!(SchemaLane::Columns.label(), "Columns");
    assert_eq!(WizardField::Database.next(), WizardField::ProfileName);
    assert_eq!(WizardField::ProfileName.previous(), WizardField::Database);
    assert_eq!(WizardField::Port.label(), "Port");
}

#[test]
fn connection_badges_reflect_state() {
    assert_eq!(connection_badge_and_marker("CONNECTED", 0).0, "[+]");
    assert_eq!(connection_badge_and_marker("CONNECTING", 0).0, "[~]");
    assert_eq!(connection_badge_and_marker("RECONNECTING", 0).0, "[~]");
    assert_eq!(connection_badge_and_marker("DISCONNECTED", 0).0, "[x]");
}

#[test]
fn badge_markers_animate_with_the_tick() {
    assert_eq!(spinner_char(0), '|');
    assert_eq!(spinner_char(5), '/');
    assert_eq!(pulse_char(2), 'O');
    assert_eq!(connection_badge_and_marker("CONNECTED", 1).1, 'o');
    assert_eq!(connection_badge_and_marker("CONNECTING", 3).1, '\\');
    assert_eq!(connection_badge_and_marker("DISCONNECTED", 1).1, ' ');
    assert_eq!(connection_badge_and_marker("DISCONNECTED", 2).1, '-');
}

#[test]
fn query_error_classification_detects_transient_and_disconnect_signals() {
    assert!(is_transient_query_error("query timed out after 20s"));
    assert!(is_transient_query_error("Connection reset by peer"));
    assert!(is_connection_lost_error("Pool was disconnected"));
    assert!(is_connection_lost_error("server has gone away"));
    assert!(!is_connection_lost_error("syntax error near `FROM`"));
}

#[test]
fn classification_sets_differ_where_they_should() {
    assert!(is_transient_query_error("I/O ERROR while reading"));
    assert!(!is_connection_lost_error("I/O ERROR while reading"));
    assert!(is_connection_lost_error("client is NOT CONNECTED"));
    assert!(!is_transient_query_error("client is NOT CONNECTED"));
    assert!(!is_transient_query_error(""));
}

#[test]
fn limit_suggestion_is_applied_in_editor_helper() {
    let suggested = suggest_limit_in_editor("SELECT * FROM users");
    assert_eq!(suggested, Some("SELECT * FROM users LIMIT 200".to_string()));
}

#[test]
fn key_column_candidate_prefers_id_then_suffix() {
    let columns = vec![
        "created_at".to_string(),
        "id".to_string(),
        "account_id".to_string(),
    ];
    assert_eq!(candidate_key_column(&columns), Some("id".to_string()));

    let columns = vec!["created_at".to_string(), "account_id".to_string()];
    assert_eq!(
        candidate_key_column(&columns),
        Some("account_id".to_string())
    );
}

#[test]
fn key_column_matching_ignores_case() {
    assert_eq!(candidate_key_column(&strings(&["name", "ID"])), Some("ID".to_string()));
    assert_eq!(candidate_key_column(&strings(&["Owner_ID", "x"])), Some("Owner_ID".to_string()));
    assert_eq!(candidate_key_column(&strings(&["name", "created_at"])), None);
}

#[test]
fn key_bounds_are_extracted_from_first_and_last_rows() {
    let mut results = ResultsRingBuffer::new(10);
    results.push(QueryRow::new(vec!["10".to_string(), "a".to_string()]));
    results.push(QueryRow::new(vec!["11".to_string(), "b".to_string()]));
    results.push(QueryRow::new(vec!["12".to_string(), "c".to_string()]));

    let columns = vec!["id".to_string(), "payload".to_string()];
    let bounds = extract_key_bounds(&results, &columns, "id");
    assert_eq!(bounds, (Some("10".to_string()), Some("12".to_string())));
}

#[test]
fn key_bounds_are_absent_without_the_key_column_or_rows() {
    let mut results = ResultsRingBuffer::new(4);
    let columns = strings(&["id"]);
    assert_eq!(extract_key_bounds(&results, &columns, "id"), (None, None));
    results.push(QueryRow::new(strings(&["1"])));
    assert_eq!(extract_key_bounds(&results, &columns, "uuid"), (None, None));
}

#[test]
fn keyset_pagination_walks_forward_and_back() {
    let columns = strings(&["id", "payload"]);
    let mut state = build_preview_pagination_state(&selection("app", "events"), &columns)
        .expect("table selected");
    assert!(matches!(state.plan, PaginationPlan::Keyset { .. }));
    assert_eq!(
        pagination_sql(&state, PageTransition::Reset).unwrap(),
        "SELECT * FROM `app`.`events` ORDER BY `id` ASC LIMIT 200"
    );
    finalize_pagination(
        &mut state,
        PageTransition::Reset,
        200,
        (Some("1".to_string()), Some("200".to_string())),
    );
    assert_eq!(pagination_capabilities(&Some(state.clone()), true), (true, true, false));
    assert_eq!(
        plan_page_transition(&state, PageTransition::Next).unwrap(),
        "SELECT * FROM `app`.`events` WHERE `id` > 200 ORDER BY `id` ASC LIMIT 200"
    );
    finalize_pagination(
        &mut state,
        PageTransition::Next,
        200,
        (Some("201".to_string()), Some("400".to_string())),
    );
    assert_eq!(state.page_index, 1);
    assert_eq!(
        plan_page_transition(&state, PageTransition::Previous).unwrap(),
        "SELECT * FROM (SELECT * FROM `app`.`events` WHERE `id` < 201 ORDER BY `id` DESC LIMIT 200) AS page_window ORDER BY `id` ASC"
    );
}

#[test]
fn offset_pagination_falls_back_without_key_column() {
    let columns = strings(&["name", "created_at"]);
    let mut state = build_preview_pagination_state(&selection("app", "events"), &columns)
        .expect("table selected");
    assert_eq!(state.plan, PaginationPlan::Offset);
    assert_eq!(
        pagination_sql(&state, PageTransition::Reset).unwrap(),
        "SELECT * FROM `app`.`events` LIMIT 200 OFFSET 0"
    );
    assert_eq!(
        plan_page_transition(&state, PageTransition::Next).unwrap(),
        "SELECT * FROM `app`.`events` LIMIT 200 OFFSET 200"
    );
    finalize_pagination(&mut state, PageTransition::Next, 200, (None, None));
    assert_eq!(
        plan_page_transition(&state, PageTransition::Next).unwrap(),
        "SELECT * FROM `app`.`events` LIMIT 200 OFFSET 400"
    );
}

#[test]
fn first_page_refuses_previous_and_empty_pages_do_not_advance() {
    let columns = strings(&["name"]);
    let mut state = build_preview_pagination_state(&selection("app", "t"), &columns).unwrap();
    assert_eq!(
        plan_page_transition(&state, PageTransition::Previous),
        Err(PaginationError::AlreadyAtFirstPage)
    );
    finalize_pagination(&mut state, PageTransition::Next, 0, (None, None));
    assert_eq!(state.page_index, 0);
    finalize_pagination(&mut state, PageTransition::Next, 3, (None, None));
    assert_eq!(state.page_index, 1);
    assert_eq!(pagination_capabilities(&Some(state), true), (true, false, true));
    assert_eq!(pagination_capabilities(&None, true), (false, false, false));
    assert!(build_preview_pagination_state(&SchemaSelection::default(), &columns).is_none());
}

#[test]
fn keyset_without_boundary_is_refused() {
    let columns = strings(&["id"]);
    let state = build_preview_pagination_state(&selection("app", "t"), &columns).unwrap();
    assert_eq!(
        pagination_sql(&state, PageTransition::Next),
        Err(PaginationError::MissingNextBoundary)
    );
}

fn rows(values: &[&str]) -> ResultsRingBuffer<QueryRow> {
    let mut buffer = ResultsRingBuffer::new(50);
    for v in values {
        buffer.push(QueryRow::new(vec![v.to_string(), "x".to_string()]));
    }
    buffer
}

#[test]
fn search_wraps_around_from_the_start_index() {
    let buffer = rows(&["VALUE", "a", "b", "val2", "c"]);
    assert_eq!(find_results_match_index(&buffer, "val", 0), Some(0));
    assert_eq!(find_results_match_index(&buffer, "val", 1), Some(3));
    assert_eq!(find_results_match_index(&buffer, "val", 4), Some(0));
    assert_eq!(find_results_match_index(&buffer, "zzz", 2), None);
    assert_eq!(find_results_match_index(&rows(&[]), "a", 0), None);
}

#[test]
fn query_failures_retry_then_reconnect_then_give_up() {
    let sql = Some("SELECT 1".to_string());
    assert_eq!(
        decide_query_failure("connection reset by peer", false, 0, 0, sql.clone(), true),
        FailureAction::RetryQuery("SELECT 1".to_string())
    );
    assert_eq!(
        decide_query_failure("connection reset by peer", false, 1, 0, sql.clone(), true),
        FailureAction::Reconnect(Some("SELECT 1".to_string()))
    );
    assert_eq!(
        decide_query_failure("connection reset by peer", false, 1, 0, sql.clone(), false),
        FailureAction::ShowError
    );
    assert_eq!(
        decide_query_failure("Pool was disconnected", false, 1, 2, sql.clone(), true),
        FailureAction::ShowError
    );
    assert_eq!(
        decide_query_failure("not connected", false, 0, 0, None, true),
        FailureAction::Reconnect(None)
    );
    assert_eq!(
        decide_query_failure("timeout", true, 0, 0, sql, true),
        FailureAction::ShowError
    );
    assert!(retry_connect_after_failure(ConnectIntent::AutoReconnect, 1, true));
    assert!(!retry_connect_after_failure(ConnectIntent::AutoReconnect, 2, true));
    assert!(!retry_connect_after_failure(ConnectIntent::Manual, 0, true));
}
