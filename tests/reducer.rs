use myr::profiles::ConnectionProfile;
use myr::query_runner::QueryRow;
use myr::reducer::{
    parse_port_number, ConnectOutcome, Effect, ErrorKind, Msg, QueryOutcome, Workbench,
};
use myr::results_buffer::ResultsRingBuffer;
use myr::workbench::{ConnectIntent, Pane};

fn connected() -> Workbench {
    let mut app = Workbench::new();
    let mut profile = ConnectionProfile::new("local", "127.0.0.1", "root");
    profile.database = Some("app".to_string());
    let effects = app.on_connect_finished(ConnectOutcome::Success {
        profile,
        latency_ms: 3,
        databases: vec!["app".to_string()],
        warning: None,
    });
    assert!(matches!(effects.as_slice(), [Effect::LoadTables(db)] if db == "app"));
    app
}

fn buffer(values: &[&str]) -> ResultsRingBuffer<QueryRow> {
    let mut buffer = ResultsRingBuffer::new(100);
    for v in values {
        buffer.push(QueryRow::new(vec![v.to_string()]));
    }
    buffer
}

#[test]
fn port_field_parses_like_an_unsigned_integer() {
    assert_eq!(parse_port_number("3306"), Some(3306));
    assert_eq!(parse_port_number("+80"), Some(80));
    assert_eq!(parse_port_number("65535"), Some(65535));
    assert_eq!(parse_port_number("65536"), None);
    assert_eq!(parse_port_number(""), None);
    assert_eq!(parse_port_number("33a"), None);
    assert_eq!(parse_port_number("+"), None);
}

#[test]
fn connect_from_wizard_rejects_invalid_port() {
    let mut app = Workbench::new();
    app.wizard_form.port = "not-a-port".to_string();
    let effects = app.handle(Msg::Connect);
    assert!(effects.is_empty());
    assert_eq!(app.status_line, "Invalid port in connection wizard");
}

#[test]
fn connect_message_requests_a_connection() {
    let mut app = Workbench::new();
    let effects = app.handle(Msg::Connect);
    match effects.as_slice() {
        [Effect::StartConnect(profile, ConnectIntent::Manual)] => {
            assert_eq!(profile.name, "local-dev");
            assert_eq!(profile.port, 3306);
            assert_eq!(profile.database.as_deref(), Some("app"));
        }
        other => panic!("unexpected effects {other:?}"),
    }
    assert!(app.connect_requested);
    assert_eq!(app.connection_state_label(), "CONNECTING");
}

#[test]
fn preview_table_runs_a_keyset_page() {
    let mut app = connected();
    let effects = app.on_tables_loaded("app", vec!["events".to_string()]);
    assert!(matches!(effects.as_slice(), [Effect::LoadColumns(db, t)] if db == "app" && t == "events"));
    app.on_columns_loaded("app", "events", vec!["id".to_string(), "kind".to_string()]);
    assert_eq!(app.pane, Pane::SchemaExplorer);
    let effects = app.handle(Msg::InvokeActionSlot(0));
    assert_eq!(
        effects,
        vec![Effect::StartQuery(
            "SELECT * FROM `app`.`events` ORDER BY `id` ASC LIMIT 200".to_string()
        )]
    );
    assert!(app.query_running);
    assert_eq!(app.pane, Pane::Results);
}

#[test]
fn query_failure_retries_once_when_transient() {
    let mut app = Workbench::new();
    app.pane = Pane::QueryEditor;
    app.query_editor_text = "SELECT * FROM users".to_string();
    let effects = app.handle(Msg::Submit);
    assert_eq!(effects, vec![Effect::StartQuery("SELECT * FROM users".to_string())]);

    let effects = app.on_query_finished(QueryOutcome::Failure("connection reset by peer".to_string()));
    assert_eq!(effects, vec![Effect::StartQuery("SELECT * FROM users".to_string())]);
    assert_eq!(app.query_retry_attempts, 1);
    assert!(app.status_line.contains("retrying"));

    let effects = app.on_query_finished(QueryOutcome::Failure("connection reset by peer".to_string()));
    assert!(effects.is_empty());
    let panel = app.error_panel.as_ref().expect("error panel");
    assert_eq!(panel.kind, ErrorKind::Query);
    assert_eq!(panel.detail, "connection reset by peer");
    assert_eq!(app.query_retry_attempts, 0);
    assert_eq!(app.last_failed_query.as_deref(), Some("SELECT * FROM users"));
}

#[test]
fn query_failure_starts_auto_reconnect_when_connection_is_lost() {
    let mut app = connected();
    app.pane = Pane::QueryEditor;
    app.query_editor_text = "SELECT 1".to_string();
    let effects = app.handle(Msg::Submit);
    assert_eq!(effects, vec![Effect::StartQuery("SELECT 1".to_string())]);
    app.query_retry_attempts = 1;

    let effects = app.on_query_finished(QueryOutcome::Failure("Pool was disconnected".to_string()));
    assert!(matches!(effects.as_slice(), [Effect::StartConnect(_, ConnectIntent::AutoReconnect)]));
    assert_eq!(app.pending_retry_query.as_deref(), Some("SELECT 1"));
    assert_eq!(app.reconnect_attempts, 1);
    assert_eq!(app.connection_state_label(), "RECONNECTING");

    let mut profile = ConnectionProfile::new("local", "127.0.0.1", "root");
    profile.database = Some("app".to_string());
    let effects = app.on_connect_finished(ConnectOutcome::Success {
        profile,
        latency_ms: 1,
        databases: vec!["app".to_string()],
        warning: None,
    });
    assert_eq!(effects.last(), Some(&Effect::StartQuery("SELECT 1".to_string())));
    assert!(app.query_running);
    assert!(app.pending_retry_query.is_none());
}

#[test]
fn exhausted_reconnects_open_the_connection_error_panel() {
    let mut app = connected();
    app.connect_requested = true;
    app.connect_intent = ConnectIntent::AutoReconnect;
    app.reconnect_attempts = 2;
    let effects = app.on_connect_finished(ConnectOutcome::Failure("refused".to_string()));
    assert!(effects.is_empty());
    let panel = app.error_panel.as_ref().expect("panel");
    assert_eq!(panel.kind, ErrorKind::Connection);
    assert_eq!(panel.detail, "refused");
    assert_eq!(app.reconnect_attempts, 0);
}

#[test]
fn results_search_mode_finds_and_cycles_matches() {
    let mut app = Workbench::new();
    let mut values = vec!["the val"];
    values.extend(std::iter::repeat("other").take(14));
    values[12] = "VAL again";
    let effects = app.on_query_finished(QueryOutcome::Success {
        results: buffer(&values),
        rows_streamed: 15,
        was_cancelled: false,
        elapsed_ms: 2,
    });
    assert!(effects.is_empty());
    assert!(app.has_results);
    app.pane = Pane::Results;
    app.results_cursor = 10;
    app.invoke_action(myr::actions_engine::ActionId::SearchResults);
    assert!(app.results_search_mode);
    for ch in "val".chars() {
        app.handle(Msg::InputChar(ch));
    }
    assert_eq!(app.results_cursor, 0);
    assert!(app.status_line.starts_with("Search matched row 1 / 15"));
    app.handle(Msg::Submit);
    assert_eq!(app.results_cursor, 12);
    app.handle(Msg::Submit);
    assert_eq!(app.results_cursor, 0);
    app.handle(Msg::TogglePalette);
    assert!(!app.results_search_mode);
}

#[test]
fn ctrl_c_path_can_confirm_exit_when_no_query_is_running() {
    let mut app = Workbench::new();
    app.handle(Msg::CancelQuery);
    assert!(app.exit_confirmation);
    assert!(!app.should_quit);
    app.handle(Msg::Tick);
    assert!(app.exit_confirmation);
    app.handle(Msg::CancelQuery);
    assert!(app.should_quit);
}

#[test]
fn esc_path_cancels_exit_confirmation() {
    let mut app = Workbench::new();
    app.handle(Msg::CancelQuery);
    app.handle(Msg::TogglePalette);
    assert!(!app.exit_confirmation);
    assert!(!app.show_palette);
    app.handle(Msg::CancelQuery);
    app.handle(Msg::NextPane);
    assert!(!app.exit_confirmation);
    assert_eq!(app.pane, Pane::ConnectionWizard);
}

#[test]
fn error_panel_primary_action_retries_last_failed_query() {
    let mut app = Workbench::new();
    app.pane = Pane::QueryEditor;
    app.query_editor_text = "SELECT 2".to_string();
    app.handle(Msg::Submit);
    app.on_query_finished(QueryOutcome::Failure("syntax error".to_string()));
    assert!(app.error_panel.is_some());
    let pane = app.pane;
    assert!(app.handle(Msg::NextPane).is_empty());
    assert_eq!(app.pane, pane);
    assert!(app.error_panel.is_some());
    let effects = app.handle(Msg::Submit);
    assert_eq!(effects, vec![Effect::StartQuery("SELECT 2".to_string())]);
    assert!(app.error_panel.is_none());
}

#[test]
fn destructive_submit_requires_confirmation_then_executes() {
    let mut app = Workbench::new();
    app.pane = Pane::QueryEditor;
    app.query_editor_text = "DELETE FROM users".to_string();
    let effects = app.handle(Msg::Submit);
    assert!(effects.is_empty());
    assert!(app.pending_confirmation.is_some());
    assert_eq!(app.pane, Pane::QueryEditor);
    let effects = app.handle(Msg::Submit);
    assert_eq!(effects, vec![Effect::StartQuery("DELETE FROM users".to_string())]);
    assert!(app.pending_confirmation.is_none());
}

#[test]
fn pane_switch_triggers_tab_flash_animation() {
    let mut app = Workbench::new();
    app.pane = Pane::SchemaExplorer;
    app.handle(Msg::NextPane);
    assert_eq!(app.pane, Pane::Results);
    assert_eq!(app.pane_tab_index(), 2);
    let before = app.pane_flash_ticks;
    assert!(before > 0);
    app.handle(Msg::Tick);
    assert!(app.pane_flash_ticks < before);
    assert_eq!(app.runtime_state_label(), "IDLE");
}

#[test]
fn previous_page_from_the_first_page_is_refused() {
    let mut app = connected();
    app.on_tables_loaded("app", vec!["events".to_string()]);
    app.on_columns_loaded("app", "events", vec!["name".to_string()]);
    let effects = app.handle(Msg::InvokeActionSlot(0));
    assert_eq!(
        effects,
        vec![Effect::StartQuery("SELECT * FROM `app`.`events` LIMIT 200 OFFSET 0".to_string())]
    );
    app.on_query_finished(QueryOutcome::Success {
        results: buffer(&["a", "b"]),
        rows_streamed: 2,
        was_cancelled: false,
        elapsed_ms: 1,
    });
    let state = app.pagination_state.clone().expect("paging");
    assert_eq!(state.page_index, 0);
    assert_eq!(state.last_page_row_count, 2);
    app.invoke_action(myr::actions_engine::ActionId::PreviousPage);
    assert!(!app.query_running);
    assert_eq!(app.pagination_state, Some(state));
}

#[test]
fn disabled_actions_leave_the_state_alone() {
    let mut app = Workbench::new();
    let effects = app.invoke_action(myr::actions_engine::ActionId::CancelRunningQuery);
    assert!(effects.is_empty());
    assert!(app.status_line.starts_with("Action error"));
}

#[test]
fn palette_lists_enabled_actions_matching_the_query() {
    let mut app = Workbench::new();
    app.handle(Msg::TogglePalette);
    assert!(app.show_palette);
    for ch in "query".chars() {
        app.handle(Msg::InputChar(ch));
    }
    assert_eq!(app.palette_entries(), vec![myr::actions_engine::ActionId::FocusQueryEditor]);
}
