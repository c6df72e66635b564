use myr::audit_trail::{unix_timestamp_millis, AuditOutcome, FileAuditTrail};
use myr::benchmark::{build_insert_batch_sql, next_value};
use myr::values::{format_date_value, format_time_value};
use myr::{adapter_name, domain_name, ui_name};

#[test]
fn domain_name_is_stable() {
    assert_eq!(domain_name(), "myr-core");
}

#[test]
fn adapter_name_is_stable() {
    assert_eq!(adapter_name(), "myr-adapters");
}

#[test]
fn ui_name_is_stable() {
    assert_eq!(ui_name(), "myr-tui");
}

#[test]
fn timestamp_uses_unix_epoch_millis() {
    assert!(unix_timestamp_millis() > 0);
}

#[test]
fn audit_outcomes_are_snake_case_and_trail_keeps_its_path() {
    assert_eq!(AuditOutcome::Succeeded.label(), "succeeded");
    assert_eq!(AuditOutcome::Blocked.label(), "blocked");
    assert_eq!(FileAuditTrail::from_path("/tmp/audit.ndjson").path(), "/tmp/audit.ndjson");
}

#[test]
fn build_insert_batch_sql_emits_expected_rows() {
    let sql = build_insert_batch_sql(1, 3);
    assert!(
        sql.starts_with("INSERT INTO events (user_id, category, payload, created_at) VALUES ")
    );
    assert!(sql.contains("(2, 'play', 'payload-1', NOW() - INTERVAL 1 SECOND)"));
    assert!(sql.contains("(3, 'pause', 'payload-2', NOW() - INTERVAL 2 SECOND)"));
    assert!(sql.contains("(4, 'skip', 'payload-3', NOW() - INTERVAL 3 SECOND)"));
}

#[test]
fn insert_batch_joins_rows_with_commas_and_wraps_ids() {
    let sql = build_insert_batch_sql(4999, 5000);
    assert_eq!(
        sql,
        "INSERT INTO events (user_id, category, payload, created_at) VALUES \
         (5000, 'share', 'payload-4999', NOW() - INTERVAL 4999 SECOND),\
         (1, 'search', 'payload-5000', NOW() - INTERVAL 5000 SECOND)"
    );
}

#[test]
fn next_value_reports_missing_flag_values() {
    let mut args = std::iter::empty::<String>();
    let err = next_value(args.next(), "--port").expect_err("missing value should fail");
    assert!(err.contains("missing value for `--port`"));
    assert_eq!(next_value(Some("7".to_string()), "--port"), Ok("7".to_string()));
}

#[test]
fn date_and_time_values_are_zero_padded() {
    assert_eq!(format_date_value(2024, 3, 7, 9, 5, 1, 42), "2024-03-07 09:05:01.000042");
    assert_eq!(format_time_value(true, 1, 2, 3, 4, 5), "-001 02:03:04.000005");
    assert_eq!(format_time_value(false, 1234, 23, 59, 59, 999999), "1234 23:59:59.999999");
}
