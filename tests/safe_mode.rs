use myr::safe_mode::{
    assess_sql_safety, fingerprint_sql, split_statements, GuardDecision, SafeModeError,
    SafeModeGuard, SqlRiskReason,
};

#[test]
fn select_without_side_effects_is_safe() {
    let assessment = assess_sql_safety("SELECT * FROM users");
    assert!(assessment.is_safe_read_only());
    assert!(assessment.reasons.is_empty());
    assert_eq!(assessment.primary_keyword.as_deref(), Some("SELECT"));
}

#[test]
fn destructive_statement_requires_confirmation_when_safe_mode_enabled() {
    let mut guard = SafeModeGuard::new(true);
    let decision = guard.evaluate("DELETE FROM users");

    match decision {
        GuardDecision::Allow { .. } => panic!("delete should not be auto-allowed"),
        GuardDecision::RequireConfirmation { assessment, .. } => {
            assert!(assessment
                .reasons
                .contains(&SqlRiskReason::WriteOperation("DELETE".to_string())));
        }
    }
}

#[test]
fn dangerous_statement_is_allowed_when_safe_mode_disabled() {
    let mut guard = SafeModeGuard::new(false);
    let decision = guard.evaluate("DROP TABLE users");

    assert!(matches!(decision, GuardDecision::Allow { .. }));
}

#[test]
fn multi_statement_sql_is_marked_risky() {
    let assessment = assess_sql_safety("SELECT 1; DELETE FROM users");
    assert!(assessment.reasons.contains(&SqlRiskReason::MultiStatement));
}

#[test]
fn ignores_comments_when_classifying_sql() {
    let assessment = assess_sql_safety(
        r#"
            -- user lookup
            /* safe read */
            SELECT * FROM users;
            "#,
    );
    assert!(assessment.is_safe_read_only());
}

#[test]
fn confirmation_requires_matching_sql_and_token_is_single_use() {
    let mut guard = SafeModeGuard::new(true);
    let decision = guard.evaluate("UPDATE users SET admin = 1");
    let token = match decision {
        GuardDecision::RequireConfirmation { token, .. } => token,
        GuardDecision::Allow { .. } => panic!("update should require confirmation"),
    };

    guard
        .confirm(&token, "UPDATE users SET admin = 1")
        .expect("matching sql should confirm");

    let err = guard
        .confirm(&token, "UPDATE users SET admin = 1")
        .expect_err("token should be single use");
    assert_eq!(err, SafeModeError::InvalidToken);
}

#[test]
fn confirmation_fails_when_sql_does_not_match_token() {
    let mut guard = SafeModeGuard::new(true);
    let decision = guard.evaluate("DELETE FROM users WHERE id = 1");
    let token = match decision {
        GuardDecision::RequireConfirmation { token, .. } => token,
        GuardDecision::Allow { .. } => panic!("delete should require confirmation"),
    };

    let err = guard
        .confirm(&token, "DELETE FROM users WHERE id = 2")
        .expect_err("different statement should fail");
    assert_eq!(err, SafeModeError::SqlMismatch);
}

#[test]
fn safe_mode_blocks_delete_then_token_is_spent() {
    let mut guard = SafeModeGuard::new(true);
    let token = match guard.evaluate("DELETE FROM users") {
        GuardDecision::RequireConfirmation { token, assessment } => {
            assert_eq!(
                assessment.reasons,
                vec![SqlRiskReason::WriteOperation("DELETE".to_string())]
            );
            token
        }
        GuardDecision::Allow { .. } => panic!("delete must need confirmation"),
    };
    assert!(token.as_str().starts_with("confirm-1-"));
    assert_eq!(token.as_str().len(), "confirm-1-".len() + 16);
    assert_eq!(guard.confirm(&token, "DELETE FROM users"), Ok(()));
    assert_eq!(
        guard.confirm(&token, "DELETE FROM users"),
        Err(SafeModeError::InvalidToken)
    );
}

#[test]
fn mismatched_confirmation_is_refused_and_token_spent() {
    let mut guard = SafeModeGuard::new(true);
    let token = match guard.evaluate("DELETE FROM users WHERE id=1") {
        GuardDecision::RequireConfirmation { token, .. } => token,
        GuardDecision::Allow { .. } => panic!("delete must need confirmation"),
    };
    assert_eq!(
        guard.confirm(&token, "DELETE FROM users WHERE id=2"),
        Err(SafeModeError::SqlMismatch)
    );
    assert_eq!(
        guard.confirm(&token, "DELETE FROM users WHERE id=1"),
        Err(SafeModeError::InvalidToken)
    );
}

#[test]
fn disabling_the_guard_forgets_pending_tokens() {
    let mut guard = SafeModeGuard::new(true);
    let token = match guard.evaluate("TRUNCATE logs") {
        GuardDecision::RequireConfirmation { token, .. } => token,
        GuardDecision::Allow { .. } => panic!("ddl must need confirmation"),
    };
    guard.set_enabled(false);
    assert!(!guard.is_enabled());
    assert_eq!(guard.confirm(&token, "TRUNCATE logs"), Err(SafeModeError::InvalidToken));
}

#[test]
fn statements_split_outside_quotes_and_comments() {
    let parts = split_statements("select 'a;b'; # note;\n update t set x=\"q;\" ; /* c; */ ;  ");
    assert_eq!(parts, vec!["select 'a;b'".to_string(), "update t set x=\"q;\"".to_string()]);
    let assessment = assess_sql_safety("select 1 ;  select `x;y`");
    assert_eq!(assessment.statement_count, 2);
    assert_eq!(assessment.normalized_sql, "select 1; select `x;y`");
    assert_eq!(
        assessment.reasons,
        vec![SqlRiskReason::MultiStatement]
    );
}

#[test]
fn every_keyword_family_is_classified() {
    let assessment =
        assess_sql_safety("create table t (x int); begin; set x = 1; vacuum; insert into t values (1)");
    assert_eq!(assessment.primary_keyword.as_deref(), Some("CREATE"));
    assert_eq!(
        assessment.reasons,
        vec![
            SqlRiskReason::MultiStatement,
            SqlRiskReason::DdlOperation("CREATE".to_string()),
            SqlRiskReason::TransactionControl("BEGIN".to_string()),
            SqlRiskReason::SessionMutation("SET".to_string()),
            SqlRiskReason::UnknownStatement("VACUUM".to_string()),
            SqlRiskReason::WriteOperation("INSERT".to_string()),
        ]
    );
    let empty = assess_sql_safety("  -- nothing\n");
    assert_eq!(empty.statement_count, 0);
    assert_eq!(empty.primary_keyword, None);
    assert!(empty.is_safe_read_only());
}

#[test]
fn fingerprint_is_fnv1a_over_code_points() {
    assert_eq!(fingerprint_sql(""), 0xcbf2_9ce4_8422_2325);
    assert_eq!(fingerprint_sql("a"), 0xaf63_dc4c_8601_ec8c);
    assert_ne!(fingerprint_sql("DELETE FROM users"), fingerprint_sql("DELETE FROM user"));
}
