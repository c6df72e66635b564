use myr::actions_engine::{
    suggest_preview_limit, ActionContext, ActionEngineError, ActionId, ActionInvocation,
    ActionsEngine, AppView, CopyTarget, ExportFormat, SchemaSelection,
};
use myr::sql_generator::SqlGenerationError;

fn schema_context() -> ActionContext {
    ActionContext {
        view: AppView::SchemaExplorer,
        selection: SchemaSelection {
            database: Some("app".to_string()),
            table: Some("users".to_string()),
            column: None,
        },
        query_text: None,
        query_running: false,
        has_results: false,
        pagination_enabled: false,
        can_page_next: false,
        can_page_previous: false,
    }
}

#[test]
fn registry_lists_actions_and_preview_is_invokable() {
    let mut engine = ActionsEngine::new();
    let all_actions = engine.registry().all();
    assert!(!all_actions.is_empty());
    assert!(all_actions
        .iter()
        .any(|action| action.id == ActionId::PreviewTable));

    let invocation = engine
        .invoke(ActionId::PreviewTable, &schema_context())
        .expect("preview action should be invokable");
    assert_eq!(
        invocation,
        ActionInvocation::RunSql("SELECT * FROM `app`.`users` LIMIT 200".to_string())
    );
}

#[test]
fn ranking_prioritizes_contextual_actions() {
    let engine = ActionsEngine::new();
    let ranked = engine.rank_top_n(&schema_context(), 5);
    assert_eq!(
        ranked.first().map(|action| action.id),
        Some(ActionId::PreviewTable)
    );
}

#[test]
fn query_context_surfaces_limit_suggestion() {
    let context = ActionContext::default()
        .with_view(AppView::QueryEditor)
        .with_query("SELECT * FROM users");
    let engine = ActionsEngine::new();
    let ranked = engine.rank_top_n(&context, 3);

    assert!(ranked
        .iter()
        .any(|action| action.id == ActionId::ApplyLimit200));
}

#[test]
fn apply_limit_action_rewrites_query_without_running_it() {
    let mut engine = ActionsEngine::new();
    let context = ActionContext::default()
        .with_view(AppView::QueryEditor)
        .with_query("SELECT * FROM users");

    let invocation = engine
        .invoke(ActionId::ApplyLimit200, &context)
        .expect("limit suggestion should be invokable");
    assert_eq!(
        invocation,
        ActionInvocation::ReplaceQueryEditorText("SELECT * FROM users LIMIT 200".to_string())
    );
}

#[test]
fn suggest_preview_limit_only_for_select_without_limit() {
    assert_eq!(
        suggest_preview_limit("SELECT * FROM users", 200),
        Some("SELECT * FROM users LIMIT 200".to_string())
    );
    assert_eq!(
        suggest_preview_limit("SELECT * FROM users LIMIT 20", 200),
        None
    );
    assert_eq!(suggest_preview_limit("DELETE FROM users", 200), None);
}

#[test]
fn pagination_actions_are_available_in_results_context() {
    let mut engine = ActionsEngine::new();
    let context = ActionContext {
        view: AppView::Results,
        selection: SchemaSelection {
            database: Some("app".to_string()),
            table: Some("events".to_string()),
            column: Some("id".to_string()),
        },
        query_text: Some("SELECT * FROM `app`.`events` LIMIT 200".to_string()),
        query_running: false,
        has_results: true,
        pagination_enabled: true,
        can_page_next: true,
        can_page_previous: true,
    };

    let next = engine
        .invoke(ActionId::NextPage, &context)
        .expect("next page should be enabled");
    assert_eq!(next, ActionInvocation::PaginateNext);

    let previous = engine
        .invoke(ActionId::PreviousPage, &context)
        .expect("previous page should be enabled");
    assert_eq!(previous, ActionInvocation::PaginatePrevious);
}

#[test]
fn limit_suggestion_strips_one_semicolon_and_respects_word_boundaries() {
    assert_eq!(
        suggest_preview_limit("  select a from t;  ", 50),
        Some("select a from t LIMIT 50".to_string())
    );
    assert_eq!(
        suggest_preview_limit("SELECT unlimited FROM t", 10),
        Some("SELECT unlimited FROM t LIMIT 10".to_string())
    );
    assert_eq!(suggest_preview_limit("SELECT x FROM t limit 5", 10), None);
    assert_eq!(suggest_preview_limit("SELECT x FROM t WHERE (limit)", 10), None);
    assert_eq!(suggest_preview_limit(" ; ", 10), None);
    assert_eq!(suggest_preview_limit("", 10), None);
    assert_eq!(suggest_preview_limit("SELECTED FROM t", 10), None);
}

#[test]
fn disabled_actions_are_refused() {
    let mut engine = ActionsEngine::new();
    let context = ActionContext::default();
    assert_eq!(
        engine.invoke(ActionId::CancelRunningQuery, &context),
        Err(ActionEngineError::ActionDisabled(ActionId::CancelRunningQuery))
    );
    assert_eq!(
        engine.invoke(ActionId::RunCurrentQuery, &context.clone().with_query("   ")),
        Err(ActionEngineError::ActionDisabled(ActionId::RunCurrentQuery))
    );
}

#[test]
fn blank_selection_surfaces_generation_errors() {
    let mut engine = ActionsEngine::new();
    let mut context = schema_context();
    context.selection.table = Some("  ".to_string());
    assert_eq!(
        engine.invoke(ActionId::DescribeTable, &context),
        Err(ActionEngineError::SqlGeneration(SqlGenerationError::EmptyTableName))
    );
}

#[test]
fn invocations_map_to_interface_intents() {
    let mut engine = ActionsEngine::new();
    let mut context = schema_context();
    context.has_results = true;
    context.selection.column = Some("email".to_string());
    assert_eq!(
        engine.invoke(ActionId::CountEstimate, &context),
        Ok(ActionInvocation::RunSql(
            "SELECT TABLE_ROWS AS estimated_rows FROM information_schema.TABLES WHERE TABLE_SCHEMA = 'app' AND TABLE_NAME = 'users'".to_string()
        ))
    );
    assert_eq!(
        engine.invoke(ActionId::ShowIndexes, &context),
        Ok(ActionInvocation::RunSql("SHOW INDEX FROM `app`.`users`".to_string()))
    );
    assert_eq!(
        engine.invoke(ActionId::ExportJson, &context),
        Ok(ActionInvocation::ExportResults(ExportFormat::Json))
    );
    assert_eq!(
        engine.invoke(ActionId::CopyCell, &context),
        Ok(ActionInvocation::CopyToClipboard(CopyTarget::Cell))
    );
    assert_eq!(
        engine.invoke(ActionId::FocusQueryEditor, &context),
        Ok(ActionInvocation::OpenView(AppView::QueryEditor))
    );
    let run = context.clone().with_view(AppView::QueryEditor).with_query("  SELECT 1  ");
    assert_eq!(
        engine.invoke(ActionId::RunCurrentQuery, &run),
        Ok(ActionInvocation::RunSql("SELECT 1".to_string()))
    );
}

#[test]
fn ranking_orders_by_score_then_title_and_rewards_recent_use() {
    let mut engine = ActionsEngine::new();
    let mut context = schema_context();
    context.has_results = true;
    let ranked = engine.rank_top_n(&context, 16);
    let ids: Vec<ActionId> = ranked.iter().map(|a| a.id).collect();
    assert_eq!(
        ids,
        vec![
            ActionId::PreviewTable,
            ActionId::DescribeTable,
            ActionId::ShowIndexes,
            ActionId::ShowCreateTable,
            ActionId::CountEstimate,
            ActionId::ExportCsv,
            ActionId::ExportJson,
            ActionId::CopyRow,
            ActionId::SearchResults,
            ActionId::FocusQueryEditor,
        ]
    );
    assert_eq!(ranked[5].score, 640);
    engine.invoke(ActionId::ExportJson, &context).expect("enabled");
    let ranked = engine.rank_top_n(&context, 2);
    assert_eq!(ranked.len(), 2);
    let again = engine.rank_top_n(&context, 16);
    let json = again.iter().find(|a| a.id == ActionId::ExportJson).expect("listed");
    assert_eq!(json.score, 665);
    assert_eq!(again[5].id, ActionId::ExportJson);
}
