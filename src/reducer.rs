use vstd::prelude::*;

use crate::actions_engine::{
    ActionContext, ActionEngineError, ActionId, ActionInvocation, ActionsEngine, AppView,
    CopyTarget, ExportFormat, SchemaSelection,
};
use crate::profiles::{same_profile, ConnectionProfile};
use crate::query_runner::QueryRow;
use crate::results_buffer::ResultsRingBuffer;
use crate::safe_mode::{ConfirmationToken, GuardDecision, SafeModeGuard};
use crate::sql_generator::quote_identifier;
use crate::text::{chars_of, copy_str, is_blank, is_blank_str, push_all, push_decimal, string_of};
use crate::workbench::{
    is_connection_lost, is_transient, page_index_after,
    build_preview_pagination_state, decide_query_failure, extract_key_bounds,
    finalize_pagination, find_results_match_index, opt_view,
    pagination_capabilities, plan_page_transition, retry_connect_after_failure, ConnectIntent,
    FailureAction, PageTransition, PaginationError, PaginationPlan, PaginationState, Pane, SchemaLane, WizardField,
    AUTO_RECONNECT_LIMIT, FOOTER_ACTIONS_LIMIT, PANE_FLASH_DURATION_TICKS, QUERY_RETRY_LIMIT,
    RESULT_BUFFER_CAPACITY,
};

verus! {

#[derive(Debug, Clone, Copy, PartialEq, Eq, Structural)]
pub enum DirectionKey {
    Up,
    Down,
    Left,
    Right,
}

/// Everything the interface can be told.
#[derive(Debug, Clone, Copy, PartialEq, Eq, Structural)]
pub enum Msg {
    Quit,
    GoConnectionWizard,
    ToggleHelp,
    NextPane,
    TogglePalette,
    TogglePerfOverlay,
    ToggleSafeMode,
    Submit,
    CancelQuery,
    Navigate(DirectionKey),
    InvokeActionSlot(usize),
    InputChar(char),
    Backspace,
    ClearInput,
    Connect,
    Tick,
}

#[derive(Debug, Clone, Copy, PartialEq, Eq, Structural)]
pub enum ErrorKind {
    Connection,
    Query,
}

#[derive(Debug, Clone, PartialEq, Eq)]
pub struct ErrorPanel {
    pub kind: ErrorKind,
    pub title: String,
    pub summary: String,
    pub detail: String,
}

/// The connection form.
#[derive(Debug, Clone, PartialEq, Eq)]
pub struct WizardForm {
    pub profile_name: String,
    pub host: String,
    pub port: String,
    pub user: String,
    pub database: String,
    pub active_field: WizardField,
    pub editing: bool,
    pub edit_buffer: String,
}

/// Work handed to the outside world; its outcome comes back through `on_query_finished`,
/// `on_connect_finished`, `on_tables_loaded` and `on_columns_loaded`.
#[derive(Debug, Clone, PartialEq, Eq)]
pub enum Effect {
    /// Run a statement on a fresh result buffer.
    StartQuery(String),
    /// Signal the running query to stop.
    CancelQuery,
    /// Open a connection with this profile.
    StartConnect(ConnectionProfile, ConnectIntent),
    /// List the tables of a database.
    LoadTables(String),
    /// List the columns of a table of a database.
    LoadColumns(String, String),
    /// Write the buffered rows out.
    ExportResults(ExportFormat),
    /// Put a cell or a row on the clipboard.
    CopyToClipboard(CopyTarget),
}

/// How a query worker finished.
#[derive(Debug)]
pub enum QueryOutcome {
    Success {
        results: ResultsRingBuffer<QueryRow>,
        rows_streamed: u64,
        was_cancelled: bool,
        elapsed_ms: u64,
    },
    Failure(String),
}

/// How a connect worker finished.
#[derive(Debug)]
pub enum ConnectOutcome {
    Success {
        profile: ConnectionProfile,
        latency_ms: u64,
        databases: Vec<String>,
        warning: Option<String>,
    },
    Failure(String),
}

/// The whole interface state; the only writer of it is the message handling below.
#[derive(Debug)]
pub struct Workbench {
    pub actions: ActionsEngine,
    pub pane: Pane,
    pub wizard_form: WizardForm,
    pub connected_profile: Option<String>,
    pub last_connection_latency_ms: Option<u64>,
    pub connected: bool,
    pub schema_databases: Vec<String>,
    pub selected_database_index: usize,
    pub active_database: Option<String>,
    pub schema_tables: Vec<String>,
    pub selected_table_index: usize,
    pub schema_columns: Vec<String>,
    pub selected_column_index: usize,
    pub schema_lane: SchemaLane,
    pub show_help: bool,
    pub show_palette: bool,
    pub palette_query: String,
    pub palette_selection: usize,
    pub show_perf_overlay: bool,
    pub should_quit: bool,
    pub query_running: bool,
    pub safe_mode_guard: SafeModeGuard,
    pub pending_confirmation: Option<(ConfirmationToken, String)>,
    pub has_results: bool,
    pub result_columns: Vec<String>,
    pub results_cursor: usize,
    pub results_search_mode: bool,
    pub results_search_query: String,
    pub results: ResultsRingBuffer<QueryRow>,
    pub pagination_state: Option<PaginationState>,
    pub pending_page_transition: Option<PageTransition>,
    pub cancel_requested: bool,
    pub connect_requested: bool,
    pub connect_intent: ConnectIntent,
    pub active_connection_profile: Option<ConnectionProfile>,
    pub last_connect_profile: Option<ConnectionProfile>,
    pub pending_retry_query: Option<String>,
    pub reconnect_attempts: u8,
    pub query_retry_attempts: u8,
    pub inflight_query_sql: Option<String>,
    pub last_failed_query: Option<String>,
    pub error_panel: Option<ErrorPanel>,
    pub loading_tick: usize,
    pub pane_flash_ticks: u8,
    pub exit_confirmation: bool,
    pub status_line: String,
    pub query_editor_text: String,
    pub selection: SchemaSelection,
}

/// The digits of a port, after an optional `+`.
pub open spec fn port_digits(s: Seq<char>) -> Seq<char> {
    if s.len() > 0 && s[0] == '+' {
        s.drop_first()
    } else {
        s
    }
}

pub open spec fn digits_value(d: Seq<char>) -> nat
    decreases d.len(),
{
    if d.len() == 0 {
        0
    } else {
        digits_value(d.drop_last()) * 10 + ((d.last() as u32) - 48) as nat
    }
}

pub open spec fn all_digits(d: Seq<char>) -> bool {
    forall|i: int| 0 <= i < d.len() ==> '0' <= #[trigger] d[i] && d[i] <= '9'
}

/// The port a form field names: an optional `+`, at least one digit, at most 65535.
pub open spec fn parse_port(s: Seq<char>) -> Option<u16> {
    let d = port_digits(s);
    if d.len() > 0 && all_digits(d) && digits_value(d) <= 65535 {
        Some(digits_value(d) as u16)
    } else {
        None
    }
}

proof fn lemma_digits_value_grows(d: Seq<char>, k: int)
    requires
        0 <= k <= d.len(),
        all_digits(d),
    ensures
        digits_value(d.subrange(0, k)) <= digits_value(d),
    decreases d.len() - k,
{
    if k < d.len() {
        lemma_digits_value_grows(d, k + 1);
        assert(d.subrange(0, k + 1).drop_last() =~= d.subrange(0, k));
        assert('0' <= d[k]);
    } else {
        assert(d.subrange(0, k) =~= d);
    }
}

/// Reads a port number.
pub fn parse_port_number(text: &str) -> (r: Option<u16>)
    ensures
        r == parse_port(text@),
{
    let v = chars_of(text);
    let start: usize = if v.len() > 0 && v[0] == '+' {
        1
    } else {
        0
    };
    let ghost d = port_digits(text@);
    assert(d =~= v@.subrange(start as int, v@.len() as int));
    if start == v.len() {
        return None;
    }
    let mut value: u32 = 0;
    let mut i = start;
    while i < v.len()
        invariant
            start <= i <= v.len(),
            d == port_digits(text@),
            d == v@.subrange(start as int, v@.len() as int),
            value as nat == digits_value(d.subrange(0, i - start)),
            value <= 65535,
            all_digits(d.subrange(0, i - start)),
        decreases v.len() - i,
    {
        let c = v[i];
        if !('0' <= c && c <= '9') {
            assert(d[i - start] == c);
            return None;
        }
        assert(d.subrange(0, i + 1 - start).drop_last() =~= d.subrange(0, i - start));
        value = value * 10 + ((c as u32) - 48);
        if value > 65535 {
            proof {
                if all_digits(d) {
                    lemma_digits_value_grows(d, i + 1 - start);
                }
            }
            return None;
        }
        assert(all_digits(d.subrange(0, i + 1 - start)));
        i = i + 1;
    }
    assert(d.subrange(0, d.len() as int) =~= d);
    Some(value as u16)
}

/// What the actions engine sees of the interface.
pub open spec fn context_of(w: Workbench) -> ActionContext {
    ActionContext {
        view: pane_view(w.pane),
        selection: w.selection,
        query_text: if w.pane == Pane::QueryEditor || w.query_running {
            Some(w.query_editor_text)
        } else {
            None
        },
        query_running: w.query_running,
        has_results: w.has_results,
        pagination_enabled: w.pagination_state is Some,
        can_page_next: w.pagination_state is Some && w.has_results
            && w.pagination_state->0.last_page_row_count >= w.pagination_state->0.page_size,
        can_page_previous: w.pagination_state is Some && w.pagination_state->0.page_index > 0,
    }
}

/// Two contexts that agree on everything the engine reads.
pub open spec fn same_context(a: ActionContext, b: ActionContext) -> bool {
    &&& a.view == b.view
    &&& opt_view(a.selection.database) == opt_view(b.selection.database)
    &&& opt_view(a.selection.table) == opt_view(b.selection.table)
    &&& opt_view(a.selection.column) == opt_view(b.selection.column)
    &&& opt_view(a.query_text) == opt_view(b.query_text)
    &&& a.query_running == b.query_running
    &&& a.has_results == b.has_results
    &&& a.pagination_enabled == b.pagination_enabled
    &&& a.can_page_next == b.can_page_next
    &&& a.can_page_previous == b.can_page_previous
}

proof fn lemma_same_enabled_prefix(a: ActionContext, b: ActionContext, k: nat)
    requires
        same_context(a, b),
    ensures
        crate::actions_engine::enabled_prefix(a, k) == crate::actions_engine::enabled_prefix(b, k),
    decreases k,
{
    if k > 0 {
        lemma_same_enabled_prefix(a, b, (k - 1) as nat);
        lemma_same_context(a, b, crate::actions_engine::action_at((k - 1) as nat));
    }
}

proof fn lemma_same_context(a: ActionContext, b: ActionContext, id: ActionId)
    requires
        same_context(a, b),
    ensures
        crate::actions_engine::enabled_in(id, a) == crate::actions_engine::enabled_in(id, b),
        crate::actions_engine::target_error(a) == crate::actions_engine::target_error(b),
        a.query_text is Some ==> b.query_text is Some && a.query_text->0@ == b.query_text->0@,
{
}

/// What running `sql` through the safe-mode guard did: it started at once (one
/// `StartQuery`) exactly when the guard was off or the SQL is not risky; otherwise it waits
/// for confirmation in the editor.
pub open spec fn guard_outcome(before: Workbench, after: Workbench, r: Seq<Effect>, sql: Seq<char>) -> bool {
    &&& r.len() <= 1
    &&& (r.len() == 1) == (!before.safe_mode_guard.enabled_flag() || !crate::safe_mode::is_risky(sql))
    &&& r.len() == 1 ==> {
        &&& r[0] matches Effect::StartQuery(q) && q@ == sql
        &&& after.query_running
        &&& after.pane == Pane::Results
        &&& after.pending_confirmation is None
        &&& after.inflight_query_sql is Some && after.inflight_query_sql->0@ == sql
        &&& after.query_editor_text@ == sql
    }
    &&& r.len() == 0 ==> {
        &&& after.pending_confirmation is Some && pending_sql(after) == sql
        &&& after.pane == Pane::QueryEditor
        &&& after.query_editor_text@ == sql
        &&& after.query_running == before.query_running
    }
}

/// Every field but the status line and the actions engine kept.
pub open spec fn same_but_status_and_actions(a: Workbench, b: Workbench) -> bool {
    b == Workbench { status_line: b.status_line, actions: b.actions, ..a }
}

/// What invoking action `id` did: nothing but a status when it is not enabled; otherwise
/// what the action asks for.
pub open spec fn invoke_outcome(before: Workbench, after: Workbench, r: Seq<Effect>, id: ActionId) -> bool {
    let ctx = context_of(before);
    if !crate::actions_engine::enabled_in(id, ctx) {
        r.len() == 0 && same_but_status_and_actions(before, after)
    } else {
        match id {
            ActionId::RunCurrentQuery => guard_outcome(before, after, r, crate::text::trim(before.query_editor_text@)),
            ActionId::DescribeTable | ActionId::ShowIndexes | ActionId::ShowCreateTable | ActionId::CountEstimate =>
                match crate::actions_engine::target_error(ctx) {
                    Some(_) => r.len() == 0,
                    None => guard_outcome(before, after, r, crate::actions_engine::schema_sql(id, crate::actions_engine::selection_target(ctx))),
                },
            ActionId::CancelRunningQuery => r == seq![Effect::CancelQuery] && !after.query_running && after.cancel_requested,
            ActionId::ExportCsv => r == seq![Effect::ExportResults(ExportFormat::Csv)] || (r.len() == 0 && before.results@.len() == 0),
            ActionId::ExportJson => r == seq![Effect::ExportResults(ExportFormat::Json)] || (r.len() == 0 && before.results@.len() == 0),
            ActionId::CopyCell => r == seq![Effect::CopyToClipboard(CopyTarget::Cell)],
            ActionId::CopyRow => r == seq![Effect::CopyToClipboard(CopyTarget::Row)],
            ActionId::FocusQueryEditor => r.len() == 0 && after.pane == Pane::QueryEditor,
            ActionId::SearchResults => r.len() == 0 && (before.results@.len() > 0 ==> after.results_search_mode && after.pane == Pane::Results),
            ActionId::ApplyLimit200 => r.len() == 0 && after.query_editor_text@ == crate::actions_engine::limit_suggestion(before.query_editor_text@, crate::actions_engine::PREVIEW_LIMIT as nat)->0,
            _ => true,
        }
    }
}

/// The action's title contains the palette query, ASCII case ignored (an empty query
/// matches every title).
pub open spec fn palette_title_match(w: Workbench, id: ActionId) -> bool {
    w.palette_query@.len() == 0 || crate::text::contains_seq(
        crate::text::lower_seq(crate::actions_engine::action_title(id)),
        crate::text::lower_seq(w.palette_query@),
    )
}

/// The action belongs in the palette: enabled now, and its title matches the query.
pub open spec fn palette_match(w: Workbench, id: ActionId) -> bool {
    crate::actions_engine::enabled_in(id, context_of(w)) && palette_title_match(w, id)
}

/// Connecting from the form: a valid port starts a manual connection with the form's
/// profile; an invalid one only says so.
pub open spec fn wizard_connect_outcome(before: Workbench, after: Workbench, r: Seq<Effect>) -> bool {
    let form = before.wizard_form;
    match parse_port(form.port@) {
        None => r.len() == 0 && same_but_status(before, after),
        Some(port) => {
            &&& r.len() == 1
            &&& r[0] matches Effect::StartConnect(p, intent) && intent == ConnectIntent::Manual
                && p.name@ == form.profile_name@ && p.host@ == form.host@ && p.user@ == form.user@
                && p.port == port
                && (is_blank(form.database@) ==> p.database is None)
                && (!is_blank(form.database@) ==> p.database is Some && p.database->0@ == form.database@)
            &&& after.connect_requested
            &&& after.connect_intent == ConnectIntent::Manual
            &&& after.error_panel is None
        },
    }
}

/// The results cursor after one step in `direction` over `n` rows (unchanged when empty).
pub open spec fn results_cursor_after(cursor: usize, n: nat, direction: DirectionKey) -> usize {
    if n == 0 {
        cursor
    } else if direction is Up || direction is Left {
        if cursor > 0 { (cursor - 1) as usize } else { 0 }
    } else if cursor + 1 < n {
        (cursor + 1) as usize
    } else {
        (n - 1) as usize
    }
}

/// The token awaiting confirmation.
pub open spec fn pending_token(w: Workbench) -> Seq<char> {
    match w.pending_confirmation {
        Some(p) => p.0@,
        None => seq![],
    }
}

/// The statement awaiting confirmation.
pub open spec fn pending_sql(w: Workbench) -> Seq<char> {
    match w.pending_confirmation {
        Some(p) => p.1@,
        None => seq![],
    }
}

/// The statement a failed query ran: the one in flight, else the editor text if any.
pub open spec fn failed_sql(w: Workbench) -> Option<Seq<char>> {
    match w.inflight_query_sql {
        Some(s) => Some(s@),
        None => if !is_blank(w.query_editor_text@) {
            Some(w.query_editor_text@)
        } else {
            None
        },
    }
}

/// A failed query is retried at once.
pub open spec fn retry_due(w: Workbench, error: Seq<char>) -> bool {
    is_transient(error) && !w.cancel_requested && w.query_retry_attempts < QUERY_RETRY_LIMIT
        && failed_sql(w) is Some
}

/// A failed query leads to reconnecting.
pub open spec fn reconnect_due(w: Workbench, error: Seq<char>) -> bool {
    !retry_due(w, error) && is_connection_lost(error) && !w.cancel_requested
        && w.reconnect_attempts < AUTO_RECONNECT_LIMIT && w.has_profile()
}

/// Leaves every field as it was but the status line.
pub open spec fn same_but_status(a: Workbench, b: Workbench) -> bool {
    b == Workbench { status_line: b.status_line, ..a }
}

/// Where a results search for `query` puts the cursor: on the first matching row walking
/// cyclically from the top, or (`find_next`) from the row after the cursor; it stays put
/// when the trimmed query is empty or nothing matches.
pub open spec fn search_cursor(query: Seq<char>, rows: Seq<QueryRow>, cursor: usize, find_next: bool) -> int {
    let q = crate::text::trim(query);
    let n = rows.len();
    let start: nat = if find_next && n > 0 {
        ((((cursor as int) % (n as int)) + 1) % (n as int)) as nat
    } else {
        0
    };
    let found = crate::workbench::cyclic_match(rows, crate::text::lower_seq(q), start, 0);
    if q.len() > 0 && n > 0 && found is Some {
        found->0 as int
    } else {
        cursor as int
    }
}

/// The search finds a row.
pub open spec fn search_hit(query: Seq<char>, rows: Seq<QueryRow>, cursor: usize, find_next: bool) -> bool {
    let q = crate::text::trim(query);
    let n = rows.len();
    let start: nat = if find_next && n > 0 {
        ((((cursor as int) % (n as int)) + 1) % (n as int)) as nat
    } else {
        0
    };
    q.len() > 0 && n > 0 && crate::workbench::cyclic_match(rows, crate::text::lower_seq(q), start, 0) is Some
}

/// The status after the search matched row `index` of `n`.
pub open spec fn search_status(index: usize, n: nat) -> Seq<char> {
    "Search matched row "@ + crate::text::decimal((index + 1) as nat) + " / "@ + crate::text::decimal(n)
        + " (Enter next, Esc cancel)"@
}

/// The message reaches results search: no exit prompt, no error panel, search active.
pub open spec fn routed_to_search(w: Workbench, msg: Msg) -> bool {
    !w.exit_confirmation && w.error_panel is None && w.results_search_mode
}

/// The message reaches the pane handlers: no exit prompt, no error panel, and results
/// search (if active) does not take it.
pub open spec fn routed_to_main(w: Workbench, msg: Msg) -> bool {
    !w.exit_confirmation && w.error_panel is None && !(w.results_search_mode && (msg is InputChar
        || msg is Backspace || msg is ClearInput || msg is Submit || msg is TogglePalette))
}

pub open spec fn pane_after(p: Pane) -> Pane {
    match p {
        Pane::ConnectionWizard => Pane::SchemaExplorer,
        Pane::SchemaExplorer => Pane::Results,
        Pane::Results => Pane::QueryEditor,
        Pane::QueryEditor => Pane::SchemaExplorer,
    }
}

/// What reaches the handler while an exit confirmation is pending.
pub open spec fn passes_exit_prompt(msg: Msg) -> bool {
    msg is Quit || msg is TogglePalette || msg is Tick || msg is CancelQuery
}

/// What the error panel honors.
pub open spec fn honored_by_error_panel(msg: Msg) -> bool {
    msg is Tick || msg is TogglePalette || msg is Submit || msg == Msg::InvokeActionSlot(0)
        || msg is Connect || msg is GoConnectionWizard || msg is Quit
}

pub open spec fn pane_view(p: Pane) -> AppView {
    match p {
        Pane::ConnectionWizard => AppView::ConnectionWizard,
        Pane::SchemaExplorer => AppView::SchemaExplorer,
        Pane::Results => AppView::Results,
        Pane::QueryEditor => AppView::QueryEditor,
    }
}

impl Workbench {
    pub open spec fn wf(&self) -> bool {
        &&& self.actions.wf()
        &&& self.results.wf()
        &&& self.safe_mode_guard.wf()
    }

    /// A profile to reconnect with is known.
    pub open spec fn has_profile(&self) -> bool {
        self.active_connection_profile is Some || self.last_connect_profile is Some
    }

    /// A fresh interface, on the connection wizard, with safe mode on.
    pub fn new() -> (r: Self)
        ensures
            r.wf(),
            r.pane == Pane::ConnectionWizard,
            !r.connected,
            !r.query_running,
            !r.exit_confirmation,
            r.error_panel is None,
            r.safe_mode_guard.enabled_flag(),
            r.pagination_state is None,
            r.query_retry_attempts == 0,
            r.reconnect_attempts == 0,
    {
        Workbench {
            actions: ActionsEngine::new(),
            pane: Pane::ConnectionWizard,
            wizard_form: WizardForm {
                profile_name: copy_str("local-dev"),
                host: copy_str("127.0.0.1"),
                port: copy_str("3306"),
                user: copy_str("root"),
                database: copy_str("app"),
                active_field: WizardField::ProfileName,
                editing: false,
                edit_buffer: String::new(),
            },
            connected_profile: None,
            last_connection_latency_ms: None,
            connected: false,
            schema_databases: Vec::new(),
            selected_database_index: 0,
            active_database: None,
            schema_tables: Vec::new(),
            selected_table_index: 0,
            schema_columns: Vec::new(),
            selected_column_index: 0,
            schema_lane: SchemaLane::Tables,
            show_help: false,
            show_palette: false,
            palette_query: String::new(),
            palette_selection: 0,
            show_perf_overlay: false,
            should_quit: false,
            query_running: false,
            safe_mode_guard: SafeModeGuard::new(true),
            pending_confirmation: None,
            has_results: false,
            result_columns: Vec::new(),
            results_cursor: 0,
            results_search_mode: false,
            results_search_query: String::new(),
            results: ResultsRingBuffer::new(RESULT_BUFFER_CAPACITY),
            pagination_state: None,
            pending_page_transition: None,
            cancel_requested: false,
            connect_requested: false,
            connect_intent: ConnectIntent::Manual,
            active_connection_profile: None,
            last_connect_profile: None,
            pending_retry_query: None,
            reconnect_attempts: 0,
            query_retry_attempts: 0,
            inflight_query_sql: None,
            last_failed_query: None,
            error_panel: None,
            loading_tick: 0,
            pane_flash_ticks: 0,
            exit_confirmation: false,
            status_line: copy_str("Ready"),
            query_editor_text: String::new(),
            selection: SchemaSelection { database: None, table: None, column: None },
        }
    }

    fn set_status(&mut self, text: &str)
        ensures
            *final(self) == (Workbench { status_line: final(self).status_line, ..*old(self) }),
            final(self).status_line@ == text@,
    {
        self.status_line = copy_str(text);
    }

    /// Switches pane; a real switch flashes the tabs and leaves results search unless the
    /// new pane is the results pane.
    pub fn set_active_pane(&mut self, pane: Pane)
        ensures
            final(self).pane == pane,
            old(self).pane == pane ==> *final(self) == *old(self),
            old(self).pane != pane ==> *final(self) == (Workbench {
                pane,
                pane_flash_ticks: PANE_FLASH_DURATION_TICKS,
                results_search_mode: old(self).results_search_mode && pane == Pane::Results,
                ..*old(self)
            }),
    {
        if self.pane != pane {
            self.pane = pane;
            self.pane_flash_ticks = PANE_FLASH_DURATION_TICKS;
            if pane != Pane::Results {
                self.results_search_mode = false;
            }
        }
    }

    /// What the actions engine sees.
    pub fn action_context(&self) -> (r: ActionContext)
        ensures
            r.view == pane_view(self.pane),
            opt_view(r.selection.database) == opt_view(self.selection.database),
            opt_view(r.selection.table) == opt_view(self.selection.table),
            opt_view(r.selection.column) == opt_view(self.selection.column),
            (self.pane == Pane::QueryEditor || self.query_running) ==> r.query_text is Some
                && r.query_text->0@ == self.query_editor_text@,
            !(self.pane == Pane::QueryEditor || self.query_running) ==> r.query_text is None,
            r.query_running == self.query_running,
            r.has_results == self.has_results,
            r.pagination_enabled == self.pagination_state is Some,
            r.can_page_next == (self.pagination_state is Some && self.has_results
                && self.pagination_state->0.last_page_row_count
                >= self.pagination_state->0.page_size),
            r.can_page_previous == (self.pagination_state is Some
                && self.pagination_state->0.page_index > 0),
            same_context(r, context_of(*self)),
    {
        let view = match self.pane {
            Pane::ConnectionWizard => AppView::ConnectionWizard,
            Pane::SchemaExplorer => AppView::SchemaExplorer,
            Pane::Results => AppView::Results,
            Pane::QueryEditor => AppView::QueryEditor,
        };
        let query_text = if self.pane == Pane::QueryEditor || self.query_running {
            Some(copy_str(self.query_editor_text.as_str()))
        } else {
            None
        };
        let (pagination_enabled, can_page_next, can_page_previous) = pagination_capabilities(
            &self.pagination_state,
            self.has_results,
        );
        ActionContext {
            view,
            selection: SchemaSelection {
                database: copy_opt_string(&self.selection.database),
                table: copy_opt_string(&self.selection.table),
                column: copy_opt_string(&self.selection.column),
            },
            query_text,
            query_running: self.query_running,
            has_results: self.has_results,
            pagination_enabled,
            can_page_next,
            can_page_previous,
        }
    }

    pub fn pane_tab_index(&self) -> (r: usize)
        ensures
            r == match self.pane {
                Pane::ConnectionWizard => 0usize,
                Pane::SchemaExplorer => 1,
                Pane::Results => 2,
                Pane::QueryEditor => 3,
            },
    {
        match self.pane {
            Pane::ConnectionWizard => 0,
            Pane::SchemaExplorer => 1,
            Pane::Results => 2,
            Pane::QueryEditor => 3,
        }
    }

    pub fn runtime_state_label(&self) -> (r: &'static str)
        ensures
            (self.connect_requested || self.query_running) ==> r@ == "BUSY"@,
            !(self.connect_requested || self.query_running) ==> r@ == "IDLE"@,
    {
        if self.connect_requested || self.query_running {
            "BUSY"
        } else {
            "IDLE"
        }
    }

    pub fn connection_state_label(&self) -> (r: &'static str)
        ensures
            self.connect_requested && self.connect_intent == ConnectIntent::AutoReconnect ==> r@
                == "RECONNECTING"@,
            self.connect_requested && self.connect_intent == ConnectIntent::Manual ==> r@
                == "CONNECTING"@,
            !self.connect_requested && self.connected ==> r@ == "CONNECTED"@,
            !self.connect_requested && !self.connected ==> r@ == "DISCONNECTED"@,
    {
        if self.connect_requested {
            if self.connect_intent == ConnectIntent::AutoReconnect {
                "RECONNECTING"
            } else {
                "CONNECTING"
            }
        } else if self.connected {
            "CONNECTED"
        } else {
            "DISCONNECTED"
        }
    }

    /// A profile to reconnect with is at hand: a known one, or a valid form.
    pub fn can_reconnect_from_error_panel(&self) -> (r: bool)
        ensures
            r == (self.has_profile() || parse_port(self.wizard_form.port@) is Some),
    {
        self.active_connection_profile.is_some() || self.last_connect_profile.is_some()
            || self.wizard_profile().is_ok()
    }

    pub fn pane_name(&self) -> (r: &'static str) {
        match self.pane {
            Pane::ConnectionWizard => "Connection Wizard",
            Pane::SchemaExplorer => "Schema Explorer",
            Pane::Results => "Results",
            Pane::QueryEditor => "Query Editor",
        }
    }

    /// The profile the connection form describes, or why it describes none.
    pub fn wizard_profile(&self) -> (r: Result<ConnectionProfile, String>)
        ensures
            parse_port(self.wizard_form.port@) is None ==> r is Err,
            parse_port(self.wizard_form.port@) is Some ==> r is Ok && ({
                let p = r->Ok_0;
                &&& p.name@ == self.wizard_form.profile_name@
                &&& p.host@ == self.wizard_form.host@
                &&& p.user@ == self.wizard_form.user@
                &&& p.port == parse_port(self.wizard_form.port@)->0
                &&& (is_blank(self.wizard_form.database@) ==> p.database is None)
                &&& (!is_blank(self.wizard_form.database@) ==> p.database is Some
                    && p.database->0@ == self.wizard_form.database@)
            }),
    {
        let port = match parse_port_number(self.wizard_form.port.as_str()) {
            Some(p) => p,
            None => return Err(copy_str("Invalid port in connection wizard")),
        };
        let mut profile = ConnectionProfile::new(
            self.wizard_form.profile_name.as_str(),
            self.wizard_form.host.as_str(),
            self.wizard_form.user.as_str(),
        );
        profile.port = port;
        profile.database = if is_blank_str(self.wizard_form.database.as_str()) {
            None
        } else {
            Some(copy_str(self.wizard_form.database.as_str()))
        };
        Ok(profile)
    }
}

impl Workbench {
    /// Starts running `sql`; unless this is a retry, the retry bookkeeping starts afresh.
    fn start_query_internal(&mut self, sql: String, retrying: bool) -> (r: Effect)
        requires
            old(self).wf(),
        ensures
            final(self).wf(),
            r matches Effect::StartQuery(s) && s@ == sql@,
            final(self).inflight_query_sql is Some && final(self).inflight_query_sql->0@ == sql@,
            final(self).query_editor_text@ == sql@,
            *final(self) == (Workbench {
                query_running: true,
                pane: Pane::Results,
                pane_flash_ticks: final(self).pane_flash_ticks,
                error_panel: None,
                cancel_requested: false,
                has_results: false,
                results_search_mode: false,
                results_search_query: final(self).results_search_query,
                inflight_query_sql: final(self).inflight_query_sql,
                query_editor_text: final(self).query_editor_text,
                status_line: final(self).status_line,
                query_retry_attempts: if retrying {
                    old(self).query_retry_attempts
                } else {
                    0
                },
                reconnect_attempts: if retrying {
                    old(self).reconnect_attempts
                } else {
                    0
                },
                pending_retry_query: if retrying {
                    old(self).pending_retry_query
                } else {
                    None
                },
                last_failed_query: if retrying {
                    old(self).last_failed_query
                } else {
                    None
                },
                ..*old(self)
            }),
    {
        if !retrying {
            self.query_retry_attempts = 0;
            self.last_failed_query = None;
            self.pending_retry_query = None;
            self.reconnect_attempts = 0;
        }
        self.inflight_query_sql = Some(copy_str(sql.as_str()));
        let effect = Effect::StartQuery(copy_str(sql.as_str()));
        self.query_editor_text = sql;
        self.set_active_pane(Pane::Results);
        self.results_search_mode = false;
        self.results_search_query = String::new();
        self.error_panel = None;
        self.cancel_requested = false;
        self.has_results = false;
        self.query_running = true;
        self.set_status("Running query...");
        effect
    }

    /// Starts running `sql` as a new query.
    pub fn start_query(&mut self, sql: String) -> (r: Effect)
        requires
            old(self).wf(),
        ensures
            final(self).wf(),
            r matches Effect::StartQuery(s) && s@ == sql@,
            final(self).inflight_query_sql is Some && final(self).inflight_query_sql->0@ == sql@,
            final(self).query_editor_text@ == sql@,
            *final(self) == (Workbench {
                query_running: true,
                pane: Pane::Results,
                pane_flash_ticks: final(self).pane_flash_ticks,
                error_panel: None,
                cancel_requested: false,
                has_results: false,
                results_search_mode: false,
                results_search_query: final(self).results_search_query,
                inflight_query_sql: final(self).inflight_query_sql,
                query_editor_text: final(self).query_editor_text,
                status_line: final(self).status_line,
                query_retry_attempts: 0,
                reconnect_attempts: 0,
                pending_retry_query: None,
                last_failed_query: None,
                ..*old(self)
            }),
    {
        self.start_query_internal(sql, false)
    }

    /// Runs `sql` through the safe-mode guard: allowed SQL starts at once; risky SQL waits,
    /// with its token, for a second submit.
    pub fn execute_sql_with_guard(&mut self, sql: String) -> (r: Option<Effect>)
        requires
            old(self).wf(),
        ensures
            final(self).pagination_state == old(self).pagination_state,
            final(self).pending_page_transition == old(self).pending_page_transition,
            final(self).actions == old(self).actions,
            final(self).results == old(self).results,
            final(self).wf(),
            r is Some <==> (!old(self).safe_mode_guard.enabled_flag() || !crate::safe_mode::is_risky(sql@)),
            r is Some ==> (r->0 matches Effect::StartQuery(s) && s@ == sql@),
            r is Some ==> final(self).pending_confirmation is None && final(self).query_running
                && final(self).pane == Pane::Results && final(self).inflight_query_sql is Some
                && final(self).inflight_query_sql->0@ == sql@ && final(self).query_editor_text@ == sql@
                && final(self).error_panel is None,
            r is None ==> final(self).pending_confirmation is Some && pending_sql(*final(self))
                == sql@ && final(self).pane == Pane::QueryEditor && final(self).query_running
                == old(self).query_running && final(self).query_editor_text@ == sql@,
            final(self).safe_mode_guard.enabled_flag() == old(self).safe_mode_guard.enabled_flag(),
    {
        match self.safe_mode_guard.evaluate(sql.as_str()) {
            GuardDecision::Allow { .. } => {
                self.pending_confirmation = None;
                Some(self.start_query(sql))
            },
            GuardDecision::RequireConfirmation { token, .. } => {
                self.pending_confirmation = Some((token, copy_str(sql.as_str())));
                self.query_editor_text = sql;
                self.set_active_pane(Pane::QueryEditor);
                self.set_status("Safe mode confirmation required. Press Enter again to confirm.");
                None
            },
        }
    }

    /// Starts connecting with `profile`; a manual connect starts the reconnect count afresh.
    fn start_connect_with_profile(&mut self, profile: ConnectionProfile, intent: ConnectIntent) -> (r: Effect)
        requires
            old(self).wf(),
        ensures
            final(self).wf(),
            r matches Effect::StartConnect(p, i) && i == intent && same_profile(p, profile),
            final(self).connect_requested,
            final(self).connect_intent == intent,
            final(self).error_panel is None,
            final(self).last_connect_profile is Some && same_profile(final(self).last_connect_profile->0, profile),
            intent == ConnectIntent::Manual ==> final(self).reconnect_attempts == 0,
            intent == ConnectIntent::AutoReconnect ==> final(self).reconnect_attempts == old(self).reconnect_attempts,
            final(self).pending_retry_query == old(self).pending_retry_query,
            final(self).query_running == old(self).query_running,
    {
        if intent == ConnectIntent::Manual {
            self.reconnect_attempts = 0;
        }
        self.error_panel = None;
        self.connect_requested = true;
        self.connect_intent = intent;
        if intent == ConnectIntent::AutoReconnect {
            self.set_status("Reconnecting...");
        } else {
            self.set_status("Connecting...");
        }
        self.last_connect_profile = Some(profile.duplicate());
        Effect::StartConnect(profile, intent)
    }
}

impl Workbench {
    fn open_error_panel(&mut self, kind: ErrorKind, title: &str, summary: &str, detail: &str)
        ensures
            final(self).error_panel is Some,
            final(self).error_panel->0.kind == kind,
            final(self).error_panel->0.detail@ == detail@,
            final(self).error_panel->0.title@ == title@,
            final(self).error_panel->0.summary@ == summary@,
            *final(self) == (Workbench { error_panel: final(self).error_panel, ..*old(self) }),
    {
        self.error_panel = Some(
            ErrorPanel {
                kind,
                title: copy_str(title),
                summary: copy_str(summary),
                detail: copy_str(detail),
            },
        );
    }

    /// The profile to reconnect with: the active one, else the last one tried.
    fn reconnect_profile(&self) -> (r: Option<ConnectionProfile>)
        ensures
            r is Some == self.has_profile(),
    {
        match &self.active_connection_profile {
            Some(p) => Some(p.duplicate()),
            None => match &self.last_connect_profile {
                Some(p) => Some(p.duplicate()),
                None => None,
            },
        }
    }

    fn clear_pagination_state(&mut self)
        ensures
            *final(self) == (Workbench {
                pagination_state: None,
                pending_page_transition: None,
                ..*old(self)
            }),
    {
        self.pagination_state = None;
        self.pending_page_transition = None;
    }

    /// A query worker finished: take its rows, or decide between retrying, reconnecting
    /// and showing the error.
    pub fn on_query_finished(&mut self, outcome: QueryOutcome) -> (r: Vec<Effect>)
        requires
            old(self).wf(),
            outcome matches QueryOutcome::Success { results, .. } ==> results.wf(),
        ensures
            final(self).wf(),
            match outcome {
                QueryOutcome::Success { results, .. } => {
                    &&& final(self).results == results
                    &&& final(self).has_results == (results@.len() > 0)
                    &&& !final(self).query_running
                    &&& final(self).query_retry_attempts == 0
                    &&& final(self).reconnect_attempts == 0
                    &&& final(self).inflight_query_sql is None
                    &&& final(self).last_failed_query is None
                    &&& final(self).results_cursor == 0
                    &&& !final(self).results_search_mode
                    &&& r@.len() == 0
                    &&& final(self).pending_page_transition is None
                    &&& old(self).pending_page_transition is None ==> final(self).pagination_state == old(self).pagination_state
                    &&& (old(self).pending_page_transition is Some && old(self).pagination_state is Some) ==> {
                        &&& final(self).pagination_state is Some
                        &&& final(self).pagination_state->0.page_index == page_index_after(
                            old(self).pagination_state->0.page_index,
                            old(self).pending_page_transition->0,
                            results@.len() as usize,
                        )
                        &&& final(self).pagination_state->0.last_page_row_count == results@.len()
                    }
                },
                QueryOutcome::Failure(e) => {
                    &&& retry_due(*old(self), e@) ==> {
                        &&& r@.len() == 1
                        &&& r@[0] matches Effect::StartQuery(s) && s@ == failed_sql(*old(self))->0
                        &&& final(self).query_running
                        &&& final(self).query_retry_attempts == old(self).query_retry_attempts + 1
                        &&& final(self).error_panel is None
                        &&& final(self).inflight_query_sql is Some
                        &&& final(self).inflight_query_sql->0@ == failed_sql(*old(self))->0
                        &&& final(self).query_editor_text@ == failed_sql(*old(self))->0
                        &&& final(self).pane == Pane::Results
                        &&& final(self).status_line@ == "Transient query failure; retrying..."@
                    }
                    &&& reconnect_due(*old(self), e@) ==> {
                        &&& r@.len() == 1
                        &&& r@[0] matches Effect::StartConnect(_, i) && i == ConnectIntent::AutoReconnect
                        &&& opt_view(final(self).pending_retry_query) == failed_sql(*old(self))
                        &&& final(self).reconnect_attempts == old(self).reconnect_attempts + 1
                        &&& final(self).connect_requested
                        &&& final(self).connect_intent == ConnectIntent::AutoReconnect
                        &&& final(self).error_panel is None
                        &&& !final(self).query_running
                        &&& final(self).status_line@ == "Connection dropped; reconnecting..."@
                    }
                    &&& (!retry_due(*old(self), e@) && !reconnect_due(*old(self), e@)) ==> {
                        &&& r@.len() == 0
                        &&& final(self).error_panel is Some
                        &&& final(self).error_panel->0.kind == ErrorKind::Query
                        &&& final(self).error_panel->0.detail@ == e@
                        &&& final(self).error_panel->0.title@ == "Query Error"@
                        &&& final(self).inflight_query_sql is None
                        &&& final(self).status_line@ == "Query failed: "@ + e@
                        &&& opt_view(final(self).last_failed_query) == failed_sql(*old(self))
                        &&& final(self).query_retry_attempts == 0
                        &&& final(self).reconnect_attempts == 0
                        &&& final(self).pending_retry_query is None
                        &&& !final(self).query_running
                    }
                },
            },
    {
        self.query_running = false;
        match outcome {
            QueryOutcome::Success { results, rows_streamed, was_cancelled, elapsed_ms } => {
                self.results = results;
                self.has_results = self.results.len() > 0;
                self.results_cursor = 0;
                self.results_search_mode = false;
                self.results_search_query = String::new();
                self.query_retry_attempts = 0;
                self.reconnect_attempts = 0;
                self.inflight_query_sql = None;
                self.last_failed_query = None;
                finalize_pagination_after_query(
                    &mut self.pagination_state,
                    &mut self.pending_page_transition,
                    &self.results,
                    &self.result_columns,
                );
                let mut status = String::new();
                if was_cancelled {
                    push_all(&mut status, "Query cancelled after ");
                } else {
                    push_all(&mut status, "Query returned ");
                }
                push_decimal(&mut status, rows_streamed);
                push_all(&mut status, " rows in ");
                push_decimal(&mut status, elapsed_ms);
                push_all(&mut status, " ms");
                self.status_line = status;
                self.cancel_requested = false;
                Vec::new()
            },
            QueryOutcome::Failure(error) => {
                self.pending_page_transition = None;
                self.has_results = self.results.len() > 0;
                self.results_search_mode = false;
                self.results_search_query = String::new();
                let query_sql = match &self.inflight_query_sql {
                    Some(s) => Some(copy_str(s.as_str())),
                    None => if !is_blank_str(self.query_editor_text.as_str()) {
                        Some(copy_str(self.query_editor_text.as_str()))
                    } else {
                        None
                    },
                };
                let failed = copy_opt_string(&query_sql);
                let has_profile = self.active_connection_profile.is_some()
                    || self.last_connect_profile.is_some();
                let action = decide_query_failure(
                    error.as_str(),
                    self.cancel_requested,
                    self.query_retry_attempts,
                    self.reconnect_attempts,
                    query_sql,
                    has_profile,
                );
                match action {
                    FailureAction::RetryQuery(sql) => {
                        self.query_retry_attempts = self.query_retry_attempts + 1;
                        let effect = self.start_query_internal(sql, true);
                        self.set_status("Transient query failure; retrying...");
                        self.cancel_requested = false;
                        let mut effects = Vec::new();
                        effects.push(effect);
                        effects
                    },
                    FailureAction::Reconnect(pending) => {
                        let profile = match self.reconnect_profile() {
                            Some(p) => p,
                            None => return Vec::new(),
                        };
                        self.pending_retry_query = pending;
                        self.reconnect_attempts = self.reconnect_attempts + 1;
                        let effect = self.start_connect_with_profile(profile, ConnectIntent::AutoReconnect);
                        self.set_status("Connection dropped; reconnecting...");
                        self.cancel_requested = false;
                        let mut effects = Vec::new();
                        effects.push(effect);
                        effects
                    },
                    FailureAction::ShowError => {
                        self.query_retry_attempts = 0;
                        self.reconnect_attempts = 0;
                        self.inflight_query_sql = None;
                        self.last_failed_query = failed;
                        self.pending_retry_query = None;
                        let mut status = copy_str("Query failed: ");
                        push_all(&mut status, error.as_str());
                        self.status_line = status;
                        self.open_error_panel(
                            ErrorKind::Query,
                            "Query Error",
                            "Query execution failed",
                            error.as_str(),
                        );
                        self.cancel_requested = false;
                        Vec::new()
                    },
                }
            },
        }
    }
}

impl Workbench {
    /// Puts `SELECT * FROM <selected table>` in the editor, when a table is selected.
    fn set_query_editor_to_selected_table(&mut self)
        ensures
            *final(self) == (Workbench { query_editor_text: final(self).query_editor_text, ..*old(self) }),
    {
        let table = match &self.selection.table {
            Some(t) => t,
            None => return,
        };
        let mut text = copy_str("SELECT * FROM ");
        match &self.selection.database {
            Some(d) => {
                let qd = quote_identifier(d.as_str());
                push_all(&mut text, qd.as_str());
                push_all(&mut text, ".");
            },
            None => {},
        }
        let qt = quote_identifier(table.as_str());
        push_all(&mut text, qt.as_str());
        self.query_editor_text = text;
    }

    /// Adopts a fresh connection: its profile, its databases, and the schema explorer.
    #[verifier::rlimit(80)]
    #[verifier::spinoff_prover]
    fn apply_connected_profile(
        &mut self,
        profile: ConnectionProfile,
        latency_ms: u64,
        databases: Vec<String>,
        warning: Option<String>,
    ) -> (r: Vec<Effect>)
        requires
            old(self).wf(),
        ensures
            final(self).wf(),
            final(self).connected,
            final(self).pane == Pane::SchemaExplorer,
            final(self).pagination_state is None,
            final(self).active_connection_profile is Some && same_profile(final(self).active_connection_profile->0, profile),
            final(self).last_connection_latency_ms == Some(latency_ms),
            final(self).query_running == old(self).query_running,
            final(self).pending_retry_query == old(self).pending_retry_query,
            final(self).reconnect_attempts == old(self).reconnect_attempts,
            final(self).error_panel == old(self).error_panel,
            final(self).active_database is Some ==> r@.len() == 1 && (r@[0] matches Effect::LoadTables(d) && d@ == final(self).active_database->0@),
            final(self).active_database is None ==> r@.len() == 0,
            opt_view(final(self).active_database) == chosen_database(profile, crate::workbench::names_view(databases@)),
            final(self).schema_databases == databases,
            final(self).connect_requested == old(self).connect_requested,
            final(self).connect_intent == old(self).connect_intent,
            final(self).safe_mode_guard == old(self).safe_mode_guard,
    {
        self.last_connection_latency_ms = Some(latency_ms);
        let active_database: Option<String> = match &profile.database {
            Some(d) => Some(copy_str(d.as_str())),
            None => if databases.len() > 0 {
                Some(copy_str(databases[0].as_str()))
            } else {
                None
            },
        };
        let mut index: usize = 0;
        match &active_database {
            Some(name) => {
                let mut i: usize = 0;
                while i < databases.len()
                    invariant
                        i <= databases@.len(),
                    decreases databases.len() - i,
                {
                    if crate::text::same_text(&databases[i], name.as_str()) {
                        index = i;
                        break;
                    }
                    i = i + 1;
                }
            },
            None => {},
        }
        self.active_connection_profile = Some(profile.duplicate());
        self.last_connect_profile = Some(profile.duplicate());
        self.connected = true;
        self.schema_databases = databases;
        self.selected_database_index = index;
        self.active_database = copy_opt_string(&active_database);
        self.connected_profile = Some(copy_str(profile.name.as_str()));
        self.selection.database = copy_opt_string(&active_database);
        self.schema_tables = Vec::new();
        self.selected_table_index = 0;
        self.selection.table = None;
        self.schema_columns = Vec::new();
        self.selected_column_index = 0;
        self.selection.column = None;
        self.schema_lane = SchemaLane::Databases;
        self.pagination_state = None;
        self.pending_page_transition = None;
        if self.pane != Pane::SchemaExplorer {
            self.pane = Pane::SchemaExplorer;
            self.pane_flash_ticks = PANE_FLASH_DURATION_TICKS;
            self.results_search_mode = false;
        }
        let mut status = copy_str("Connected as `");
        push_all(&mut status, profile.name.as_str());
        push_all(&mut status, "` in ");
        push_decimal(&mut status, latency_ms);
        push_all(&mut status, " ms");
        match &warning {
            Some(w) => {
                push_all(&mut status, " (");
                push_all(&mut status, w.as_str());
                push_all(&mut status, ")");
            },
            None => {},
        }
        self.status_line = status;
        let mut effects = Vec::new();
        match active_database {
            Some(d) => effects.push(Effect::LoadTables(d)),
            None => {},
        }
        effects
    }

    /// A connect worker finished: adopt the connection (and replay a query that waited
    /// for it), or decide between another attempt and the error panel.
    pub fn on_connect_finished(&mut self, outcome: ConnectOutcome) -> (r: Vec<Effect>)
        requires
            old(self).wf(),
        ensures
            final(self).wf(),
            match outcome {
                ConnectOutcome::Success { profile, latency_ms, databases, .. } => {
                    let chosen = chosen_database(profile, crate::workbench::names_view(databases@));
                    let replay = old(self).connect_intent == ConnectIntent::AutoReconnect && old(self).pending_retry_query is Some;
                    &&& final(self).connected
                    &&& final(self).error_panel is None
                    &&& final(self).reconnect_attempts == 0
                    &&& !final(self).connect_requested
                    &&& final(self).connect_intent == ConnectIntent::Manual
                    &&& final(self).active_connection_profile is Some
                    &&& same_profile(final(self).active_connection_profile->0, profile)
                    &&& final(self).schema_databases == databases
                    &&& final(self).last_connection_latency_ms == Some(latency_ms)
                    &&& opt_view(final(self).active_database) == chosen
                    &&& final(self).pagination_state is None
                    &&& chosen is Some ==> r@.len() >= 1 && (r@[0] matches Effect::LoadTables(d) && d@ == chosen->0)
                    &&& replay ==> {
                        &&& r@.len() == (if chosen is Some { 2int } else { 1int })
                        &&& r@.last() matches Effect::StartQuery(s) && s@ == old(self).pending_retry_query->0@
                        &&& final(self).query_running
                        &&& final(self).pending_retry_query is None
                        &&& final(self).inflight_query_sql is Some
                        &&& final(self).inflight_query_sql->0@ == old(self).pending_retry_query->0@
                        &&& final(self).query_editor_text@ == old(self).pending_retry_query->0@
                        &&& final(self).pane == Pane::Results
                    }
                    &&& !replay ==> {
                        &&& r@.len() == (if chosen is Some { 1int } else { 0int })
                        &&& final(self).pane == Pane::SchemaExplorer
                        &&& final(self).pending_retry_query == old(self).pending_retry_query
                        &&& final(self).query_running == old(self).query_running
                    }
                },
                ConnectOutcome::Failure(e) => {
                    &&& retry_connect_after_failure_spec(*old(self)) ==> r@.len() == 1 && (r@[0] matches Effect::StartConnect(_, i) && i == ConnectIntent::AutoReconnect)
                        && final(self).reconnect_attempts == old(self).reconnect_attempts + 1 && final(self).connect_requested
                    &&& !retry_connect_after_failure_spec(*old(self)) ==> r@.len() == 0 && final(self).error_panel is Some
                        && final(self).error_panel->0.kind == ErrorKind::Connection && final(self).error_panel->0.detail@ == e@
                        && final(self).pending_retry_query is None && final(self).reconnect_attempts == 0
                        && !final(self).connect_requested
                },
            },
    {
        let intent = self.connect_intent;
        self.connect_requested = false;
        self.connect_intent = ConnectIntent::Manual;
        match outcome {
            ConnectOutcome::Success { profile, latency_ms, databases, warning } => {
                self.reconnect_attempts = 0;
                let mut effects = self.apply_connected_profile(profile, latency_ms, databases, warning);
                self.error_panel = None;
                if intent == ConnectIntent::AutoReconnect {
                    let mut pending: Option<String> = None;
                    core::mem::swap(&mut pending, &mut self.pending_retry_query);
                    match pending {
                        Some(sql) => {
                            let e = self.start_query(sql);
                            effects.push(e);
                        },
                        None => {
                            self.set_status("Auto-reconnect succeeded");
                        },
                    }
                }
                effects
            },
            ConnectOutcome::Failure(error) => {
                let has_profile = self.active_connection_profile.is_some()
                    || self.last_connect_profile.is_some();
                if retry_connect_after_failure(intent, self.reconnect_attempts, has_profile) {
                    match self.reconnect_profile() {
                        Some(profile) => {
                            self.reconnect_attempts = self.reconnect_attempts + 1;
                            let e = self.start_connect_with_profile(profile, ConnectIntent::AutoReconnect);
                            let mut effects = Vec::new();
                            effects.push(e);
                            return effects;
                        },
                        None => {},
                    }
                }
                self.pending_retry_query = None;
                self.reconnect_attempts = 0;
                let mut status = copy_str("Connect failed: ");
                push_all(&mut status, error.as_str());
                self.status_line = status;
                let summary = if intent == ConnectIntent::AutoReconnect {
                    "Auto-reconnect attempts were exhausted"
                } else {
                    "Connection attempt failed"
                };
                self.open_error_panel(ErrorKind::Connection, "Connection Error", summary, error.as_str());
                Vec::new()
            },
        }
    }

    /// Tables of a database arrived; the first is selected and its columns are asked for.
    pub fn on_tables_loaded(&mut self, database: &str, tables: Vec<String>) -> (r: Vec<Effect>)
        requires
            old(self).wf(),
        ensures
            final(self).wf(),
            final(self).query_running == old(self).query_running,
            final(self).error_panel == old(self).error_panel,
            !is_active_database(*old(self), database@) ==> *final(self) == *old(self) && r@.len() == 0,
            is_active_database(*old(self), database@) ==> {
                &&& final(self).schema_tables == tables
                &&& final(self).selected_table_index == 0
                &&& final(self).schema_columns@.len() == 0
                &&& final(self).selection.column is None
                &&& tables@.len() == 0 ==> final(self).selection.table is None && r@.len() == 0
                    && final(self).schema_lane == SchemaLane::Databases
                &&& tables@.len() > 0 ==> final(self).selection.table is Some
                    && final(self).selection.table->0@ == tables@[0]@
                    && final(self).schema_lane == SchemaLane::Tables && r@.len() == 1
                    && (r@[0] matches Effect::LoadColumns(d, t) && d@ == database@ && t@ == tables@[0]@)
            },
    {
        let current = match &self.active_database {
            Some(d) => crate::text::same_text(d, database),
            None => false,
        };
        if !current {
            return Vec::new();
        }
        self.schema_tables = tables;
        self.selected_table_index = 0;
        self.selection.table = if self.schema_tables.len() > 0 {
            Some(copy_str(self.schema_tables[0].as_str()))
        } else {
            None
        };
        self.schema_columns = Vec::new();
        self.selected_column_index = 0;
        self.selection.column = None;
        self.schema_lane = if self.schema_tables.len() > 0 {
            SchemaLane::Tables
        } else {
            SchemaLane::Databases
        };
        self.set_query_editor_to_selected_table();
        let mut effects = Vec::new();
        match &self.selection.table {
            Some(t) => effects.push(Effect::LoadColumns(copy_str(database), copy_str(t.as_str()))),
            None => {},
        }
        effects
    }

    /// Columns of a table arrived; the first is selected.
    pub fn on_columns_loaded(&mut self, database: &str, table: &str, columns: Vec<String>)
        requires
            old(self).wf(),
        ensures
            final(self).wf(),
            final(self).query_running == old(self).query_running,
            !(is_active_database(*old(self), database@) && is_selected_table(*old(self), table@))
                ==> *final(self) == *old(self),
            (is_active_database(*old(self), database@) && is_selected_table(*old(self), table@)) ==> {
                &&& final(self).schema_columns == columns
                &&& final(self).selected_column_index == 0
                &&& columns@.len() == 0 ==> final(self).selection.column is None
                &&& columns@.len() > 0 ==> final(self).selection.column is Some
                    && final(self).selection.column->0@ == columns@[0]@
            },
    {
        let current_db = match &self.active_database {
            Some(d) => crate::text::same_text(d, database),
            None => false,
        };
        let current_table = match &self.selection.table {
            Some(t) => crate::text::same_text(t, table),
            None => false,
        };
        if !current_db || !current_table {
            return;
        }
        self.schema_columns = columns;
        self.selected_column_index = 0;
        self.selection.column = if self.schema_columns.len() > 0 {
            Some(copy_str(self.schema_columns[0].as_str()))
        } else {
            None
        };
    }

    /// Shows a message on the status line.
    pub fn report(&mut self, text: &str)
        ensures
            same_but_status(*old(self), *final(self)),
            final(self).status_line@ == text@,
    {
        self.set_status(text);
    }
}

fn copy_strings(v: &Vec<String>) -> (r: Vec<String>)
    ensures
        r@.len() == v@.len(),
        forall|k: int| 0 <= k < v@.len() ==> (#[trigger] r@[k])@ == v@[k]@,
{
    let mut r: Vec<String> = Vec::new();
    let mut i: usize = 0;
    while i < v.len()
        invariant
            i <= v@.len(),
            r@.len() == i,
            forall|k: int| 0 <= k < i ==> (#[trigger] r@[k])@ == v@[k]@,
        decreases v.len() - i,
    {
        r.push(copy_str(v[i].as_str()));
        i = i + 1;
    }
    r
}

fn one(e: Option<Effect>) -> (r: Vec<Effect>)
    ensures
        e is None ==> r@.len() == 0,
        e is Some ==> r@ == seq![e->0],
{
    let mut r = Vec::new();
    match e {
        Some(x) => r.push(x),
        None => {},
    }
    assert(e is Some ==> r@ =~= seq![e->0]);
    r
}

impl Workbench {
    /// Starts a table preview: paged when the selected table allows it, else as given.
    fn start_preview_paged_query(&mut self, fallback_sql: String) -> (r: Vec<Effect>)
        requires
            old(self).wf(),
        ensures
            final(self).actions == old(self).actions,
            final(self).results == old(self).results,
            final(self).wf(),
    {
        let state = match build_preview_pagination_state(&self.selection, &self.schema_columns) {
            Some(st) => st,
            None => {
                self.clear_pagination_state();
                return one(self.execute_sql_with_guard(fallback_sql));
            },
        };
        match crate::workbench::pagination_sql(&state, PageTransition::Reset) {
            Err(e) => {
                self.clear_pagination_state();
                let mut status = copy_str("Pagination setup failed: ");
                push_all(&mut status, e.message());
                self.status_line = status;
                Vec::new()
            },
            Ok(sql) => {
                if self.schema_columns.len() > 0 {
                    self.result_columns = copy_strings(&self.schema_columns);
                }
                self.pagination_state = Some(state);
                self.pending_page_transition = Some(PageTransition::Reset);
                one(self.execute_sql_with_guard(sql))
            },
        }
    }

    /// Moves to the next or previous page of the current preview.
    fn run_pagination_transition(&mut self, transition: PageTransition) -> (r: Vec<Effect>)
        requires
            old(self).wf(),
        ensures
            final(self).actions == old(self).actions,
            final(self).results == old(self).results,
            final(self).wf(),
            old(self).pagination_state is None ==> r@.len() == 0 && same_but_status(*old(self), *final(self)),
            old(self).pagination_state is Some && crate::workbench::transition_refused(old(self).pagination_state->0, transition)
                ==> r@.len() == 0 && same_but_status(*old(self), *final(self))
                && final(self).status_line@ == "Already at the first page"@,
    {
        let planned = match &self.pagination_state {
            Some(state) => plan_page_transition(state, transition),
            None => {
                self.set_status("Pagination is not active for the current result set");
                return Vec::new();
            },
        };
        match planned {
            Err(PaginationError::AlreadyAtFirstPage) => {
                self.set_status("Already at the first page");
                Vec::new()
            },
            Err(e) => {
                let mut status = copy_str("Pagination unavailable: ");
                push_all(&mut status, e.message());
                self.status_line = status;
                Vec::new()
            },
            Ok(sql) => {
                if self.schema_columns.len() > 0 {
                    self.result_columns = copy_strings(&self.schema_columns);
                }
                self.pending_page_transition = Some(transition);
                one(self.execute_sql_with_guard(sql))
            },
        }
    }

    fn export_results(&mut self, format: ExportFormat) -> (r: Vec<Effect>)
        ensures
            (old(self).has_results && old(self).results@.len() > 0) ==> r@ == seq![Effect::ExportResults(format)],
            !(old(self).has_results && old(self).results@.len() > 0) ==> r@.len() == 0,
            same_but_status(*old(self), *final(self)),
    {
        if !self.has_results || self.results.len() == 0 {
            self.set_status("No results available to export");
            return Vec::new();
        }
        self.set_status("Exporting results...");
        one(Some(Effect::ExportResults(format)))
    }

    /// Carries out what an invoked action asks for.
    fn apply_invocation(&mut self, action_id: ActionId, invocation: ActionInvocation) -> (r: Vec<Effect>)
        requires
            old(self).wf(),
        ensures
            final(self).wf(),
            final(self).actions == old(self).actions,
            match invocation {
                ActionInvocation::RunSql(sql) => action_id != ActionId::PreviewTable ==> guard_outcome(*old(self), *final(self), r@, sql@)
                    && final(self).pagination_state is None,
                ActionInvocation::ReplaceQueryEditorText(q) => r@.len() == 0 && final(self).query_editor_text == q,
                ActionInvocation::CancelQuery => !final(self).query_running && final(self).cancel_requested
                    && (old(self).query_running ==> r@ == seq![Effect::CancelQuery])
                    && (!old(self).query_running ==> r@.len() == 0),
                ActionInvocation::ExportResults(f) => (old(self).has_results && old(self).results@.len() > 0 ==> r@ == seq![Effect::ExportResults(f)])
                    && (!(old(self).has_results && old(self).results@.len() > 0) ==> r@.len() == 0),
                ActionInvocation::CopyToClipboard(t) => r@ == seq![Effect::CopyToClipboard(t)],
                ActionInvocation::OpenView(v) => r@.len() == 0 && (v != AppView::CommandPalette ==> pane_view(final(self).pane) == v),
                ActionInvocation::SearchBufferedResults => r@.len() == 0
                    && (old(self).results@.len() > 0 ==> final(self).results_search_mode && final(self).pane == Pane::Results)
                    && (old(self).results@.len() == 0 ==> !final(self).results_search_mode),
                _ => true,
            },
    {
        match invocation {
            ActionInvocation::RunSql(sql) => {
                if action_id == ActionId::PreviewTable {
                    self.start_preview_paged_query(sql)
                } else {
                    self.clear_pagination_state();
                    let ghost cleared = *self;
                    let ghost text = sql@;
                    let started = self.execute_sql_with_guard(sql);
                    let effects = one(started);
                    assert(cleared.safe_mode_guard == old(self).safe_mode_guard);
                    assert(cleared.query_running == old(self).query_running);
                    assert(guard_outcome(cleared, *self, effects@, text));
                    assert(guard_outcome(*old(self), *self, effects@, text));
                    effects
                }
            },
            ActionInvocation::PaginatePrevious => self.run_pagination_transition(PageTransition::Previous),
            ActionInvocation::PaginateNext => self.run_pagination_transition(PageTransition::Next),
            ActionInvocation::ReplaceQueryEditorText(query) => {
                self.query_editor_text = query;
                self.set_status("Applied LIMIT suggestion");
                Vec::new()
            },
            ActionInvocation::CancelQuery => {
                let was_running = self.query_running;
                self.query_running = false;
                self.cancel_requested = true;
                self.set_status("Query cancelled");
                if was_running {
                    one(Some(Effect::CancelQuery))
                } else {
                    Vec::new()
                }
            },
            ActionInvocation::ExportResults(format) => self.export_results(format),
            ActionInvocation::CopyToClipboard(target) => {
                self.set_status("Copy requested");
                one(Some(Effect::CopyToClipboard(target)))
            },
            ActionInvocation::OpenView(view) => {
                let pane = match view {
                    AppView::ConnectionWizard => Pane::ConnectionWizard,
                    AppView::SchemaExplorer => Pane::SchemaExplorer,
                    AppView::Results => Pane::Results,
                    AppView::QueryEditor => Pane::QueryEditor,
                    AppView::CommandPalette => self.pane,
                };
                self.set_active_pane(pane);
                let mut status = copy_str("Switched view to ");
                push_all(&mut status, self.pane_name());
                self.status_line = status;
                Vec::new()
            },
            ActionInvocation::SearchBufferedResults => {
                self.start_results_search();
                Vec::new()
            },
        }
    }

    /// Invokes an action in the current context.
    pub fn invoke_action(&mut self, action_id: ActionId) -> (r: Vec<Effect>)
        requires
            old(self).wf(),
        ensures
            final(self).wf(),
            invoke_outcome(*old(self), *final(self), r@, action_id),
    {
        let context = self.action_context();
        proof {
            lemma_same_context(context, context_of(*self), action_id);
        }
        match self.actions.invoke(action_id, &context) {
            Ok(invocation) => self.apply_invocation(action_id, invocation),
            Err(error) => {
                let text = match error {
                    ActionEngineError::ActionDisabled(_) => "Action error: action is disabled in the current context",
                    ActionEngineError::MissingTableSelection => "Action error: selected table is required",
                    ActionEngineError::MissingDatabaseSelection => "Action error: selected database is required",
                    ActionEngineError::MissingQueryText => "Action error: query text is required",
                    ActionEngineError::NoLimitSuggestion => "Action error: no LIMIT suggestion is available for this query",
                    ActionEngineError::SqlGeneration(e) => e.message(),
                };
                self.set_status(text);
                Vec::new()
            },
        }
    }

    /// Ranked actions whose title contains the palette query (ASCII case ignored).
    pub fn palette_entries(&self) -> (r: Vec<ActionId>)
        requires
            self.wf(),
        ensures
            r@.len() <= crate::actions_engine::ACTION_COUNT,
            forall|k: int| 0 <= k < r@.len() ==> palette_match(*self, #[trigger] r@[k]),
            forall|id: ActionId| #[trigger] palette_match(*self, id) ==> r@.contains(id),
            forall|i: int, j: int| 0 <= i < j < r@.len() ==> #[trigger] r@[i] != #[trigger] r@[j],
            forall|i: int, j: int|
                0 <= i < j < r@.len() ==> crate::actions_engine::outranks(
                    self.actions.score_of(#[trigger] r@[i], context_of(*self)),
                    crate::actions_engine::action_title(r@[i]),
                    self.actions.score_of(#[trigger] r@[j], context_of(*self)),
                    crate::actions_engine::action_title(r@[j]),
                ),
    {
        let context = self.action_context();
        let ranked = self.actions.rank_top_n(&context, 50);
        proof {
            crate::actions_engine::lemma_enabled_ids_len(context);
            assert forall|id: ActionId| true implies (crate::actions_engine::enabled_in(id, context)
                == crate::actions_engine::enabled_in(id, context_of(*self))
                && self.actions.score_of(id, context) == self.actions.score_of(id, context_of(*self))) by {
                lemma_same_context(context, context_of(*self), id);
                crate::actions_engine::lemma_same_score(context, context_of(*self), id);
            }
        }
        let needle = crate::text::lower_chars(&chars_of(self.palette_query.as_str()));
        let mut out: Vec<ActionId> = Vec::new();
        let ghost mut picked: Seq<int> = Seq::empty();
        let mut i: usize = 0;
        while i < ranked.len()
            invariant
                i <= ranked@.len(),
                ranked@.len() <= crate::actions_engine::ACTION_COUNT,
                out@.len() == picked.len(),
                out@.len() <= i,
                needle@ == crate::text::lower_seq(self.palette_query@),
                forall|k: int| 0 <= k < ranked@.len() ==> {
                    let a = #[trigger] ranked@[k];
                    &&& a.title@ == crate::actions_engine::action_title(a.id)
                    &&& crate::actions_engine::enabled_in(a.id, context_of(*self))
                    &&& a.score == self.actions.score_of(a.id, context_of(*self))
                },
                forall|k: int| 0 <= k < picked.len() ==> 0 <= #[trigger] picked[k] < i && out@[k] == ranked@[picked[k]].id,
                forall|k: int, m: int| 0 <= k < m < picked.len() ==> #[trigger] picked[k] < #[trigger] picked[m],
                forall|k: int| 0 <= k < out@.len() ==> palette_match(*self, #[trigger] out@[k]),
                forall|k: int| 0 <= k < i && palette_title_match(*self, (#[trigger] ranked@[k]).id) ==> out@.contains(ranked@[k].id),
            decreases ranked.len() - i,
        {
            let title = crate::text::lower_chars(&chars_of(ranked[i].title));
            let ghost before = out@;
            let hit = needle.len() == 0 || crate::text::contains_chars(&title, &needle);
            assert(hit == palette_title_match(*self, ranked@[i as int].id));
            if hit {
                out.push(ranked[i].id);
                proof {
                    picked = picked.push(i as int);
                    assert(out@[out@.len() - 1] == ranked@[i as int].id);
                }
            }
            proof {
                assert forall|k: int| 0 <= k < i + 1 && palette_title_match(*self, (#[trigger] ranked@[k]).id) implies out@.contains(ranked@[k].id) by {
                    if k < i {
                        let m = choose|m: int| 0 <= m < before.len() && before[m] == ranked@[k].id;
                        assert(out@[m] == before[m]);
                    } else {
                        assert(out@[out@.len() - 1] == ranked@[k].id);
                    }
                }
            }
            i = i + 1;
        }
        proof {
            assert forall|id: ActionId| #[trigger] palette_match(*self, id) implies out@.contains(id) by {
                assert(crate::actions_engine::enabled_in(id, context));
                let k = choose|k: int| 0 <= k < ranked@.len() && ranked@[k].id == id;
                assert(palette_title_match(*self, ranked@[k].id));
            }
            assert forall|a: int, b: int| 0 <= a < b < out@.len() implies #[trigger] out@[a] != #[trigger] out@[b] by {
                assert(picked[a] < picked[b]);
            }
            assert forall|a: int, b: int| 0 <= a < b < out@.len() implies crate::actions_engine::outranks(
                self.actions.score_of(#[trigger] out@[a], context_of(*self)),
                crate::actions_engine::action_title(out@[a]),
                self.actions.score_of(#[trigger] out@[b], context_of(*self)),
                crate::actions_engine::action_title(out@[b]),
            ) by {
                assert(picked[a] < picked[b]);
                assert(crate::actions_engine::ranks_above(ranked@[picked[a]], ranked@[picked[b]]));
            }
        }
        out
    }

    fn selected_palette_action(&self) -> (r: Option<ActionId>)
        requires
            self.wf(),
    {
        let entries = self.palette_entries();
        if self.palette_selection < entries.len() {
            Some(entries[self.palette_selection])
        } else {
            None
        }
    }

    /// Invokes the ranked action bound to a footer slot.
    fn invoke_ranked_action(&mut self, index: usize) -> (r: Vec<Effect>)
        requires
            old(self).wf(),
        ensures
            final(self).wf(),
            old(self).pane != Pane::ConnectionWizard && !old(self).show_palette ==> {
                let count = crate::actions_engine::enabled_ids(context_of(*old(self))).len();
                &&& (index >= FOOTER_ACTIONS_LIMIT || index >= count) ==> r@.len() == 0 && same_but_status(*old(self), *final(self))
                &&& (index < FOOTER_ACTIONS_LIMIT && index < count) ==> exists|id: ActionId|
                    crate::actions_engine::enabled_in(id, context_of(*old(self))) && #[trigger] invoke_outcome(*old(self), *final(self), r@, id)
            },
    {
        if self.pane == Pane::ConnectionWizard {
            if self.wizard_form.editing {
                let digit = if index < 9 {
                    ((index as u8) + 49) as char
                } else {
                    '0'
                };
                self.wizard_form.edit_buffer.push(digit);
                self.set_status("Editing field");
            } else {
                self.set_status("Press E or Enter to edit the selected field");
            }
            return Vec::new();
        }
        if self.show_palette {
            let count = self.palette_entries().len();
            self.palette_selection = if index < count {
                index
            } else if count > 0 {
                count - 1
            } else {
                0
            };
            return self.submit();
        }
        let context = self.action_context();
        proof {
            lemma_same_enabled_prefix(context, context_of(*self), crate::actions_engine::ACTION_COUNT as nat);
        }
        let ranked = self.actions.rank_top_n(&context, FOOTER_ACTIONS_LIMIT);
        if index >= ranked.len() {
            self.set_status("No action bound to that slot");
            return Vec::new();
        }
        let id = ranked[index].id;
        proof {
            lemma_same_context(context, context_of(*self), id);
        }
        let effects = self.invoke_action(id);
        assert(invoke_outcome(*old(self), *self, effects@, id));
        effects
    }

    /// Enters results search, when there are rows to search.
    fn start_results_search(&mut self)
        requires
            old(self).wf(),
        ensures
            final(self).actions == old(self).actions,
            final(self).safe_mode_guard == old(self).safe_mode_guard,
            final(self).results == old(self).results,
            final(self).wf(),
            old(self).results@.len() == 0 ==> !final(self).results_search_mode,
            old(self).results@.len() > 0 ==> final(self).results_search_mode && final(self).pane == Pane::Results,
            final(self).results == old(self).results,
    {
        if self.results.len() == 0 {
            self.results_search_mode = false;
            self.set_status("No buffered rows yet");
            return;
        }
        self.set_active_pane(Pane::Results);
        self.results_search_mode = true;
        self.apply_results_search(false);
    }

    /// Moves the results cursor to the matching row: from the top, or (`find_next`) from
    /// the row after the cursor, wrapping around.
    pub fn apply_results_search(&mut self, find_next: bool)
        ensures
            final(self).results == old(self).results,
            final(self).results_search_mode == old(self).results_search_mode,
            final(self).results_search_query == old(self).results_search_query,
            final(self).pane == old(self).pane,
            final(self).actions == old(self).actions,
            final(self).safe_mode_guard == old(self).safe_mode_guard,
            final(self).results_cursor as int == search_cursor(
                old(self).results_search_query@,
                old(self).results@,
                old(self).results_cursor,
                find_next,
            ),
            search_hit(old(self).results_search_query@, old(self).results@, old(self).results_cursor, find_next)
                ==> final(self).status_line@ == search_status(final(self).results_cursor, old(self).results@.len()),
    {
        let query = crate::text::trim_str(self.results_search_query.as_str());
        if crate::text::is_blank_str(self.results_search_query.as_str()) {
            self.set_status("Search results: type text, Enter next, Esc cancel");
            return;
        }
        let n = self.results.len();
        if n == 0 {
            self.set_status("No buffered rows yet");
            return;
        }
        let start: usize = if find_next {
            let c = self.results_cursor % n;
            proof {
                let ci = c as int;
                assert(0 <= ci < n) by (nonlinear_arith)
                    requires
                        ci == (self.results_cursor as int) % (n as int),
                        n > 0,
                ;
                if ci + 1 < n {
                    assert((ci + 1) % (n as int) == ci + 1) by (nonlinear_arith)
                        requires
                            0 <= ci + 1 < n,
                    ;
                } else {
                    assert((ci + 1) % (n as int) == 0) by (nonlinear_arith)
                        requires
                            ci + 1 == n,
                            n > 0,
                    ;
                }
            }
            if c + 1 < n {
                c + 1
            } else {
                0
            }
        } else {
            0
        };
        match find_results_match_index(&self.results, query.as_str(), start) {
            Some(index) => {
                self.results_cursor = index;
                let mut status = copy_str("Search matched row ");
                push_decimal(&mut status, (index as u64) + 1);
                push_all(&mut status, " / ");
                push_decimal(&mut status, n as u64);
                push_all(&mut status, " (Enter next, Esc cancel)");
                self.status_line = status;
            },
            None => {
                self.set_status("No match in the buffered rows");
            },
        }
    }
}

/// `s` without its last character.
fn without_last(s: &String) -> (r: String)
    ensures
        s@.len() == 0 ==> r@ == s@,
        s@.len() > 0 ==> r@ == s@.drop_last(),
{
    let v = chars_of(s.as_str());
    if v.len() == 0 {
        return copy_str(s.as_str());
    }
    let r = string_of(&v, 0, v.len() - 1);
    assert(v@.subrange(0, v@.len() - 1) =~= v@.drop_last());
    r
}

impl Workbench {
    fn active_wizard_value(&self) -> (r: &String) {
        match self.wizard_form.active_field {
            WizardField::ProfileName => &self.wizard_form.profile_name,
            WizardField::Host => &self.wizard_form.host,
            WizardField::Port => &self.wizard_form.port,
            WizardField::User => &self.wizard_form.user,
            WizardField::Database => &self.wizard_form.database,
        }
    }

    fn start_wizard_edit(&mut self)
        ensures
            final(self).pane == old(self).pane,
            final(self).show_help == old(self).show_help,
            final(self).actions == old(self).actions,
            final(self).safe_mode_guard == old(self).safe_mode_guard,
            final(self).results == old(self).results,
    {
        if self.pane != Pane::ConnectionWizard || self.wizard_form.editing {
            return;
        }
        let current = copy_str(self.active_wizard_value().as_str());
        self.wizard_form.editing = true;
        self.wizard_form.edit_buffer = current;
        self.set_status("Editing field (Enter save, Esc cancel, Ctrl+U clear)");
    }

    fn commit_wizard_edit(&mut self)
        ensures
            final(self).pane == old(self).pane,
            final(self).show_help == old(self).show_help,
            final(self).actions == old(self).actions,
            final(self).safe_mode_guard == old(self).safe_mode_guard,
            final(self).results == old(self).results,
    {
        if self.pane != Pane::ConnectionWizard || !self.wizard_form.editing {
            return;
        }
        let updated = copy_str(self.wizard_form.edit_buffer.as_str());
        match self.wizard_form.active_field {
            WizardField::ProfileName => self.wizard_form.profile_name = updated,
            WizardField::Host => self.wizard_form.host = updated,
            WizardField::Port => self.wizard_form.port = updated,
            WizardField::User => self.wizard_form.user = updated,
            WizardField::Database => self.wizard_form.database = updated,
        }
        self.wizard_form.editing = false;
        self.wizard_form.edit_buffer = String::new();
        self.set_status("Saved field");
    }

    fn cancel_wizard_edit(&mut self)
        ensures
            final(self).pane == old(self).pane,
            final(self).show_help == old(self).show_help,
            final(self).actions == old(self).actions,
            final(self).safe_mode_guard == old(self).safe_mode_guard,
            final(self).results == old(self).results,
    {
        if self.pane != Pane::ConnectionWizard || !self.wizard_form.editing {
            return;
        }
        self.wizard_form.editing = false;
        self.wizard_form.edit_buffer = String::new();
        self.set_status("Canceled editing");
    }

    /// Enter: runs the palette choice, edits or saves a wizard field, or runs the editor
    /// query (confirming a pending risky statement first).
    fn submit(&mut self) -> (r: Vec<Effect>)
        requires
            old(self).wf(),
        ensures
            final(self).wf(),
            !old(self).show_palette && (old(self).pane == Pane::SchemaExplorer || old(self).pane == Pane::Results)
                ==> r@.len() == 0 && same_but_status(*old(self), *final(self)),
            !old(self).show_palette && old(self).pane == Pane::QueryEditor && old(self).pending_confirmation is None
                ==> invoke_outcome(*old(self), *final(self), r@, ActionId::RunCurrentQuery),
            !old(self).show_palette && old(self).pane == Pane::QueryEditor && old(self).pending_confirmation is Some ==> {
                let token = pending_token(*old(self));
                let sql = pending_sql(*old(self));
                let ok = crate::safe_mode::confirm_outcome(
                    old(self).safe_mode_guard.pending(),
                    token,
                    crate::safe_mode::fingerprint(crate::safe_mode::normalized(sql)),
                ) is Ok;
                &&& final(self).pending_confirmation is None
                &&& ok ==> r@.len() == 1 && (r@[0] matches Effect::StartQuery(q) && q@ == sql) && final(self).query_running
                &&& !ok ==> r@.len() == 0
            },
    {
        if self.show_palette {
            match self.selected_palette_action() {
                Some(action_id) => {
                    let effects = self.invoke_action(action_id);
                    self.show_palette = false;
                    return effects;
                },
                None => {
                    self.set_status("No matching palette action");
                    return Vec::new();
                },
            }
        }
        match self.pane {
            Pane::ConnectionWizard => {
                if self.wizard_form.editing {
                    self.commit_wizard_edit();
                } else {
                    self.start_wizard_edit();
                }
                Vec::new()
            },
            Pane::QueryEditor => {
                let mut pending: Option<(ConfirmationToken, String)> = None;
                core::mem::swap(&mut pending, &mut self.pending_confirmation);
                match pending {
                    Some((token, sql)) => {
                        match self.safe_mode_guard.confirm(&token, sql.as_str()) {
                            Ok(()) => one(Some(self.start_query(sql))),
                            Err(e) => {
                                let mut status = copy_str("Confirmation failed: ");
                                push_all(&mut status, e.message());
                                self.status_line = status;
                                Vec::new()
                            },
                        }
                    },
                    None => self.invoke_action(ActionId::RunCurrentQuery),
                }
            },
            _ => {
                self.set_status("Nothing to submit in this view");
                Vec::new()
            },
        }
    }

    fn connect_from_wizard(&mut self) -> (r: Vec<Effect>)
        requires
            old(self).wf(),
        ensures
            final(self).wf(),
            wizard_connect_outcome(*old(self), *final(self), r@),
    {
        match self.wizard_profile() {
            Ok(profile) => one(Some(self.start_connect_with_profile(profile, ConnectIntent::Manual))),
            Err(error) => {
                self.status_line = error;
                Vec::new()
            },
        }
    }

    fn connect(&mut self) -> (r: Vec<Effect>)
        requires
            old(self).wf(),
        ensures
            final(self).wf(),
            old(self).pane != Pane::ConnectionWizard ==> r@.len() == 0 && same_but_status(*old(self), *final(self)),
            old(self).pane == Pane::ConnectionWizard && !old(self).wizard_form.editing && old(self).connect_requested
                ==> r@.len() == 0 && same_but_status(*old(self), *final(self)),
            old(self).pane == Pane::ConnectionWizard && !old(self).wizard_form.editing && !old(self).connect_requested
                ==> wizard_connect_outcome(*old(self), *final(self), r@),
    {
        if self.pane == Pane::ConnectionWizard {
            if self.wizard_form.editing {
                self.commit_wizard_edit();
            }
            if self.connect_requested {
                self.set_status("Already connecting...");
                Vec::new()
            } else {
                self.connect_from_wizard()
            }
        } else {
            self.set_status("Connect is only available in connection wizard");
            Vec::new()
        }
    }

    fn reconnect_from_error_panel(&mut self) -> (r: Vec<Effect>)
        requires
            old(self).wf(),
        ensures
            final(self).wf(),
    {
        if self.connect_requested {
            self.set_status("Already connecting...");
            return Vec::new();
        }
        let profile = match self.reconnect_profile() {
            Some(p) => p,
            None => match self.wizard_profile() {
                Ok(p) => p,
                Err(_) => {
                    self.set_status("Reconnect unavailable: provide a valid connection profile");
                    return Vec::new();
                },
            },
        };
        self.error_panel = None;
        self.reconnect_attempts = 0;
        one(Some(self.start_connect_with_profile(profile, ConnectIntent::Manual)))
    }

    /// The error panel's primary action: rerun the failed query, else reconnect.
    fn run_primary_error_action(&mut self) -> (r: Vec<Effect>)
        requires
            old(self).wf(),
        ensures
            final(self).wf(),
    {
        let kind = match &self.error_panel {
            Some(panel) => panel.kind,
            None => return Vec::new(),
        };
        if kind == ErrorKind::Query {
            let mut failed: Option<String> = None;
            core::mem::swap(&mut failed, &mut self.last_failed_query);
            match failed {
                Some(sql) => {
                    self.error_panel = None;
                    return one(Some(self.start_query(sql)));
                },
                None => {},
            }
        }
        self.reconnect_from_error_panel()
    }

    fn handle_error_panel_input(&mut self, msg: Msg) -> (r: Vec<Effect>)
        requires
            old(self).wf(),
        ensures
            final(self).wf(),
            !honored_by_error_panel(msg) ==> same_but_status(*old(self), *final(self)) && r@.len() == 0,
            msg is Quit ==> final(self).should_quit,
    {
        match msg {
            Msg::Tick => {
                self.on_tick();
                Vec::new()
            },
            Msg::TogglePalette => {
                self.error_panel = None;
                self.set_status("Error panel dismissed");
                Vec::new()
            },
            Msg::Submit => self.run_primary_error_action(),
            Msg::InvokeActionSlot(0) => self.run_primary_error_action(),
            Msg::Connect => self.reconnect_from_error_panel(),
            Msg::GoConnectionWizard => {
                self.error_panel = None;
                self.set_active_pane(Pane::ConnectionWizard);
                self.set_status("Returned to Connection Wizard");
                Vec::new()
            },
            Msg::Quit => {
                self.should_quit = true;
                Vec::new()
            },
            _ => {
                self.set_status("Error panel active: 1 primary action | F5 reconnect | F6 wizard | Esc close");
                Vec::new()
            },
        }
    }

    /// One scheduler tick: animations advance and the tab flash fades.
    pub fn on_tick(&mut self)
        ensures
            final(self).pane_flash_ticks == (if old(self).pane_flash_ticks > 0 {
                (old(self).pane_flash_ticks - 1) as u8
            } else {
                0
            }),
            final(self).actions == old(self).actions,
            final(self).safe_mode_guard == old(self).safe_mode_guard,
            final(self).results == old(self).results,
            final(self).exit_confirmation == old(self).exit_confirmation,
            final(self).error_panel == old(self).error_panel,
            final(self).pane == old(self).pane,
            final(self).query_running == old(self).query_running,
    {
        self.loading_tick = if self.loading_tick < usize::MAX {
            self.loading_tick + 1
        } else {
            0
        };
        if self.pane_flash_ticks > 0 {
            self.pane_flash_ticks = self.pane_flash_ticks - 1;
        }
        if self.connect_requested {
            if self.connect_intent == ConnectIntent::AutoReconnect {
                self.set_status("Reconnecting...");
            } else {
                self.set_status("Connecting...");
            }
        } else if self.query_running {
            if self.cancel_requested {
                self.set_status("Cancelling query...");
            } else {
                self.set_status("Running query...");
            }
        }
    }

    /// Moves the results cursor one row, within the buffered rows.
    pub fn navigate_results(&mut self, direction: DirectionKey)
        ensures
            old(self).results@.len() == 0 ==> final(self).results_cursor == old(self).results_cursor,
            old(self).results@.len() > 0 && (direction is Up || direction is Left) ==> final(self).results_cursor == (if old(self).results_cursor > 0 { (old(self).results_cursor - 1) as usize } else { 0 }),
            old(self).results@.len() > 0 && (direction is Down || direction is Right) ==> final(self).results_cursor == (if old(self).results_cursor + 1 < old(self).results@.len() { (old(self).results_cursor + 1) as usize } else { (old(self).results@.len() - 1) as usize }),
            final(self).results == old(self).results,
            final(self).actions == old(self).actions,
            final(self).safe_mode_guard == old(self).safe_mode_guard,
    {
        let row_count = self.results.len();
        if row_count == 0 {
            self.set_status("No buffered rows yet");
            return;
        }
        match direction {
            DirectionKey::Up | DirectionKey::Left => {
                if self.results_cursor > 0 {
                    self.results_cursor = self.results_cursor - 1;
                }
            },
            DirectionKey::Down | DirectionKey::Right => {
                self.results_cursor = if self.results_cursor < row_count - 1 {
                    self.results_cursor + 1
                } else {
                    row_count - 1
                };
            },
        }
        self.set_status("Results cursor moved");
    }

    fn navigate_palette(&mut self, direction: DirectionKey)
        requires
            old(self).wf(),
        ensures
            final(self).wf(),
    {
        let count = self.palette_entries().len();
        if count == 0 {
            self.palette_selection = 0;
            return;
        }
        match direction {
            DirectionKey::Up | DirectionKey::Left => {
                if self.palette_selection > 0 {
                    self.palette_selection = self.palette_selection - 1;
                }
            },
            DirectionKey::Down | DirectionKey::Right => {
                self.palette_selection = if self.palette_selection < count - 1 {
                    self.palette_selection + 1
                } else {
                    count - 1
                };
            },
        }
        self.set_status("Palette selection moved");
    }

    /// Selects the database at `index`, if there is one, and asks for its tables.
    fn select_database(&mut self, index: usize) -> (r: Vec<Effect>)
        requires
            old(self).wf(),
        ensures
            final(self).wf(),
    {
        if index >= self.schema_databases.len() {
            return Vec::new();
        }
        self.selected_database_index = index;
        let name = copy_str(self.schema_databases[index].as_str());
        self.active_database = Some(copy_str(name.as_str()));
        self.selection.database = Some(copy_str(name.as_str()));
        self.schema_tables = Vec::new();
        self.selected_table_index = 0;
        self.selection.table = None;
        self.schema_columns = Vec::new();
        self.selected_column_index = 0;
        self.selection.column = None;
        self.clear_pagination_state();
        self.set_status("Selected database");
        one(Some(Effect::LoadTables(name)))
    }

    /// Selects the table at `index`, if there is one, and asks for its columns.
    fn select_table(&mut self, index: usize) -> (r: Vec<Effect>)
        requires
            old(self).wf(),
        ensures
            final(self).wf(),
    {
        if index >= self.schema_tables.len() {
            return Vec::new();
        }
        self.selected_table_index = index;
        let name = copy_str(self.schema_tables[index].as_str());
        self.selection.table = Some(copy_str(name.as_str()));
        self.schema_columns = Vec::new();
        self.selected_column_index = 0;
        self.selection.column = None;
        self.clear_pagination_state();
        self.set_query_editor_to_selected_table();
        self.set_status("Selected table");
        match &self.active_database {
            Some(d) => one(Some(Effect::LoadColumns(copy_str(d.as_str()), name))),
            None => Vec::new(),
        }
    }

    fn navigate_schema(&mut self, direction: DirectionKey) -> (r: Vec<Effect>)
        requires
            old(self).wf(),
        ensures
            final(self).wf(),
    {
        match direction {
            DirectionKey::Left => {
                self.schema_lane = self.schema_lane.previous();
                self.set_status(self.schema_lane.label());
                Vec::new()
            },
            DirectionKey::Right => {
                self.schema_lane = self.schema_lane.next();
                self.set_status(self.schema_lane.label());
                Vec::new()
            },
            DirectionKey::Up | DirectionKey::Down => {
                let up = direction == DirectionKey::Up;
                match self.schema_lane {
                    SchemaLane::Databases => {
                        let n = self.schema_databases.len();
                        if n == 0 {
                            self.set_status("No databases available");
                            return Vec::new();
                        }
                        let i = step_index(self.selected_database_index, n, up);
                        self.select_database(i)
                    },
                    SchemaLane::Tables => {
                        let n = self.schema_tables.len();
                        if n == 0 {
                            self.set_status("No tables available");
                            return Vec::new();
                        }
                        let i = step_index(self.selected_table_index, n, up);
                        self.select_table(i)
                    },
                    SchemaLane::Columns => {
                        let n = self.schema_columns.len();
                        if n == 0 {
                            self.set_status("No columns available");
                            return Vec::new();
                        }
                        let i = step_index(self.selected_column_index, n, up);
                        self.selected_column_index = i;
                        self.selection.column = Some(copy_str(self.schema_columns[i].as_str()));
                        self.set_status("Selected column");
                        Vec::new()
                    },
                }
            },
        }
    }

    fn navigate(&mut self, direction: DirectionKey) -> (r: Vec<Effect>)
        requires
            old(self).wf(),
        ensures
            final(self).wf(),
            !old(self).show_palette && old(self).pane == Pane::Results ==> r@.len() == 0
                && final(self).results_cursor == results_cursor_after(old(self).results_cursor, old(self).results@.len(), direction),
    {
        if self.show_palette {
            self.navigate_palette(direction);
            return Vec::new();
        }
        match self.pane {
            Pane::ConnectionWizard => {
                if self.wizard_form.editing {
                    self.set_status("Finish editing field first (Enter to save, Esc to cancel)");
                    return Vec::new();
                }
                match direction {
                    DirectionKey::Up => {
                        self.wizard_form.active_field = self.wizard_form.active_field.previous();
                        self.set_status(self.wizard_form.active_field.label());
                    },
                    DirectionKey::Down => {
                        self.wizard_form.active_field = self.wizard_form.active_field.next();
                        self.set_status(self.wizard_form.active_field.label());
                    },
                    _ => {
                        self.set_status("Use Up/Down to select a wizard field");
                    },
                }
                Vec::new()
            },
            Pane::SchemaExplorer => self.navigate_schema(direction),
            Pane::Results => {
                self.navigate_results(direction);
                Vec::new()
            },
            Pane::QueryEditor => {
                self.set_status("Navigation in editor");
                Vec::new()
            },
        }
    }

    fn handle_input_char(&mut self, ch: char)
        ensures
            final(self).actions == old(self).actions,
            final(self).safe_mode_guard == old(self).safe_mode_guard,
            final(self).results == old(self).results,
            !old(self).show_palette && old(self).pane == Pane::QueryEditor ==> final(self).query_editor_text@ == old(self).query_editor_text@.push(ch),
            old(self).show_palette ==> final(self).palette_query@ == old(self).palette_query@.push(ch) && final(self).palette_selection == 0,
    {
        if self.show_palette {
            self.palette_query.push(ch);
            self.palette_selection = 0;
            self.set_status("Palette query updated");
        } else if self.pane == Pane::ConnectionWizard {
            if !self.wizard_form.editing {
                if ch == 'e' || ch == 'E' {
                    self.start_wizard_edit();
                } else {
                    self.set_status("Press E or Enter to edit the selected field");
                }
            } else {
                self.wizard_form.edit_buffer.push(ch);
                self.set_status("Editing field");
            }
        } else if self.pane == Pane::QueryEditor {
            self.query_editor_text.push(ch);
            self.set_status("Query text updated");
        }
    }

    fn handle_backspace(&mut self)
        ensures
            final(self).actions == old(self).actions,
            final(self).safe_mode_guard == old(self).safe_mode_guard,
            final(self).results == old(self).results,
            !old(self).show_palette && old(self).pane == Pane::QueryEditor ==> (old(self).query_editor_text@.len() > 0 ==> final(self).query_editor_text@ == old(self).query_editor_text@.drop_last())
                && (old(self).query_editor_text@.len() == 0 ==> final(self).query_editor_text@.len() == 0),
    {
        if self.show_palette {
            self.palette_query = without_last(&self.palette_query);
            self.palette_selection = 0;
            self.set_status("Palette query updated");
        } else if self.pane == Pane::ConnectionWizard {
            if self.wizard_form.editing {
                self.wizard_form.edit_buffer = without_last(&self.wizard_form.edit_buffer);
                self.set_status("Editing field");
            } else {
                self.set_status("Press E or Enter to edit the selected field");
            }
        } else if self.pane == Pane::QueryEditor {
            self.query_editor_text = without_last(&self.query_editor_text);
            self.set_status("Query text updated");
        }
    }

    fn handle_clear_input(&mut self)
        ensures
            final(self).actions == old(self).actions,
            final(self).safe_mode_guard == old(self).safe_mode_guard,
            final(self).results == old(self).results,
            !old(self).show_palette && old(self).pane == Pane::QueryEditor ==> final(self).query_editor_text@.len() == 0,
    {
        if self.show_palette {
            self.palette_query = String::new();
            self.palette_selection = 0;
            self.set_status("Palette query cleared");
        } else if self.pane == Pane::ConnectionWizard {
            if self.wizard_form.editing {
                self.wizard_form.edit_buffer = String::new();
                self.set_status("Cleared field");
            } else {
                self.set_status("Press E or Enter to edit the selected field");
            }
        } else if self.pane == Pane::QueryEditor {
            self.query_editor_text = String::new();
            self.set_status("Query cleared");
        }
    }

    /// Applies one message. A pending exit prompt lets only Quit, Tick and CancelQuery
    /// through and is withdrawn by anything else; an open error panel honors only its own
    /// keys; results search takes the text keys; everything else acts on the current pane.
    pub fn handle(&mut self, msg: Msg) -> (r: Vec<Effect>)
        requires
            old(self).wf(),
        ensures
            final(self).wf(),
            old(self).exit_confirmation && !(msg is Quit || msg is Tick || msg is CancelQuery) ==> r@.len() == 0 && *final(self) == (Workbench { exit_confirmation: false, status_line: final(self).status_line, ..*old(self) }),
            old(self).exit_confirmation && msg is CancelQuery ==> final(self).should_quit,
            !old(self).exit_confirmation && old(self).error_panel is Some && !honored_by_error_panel(msg) ==> r@.len() == 0 && same_but_status(*old(self), *final(self)),
            !old(self).exit_confirmation && old(self).error_panel is None && msg is CancelQuery && !old(self).query_running ==> r@.len() == 0 && final(self).exit_confirmation,
            msg is Quit ==> final(self).should_quit,
            routed_to_search(*old(self), msg) && msg is TogglePalette ==> !final(self).results_search_mode && r@.len() == 0,
            routed_to_search(*old(self), msg) && (msg matches Msg::InputChar(c)) ==> final(self).results_search_query@ == old(self).results_search_query@.push(msg->InputChar_0) && final(self).results_search_mode && final(self).results == old(self).results && r@.len() == 0
                && final(self).results_cursor as int == search_cursor(final(self).results_search_query@, old(self).results@, old(self).results_cursor, false),
            routed_to_search(*old(self), msg) && msg is Submit ==> final(self).results_cursor as int == search_cursor(old(self).results_search_query@, old(self).results@, old(self).results_cursor, true) && r@.len() == 0
                && final(self).results == old(self).results && final(self).results_search_mode && final(self).results_search_query == old(self).results_search_query,
            routed_to_search(*old(self), msg) && (msg matches Msg::InputChar(c)) && search_hit(old(self).results_search_query@.push(msg->InputChar_0), old(self).results@, old(self).results_cursor, false)
                ==> final(self).status_line@ == search_status(final(self).results_cursor, old(self).results@.len()),
            routed_to_search(*old(self), msg) && msg is ClearInput ==> final(self).results_search_query@.len() == 0 && final(self).results_search_mode && r@.len() == 0,
            routed_to_main(*old(self), msg) && msg is ToggleSafeMode ==> final(self).safe_mode_guard.enabled_flag() == !old(self).safe_mode_guard.enabled_flag() && final(self).pending_confirmation is None,
            routed_to_main(*old(self), msg) && msg is NextPane && !(old(self).pane == Pane::ConnectionWizard && old(self).wizard_form.editing) ==> final(self).pane == pane_after(old(self).pane),
            routed_to_main(*old(self), msg) && msg is CancelQuery && old(self).query_running ==> final(self).cancel_requested && r@ == seq![Effect::CancelQuery],
            routed_to_main(*old(self), msg) && msg is Connect && old(self).pane != Pane::ConnectionWizard ==> r@.len() == 0 && same_but_status(*old(self), *final(self)),
            routed_to_main(*old(self), msg) && msg is Connect && old(self).pane == Pane::ConnectionWizard && !old(self).wizard_form.editing && old(self).connect_requested
                ==> r@.len() == 0 && same_but_status(*old(self), *final(self)),
            routed_to_main(*old(self), msg) && msg is Connect && old(self).pane == Pane::ConnectionWizard && !old(self).wizard_form.editing && !old(self).connect_requested
                ==> wizard_connect_outcome(*old(self), *final(self), r@),
            routed_to_main(*old(self), msg) && msg is Submit && !old(self).show_palette && (old(self).pane == Pane::SchemaExplorer || old(self).pane == Pane::Results)
                ==> r@.len() == 0 && same_but_status(*old(self), *final(self)),
            routed_to_main(*old(self), msg) && msg is Submit && !old(self).show_palette && old(self).pane == Pane::QueryEditor && old(self).pending_confirmation is None
                ==> invoke_outcome(*old(self), *final(self), r@, ActionId::RunCurrentQuery),
            routed_to_main(*old(self), msg) && (msg matches Msg::InvokeActionSlot(k)) && old(self).pane != Pane::ConnectionWizard && !old(self).show_palette ==> {
                let k = msg->InvokeActionSlot_0;
                let count = crate::actions_engine::enabled_ids(context_of(*old(self))).len();
                &&& (k >= FOOTER_ACTIONS_LIMIT || k >= count) ==> r@.len() == 0 && same_but_status(*old(self), *final(self))
                &&& (k < FOOTER_ACTIONS_LIMIT && k < count) ==> exists|id: ActionId|
                    crate::actions_engine::enabled_in(id, context_of(*old(self))) && #[trigger] invoke_outcome(*old(self), *final(self), r@, id)
            },
            routed_to_main(*old(self), msg) && (msg matches Msg::Navigate(d)) && !old(self).show_palette && old(self).pane == Pane::Results
                ==> r@.len() == 0 && final(self).results_cursor == results_cursor_after(old(self).results_cursor, old(self).results@.len(), msg->Navigate_0),
            routed_to_main(*old(self), msg) && msg is Tick ==> r@.len() == 0 && final(self).pane_flash_ticks == (if old(self).pane_flash_ticks > 0 { (old(self).pane_flash_ticks - 1) as u8 } else { 0 }),
            routed_to_main(*old(self), msg) && msg is GoConnectionWizard ==> r@.len() == 0 && final(self).pane == Pane::ConnectionWizard,
            routed_to_main(*old(self), msg) && msg is ToggleHelp ==> r@.len() == 0 && final(self).show_help == !old(self).show_help,
            routed_to_main(*old(self), msg) && msg is TogglePerfOverlay ==> r@.len() == 0 && final(self).show_perf_overlay == !old(self).show_perf_overlay,
            routed_to_main(*old(self), msg) && (msg matches Msg::InputChar(c)) && !old(self).show_palette && old(self).pane == Pane::QueryEditor
                ==> r@.len() == 0 && final(self).query_editor_text@ == old(self).query_editor_text@.push(msg->InputChar_0),
            routed_to_main(*old(self), msg) && msg is Backspace && !old(self).show_palette && old(self).pane == Pane::QueryEditor && old(self).query_editor_text@.len() > 0
                ==> r@.len() == 0 && final(self).query_editor_text@ == old(self).query_editor_text@.drop_last(),
            routed_to_main(*old(self), msg) && msg is ClearInput && !old(self).show_palette && old(self).pane == Pane::QueryEditor
                ==> r@.len() == 0 && final(self).query_editor_text@.len() == 0,
    {
        if self.exit_confirmation {
            match msg {
                Msg::Quit => {
                    self.should_quit = true;
                    return Vec::new();
                },
                Msg::Tick => {
                    self.on_tick();
                    return Vec::new();
                },
                Msg::CancelQuery => {
                    self.should_quit = true;
                    return Vec::new();
                },
                _ => {
                    self.exit_confirmation = false;
                    self.set_status("Exit canceled");
                    return Vec::new();
                },
            }
        }
        if self.error_panel.is_some() {
            return self.handle_error_panel_input(msg);
        }
        if self.results_search_mode {
            match msg {
                Msg::InputChar(ch) => {
                    self.results_search_query.push(ch);
                    self.apply_results_search(false);
                    return Vec::new();
                },
                Msg::Backspace => {
                    self.results_search_query = without_last(&self.results_search_query);
                    self.apply_results_search(false);
                    return Vec::new();
                },
                Msg::ClearInput => {
                    self.results_search_query = String::new();
                    self.apply_results_search(false);
                    return Vec::new();
                },
                Msg::Submit => {
                    self.apply_results_search(true);
                    return Vec::new();
                },
                Msg::TogglePalette => {
                    self.results_search_mode = false;
                    self.set_status("Results search canceled");
                    return Vec::new();
                },
                _ => {},
            }
        }
        match msg {
            Msg::Quit => {
                self.should_quit = true;
                Vec::new()
            },
            Msg::GoConnectionWizard => {
                self.set_active_pane(Pane::ConnectionWizard);
                if self.wizard_form.editing {
                    self.cancel_wizard_edit();
                } else {
                    self.set_status("Returned to Connection Wizard");
                }
                Vec::new()
            },
            Msg::ToggleHelp => {
                self.show_help = !self.show_help;
                Vec::new()
            },
            Msg::NextPane => {
                if self.pane == Pane::ConnectionWizard && self.wizard_form.editing {
                    self.set_status("Finish editing field first (Enter to save, Esc to cancel)");
                } else {
                    let next = self.pane.next();
                    self.set_active_pane(next);
                    let mut status = copy_str("Switched pane to ");
                    push_all(&mut status, self.pane_name());
                    self.status_line = status;
                }
                Vec::new()
            },
            Msg::TogglePalette => {
                if self.show_help {
                    self.show_help = false;
                    self.set_status("Help closed");
                    return Vec::new();
                }
                if self.pane == Pane::ConnectionWizard && self.wizard_form.editing {
                    self.cancel_wizard_edit();
                    return Vec::new();
                }
                self.show_palette = !self.show_palette;
                if self.show_palette {
                    self.palette_query = String::new();
                    self.palette_selection = 0;
                    self.set_status("Command palette opened");
                } else {
                    self.set_status("Command palette closed");
                }
                Vec::new()
            },
            Msg::TogglePerfOverlay => {
                self.show_perf_overlay = !self.show_perf_overlay;
                if self.show_perf_overlay {
                    self.set_status("Perf overlay enabled");
                } else {
                    self.set_status("Perf overlay disabled");
                }
                Vec::new()
            },
            Msg::ToggleSafeMode => {
                let next_enabled = !self.safe_mode_guard.is_enabled();
                self.safe_mode_guard.set_enabled(next_enabled);
                self.pending_confirmation = None;
                if next_enabled {
                    self.set_status("Safe mode enabled");
                } else {
                    self.set_status("Safe mode disabled");
                }
                Vec::new()
            },
            Msg::Submit => self.submit(),
            Msg::Connect => self.connect(),
            Msg::CancelQuery => {
                if !self.query_running {
                    self.exit_confirmation = true;
                    self.set_status("No active query. Exit myr? Press Ctrl+C again to confirm, F10 to exit now, Esc to cancel.");
                    return Vec::new();
                }
                self.cancel_requested = true;
                self.set_status("Cancelling query...");
                one(Some(Effect::CancelQuery))
            },
            Msg::Navigate(direction) => self.navigate(direction),
            Msg::InvokeActionSlot(index) => self.invoke_ranked_action(index),
            Msg::InputChar(ch) => {
                self.handle_input_char(ch);
                Vec::new()
            },
            Msg::Backspace => {
                self.handle_backspace();
                Vec::new()
            },
            Msg::ClearInput => {
                self.handle_clear_input();
                Vec::new()
            },
            Msg::Tick => {
                self.on_tick();
                Vec::new()
            },
        }
    }
}

/// One step up or down a list of `n > 0` entries, staying inside it.
fn step_index(current: usize, n: usize, up: bool) -> (r: usize)
    requires
        n > 0,
    ensures
        r < n,
{
    if up {
        if current > 0 && current - 1 < n {
            current - 1
        } else if current > 0 {
            n - 1
        } else {
            0
        }
    } else if current < n - 1 {
        current + 1
    } else {
        n - 1
    }
}

/// `database` names the database being browsed.
pub open spec fn is_active_database(w: Workbench, database: Seq<char>) -> bool {
    w.active_database is Some && w.active_database->0@ == database
}

/// `table` names the selected table.
pub open spec fn is_selected_table(w: Workbench, table: Seq<char>) -> bool {
    w.selection.table is Some && w.selection.table->0@ == table
}

/// The database browsed after connecting: the profile's, else the first listed.
pub open spec fn chosen_database(profile: ConnectionProfile, databases: Seq<Seq<char>>) -> Option<Seq<char>> {
    match profile.database {
        Some(d) => Some(d@),
        None => if databases.len() > 0 {
            Some(databases[0])
        } else {
            None
        },
    }
}

/// Another connection attempt follows a failed one.
pub open spec fn retry_connect_after_failure_spec(w: Workbench) -> bool {
    w.connect_intent == ConnectIntent::AutoReconnect && w.reconnect_attempts < AUTO_RECONNECT_LIMIT
        && w.has_profile()
}

/// Records the page a finished query fetched.
fn finalize_pagination_after_query(
    pagination_state: &mut Option<PaginationState>,
    pending_page_transition: &mut Option<PageTransition>,
    results: &ResultsRingBuffer<QueryRow>,
    result_columns: &Vec<String>,
)
    ensures
        (*final(pending_page_transition)) is None,
        (*old(pending_page_transition)) is None ==> *final(pagination_state) == *old(pagination_state),
        (*old(pending_page_transition)) is Some && (*old(pagination_state)) is Some ==> (*final(pagination_state)) is Some && (*final(pagination_state))->0.page_index == page_index_after(
            (*old(pagination_state))->0.page_index,
            (*old(pending_page_transition))->0,
            results@.len() as usize,
        ) && (*final(pagination_state))->0.last_page_row_count == results@.len(),
        (*old(pagination_state)) is None ==> (*final(pagination_state)) is None,
        (*old(pending_page_transition)) is Some && (*old(pagination_state)) is Some ==> match (*old(pagination_state))->0.plan {
            PaginationPlan::Keyset { key_column, .. } => (*final(pagination_state))->0.plan matches PaginationPlan::Keyset { key_column: k2, first_key, last_key }
                && k2 == key_column
                && (crate::workbench::opt_view(first_key), crate::workbench::opt_view(last_key)) == crate::workbench::key_bounds(results@, crate::workbench::names_view(result_columns@), key_column@),
            PaginationPlan::Offset => (*final(pagination_state))->0.plan == PaginationPlan::Offset,
        },
{
    let transition = match *pending_page_transition {
        Some(t) => t,
        None => return,
    };
    *pending_page_transition = None;
    let row_count = results.len();
    let mut state_slot: Option<PaginationState> = None;
    core::mem::swap(&mut state_slot, pagination_state);
    match state_slot {
        Some(mut state) => {
            let bounds = match &state.plan {
                PaginationPlan::Keyset { key_column, .. } => extract_key_bounds(
                    results,
                    result_columns,
                    key_column.as_str(),
                ),
                PaginationPlan::Offset => (None, None),
            };
            finalize_pagination(&mut state, transition, row_count, bounds);
            *pagination_state = Some(state);
        },
        None => {
            *pagination_state = None;
        },
    }
}

fn copy_opt_string(o: &Option<String>) -> (r: Option<String>)
    ensures
        opt_view(r) == opt_view(*o),
{
    match o {
        Some(s) => Some(copy_str(s.as_str())),
        None => None,
    }
}

} // verus!
