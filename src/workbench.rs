use vstd::prelude::*;

use crate::actions_engine::{limit_suggestion, suggest_preview_limit, SchemaSelection, PREVIEW_LIMIT};
use crate::query_runner::QueryRow;
use crate::results_buffer::ResultsRingBuffer;
use crate::sql_generator::{
    keyset_first_page, keyset_first_page_sql, keyset_page, keyset_page_sql, offset_page,
    offset_page_sql, PaginationDirection, SqlGenerationError, SqlTarget,
};
use crate::text::{
    chars_of, contains_chars, contains_seq, copy_str, eq_ignore_case, eq_ignore_case_at, is_blank,
    lower_chars, lower_seq,
};

verus! {

/// Rows a preview page holds.
pub const PREVIEW_PAGE_SIZE: usize = 200;

/// Rows the result buffer keeps.
pub const RESULT_BUFFER_CAPACITY: usize = 2000;

/// Ranked actions bound to footer slots.
pub const FOOTER_ACTIONS_LIMIT: usize = 7;

/// Times a failed query is retried at once.
pub const QUERY_RETRY_LIMIT: u8 = 1;

/// Reconnection attempts after a lost connection.
pub const AUTO_RECONNECT_LIMIT: u8 = 2;

/// Ticks the tab bar flashes after a pane switch.
pub const PANE_FLASH_DURATION_TICKS: u8 = 8;

#[derive(Debug, Clone, Copy, PartialEq, Eq, Structural)]
pub enum Pane {
    ConnectionWizard,
    SchemaExplorer,
    Results,
    QueryEditor,
}

impl Pane {
    /// The pane after this one in the tab cycle; the wizard is left for good.
    pub fn next(self) -> (r: Self)
        ensures
            r == match self {
                Pane::ConnectionWizard => Pane::SchemaExplorer,
                Pane::SchemaExplorer => Pane::Results,
                Pane::Results => Pane::QueryEditor,
                Pane::QueryEditor => Pane::SchemaExplorer,
            },
    {
        match self {
            Pane::ConnectionWizard => Pane::SchemaExplorer,
            Pane::SchemaExplorer => Pane::Results,
            Pane::Results => Pane::QueryEditor,
            Pane::QueryEditor => Pane::SchemaExplorer,
        }
    }
}

#[derive(Debug, Clone, Copy, PartialEq, Eq, Structural)]
pub enum SchemaLane {
    Databases,
    Tables,
    Columns,
}

impl SchemaLane {
    pub fn next(self) -> (r: Self)
        ensures
            r == match self {
                SchemaLane::Databases => SchemaLane::Tables,
                SchemaLane::Tables => SchemaLane::Columns,
                SchemaLane::Columns => SchemaLane::Databases,
            },
    {
        match self {
            SchemaLane::Databases => SchemaLane::Tables,
            SchemaLane::Tables => SchemaLane::Columns,
            SchemaLane::Columns => SchemaLane::Databases,
        }
    }

    pub fn previous(self) -> (r: Self)
        ensures
            r == match self {
                SchemaLane::Databases => SchemaLane::Columns,
                SchemaLane::Tables => SchemaLane::Databases,
                SchemaLane::Columns => SchemaLane::Tables,
            },
    {
        match self {
            SchemaLane::Databases => SchemaLane::Columns,
            SchemaLane::Tables => SchemaLane::Databases,
            SchemaLane::Columns => SchemaLane::Tables,
        }
    }

    pub fn label(self) -> (r: &'static str) {
        match self {
            SchemaLane::Databases => "Databases",
            SchemaLane::Tables => "Tables",
            SchemaLane::Columns => "Columns",
        }
    }
}

#[derive(Debug, Clone, Copy, PartialEq, Eq, Structural)]
pub enum WizardField {
    ProfileName,
    Host,
    Port,
    User,
    Database,
}

impl WizardField {
    pub fn next(self) -> (r: Self)
        ensures
            r == match self {
                WizardField::ProfileName => WizardField::Host,
                WizardField::Host => WizardField::Port,
                WizardField::Port => WizardField::User,
                WizardField::User => WizardField::Database,
                WizardField::Database => WizardField::ProfileName,
            },
    {
        match self {
            WizardField::ProfileName => WizardField::Host,
            WizardField::Host => WizardField::Port,
            WizardField::Port => WizardField::User,
            WizardField::User => WizardField::Database,
            WizardField::Database => WizardField::ProfileName,
        }
    }

    pub fn previous(self) -> (r: Self)
        ensures
            r == match self {
                WizardField::ProfileName => WizardField::Database,
                WizardField::Host => WizardField::ProfileName,
                WizardField::Port => WizardField::Host,
                WizardField::User => WizardField::Port,
                WizardField::Database => WizardField::User,
            },
    {
        match self {
            WizardField::ProfileName => WizardField::Database,
            WizardField::Host => WizardField::ProfileName,
            WizardField::Port => WizardField::Host,
            WizardField::User => WizardField::Port,
            WizardField::Database => WizardField::User,
        }
    }

    pub fn label(self) -> (r: &'static str) {
        match self {
            WizardField::ProfileName => "Profile",
            WizardField::Host => "Host",
            WizardField::Port => "Port",
            WizardField::User => "User",
            WizardField::Database => "Database",
        }
    }
}

pub open spec fn spinner_frame(tick: nat) -> char {
    let k = tick % 4;
    if k == 0 {
        '|'
    } else if k == 1 {
        '/'
    } else if k == 2 {
        '-'
    } else {
        '\\'
    }
}

pub open spec fn pulse_frame(tick: nat) -> char {
    let k = tick % 4;
    if k == 0 {
        '.'
    } else if k == 1 {
        'o'
    } else if k == 2 {
        'O'
    } else {
        'o'
    }
}

pub fn spinner_char(tick: usize) -> (r: char)
    ensures
        r == spinner_frame(tick as nat),
{
    let k = tick % 4;
    if k == 0 {
        '|'
    } else if k == 1 {
        '/'
    } else if k == 2 {
        '-'
    } else {
        '\\'
    }
}

pub fn pulse_char(tick: usize) -> (r: char)
    ensures
        r == pulse_frame(tick as nat),
{
    let k = tick % 4;
    if k == 0 {
        '.'
    } else if k == 1 {
        'o'
    } else if k == 2 {
        'O'
    } else {
        'o'
    }
}

/// Badge and animated marker for a connection state label.
pub fn connection_badge_and_marker(connection_state: &str, tick: usize) -> (r: (&'static str, char))
    ensures
        connection_state@ == "CONNECTED"@ ==> r.0@ == "[+]"@ && r.1 == pulse_frame(tick as nat),
        (connection_state@ == "CONNECTING"@ || connection_state@ == "RECONNECTING"@) ==> r.0@
            == "[~]"@ && r.1 == spinner_frame(tick as nat),
        !(connection_state@ == "CONNECTED"@ || connection_state@ == "CONNECTING"@
            || connection_state@ == "RECONNECTING"@) ==> r.0@ == "[x]"@ && r.1 == (if tick % 2
            == 0 {
            '-'
        } else {
            ' '
        }),
{
    let s = copy_str(connection_state);
    proof {
        reveal_strlit("[+]");
        reveal_strlit("[~]");
        reveal_strlit("[x]");
        reveal_strlit("CONNECTED");
        reveal_strlit("CONNECTING");
        reveal_strlit("RECONNECTING");
        assert("CONNECTED"@.len() == 9 && "CONNECTING"@.len() == 10 && "RECONNECTING"@.len() == 12);
    }
    if crate::text::same_text(&s, "CONNECTED") {
        ("[+]", pulse_char(tick))
    } else if crate::text::same_text(&s, "CONNECTING") || crate::text::same_text(&s, "RECONNECTING") {
        ("[~]", spinner_char(tick))
    } else {
        ("[x]", if tick % 2 == 0 {
            '-'
        } else {
            ' '
        })
    }
}

pub open spec fn transient_needles() -> Seq<Seq<char>> {
    seq![
        "timed out"@,
        "timeout"@,
        "temporary"@,
        "connection reset"@,
        "connection refused"@,
        "connection closed"@,
        "broken pipe"@,
        "server has gone away"@,
        "lost connection"@,
        "pool was disconnect"@,
        "i/o error"@,
        "io error"@,
    ]
}

pub open spec fn connection_lost_needles() -> Seq<Seq<char>> {
    seq![
        "pool was disconnect"@,
        "server has gone away"@,
        "lost connection"@,
        "connection reset"@,
        "connection refused"@,
        "connection closed"@,
        "broken pipe"@,
        "not connected"@,
    ]
}

/// Some needle occurs in the message once ASCII letters are folded to lower case.
pub open spec fn mentions_any(message: Seq<char>, needles: Seq<Seq<char>>) -> bool {
    exists|i: int| 0 <= i < needles.len() && contains_seq(lower_seq(message), #[trigger] needles[i])
}

pub open spec fn is_transient(message: Seq<char>) -> bool {
    mentions_any(message, transient_needles())
}

pub open spec fn is_connection_lost(message: Seq<char>) -> bool {
    mentions_any(message, connection_lost_needles())
}

fn mentions_any_of(message: &str, needles: &[&str]) -> (r: bool)
    ensures
        r == (exists|i: int| 0 <= i < needles@.len() && contains_seq(lower_seq(message@), #[trigger] needles@[i]@)),
{
    let hay = lower_chars(&chars_of(message));
    let mut i: usize = 0;
    while i < needles.len()
        invariant
            hay@ == lower_seq(message@),
            i <= needles@.len(),
            forall|k: int| 0 <= k < i ==> !contains_seq(lower_seq(message@), #[trigger] needles@[k]@),
        decreases needles.len() - i,
    {
        let needle = chars_of(needles[i]);
        if contains_chars(&hay, &needle) {
            return true;
        }
        i = i + 1;
    }
    false
}

proof fn lemma_mentions(message: Seq<char>, words: Seq<&str>, list: Seq<Seq<char>>)
    requires
        words.len() == list.len(),
        forall|i: int| 0 <= i < words.len() ==> #[trigger] words[i]@ == list[i],
    ensures
        (exists|i: int| 0 <= i < words.len() && contains_seq(lower_seq(message), #[trigger] words[i]@))
            == mentions_any(message, list),
{
    if mentions_any(message, list) {
        let i = choose|i: int| 0 <= i < list.len() && contains_seq(lower_seq(message), #[trigger] list[i]);
        assert(contains_seq(lower_seq(message), words[i]@));
    }
    if exists|i: int| 0 <= i < words.len() && contains_seq(lower_seq(message), #[trigger] words[i]@) {
        let i = choose|i: int| 0 <= i < words.len() && contains_seq(lower_seq(message), #[trigger] words[i]@);
        assert(contains_seq(lower_seq(message), list[i]));
    }
}

/// Whether a query failure looks worth retrying.
pub fn is_transient_query_error(message: &str) -> (r: bool)
    ensures
        r == is_transient(message@),
{
    let needles: [&str; 12] = [
        "timed out",
        "timeout",
        "temporary",
        "connection reset",
        "connection refused",
        "connection closed",
        "broken pipe",
        "server has gone away",
        "lost connection",
        "pool was disconnect",
        "i/o error",
        "io error",
    ];
    proof {
        lemma_mentions(message@, needles@, transient_needles());
    }
    mentions_any_of(message, needles.as_slice())
}

/// Whether a query failure says the connection is gone.
pub fn is_connection_lost_error(message: &str) -> (r: bool)
    ensures
        r == is_connection_lost(message@),
{
    let needles: [&str; 8] = [
        "pool was disconnect",
        "server has gone away",
        "lost connection",
        "connection reset",
        "connection refused",
        "connection closed",
        "broken pipe",
        "not connected",
    ];
    proof {
        lemma_mentions(message@, needles@, connection_lost_needles());
    }
    mentions_any_of(message, needles.as_slice())
}

/// The column is `id` in any case.
pub open spec fn is_id_column(c: Seq<char>) -> bool {
    eq_ignore_case(c, "id"@)
}

/// The column ends in `_id` in any case.
pub open spec fn is_id_suffixed(c: Seq<char>) -> bool {
    c.len() >= 3 && eq_ignore_case(c.subrange(c.len() - 3, c.len() as int), "_id"@)
}

/// Index of the first column from `i` on that satisfies `is_id_column` (or `is_id_suffixed`
/// when `suffix`); -1 if none.
pub open spec fn first_key_index(cols: Seq<Seq<char>>, i: int, suffix: bool) -> int
    decreases cols.len() - i,
{
    if i < 0 || i >= cols.len() {
        -1
    } else if (if suffix {
        is_id_suffixed(cols[i])
    } else {
        is_id_column(cols[i])
    }) {
        i
    } else {
        first_key_index(cols, i + 1, suffix)
    }
}

/// The key column for keyset pagination: a column named `id`, else the first whose name
/// ends in `_id`.
pub open spec fn key_column_of(cols: Seq<Seq<char>>) -> Option<Seq<char>> {
    let a = first_key_index(cols, 0, false);
    let b = first_key_index(cols, 0, true);
    if a >= 0 {
        Some(cols[a])
    } else if b >= 0 {
        Some(cols[b])
    } else {
        None
    }
}

pub open spec fn names_view(v: Seq<String>) -> Seq<Seq<char>> {
    v.map_values(|s: String| s@)
}

fn find_key_index(columns: &Vec<String>, suffix: bool) -> (r: Option<usize>)
    ensures
        match r {
            Some(i) => i == first_key_index(names_view(columns@), 0, suffix) && i < columns@.len(),
            None => first_key_index(names_view(columns@), 0, suffix) == -1,
        },
{
    let ghost cols = names_view(columns@);
    let mut i: usize = 0;
    while i < columns.len()
        invariant
            cols == names_view(columns@),
            i <= columns@.len(),
            first_key_index(cols, 0, suffix) == first_key_index(cols, i as int, suffix),
        decreases columns.len() - i,
    {
        let c = chars_of(columns[i].as_str());
        assert(cols[i as int] == c@);
        let hit = if suffix {
            c.len() >= 3 && eq_ignore_case_at(&c, c.len() - 3, c.len(), "_id")
        } else {
            eq_ignore_case_at(&c, 0, c.len(), "id")
        };
        assert(c@.subrange(0, c@.len() as int) =~= c@);
        if hit {
            return Some(i);
        }
        i = i + 1;
    }
    None
}

/// Picks the keyset key column among a table's columns.
pub fn candidate_key_column(columns: &Vec<String>) -> (r: Option<String>)
    ensures
        match key_column_of(names_view(columns@)) {
            Some(k) => r is Some && r->0@ == k,
            None => r is None,
        },
{
    match find_key_index(columns, false) {
        Some(i) => {
            return Some(copy_str(columns[i].as_str()));
        },
        None => {},
    }
    match find_key_index(columns, true) {
        Some(i) => Some(copy_str(columns[i].as_str())),
        None => None,
    }
}

/// Index of the first column named like `key` (any case), from `i` on; -1 if none.
pub open spec fn column_position(cols: Seq<Seq<char>>, key: Seq<char>, i: int) -> int
    decreases cols.len() - i,
{
    if i < 0 || i >= cols.len() {
        -1
    } else if eq_ignore_case(cols[i], key) {
        i
    } else {
        column_position(cols, key, i + 1)
    }
}

/// The value of column `k` in `row`, if the row has one.
pub open spec fn value_at(row: QueryRow, k: int) -> Option<Seq<char>> {
    if 0 <= k < row.values@.len() {
        Some(row.values@[k]@)
    } else {
        None
    }
}

pub open spec fn opt_view(o: Option<String>) -> Option<Seq<char>> {
    match o {
        Some(s) => Some(s@),
        None => None,
    }
}

fn cell_of(row: &QueryRow, k: usize) -> (r: Option<String>)
    ensures
        opt_view(r) == value_at(*row, k as int),
{
    if k < row.values.len() {
        Some(copy_str(row.values[k].as_str()))
    } else {
        None
    }
}

/// The key values of the first and the last row for column `key`: none when the column is
/// unknown or there are no rows.
pub open spec fn key_bounds(rows: Seq<QueryRow>, columns: Seq<Seq<char>>, key: Seq<char>) -> (Option<Seq<char>>, Option<Seq<char>>) {
    let k = column_position(columns, key, 0);
    if k < 0 || rows.len() == 0 {
        (None, None)
    } else {
        (value_at(rows[0], k), value_at(rows.last(), k))
    }
}

/// Key values of the first and the last buffered row, for keyset boundaries.
pub fn extract_key_bounds(
    results: &ResultsRingBuffer<QueryRow>,
    columns: &Vec<String>,
    key_column: &str,
) -> (r: (Option<String>, Option<String>))
    ensures
        ({
            let k = column_position(names_view(columns@), key_column@, 0);
            let rows = results@;
            &&& (k < 0 || rows.len() == 0) ==> r.0 is None && r.1 is None
            &&& (k >= 0 && rows.len() > 0) ==> opt_view(r.0) == value_at(rows[0], k) && opt_view(r.1)
                == value_at(rows.last(), k)
        }),
        (opt_view(r.0), opt_view(r.1)) == key_bounds(results@, names_view(columns@), key_column@),
{
    let ghost cols = names_view(columns@);
    let key = chars_of(key_column);
    let mut i: usize = 0;
    let mut found: Option<usize> = None;
    while i < columns.len()
        invariant
            cols == names_view(columns@),
            key@ == key_column@,
            i <= columns@.len(),
            found is None ==> column_position(cols, key@, 0) == column_position(cols, key@, i as int),
            found is Some ==> found->0 == column_position(cols, key@, 0) && found->0 < columns@.len(),
        decreases columns.len() - i,
    {
        if found.is_none() {
            let c = chars_of(columns[i].as_str());
            assert(cols[i as int] == c@);
            assert(c@.subrange(0, c@.len() as int) =~= c@);
            if eq_ignore_case_at(&c, 0, c.len(), key_column) {
                found = Some(i);
            }
        }
        i = i + 1;
    }
    let k = match found {
        Some(k) => k,
        None => return (None, None),
    };
    let n = results.len();
    if n == 0 {
        return (None, None);
    }
    let first = match results.get(0) {
        Some(row) => cell_of(row, k),
        None => None,
    };
    let last = match results.get(n - 1) {
        Some(row) => cell_of(row, k),
        None => None,
    };
    (first, last)
}

/// The preview limit suggestion used by the query editor.
pub fn suggest_limit_in_editor(query: &str) -> (r: Option<String>)
    ensures
        match limit_suggestion(query@, PREVIEW_LIMIT as nat) {
            Some(s) => r is Some && r->0@ == s,
            None => r is None,
        },
{
    suggest_preview_limit(query, PREVIEW_LIMIT)
}


#[derive(Debug, Clone, Copy, PartialEq, Eq, Structural)]
pub enum PageTransition {
    Reset,
    Next,
    Previous,
}

/// How pages of a table are addressed.
#[derive(Debug, Clone, PartialEq, Eq)]
pub enum PaginationPlan {
    Keyset { key_column: String, first_key: Option<String>, last_key: Option<String> },
    Offset,
}

/// Paging through one table's preview.
#[derive(Debug, Clone, PartialEq, Eq)]
pub struct PaginationState {
    pub database: Option<String>,
    pub table: String,
    pub page_size: usize,
    pub page_index: usize,
    pub last_page_row_count: usize,
    pub plan: PaginationPlan,
}

/// Why no page statement could be built.
#[derive(Debug, Clone, Copy, PartialEq, Eq, Structural)]
pub enum PaginationError {
    Target(SqlGenerationError),
    MissingNextBoundary,
    MissingPreviousBoundary,
    AlreadyAtFirstPage,
}

impl PaginationError {
    pub fn message(&self) -> (r: &'static str) {
        match self {
            PaginationError::Target(e) => e.message(),
            PaginationError::MissingNextBoundary => "missing keyset boundary for next page",
            PaginationError::MissingPreviousBoundary => "missing keyset boundary for previous page",
            PaginationError::AlreadyAtFirstPage => "already at the first page",
        }
    }
}

/// The state a preview starts with: keyset on the key column when there is one, else
/// offsets.
pub open spec fn preview_state_ok(r: PaginationState, selection: SchemaSelection, columns: Seq<Seq<char>>) -> bool {
    &&& r.table@ == selection.table->0@
    &&& opt_view(r.database) == opt_view(selection.database)
    &&& r.page_size == PREVIEW_PAGE_SIZE
    &&& r.page_index == 0
    &&& r.last_page_row_count == 0
    &&& match key_column_of(columns) {
        Some(k) => r.plan matches PaginationPlan::Keyset { key_column, first_key, last_key }
            && key_column@ == k && first_key is None && last_key is None,
        None => r.plan is Offset,
    }
}

fn copy_opt(o: &Option<String>) -> (r: Option<String>)
    ensures
        opt_view(r) == opt_view(*o),
{
    match o {
        Some(s) => Some(copy_str(s.as_str())),
        None => None,
    }
}

/// Pagination for a preview of the selected table.
pub fn build_preview_pagination_state(selection: &SchemaSelection, columns: &Vec<String>) -> (r: Option<PaginationState>)
    ensures
        selection.table is None ==> r is None,
        selection.table is Some ==> r is Some && preview_state_ok(r->0, *selection, names_view(columns@)),
{
    let table = match &selection.table {
        Some(t) => copy_str(t.as_str()),
        None => return None,
    };
    let plan = match candidate_key_column(columns) {
        Some(key_column) => PaginationPlan::Keyset { key_column, first_key: None, last_key: None },
        None => PaginationPlan::Offset,
    };
    Some(
        PaginationState {
            database: copy_opt(&selection.database),
            table,
            page_size: PREVIEW_PAGE_SIZE,
            page_index: 0,
            last_page_row_count: 0,
            plan,
        },
    )
}

pub open spec fn state_target(s: PaginationState) -> SqlTarget {
    SqlTarget { database: s.database, table: s.table }
}

pub open spec fn target_problem(s: PaginationState) -> Option<SqlGenerationError> {
    if is_blank(s.table@) {
        Some(SqlGenerationError::EmptyTableName)
    } else if s.database is Some && is_blank(s.database->0@) {
        Some(SqlGenerationError::EmptyDatabaseName)
    } else {
        None
    }
}

pub open spec fn sat_inc(n: usize) -> usize {
    if n < usize::MAX {
        (n + 1) as usize
    } else {
        n
    }
}

pub open spec fn sat_dec(n: usize) -> usize {
    if n > 0 {
        (n - 1) as usize
    } else {
        0
    }
}

pub open spec fn sat_mul(a: usize, b: usize) -> usize {
    if a * b <= usize::MAX {
        (a * b) as usize
    } else {
        usize::MAX
    }
}

/// The page index an offset plan moves to.
pub open spec fn offset_target_index(index: usize, t: PageTransition) -> usize {
    match t {
        PageTransition::Reset => 0,
        PageTransition::Next => sat_inc(index),
        PageTransition::Previous => sat_dec(index),
    }
}

/// The statement that fetches the page a transition leads to, or why there is none.
pub open spec fn page_sql(s: PaginationState, t: PageTransition) -> Result<Seq<char>, PaginationError> {
    match target_problem(s) {
        Some(e) => Err(PaginationError::Target(e)),
        None => match s.plan {
            PaginationPlan::Keyset { key_column, first_key, last_key } => {
                if is_blank(key_column@) {
                    Err(PaginationError::Target(SqlGenerationError::EmptyColumnName))
                } else {
                    match t {
                        PageTransition::Reset => Ok(
                            keyset_first_page(state_target(s), key_column@, s.page_size as nat),
                        ),
                        PageTransition::Next => match last_key {
                            Some(b) => Ok(
                                keyset_page(
                                    state_target(s),
                                    key_column@,
                                    b@,
                                    PaginationDirection::Next,
                                    s.page_size as nat,
                                ),
                            ),
                            None => Err(PaginationError::MissingNextBoundary),
                        },
                        PageTransition::Previous => match first_key {
                            Some(b) => Ok(
                                keyset_page(
                                    state_target(s),
                                    key_column@,
                                    b@,
                                    PaginationDirection::Previous,
                                    s.page_size as nat,
                                ),
                            ),
                            None => Err(PaginationError::MissingPreviousBoundary),
                        },
                    }
                }
            },
            PaginationPlan::Offset => Ok(
                offset_page(
                    state_target(s),
                    s.page_size as nat,
                    sat_mul(offset_target_index(s.page_index, t), s.page_size) as nat,
                ),
            ),
        },
    }
}

pub open spec fn result_view(r: Result<String, PaginationError>) -> Result<Seq<char>, PaginationError> {
    match r {
        Ok(s) => Ok(s@),
        Err(e) => Err(e),
    }
}

/// The statement for a page transition.
pub fn pagination_sql(state: &PaginationState, transition: PageTransition) -> (r: Result<String, PaginationError>)
    ensures
        result_view(r) == page_sql(*state, transition),
{
    let target = match &state.database {
        Some(d) => SqlTarget::new(Some(d.as_str()), state.table.as_str()),
        None => SqlTarget::new(None, state.table.as_str()),
    };
    let target = match target {
        Ok(t) => t,
        Err(e) => return Err(PaginationError::Target(e)),
    };
    assert(crate::sql_generator::table_ref(target) == crate::sql_generator::table_ref(state_target(*state)));
    match &state.plan {
        PaginationPlan::Keyset { key_column, first_key, last_key } => {
            let sql = match transition {
                PageTransition::Reset => keyset_first_page_sql(&target, key_column.as_str(), state.page_size),
                PageTransition::Next => match last_key {
                    Some(b) => keyset_page_sql(
                        &target,
                        key_column.as_str(),
                        b.as_str(),
                        PaginationDirection::Next,
                        state.page_size,
                    ),
                    None => {
                        if crate::text::is_blank_str(key_column.as_str()) {
                            return Err(PaginationError::Target(SqlGenerationError::EmptyColumnName));
                        }
                        return Err(PaginationError::MissingNextBoundary);
                    },
                },
                PageTransition::Previous => match first_key {
                    Some(b) => keyset_page_sql(
                        &target,
                        key_column.as_str(),
                        b.as_str(),
                        PaginationDirection::Previous,
                        state.page_size,
                    ),
                    None => {
                        if crate::text::is_blank_str(key_column.as_str()) {
                            return Err(PaginationError::Target(SqlGenerationError::EmptyColumnName));
                        }
                        return Err(PaginationError::MissingPreviousBoundary);
                    },
                },
            };
            match sql {
                Ok(s) => Ok(s),
                Err(e) => Err(PaginationError::Target(e)),
            }
        },
        PaginationPlan::Offset => {
            let next_index: usize = match transition {
                PageTransition::Reset => 0,
                PageTransition::Next => if state.page_index < usize::MAX {
                    state.page_index + 1
                } else {
                    state.page_index
                },
                PageTransition::Previous => if state.page_index > 0 {
                    state.page_index - 1
                } else {
                    0
                },
            };
            let offset: usize = match next_index.checked_mul(state.page_size) {
                Some(v) => v,
                None => usize::MAX,
            };
            Ok(offset_page_sql(&target, state.page_size, offset))
        },
    }
}

/// A transition is refused outright: there is no page before the first.
pub open spec fn transition_refused(s: PaginationState, t: PageTransition) -> bool {
    t == PageTransition::Previous && s.page_index == 0
}

/// The statement for a requested page change; going back from the first page is refused.
pub fn plan_page_transition(state: &PaginationState, transition: PageTransition) -> (r: Result<String, PaginationError>)
    ensures
        transition_refused(*state, transition) ==> r == Err::<String, PaginationError>(PaginationError::AlreadyAtFirstPage),
        !transition_refused(*state, transition) ==> result_view(r) == page_sql(*state, transition),
{
    if transition == PageTransition::Previous && state.page_index == 0 {
        return Err(PaginationError::AlreadyAtFirstPage);
    }
    pagination_sql(state, transition)
}

/// The page index once a page of `rows` rows came back for transition `t`.
pub open spec fn page_index_after(index: usize, t: PageTransition, rows: usize) -> usize {
    match t {
        PageTransition::Reset => 0,
        PageTransition::Next => if rows > 0 {
            sat_inc(index)
        } else {
            index
        },
        PageTransition::Previous => if rows > 0 {
            sat_dec(index)
        } else {
            index
        },
    }
}

/// Going forward over a non-empty page moves exactly one page on; going back from the
/// first page is refused.
pub proof fn pages_advance_one_at_a_time(s: PaginationState, rows: usize)
    requires
        rows > 0,
        s.page_index < usize::MAX,
    ensures
        page_index_after(s.page_index, PageTransition::Next, rows) == s.page_index + 1,
        s.page_index == 0 ==> transition_refused(s, PageTransition::Previous),
{
}

/// Records a fetched page: its row count, the page index it leads to, and for keyset plans
/// the key values of its first and last rows.
pub fn finalize_pagination(
    state: &mut PaginationState,
    transition: PageTransition,
    row_count: usize,
    bounds: (Option<String>, Option<String>),
)
    ensures
        final(state).database == old(state).database,
        final(state).table == old(state).table,
        final(state).page_size == old(state).page_size,
        final(state).last_page_row_count == row_count,
        final(state).page_index == page_index_after(old(state).page_index, transition, row_count),
        match old(state).plan {
            PaginationPlan::Keyset { key_column, .. } => final(state).plan == PaginationPlan::Keyset {
                key_column,
                first_key: bounds.0,
                last_key: bounds.1,
            },
            PaginationPlan::Offset => final(state).plan == PaginationPlan::Offset,
        },
{
    state.last_page_row_count = row_count;
    match transition {
        PageTransition::Reset => state.page_index = 0,
        PageTransition::Next => {
            if row_count > 0 && state.page_index < usize::MAX {
                state.page_index = state.page_index + 1;
            }
        },
        PageTransition::Previous => {
            if row_count > 0 && state.page_index > 0 {
                state.page_index = state.page_index - 1;
            }
        },
    }
    let (first, last) = bounds;
    match &mut state.plan {
        PaginationPlan::Keyset { first_key, last_key, .. } => {
            *first_key = first;
            *last_key = last;
        },
        PaginationPlan::Offset => {},
    }
}

/// Whether paging is on, a next page may exist, and a previous page exists.
pub fn pagination_capabilities(state: &Option<PaginationState>, has_results: bool) -> (r: (bool, bool, bool))
    ensures
        state is None ==> r == (false, false, false),
        state is Some ==> r == (
            true,
            has_results && state->0.last_page_row_count >= state->0.page_size,
            state->0.page_index > 0,
        ),
{
    match state {
        Some(s) => (true, has_results && s.last_page_row_count >= s.page_size, s.page_index > 0),
        None => (false, false, false),
    }
}

/// Some value of the row contains `needle` once folded to lower case.
pub open spec fn row_matches(row: QueryRow, needle: Seq<char>) -> bool {
    exists|j: int| 0 <= j < row.values@.len() && contains_seq(lower_seq(#[trigger] row.values@[j]@), needle)
}

/// Position reached `o` rows after `start`, wrapping around `n` rows.
pub open spec fn cyclic(start: nat, o: nat, n: nat) -> nat {
    ((start % n) + o) % n
}

/// The first row, `o` or more steps from `start` cyclically, that matches; None if none.
pub open spec fn cyclic_match(rows: Seq<QueryRow>, needle: Seq<char>, start: nat, o: nat) -> Option<nat>
    decreases rows.len() - o,
{
    if rows.len() == 0 || o >= rows.len() {
        None
    } else if row_matches(rows[cyclic(start, o, rows.len()) as int], needle) {
        Some(cyclic(start, o, rows.len()))
    } else {
        cyclic_match(rows, needle, start, o + 1)
    }
}

proof fn lemma_cyclic_match_finds(rows: Seq<QueryRow>, needle: Seq<char>, start: nat, o: nat, target: nat)
    requires
        rows.len() > 0,
        o <= target < rows.len(),
        row_matches(rows[cyclic(start, target, rows.len()) as int], needle),
    ensures
        cyclic_match(rows, needle, start, o) is Some,
        ({
            let i = cyclic_match(rows, needle, start, o)->0;
            &&& i < rows.len()
            &&& row_matches(rows[i as int], needle)
            &&& exists|d: nat| o <= d <= target && i == cyclic(start, d, rows.len()) && (forall|e: nat| o <= e < d ==> !row_matches(rows[cyclic(start, e, rows.len()) as int], needle))
        }),
    decreases target - o,
{
    let n = rows.len();
    if row_matches(rows[cyclic(start, o, n) as int], needle) {
        assert(o <= o <= target);
    } else {
        lemma_cyclic_match_finds(rows, needle, start, o + 1, target);
        let i = cyclic_match(rows, needle, start, o)->0;
        let d = choose|d: nat| o + 1 <= d <= target && i == cyclic(start, d, n) && (forall|e: nat| o + 1 <= e < d ==> !row_matches(rows[cyclic(start, e, n) as int], needle));
        assert forall|e: nat| o <= e < d implies !row_matches(rows[cyclic(start, e, n) as int], needle) by {
            if e > o {
                assert(o + 1 <= e < d);
            }
        }
    }
}

/// Where some buffered row matches, the search finds one: the first matching row met
/// when walking cyclically from `start`.
pub proof fn search_finds_first_match_cyclically(rows: Seq<QueryRow>, needle: Seq<char>, start: nat)
    requires
        exists|k: int| 0 <= k < rows.len() && row_matches(rows[k], needle),
    ensures
        cyclic_match(rows, needle, start, 0) is Some,
        ({
            let i = cyclic_match(rows, needle, start, 0)->0;
            &&& i < rows.len()
            &&& row_matches(rows[i as int], needle)
            &&& exists|d: nat| d < rows.len() && i == cyclic(start, d, rows.len()) && (forall|e: nat| e < d ==> !row_matches(rows[cyclic(start, e, rows.len()) as int], needle))
        }),
{
    let n = rows.len();
    let k = choose|k: int| 0 <= k < rows.len() && row_matches(rows[k], needle);
    let s = start % n;
    let target: nat = if k >= s {
        (k - s) as nat
    } else {
        (k + n - s) as nat
    };
    assert(s < n) by (nonlinear_arith)
        requires
            s == start % n,
            n > 0,
    ;
    assert(cyclic(start, target, n) == k) by {
        let x: int = (s + target) as int;
        if k >= s {
            assert(x == k);
            assert(x % (n as int) == x) by (nonlinear_arith)
                requires
                    0 <= x < n,
            ;
        } else {
            assert(x == k + n);
            assert(x % (n as int) == x - n) by (nonlinear_arith)
                requires
                    n <= x < 2 * n,
            ;
        }
    }
    lemma_cyclic_match_finds(rows, needle, start, 0, target);
}

fn row_has(row: &QueryRow, needle: &Vec<char>) -> (r: bool)
    ensures
        r == row_matches(*row, needle@),
{
    let mut j: usize = 0;
    while j < row.values.len()
        invariant
            j <= row.values@.len(),
            forall|k: int| 0 <= k < j ==> !contains_seq(lower_seq(#[trigger] row.values@[k]@), needle@),
        decreases row.values.len() - j,
    {
        let hay = lower_chars(&chars_of(row.values[j].as_str()));
        if contains_chars(&hay, needle) {
            return true;
        }
        j = j + 1;
    }
    false
}

/// Index of the first buffered row, walking cyclically from `start_index`, with a value
/// that contains `query` (ASCII case ignored).
pub fn find_results_match_index(results: &ResultsRingBuffer<QueryRow>, query: &str, start_index: usize) -> (r: Option<usize>)
    ensures
        opt_nat(r) == cyclic_match(results@, lower_seq(query@), start_index as nat, 0),
        r is Some ==> r->0 < results@.len(),
{
    let n = results.len();
    let needle = lower_chars(&chars_of(query));
    if n == 0 {
        return None;
    }
    let s = start_index % n;
    let mut o: usize = 0;
    while o < n
        invariant
            n == results@.len(),
            n > 0,
            s == start_index % n,
            needle@ == lower_seq(query@),
            o <= n,
            cyclic_match(results@, needle@, start_index as nat, 0) == cyclic_match(results@, needle@, start_index as nat, o as nat),
        decreases n - o,
    {
        let idx = if o < n - s {
            s + o
        } else {
            o - (n - s)
        };
        proof {
            let x: int = (s + o) as int;
            assert(s < n) by (nonlinear_arith)
                requires
                    s == start_index % n,
                    n > 0,
            ;
            if o < n - s {
                assert(x % (n as int) == x) by (nonlinear_arith)
                    requires
                        0 <= x < n,
                ;
            } else {
                assert(x % (n as int) == x - n) by (nonlinear_arith)
                    requires
                        n <= x < 2 * n,
                ;
            }
        }
        assert(idx == cyclic(start_index as nat, o as nat, n as nat));
        match results.get(idx) {
            Some(row) => {
                if row_has(row, &needle) {
                    return Some(idx);
                }
            },
            None => {},
        }
        o = o + 1;
    }
    None
}

pub open spec fn opt_nat(o: Option<usize>) -> Option<nat> {
    match o {
        Some(i) => Some(i as nat),
        None => None,
    }
}

/// What follows a failed query.
#[derive(Debug, Clone, PartialEq, Eq)]
pub enum FailureAction {
    /// Run the same statement again.
    RetryQuery(String),
    /// Reconnect, then run the statement kept here, if any.
    Reconnect(Option<String>),
    /// Give up and show the error.
    ShowError,
}

/// The decision after a query failed with `error`.
pub open spec fn failure_action_ok(
    r: FailureAction,
    error: Seq<char>,
    cancel_requested: bool,
    query_retry_attempts: u8,
    reconnect_attempts: u8,
    query_sql: Option<Seq<char>>,
    has_profile: bool,
) -> bool {
    let retry = is_transient(error) && !cancel_requested && query_retry_attempts < QUERY_RETRY_LIMIT
        && query_sql is Some;
    let reconnect = is_connection_lost(error) && !cancel_requested && reconnect_attempts
        < AUTO_RECONNECT_LIMIT && has_profile;
    if retry {
        r matches FailureAction::RetryQuery(s) && s@ == query_sql->0
    } else if reconnect {
        r matches FailureAction::Reconnect(p) && opt_view(p) == query_sql
    } else {
        r == FailureAction::ShowError
    }
}

/// Retry a transient failure once; after a lost connection reconnect (keeping the
/// statement to replay); otherwise show the error.
pub fn decide_query_failure(
    error: &str,
    cancel_requested: bool,
    query_retry_attempts: u8,
    reconnect_attempts: u8,
    query_sql: Option<String>,
    has_profile: bool,
) -> (r: FailureAction)
    ensures
        failure_action_ok(r, error@, cancel_requested, query_retry_attempts, reconnect_attempts, opt_view(query_sql), has_profile),
{
    let transient = is_transient_query_error(error);
    let lost = is_connection_lost_error(error);
    if transient && !cancel_requested && query_retry_attempts < QUERY_RETRY_LIMIT {
        match &query_sql {
            Some(sql) => return FailureAction::RetryQuery(copy_str(sql.as_str())),
            None => {},
        }
    }
    if lost && !cancel_requested && reconnect_attempts < AUTO_RECONNECT_LIMIT && has_profile {
        return FailureAction::Reconnect(query_sql);
    }
    FailureAction::ShowError
}

#[derive(Debug, Clone, Copy, PartialEq, Eq, Structural)]
pub enum ConnectIntent {
    Manual,
    AutoReconnect,
}

/// After a failed connection: try again only while reconnecting automatically, within the
/// attempt limit, with a profile to reconnect with.
pub fn retry_connect_after_failure(intent: ConnectIntent, reconnect_attempts: u8, has_profile: bool) -> (r: bool)
    ensures
        r == (intent == ConnectIntent::AutoReconnect && reconnect_attempts < AUTO_RECONNECT_LIMIT && has_profile),
{
    intent == ConnectIntent::AutoReconnect && reconnect_attempts < AUTO_RECONNECT_LIMIT && has_profile
}

} // verus!
