use vstd::prelude::*;

use crate::safe_mode::word_end;
use crate::sql_generator::{
    count_estimate, count_estimate_sql, describe_table_sql, preview_select, preview_select_sql,
    show_create_table_sql, show_index_sql, table_ref, SqlGenerationError, SqlTarget,
};
use crate::text::{
    chars_of, decimal, eq_ignore_case, eq_ignore_case_at, is_blank, is_blank_str,
    is_whitespace_char, push_all, push_decimal, string_of, trim, trim_bounds, trim_str,
};

verus! {

/// Rows fetched by a preview.
pub const PREVIEW_LIMIT: usize = 200;

/// Largest bonus a recently used action gets.
pub const MAX_RECENCY_BOOST: i32 = 25;

/// Number of actions in the registry.
pub const ACTION_COUNT: usize = 16;

#[derive(Debug, Clone, Copy, PartialEq, Eq, Hash, PartialOrd, Ord, Structural)]
pub enum ActionId {
    PreviewTable,
    PreviousPage,
    NextPage,
    DescribeTable,
    ShowIndexes,
    ShowCreateTable,
    CountEstimate,
    RunCurrentQuery,
    ApplyLimit200,
    CancelRunningQuery,
    ExportCsv,
    ExportJson,
    CopyCell,
    CopyRow,
    SearchResults,
    FocusQueryEditor,
}

#[derive(Debug, Clone, Copy, PartialEq, Eq, Hash, Structural)]
pub enum AppView {
    ConnectionWizard,
    SchemaExplorer,
    Results,
    QueryEditor,
    CommandPalette,
}

#[derive(Debug, Clone, PartialEq, Eq, Default)]
pub struct SchemaSelection {
    pub database: Option<String>,
    pub table: Option<String>,
    pub column: Option<String>,
}

/// What the engine knows of the interface when it enables and ranks actions.
#[derive(Debug, Clone, PartialEq, Eq)]
pub struct ActionContext {
    pub view: AppView,
    pub selection: SchemaSelection,
    pub query_text: Option<String>,
    pub query_running: bool,
    pub has_results: bool,
    pub pagination_enabled: bool,
    pub can_page_next: bool,
    pub can_page_previous: bool,
}

impl Default for ActionContext {
    fn default() -> (r: Self)
        ensures
            r.view == AppView::ConnectionWizard,
            r.selection.database is None,
            r.selection.table is None,
            r.selection.column is None,
            r.query_text is None,
            !r.query_running,
            !r.has_results,
            !r.pagination_enabled,
            !r.can_page_next,
            !r.can_page_previous,
    {
        ActionContext {
            view: AppView::ConnectionWizard,
            selection: SchemaSelection { database: None, table: None, column: None },
            query_text: None,
            query_running: false,
            has_results: false,
            pagination_enabled: false,
            can_page_next: false,
            can_page_previous: false,
        }
    }
}

impl ActionContext {
    pub fn with_view(self, view: AppView) -> (r: Self)
        ensures
            r == (ActionContext { view, ..self }),
    {
        let mut c = self;
        c.view = view;
        c
    }

    pub fn with_query(self, query: &str) -> (r: Self)
        ensures
            r.query_text is Some,
            r.query_text->0@ == query@,
            r == (ActionContext { query_text: r.query_text, ..self }),
    {
        let mut c = self;
        c.query_text = Some(crate::text::copy_str(query));
        c
    }
}

#[derive(Debug, Clone, Copy, PartialEq, Eq)]
pub struct ActionDefinition {
    pub id: ActionId,
    pub title: &'static str,
    pub description: &'static str,
}

/// Position of an action in the registry.
pub open spec fn action_index(id: ActionId) -> nat {
    match id {
        ActionId::PreviewTable => 0,
        ActionId::PreviousPage => 1,
        ActionId::NextPage => 2,
        ActionId::DescribeTable => 3,
        ActionId::ShowIndexes => 4,
        ActionId::ShowCreateTable => 5,
        ActionId::CountEstimate => 6,
        ActionId::RunCurrentQuery => 7,
        ActionId::ApplyLimit200 => 8,
        ActionId::CancelRunningQuery => 9,
        ActionId::ExportCsv => 10,
        ActionId::ExportJson => 11,
        ActionId::CopyCell => 12,
        ActionId::CopyRow => 13,
        ActionId::SearchResults => 14,
        ActionId::FocusQueryEditor => 15,
    }
}

/// The action at a registry position.
pub open spec fn action_at(i: nat) -> ActionId {
    if i == 0 {
        ActionId::PreviewTable
    } else if i == 1 {
        ActionId::PreviousPage
    } else if i == 2 {
        ActionId::NextPage
    } else if i == 3 {
        ActionId::DescribeTable
    } else if i == 4 {
        ActionId::ShowIndexes
    } else if i == 5 {
        ActionId::ShowCreateTable
    } else if i == 6 {
        ActionId::CountEstimate
    } else if i == 7 {
        ActionId::RunCurrentQuery
    } else if i == 8 {
        ActionId::ApplyLimit200
    } else if i == 9 {
        ActionId::CancelRunningQuery
    } else if i == 10 {
        ActionId::ExportCsv
    } else if i == 11 {
        ActionId::ExportJson
    } else if i == 12 {
        ActionId::CopyCell
    } else if i == 13 {
        ActionId::CopyRow
    } else if i == 14 {
        ActionId::SearchResults
    } else {
        ActionId::FocusQueryEditor
    }
}

fn action_at_index(i: usize) -> (r: ActionId)
    requires
        i < ACTION_COUNT,
    ensures
        r == action_at(i as nat),
        action_index(r) == i,
{
    match i {
        0 => ActionId::PreviewTable,
        1 => ActionId::PreviousPage,
        2 => ActionId::NextPage,
        3 => ActionId::DescribeTable,
        4 => ActionId::ShowIndexes,
        5 => ActionId::ShowCreateTable,
        6 => ActionId::CountEstimate,
        7 => ActionId::RunCurrentQuery,
        8 => ActionId::ApplyLimit200,
        9 => ActionId::CancelRunningQuery,
        10 => ActionId::ExportCsv,
        11 => ActionId::ExportJson,
        12 => ActionId::CopyCell,
        13 => ActionId::CopyRow,
        14 => ActionId::SearchResults,
        _ => ActionId::FocusQueryEditor,
    }
}

fn index_of_action(id: ActionId) -> (r: usize)
    ensures
        r == action_index(id),
        r < ACTION_COUNT,
{
    match id {
        ActionId::PreviewTable => 0,
        ActionId::PreviousPage => 1,
        ActionId::NextPage => 2,
        ActionId::DescribeTable => 3,
        ActionId::ShowIndexes => 4,
        ActionId::ShowCreateTable => 5,
        ActionId::CountEstimate => 6,
        ActionId::RunCurrentQuery => 7,
        ActionId::ApplyLimit200 => 8,
        ActionId::CancelRunningQuery => 9,
        ActionId::ExportCsv => 10,
        ActionId::ExportJson => 11,
        ActionId::CopyCell => 12,
        ActionId::CopyRow => 13,
        ActionId::SearchResults => 14,
        ActionId::FocusQueryEditor => 15,
    }
}

/// Title of an action.
pub open spec fn action_title(id: ActionId) -> Seq<char> {
    match id {
        ActionId::PreviewTable => "Preview table"@,
        ActionId::PreviousPage => "Previous page"@,
        ActionId::NextPage => "Next page"@,
        ActionId::DescribeTable => "Describe table"@,
        ActionId::ShowIndexes => "Show indexes"@,
        ActionId::ShowCreateTable => "Show create table"@,
        ActionId::CountEstimate => "Estimate row count"@,
        ActionId::RunCurrentQuery => "Run query"@,
        ActionId::ApplyLimit200 => "Apply LIMIT 200"@,
        ActionId::CancelRunningQuery => "Cancel query"@,
        ActionId::ExportCsv => "Export CSV"@,
        ActionId::ExportJson => "Export JSON"@,
        ActionId::CopyCell => "Copy cell"@,
        ActionId::CopyRow => "Copy row"@,
        ActionId::SearchResults => "Search results"@,
        ActionId::FocusQueryEditor => "Go to query editor"@,
    }
}

/// No two actions share a title, and none is empty.
pub proof fn titles_are_distinct()
    ensures
        forall|a: ActionId, b: ActionId| a != b ==> action_title(a) != action_title(b),
        forall|a: ActionId| action_title(a).len() > 0,
{
    reveal_strlit("Preview table");
    reveal_strlit("Previous page");
    reveal_strlit("Next page");
    reveal_strlit("Describe table");
    reveal_strlit("Show indexes");
    reveal_strlit("Show create table");
    reveal_strlit("Estimate row count");
    reveal_strlit("Run query");
    reveal_strlit("Apply LIMIT 200");
    reveal_strlit("Cancel query");
    reveal_strlit("Export CSV");
    reveal_strlit("Export JSON");
    reveal_strlit("Copy cell");
    reveal_strlit("Copy row");
    reveal_strlit("Search results");
    reveal_strlit("Go to query editor");
    assert forall|a: ActionId, b: ActionId| a != b implies action_title(a) != action_title(b) by {
        let ta = action_title(a);
        let tb = action_title(b);
        if ta.len() == tb.len() {
            assert(ta[0] != tb[0] || ta[3] != tb[3] || ta[5] != tb[5] || ta[7] != tb[7]);
        }
    }
}

/// Title and description of an action.
pub fn definition_of(id: ActionId) -> (r: ActionDefinition)
    ensures
        r.id == id,
        r.title@ == action_title(id),
        r.description@.len() > 0,
{
    let (title, description) = match id {
        ActionId::PreviewTable => ("Preview table", "Run SELECT * with a safe preview LIMIT"),
        ActionId::PreviousPage => ("Previous page", "Load previous result page (keyset/offset)"),
        ActionId::NextPage => ("Next page", "Load next result page (keyset/offset)"),
        ActionId::DescribeTable => ("Describe table", "Inspect table columns and metadata"),
        ActionId::ShowIndexes => ("Show indexes", "Inspect table indexes"),
        ActionId::ShowCreateTable => ("Show create table", "Inspect CREATE TABLE DDL"),
        ActionId::CountEstimate => ("Estimate row count", "Read row estimate from information_schema"),
        ActionId::RunCurrentQuery => ("Run query", "Execute the current editor query"),
        ActionId::ApplyLimit200 => ("Apply LIMIT 200", "Suggest a preview limit for broad SELECTs"),
        ActionId::CancelRunningQuery => ("Cancel query", "Cancel active query execution"),
        ActionId::ExportCsv => ("Export CSV", "Export current results to CSV"),
        ActionId::ExportJson => ("Export JSON", "Export current results to JSON"),
        ActionId::CopyCell => ("Copy cell", "Copy selected cell value"),
        ActionId::CopyRow => ("Copy row", "Copy selected row values"),
        ActionId::SearchResults => ("Search results", "Search within buffered results"),
        ActionId::FocusQueryEditor => ("Go to query editor", "Switch to query editor view"),
    };
    proof {
        reveal_strlit("Preview table");
        reveal_strlit("Previous page");
        reveal_strlit("Next page");
        reveal_strlit("Describe table");
        reveal_strlit("Show indexes");
        reveal_strlit("Show create table");
        reveal_strlit("Estimate row count");
        reveal_strlit("Run query");
        reveal_strlit("Apply LIMIT 200");
        reveal_strlit("Cancel query");
        reveal_strlit("Export CSV");
        reveal_strlit("Export JSON");
        reveal_strlit("Copy cell");
        reveal_strlit("Copy row");
        reveal_strlit("Search results");
        reveal_strlit("Go to query editor");
        reveal_strlit("Run SELECT * with a safe preview LIMIT");
        reveal_strlit("Load previous result page (keyset/offset)");
        reveal_strlit("Load next result page (keyset/offset)");
        reveal_strlit("Inspect table columns and metadata");
        reveal_strlit("Inspect table indexes");
        reveal_strlit("Inspect CREATE TABLE DDL");
        reveal_strlit("Read row estimate from information_schema");
        reveal_strlit("Execute the current editor query");
        reveal_strlit("Suggest a preview limit for broad SELECTs");
        reveal_strlit("Cancel active query execution");
        reveal_strlit("Export current results to CSV");
        reveal_strlit("Export current results to JSON");
        reveal_strlit("Copy selected cell value");
        reveal_strlit("Copy selected row values");
        reveal_strlit("Search within buffered results");
        reveal_strlit("Switch to query editor view");
    }
    ActionDefinition { id, title, description }
}

/// A character of an identifier-like word.
pub open spec fn is_word_char(c: char) -> bool {
    ('a' <= c && c <= 'z') || ('A' <= c && c <= 'Z') || ('0' <= c && c <= '9') || c == '_'
}

/// A `LIMIT` word (any case) starts at `i` of `w`.
pub open spec fn limit_at(w: Seq<char>, i: int) -> bool {
    &&& 0 <= i && i + 5 <= w.len()
    &&& eq_ignore_case(w.subrange(i, i + 5), "LIMIT"@)
    &&& (i == 0 || !is_word_char(w[i - 1]))
    &&& (i + 5 == w.len() || !is_word_char(w[i + 5]))
}

pub open spec fn has_limit_token(w: Seq<char>) -> bool {
    exists|i: int| #[trigger] limit_at(w, i)
}

/// `t` without one trailing `;`.
pub open spec fn strip_one_semicolon(t: Seq<char>) -> Seq<char> {
    if t.len() > 0 && t.last() == ';' {
        t.drop_last()
    } else {
        t
    }
}

/// The query a limit is appended to: trimmed, one trailing `;` removed, trimmed again.
pub open spec fn limit_base(q: Seq<char>) -> Seq<char> {
    trim(strip_one_semicolon(trim(q)))
}

/// The first word of `w` is `SELECT` in any case.
pub open spec fn starts_with_select(w: Seq<char>) -> bool {
    eq_ignore_case(w.subrange(0, word_end(w, 0)), "SELECT"@)
}

/// The query with a `LIMIT` appended, for a `SELECT` that has none.
pub open spec fn limit_suggestion(q: Seq<char>, limit: nat) -> Option<Seq<char>> {
    let w = limit_base(q);
    if w.len() == 0 || !starts_with_select(w) || has_limit_token(w) {
        None
    } else {
        Some(w + " LIMIT "@ + decimal(limit))
    }
}

fn limit_token_at(v: &Vec<char>, lo: usize, hi: usize, i: usize) -> (r: bool)
    requires
        lo <= i,
        i + 5 <= hi <= v.len(),
    ensures
        r == limit_at(v@.subrange(lo as int, hi as int), i - lo),
{
    let ghost w = v@.subrange(lo as int, hi as int);
    if !eq_ignore_case_at(v, i, i + 5, "LIMIT") {
        assert(w.subrange(i - lo, i - lo + 5) =~= v@.subrange(i as int, i + 5));
        return false;
    }
    assert(w.subrange(i - lo, i - lo + 5) =~= v@.subrange(i as int, i + 5));
    let before_ok = i == lo || {
        let c = v[i - 1];
        !(('a' <= c && c <= 'z') || ('A' <= c && c <= 'Z') || ('0' <= c && c <= '9') || c == '_')
    };
    let after_ok = i + 5 == hi || {
        let c = v[i + 5];
        !(('a' <= c && c <= 'z') || ('A' <= c && c <= 'Z') || ('0' <= c && c <= '9') || c == '_')
    };
    before_ok && after_ok
}

/// Suggests the query with `LIMIT <limit>` appended, for a `SELECT` without a `LIMIT` word.
pub fn suggest_preview_limit(query_text: &str, limit: usize) -> (r: Option<String>)
    ensures
        match limit_suggestion(query_text@, limit as nat) {
            Some(s) => r is Some && r->0@ == s,
            None => r is None,
        },
{
    let v = chars_of(query_text);
    let (a, b) = trim_bounds(&v, 0, v.len());
    assert(v@.subrange(0, v@.len() as int) =~= v@);
    let b2 = if b > a && v[b - 1] == ';' {
        b - 1
    } else {
        b
    };
    assert(v@.subrange(a as int, b2 as int) =~= strip_one_semicolon(v@.subrange(a as int, b as int)));
    let (c, d) = trim_bounds(&v, a, b2);
    let ghost w = v@.subrange(c as int, d as int);
    assert(w == limit_base(query_text@));
    if c == d {
        return None;
    }
    let mut e = c;
    while e < d && !is_whitespace_char(v[e])
        invariant
            c <= e <= d <= v.len(),
            w == v@.subrange(c as int, d as int),
            word_end(w, 0) == word_end(w, e - c),
        decreases d - e,
    {
        e = e + 1;
    }
    assert(w.subrange(0, word_end(w, 0)) =~= v@.subrange(c as int, e as int));
    if !eq_ignore_case_at(&v, c, e, "SELECT") {
        return None;
    }
    if d - c >= 5 {
        let mut i = c;
        while i <= d - 5
            invariant
                c <= i <= d - 4,
                d - c >= 5,
                d <= v.len(),
                w == v@.subrange(c as int, d as int),
                w == limit_base(query_text@),
                forall|k: int| 0 <= k < i - c ==> !#[trigger] limit_at(w, k),
            decreases d - i,
        {
            if limit_token_at(&v, c, d, i) {
                assert(limit_at(w, i - c));
                return None;
            }
            i = i + 1;
        }
        assert forall|k: int| !#[trigger] limit_at(w, k) by {
            if 0 <= k && k + 5 <= w.len() {
                assert(k < i - c);
            }
        }
    }
    let mut r = string_of(&v, c, d);
    push_all(&mut r, " LIMIT ");
    push_decimal(&mut r, limit as u64);
    Some(r)
}

proof fn lemma_decimal_digits(n: nat)
    ensures
        forall|k: int| 0 <= k < decimal(n).len() ==> '0' <= #[trigger] decimal(n)[k] && decimal(n)[k] <= '9',
    decreases n,
{
    if n >= 10 {
        lemma_decimal_digits(n / 10);
        let d = decimal(n / 10);
        assert forall|k: int| 0 <= k < decimal(n).len() implies '0' <= #[trigger] decimal(n)[k] && decimal(n)[k] <= '9' by {
            if k < d.len() {
                assert(decimal(n)[k] == d[k]);
            }
        }
    }
}

/// A suggested query is the cleaned-up original with ` LIMIT <n>` appended; it starts with
/// the original's `SELECT` word, and that `LIMIT` is the only `LIMIT` word in it.
pub proof fn limit_suggestion_shape(q: Seq<char>, n: nat)
    requires
        limit_suggestion(q, n) is Some,
    ensures
        ({
            let s = limit_suggestion(q, n)->0;
            let w = limit_base(q);
            let suffix = " LIMIT "@ + decimal(n);
            &&& s == w + suffix
            &&& s.subrange(s.len() - suffix.len(), s.len() as int) == suffix
            &&& word_end(s, 0) == word_end(w, 0)
            &&& s.subrange(0, word_end(s, 0)) == w.subrange(0, word_end(w, 0))
            &&& eq_ignore_case(s.subrange(0, word_end(s, 0)), "SELECT"@)
            &&& word_end(s, 0) <= trim(q).len()
            &&& s.subrange(0, word_end(s, 0)) == trim(q).subrange(0, word_end(s, 0))
            &&& limit_at(s, w.len() as int + 1)
            &&& forall|i: int| #[trigger] limit_at(s, i) ==> i == w.len() as int + 1
        }),
{
    let s = limit_suggestion(q, n)->0;
    let w = limit_base(q);
    let suffix = " LIMIT "@ + decimal(n);
    let lw: Seq<char> = "LIMIT"@;
    reveal_strlit(" LIMIT ");
    reveal_strlit("LIMIT");
    let m = w.len() as int;
    assert(s =~= w + suffix);
    assert(s.subrange(s.len() - suffix.len(), s.len() as int) =~= suffix);
    lemma_decimal_digits(n);
    assert(s[m] == ' ');
    assert(s[m + 6] == ' ');
    assert forall|k: int| 0 <= k < 5 implies s[m + 1 + k] == lw[k] by {}
    assert(s.subrange(0, m) =~= w);
    lemma_word_end_prefix(s, w, 0);
    lemma_word_end_bounds(w, 0);
    let e = word_end(w, 0);
    assert(s.subrange(0, e) =~= w.subrange(0, e)) by {
        assert forall|k: int| 0 <= k < e implies s.subrange(0, e)[k] == w.subrange(0, e)[k] by {
            assert(s[k] == w[k]);
        }
    }
    // the cleaned-up query is a prefix of the trimmed original
    let t = trim(q);
    let st = strip_one_semicolon(t);
    crate::safe_mode::lemma_trim_front_head(q);
    crate::safe_mode::lemma_trim_back_prefix(crate::text::trim_front(q));
    crate::safe_mode::lemma_trim_back_prefix(crate::text::trim_front(st));
    assert(st.len() > 0) by {
        if st.len() == 0 {
            assert(crate::text::trim_front(st) == st);
        }
    }
    assert(t.len() > 0);
    assert(t[0] == crate::text::trim_front(q)[0]);
    assert(st[0] == t[0]);
    assert(crate::text::trim_front(st) == st);
    assert(w.len() <= st.len());
    assert forall|k: int| 0 <= k < w.len() implies w[k] == t[k] by {
        assert(w[k] == st.subrange(0, w.len() as int)[k]);
        assert(st[k] == t[k]);
    }
    assert(s.subrange(0, e) =~= t.subrange(0, e)) by {
        assert forall|k: int| 0 <= k < e implies s.subrange(0, e)[k] == t.subrange(0, e)[k] by {
            assert(s[k] == w[k]);
        }
    }
    // the appended LIMIT is a LIMIT word
    assert(s.subrange(m + 1, m + 6) =~= lw);
    assert(limit_at(s, m + 1));
    assert forall|i: int| #[trigger] limit_at(s, i) implies i == m + 1 by {
        let win = s.subrange(i, i + 5);
        assert(crate::text::lower_seq(win) == crate::text::lower_seq(lw));
        assert forall|k: int| 0 <= k < 5 implies crate::text::ascii_lower(#[trigger] s[i + k]) == crate::text::ascii_lower(lw[k]) by {
            assert(crate::text::lower_seq(win)[k] == crate::text::lower_seq(lw)[k]);
        }
        if i + 5 <= m {
            assert(w.subrange(i, i + 5) =~= win);
            if i > 0 {
                assert(w[i - 1] == s[i - 1]);
            }
            if i + 5 < m {
                assert(w[i + 5] == s[i + 5]);
            }
            assert(limit_at(w, i));
            assert(has_limit_token(w));
        } else if i <= m {
            let k = m - i;
            assert(crate::text::ascii_lower(s[i + k]) == crate::text::ascii_lower(lw[k]));
        } else if i > m + 1 && i <= m + 6 {
            let k = m + 6 - i;
            assert(crate::text::ascii_lower(s[i + k]) == crate::text::ascii_lower(lw[k]));
        } else if i > m + 6 {
            let k = 0int;
            assert(crate::text::ascii_lower(s[i + k]) == crate::text::ascii_lower(lw[k]));
            assert(s[i + k] == suffix[i + k - m]);
            assert(suffix[i + k - m] == decimal(n)[i + k - m - 7]);
        }
    }
}

proof fn lemma_word_end_bounds(t: Seq<char>, i: int)
    requires
        0 <= i <= t.len(),
    ensures
        i <= word_end(t, i) <= t.len(),
    decreases t.len() - i,
{
    if i < t.len() {
        lemma_word_end_bounds(t, i + 1);
    }
}

proof fn lemma_word_end_prefix(s: Seq<char>, w: Seq<char>, j: int)
    requires
        0 <= j <= w.len(),
        w.len() < s.len(),
        s.subrange(0, w.len() as int) == w,
        s[w.len() as int] == ' ',
    ensures
        word_end(s, j) == word_end(w, j),
    decreases w.len() - j,
{
    if j < w.len() {
        assert(s[j] == s.subrange(0, w.len() as int)[j]);
        lemma_word_end_prefix(s, w, j + 1);
    }
}

/// Whether the query text is there and not blank.
pub open spec fn has_query(ctx: ActionContext) -> bool {
    ctx.query_text is Some && !is_blank(ctx.query_text->0@)
}

/// Whether the query text is there and a limit can be suggested for it.
pub open spec fn has_limit_suggestion(ctx: ActionContext) -> bool {
    ctx.query_text is Some && limit_suggestion(ctx.query_text->0@, PREVIEW_LIMIT as nat) is Some
}

/// When an action may be invoked.
pub open spec fn enabled_in(id: ActionId, ctx: ActionContext) -> bool {
    let schema_ready = ctx.selection.table is Some && ctx.selection.database is Some
        && !ctx.query_running;
    match id {
        ActionId::PreviewTable | ActionId::DescribeTable | ActionId::ShowIndexes
        | ActionId::ShowCreateTable => ctx.view == AppView::SchemaExplorer && schema_ready,
        ActionId::PreviousPage => ctx.pagination_enabled && ctx.can_page_previous
            && !ctx.query_running,
        ActionId::NextPage => ctx.pagination_enabled && ctx.can_page_next && !ctx.query_running,
        ActionId::CountEstimate => schema_ready,
        ActionId::RunCurrentQuery => !ctx.query_running && has_query(ctx),
        ActionId::ApplyLimit200 => !ctx.query_running && has_limit_suggestion(ctx),
        ActionId::CancelRunningQuery => ctx.query_running,
        ActionId::ExportCsv | ActionId::ExportJson | ActionId::CopyRow
        | ActionId::SearchResults => ctx.has_results,
        ActionId::CopyCell => ctx.has_results && ctx.selection.column is Some,
        ActionId::FocusQueryEditor => ctx.view != AppView::QueryEditor,
    }
}

/// The score an action has in a context before any recency bonus.
pub open spec fn base_score(id: ActionId, ctx: ActionContext) -> int {
    let schema_view = ctx.view == AppView::SchemaExplorer && ctx.selection.table is Some;
    match id {
        ActionId::CancelRunningQuery => if ctx.query_running {
            1000
        } else {
            0
        },
        ActionId::ApplyLimit200 => if has_limit_suggestion(ctx) {
            950
        } else {
            0
        },
        ActionId::PreviewTable => if schema_view {
            900
        } else {
            0
        },
        ActionId::PreviousPage => if ctx.pagination_enabled && ctx.can_page_previous && ctx.view
            == AppView::Results {
            840
        } else {
            0
        },
        ActionId::NextPage => if ctx.pagination_enabled && ctx.can_page_next && ctx.view
            == AppView::Results {
            860
        } else {
            0
        },
        ActionId::DescribeTable => if schema_view {
            820
        } else {
            0
        },
        ActionId::ShowIndexes => if schema_view {
            790
        } else {
            0
        },
        ActionId::ShowCreateTable => if schema_view {
            760
        } else {
            0
        },
        ActionId::CountEstimate => if ctx.selection.table is Some && ctx.selection.database is Some {
            700
        } else {
            0
        },
        ActionId::RunCurrentQuery => if has_query(ctx) {
            850
        } else {
            0
        },
        ActionId::ExportCsv | ActionId::ExportJson => if ctx.has_results {
            640
        } else {
            0
        },
        ActionId::CopyCell | ActionId::CopyRow => if ctx.has_results {
            600
        } else {
            0
        },
        ActionId::SearchResults => if ctx.has_results {
            580
        } else {
            0
        },
        ActionId::FocusQueryEditor => if ctx.view != AppView::QueryEditor {
            500
        } else {
            0
        },
    }
}

fn query_present(ctx: &ActionContext) -> (r: bool)
    ensures
        r == has_query(*ctx),
{
    match &ctx.query_text {
        Some(q) => !is_blank_str(q.as_str()),
        None => false,
    }
}

fn limit_suggestion_present(ctx: &ActionContext) -> (r: bool)
    ensures
        r == has_limit_suggestion(*ctx),
{
    match &ctx.query_text {
        Some(q) => suggest_preview_limit(q.as_str(), PREVIEW_LIMIT).is_some(),
        None => false,
    }
}

/// Whether an action may be invoked in a context.
pub fn action_enabled(action_id: ActionId, context: &ActionContext) -> (r: bool)
    ensures
        r == enabled_in(action_id, *context),
{
    let schema_ready = context.selection.table.is_some() && context.selection.database.is_some()
        && !context.query_running;
    match action_id {
        ActionId::PreviewTable | ActionId::DescribeTable | ActionId::ShowIndexes
        | ActionId::ShowCreateTable => context.view == AppView::SchemaExplorer && schema_ready,
        ActionId::PreviousPage => context.pagination_enabled && context.can_page_previous
            && !context.query_running,
        ActionId::NextPage => context.pagination_enabled && context.can_page_next
            && !context.query_running,
        ActionId::CountEstimate => schema_ready,
        ActionId::RunCurrentQuery => !context.query_running && query_present(context),
        ActionId::ApplyLimit200 => !context.query_running && limit_suggestion_present(context),
        ActionId::CancelRunningQuery => context.query_running,
        ActionId::ExportCsv | ActionId::ExportJson | ActionId::CopyRow
        | ActionId::SearchResults => context.has_results,
        ActionId::CopyCell => context.has_results && context.selection.column.is_some(),
        ActionId::FocusQueryEditor => context.view != AppView::QueryEditor,
    }
}

/// The score of an action in a context before any recency bonus.
pub fn action_base_score(action_id: ActionId, context: &ActionContext) -> (r: i32)
    ensures
        r == base_score(action_id, *context),
{
    let schema_view = context.view == AppView::SchemaExplorer && context.selection.table.is_some();
    match action_id {
        ActionId::CancelRunningQuery => if context.query_running {
            1000
        } else {
            0
        },
        ActionId::ApplyLimit200 => if limit_suggestion_present(context) {
            950
        } else {
            0
        },
        ActionId::PreviewTable => if schema_view {
            900
        } else {
            0
        },
        ActionId::PreviousPage => if context.pagination_enabled && context.can_page_previous
            && context.view == AppView::Results {
            840
        } else {
            0
        },
        ActionId::NextPage => if context.pagination_enabled && context.can_page_next
            && context.view == AppView::Results {
            860
        } else {
            0
        },
        ActionId::DescribeTable => if schema_view {
            820
        } else {
            0
        },
        ActionId::ShowIndexes => if schema_view {
            790
        } else {
            0
        },
        ActionId::ShowCreateTable => if schema_view {
            760
        } else {
            0
        },
        ActionId::CountEstimate => if context.selection.table.is_some()
            && context.selection.database.is_some() {
            700
        } else {
            0
        },
        ActionId::RunCurrentQuery => if query_present(context) {
            850
        } else {
            0
        },
        ActionId::ExportCsv | ActionId::ExportJson => if context.has_results {
            640
        } else {
            0
        },
        ActionId::CopyCell | ActionId::CopyRow => if context.has_results {
            600
        } else {
            0
        },
        ActionId::SearchResults => if context.has_results {
            580
        } else {
            0
        },
        ActionId::FocusQueryEditor => if context.view != AppView::QueryEditor {
            500
        } else {
            0
        },
    }
}


/// The enabled actions among the first `k` of the registry, in registry order.
pub open spec fn enabled_prefix(ctx: ActionContext, k: nat) -> Seq<ActionId>
    decreases k,
{
    if k == 0 {
        seq![]
    } else {
        let prev = enabled_prefix(ctx, (k - 1) as nat);
        if enabled_in(action_at((k - 1) as nat), ctx) {
            prev.push(action_at((k - 1) as nat))
        } else {
            prev
        }
    }
}

/// The enabled actions, in registry order.
pub open spec fn enabled_ids(ctx: ActionContext) -> Seq<ActionId> {
    enabled_prefix(ctx, ACTION_COUNT as nat)
}

proof fn lemma_action_at_index(id: ActionId)
    ensures
        action_index(id) < ACTION_COUNT,
        action_at(action_index(id)) == id,
{
}

proof fn lemma_enabled_prefix(ctx: ActionContext, k: nat)
    requires
        k <= ACTION_COUNT,
    ensures
        forall|i: int| 0 <= i < enabled_prefix(ctx, k).len() ==> {
            let id = #[trigger] enabled_prefix(ctx, k)[i];
            enabled_in(id, ctx) && action_index(id) < k
        },
        forall|i: int, j: int|
            0 <= i < j < enabled_prefix(ctx, k).len() ==> action_index(
                #[trigger] enabled_prefix(ctx, k)[i],
            ) < action_index(#[trigger] enabled_prefix(ctx, k)[j]),
        forall|id: ActionId|
            enabled_in(id, ctx) && action_index(id) < k ==> enabled_prefix(ctx, k).contains(id),
    decreases k,
{
    if k > 0 {
        lemma_enabled_prefix(ctx, (k - 1) as nat);
        let prev = enabled_prefix(ctx, (k - 1) as nat);
        let cur = enabled_prefix(ctx, k);
        let a = action_at((k - 1) as nat);
        assert(action_index(a) == k - 1);
        assert forall|id: ActionId| enabled_in(id, ctx) && action_index(id) < k implies cur.contains(
            id,
        ) by {
            lemma_action_at_index(id);
            if action_index(id) < k - 1 {
                let t = choose|t: int| 0 <= t < prev.len() && prev[t] == id;
                assert(cur[t] == id);
            } else {
                assert(cur[cur.len() - 1] == id);
            }
        }
    }
}

pub(crate) proof fn lemma_same_score(a: ActionContext, b: ActionContext, id: ActionId)
    requires
        a.view == b.view,
        a.selection.table is Some == b.selection.table is Some,
        a.selection.database is Some == b.selection.database is Some,
        a.query_text is Some == b.query_text is Some,
        a.query_text is Some ==> a.query_text->0@ == b.query_text->0@,
        a.query_running == b.query_running,
        a.has_results == b.has_results,
        a.pagination_enabled == b.pagination_enabled,
        a.can_page_next == b.can_page_next,
        a.can_page_previous == b.can_page_previous,
    ensures
        base_score(id, a) == base_score(id, b),
{
}

pub(crate) proof fn lemma_enabled_ids_len(ctx: ActionContext)
    ensures
        enabled_ids(ctx).len() <= ACTION_COUNT,
{
    lemma_enabled_prefix_len(ctx, ACTION_COUNT as nat);
}

proof fn lemma_enabled_prefix_len(ctx: ActionContext, k: nat)
    ensures
        enabled_prefix(ctx, k).len() <= k,
    decreases k,
{
    if k > 0 {
        lemma_enabled_prefix_len(ctx, (k - 1) as nat);
    }
}

#[derive(Debug, Default)]
pub struct ActionRegistry;

impl ActionRegistry {
    /// Every action, in registry order.
    pub fn all(&self) -> (r: Vec<ActionDefinition>)
        ensures
            r@.len() == ACTION_COUNT,
            forall|i: int| 0 <= i < r@.len() ==> (#[trigger] r@[i]).id == action_at(i as nat),
            forall|i: int|
                0 <= i < r@.len() ==> (#[trigger] r@[i]).title@ == action_title(r@[i].id)
                    && r@[i].title@.len() > 0 && r@[i].description@.len() > 0,
            forall|i: int, j: int|
                0 <= i < j < r@.len() ==> (#[trigger] r@[i]).title@ != (#[trigger] r@[j]).title@,
    {
        proof {
            titles_are_distinct();
        }
        let mut r: Vec<ActionDefinition> = Vec::new();
        let mut i: usize = 0;
        while i < ACTION_COUNT
            invariant
                i <= ACTION_COUNT,
                r@.len() == i,
                forall|k: int| 0 <= k < i ==> (#[trigger] r@[k]).id == action_at(k as nat),
                forall|k: int|
                    0 <= k < i ==> (#[trigger] r@[k]).title@ == action_title(r@[k].id)
                        && r@[k].title@.len() > 0 && r@[k].description@.len() > 0,
                forall|a: ActionId, b: ActionId| a != b ==> action_title(a) != action_title(b),
                forall|a: ActionId| action_title(a).len() > 0,
            decreases ACTION_COUNT - i,
        {
            r.push(definition_of(action_at_index(i)));
            i = i + 1;
        }
        assert forall|i: int, j: int| 0 <= i < j < r@.len() implies (#[trigger] r@[i]).title@ != (#[trigger] r@[j]).title@ by {
            assert(action_at(i as nat) != action_at(j as nat));
        }
        r
    }

    pub fn find(&self, action_id: ActionId) -> (r: Option<ActionDefinition>)
        ensures
            r is Some && r->0.id == action_id && r->0.title@ == action_title(action_id),
    {
        Some(definition_of(action_id))
    }

    /// The actions enabled in a context, in registry order.
    pub fn enabled_actions(&self, context: &ActionContext) -> (r: Vec<ActionDefinition>)
        ensures
            r@.map_values(|d: ActionDefinition| d.id) == enabled_ids(*context),
    {
        let mut r: Vec<ActionDefinition> = Vec::new();
        let mut i: usize = 0;
        while i < ACTION_COUNT
            invariant
                i <= ACTION_COUNT,
                r@.map_values(|d: ActionDefinition| d.id) == enabled_prefix(*context, i as nat),
            decreases ACTION_COUNT - i,
        {
            let id = action_at_index(i);
            if action_enabled(id, context) {
                r.push(definition_of(id));
            }
            assert(r@.map_values(|d: ActionDefinition| d.id) =~= enabled_prefix(
                *context,
                (i + 1) as nat,
            ));
            i = i + 1;
        }
        r
    }
}

#[derive(Debug, Clone, Copy, PartialEq, Eq)]
pub struct RankedAction {
    pub id: ActionId,
    pub title: &'static str,
    pub score: i32,
}

#[derive(Debug, Clone, Copy, PartialEq, Eq, Structural)]
pub enum ExportFormat {
    Csv,
    Json,
}

#[derive(Debug, Clone, Copy, PartialEq, Eq, Structural)]
pub enum CopyTarget {
    Cell,
    Row,
}

/// What the interface is asked to do when an action is invoked.
#[derive(Debug, Clone, PartialEq, Eq)]
pub enum ActionInvocation {
    RunSql(String),
    PaginatePrevious,
    PaginateNext,
    ReplaceQueryEditorText(String),
    CancelQuery,
    ExportResults(ExportFormat),
    CopyToClipboard(CopyTarget),
    OpenView(AppView),
    SearchBufferedResults,
}

#[derive(Debug, Clone, Copy, PartialEq, Eq)]
pub enum ActionEngineError {
    ActionDisabled(ActionId),
    MissingTableSelection,
    MissingDatabaseSelection,
    MissingQueryText,
    NoLimitSuggestion,
    SqlGeneration(SqlGenerationError),
}

impl ActionEngineError {
    /// Wraps a generation error.
    pub fn from_generation(error: SqlGenerationError) -> (r: Self)
        ensures
            r == ActionEngineError::SqlGeneration(error),
    {
        ActionEngineError::SqlGeneration(error)
    }
}

/// The selection as a target.
pub open spec fn selection_target(ctx: ActionContext) -> SqlTarget {
    SqlTarget { database: ctx.selection.database, table: ctx.selection.table->0 }
}

/// Why the selection is no target, if it is none.
pub open spec fn target_error(ctx: ActionContext) -> Option<ActionEngineError> {
    match ctx.selection.table {
        None => Some(ActionEngineError::MissingTableSelection),
        Some(t) => match ctx.selection.database {
            None => Some(ActionEngineError::MissingDatabaseSelection),
            Some(d) => if is_blank(t@) {
                Some(ActionEngineError::SqlGeneration(SqlGenerationError::EmptyTableName))
            } else if is_blank(d@) {
                Some(ActionEngineError::SqlGeneration(SqlGenerationError::EmptyDatabaseName))
            } else {
                None
            },
        },
    }
}

/// The statement a schema action runs on a target.
pub open spec fn schema_sql(id: ActionId, t: SqlTarget) -> Seq<char> {
    match id {
        ActionId::PreviewTable => preview_select(t, PREVIEW_LIMIT as nat),
        ActionId::DescribeTable => "DESCRIBE "@ + table_ref(t),
        ActionId::ShowIndexes => "SHOW INDEX FROM "@ + table_ref(t),
        ActionId::ShowCreateTable => "SHOW CREATE TABLE "@ + table_ref(t),
        _ => count_estimate(t.database->0@, t.table@),
    }
}

/// `r` runs `sql`.
pub open spec fn runs_sql(r: Result<ActionInvocation, ActionEngineError>, sql: Seq<char>) -> bool {
    r is Ok && r->Ok_0 is RunSql && r->Ok_0->RunSql_0@ == sql
}

/// What invoking an enabled action returns.
pub open spec fn invocation_outcome(
    r: Result<ActionInvocation, ActionEngineError>,
    id: ActionId,
    ctx: ActionContext,
) -> bool {
    match id {
        ActionId::PreviewTable | ActionId::DescribeTable | ActionId::ShowIndexes
        | ActionId::ShowCreateTable | ActionId::CountEstimate => match target_error(ctx) {
            Some(e) => r == Err::<ActionInvocation, ActionEngineError>(e),
            None => runs_sql(r, schema_sql(id, selection_target(ctx))),
        },
        ActionId::PreviousPage => r == Ok::<ActionInvocation, ActionEngineError>(
            ActionInvocation::PaginatePrevious,
        ),
        ActionId::NextPage => r == Ok::<ActionInvocation, ActionEngineError>(
            ActionInvocation::PaginateNext,
        ),
        ActionId::RunCurrentQuery => runs_sql(r, trim(ctx.query_text->0@)),
        ActionId::ApplyLimit200 => r is Ok && r->Ok_0 is ReplaceQueryEditorText
            && r->Ok_0->ReplaceQueryEditorText_0@ == limit_suggestion(
            ctx.query_text->0@,
            PREVIEW_LIMIT as nat,
        )->0,
        ActionId::CancelRunningQuery => r == Ok::<ActionInvocation, ActionEngineError>(
            ActionInvocation::CancelQuery,
        ),
        ActionId::ExportCsv => r == Ok::<ActionInvocation, ActionEngineError>(
            ActionInvocation::ExportResults(ExportFormat::Csv),
        ),
        ActionId::ExportJson => r == Ok::<ActionInvocation, ActionEngineError>(
            ActionInvocation::ExportResults(ExportFormat::Json),
        ),
        ActionId::CopyCell => r == Ok::<ActionInvocation, ActionEngineError>(
            ActionInvocation::CopyToClipboard(CopyTarget::Cell),
        ),
        ActionId::CopyRow => r == Ok::<ActionInvocation, ActionEngineError>(
            ActionInvocation::CopyToClipboard(CopyTarget::Row),
        ),
        ActionId::SearchResults => r == Ok::<ActionInvocation, ActionEngineError>(
            ActionInvocation::SearchBufferedResults,
        ),
        ActionId::FocusQueryEditor => r == Ok::<ActionInvocation, ActionEngineError>(
            ActionInvocation::OpenView(AppView::QueryEditor),
        ),
    }
}

/// The selected database and table as a target.
pub fn context_selected_target(context: &ActionContext) -> (r: Result<SqlTarget, ActionEngineError>)
    ensures
        target_error(*context) is Some ==> r == Err::<SqlTarget, ActionEngineError>(
            target_error(*context)->0,
        ),
        target_error(*context) is None ==> r is Ok && table_ref(r->Ok_0) == table_ref(
            selection_target(*context),
        ) && r->Ok_0.database is Some && r->Ok_0.database->0@ == context.selection.database->0@
            && r->Ok_0.table@ == context.selection.table->0@,
{
    let table = match &context.selection.table {
        Some(t) => t,
        None => return Err(ActionEngineError::MissingTableSelection),
    };
    let database = match &context.selection.database {
        Some(d) => d,
        None => return Err(ActionEngineError::MissingDatabaseSelection),
    };
    match SqlTarget::new(Some(database.as_str()), table.as_str()) {
        Ok(t) => Ok(t),
        Err(e) => Err(ActionEngineError::from_generation(e)),
    }
}

/// Lexicographic order of titles by code point.
pub open spec fn title_le(a: Seq<char>, b: Seq<char>) -> bool
    decreases a.len(),
{
    if a.len() == 0 {
        true
    } else if b.len() == 0 {
        false
    } else if a[0] != b[0] {
        a[0] < b[0]
    } else {
        title_le(a.drop_first(), b.drop_first())
    }
}

pub(crate) proof fn lemma_title_le_total(a: Seq<char>, b: Seq<char>)
    ensures
        title_le(a, b) || title_le(b, a),
    decreases a.len(),
{
    if a.len() > 0 && b.len() > 0 && a[0] == b[0] {
        lemma_title_le_total(a.drop_first(), b.drop_first());
    }
}

pub(crate) proof fn lemma_title_le_trans(a: Seq<char>, b: Seq<char>, c: Seq<char>)
    requires
        title_le(a, b),
        title_le(b, c),
    ensures
        title_le(a, c),
    decreases a.len(),
{
    if a.len() > 0 && b.len() > 0 && c.len() > 0 && a[0] == b[0] && b[0] == c[0] {
        lemma_title_le_trans(a.drop_first(), b.drop_first(), c.drop_first());
    }
}

pub(crate) proof fn lemma_title_le_antisym(a: Seq<char>, b: Seq<char>)
    requires
        title_le(a, b),
        title_le(b, a),
    ensures
        a == b,
    decreases a.len(),
{
    if a.len() > 0 && b.len() > 0 && a[0] == b[0] {
        lemma_title_le_antisym(a.drop_first(), b.drop_first());
        assert(a =~= seq![a[0]] + a.drop_first());
        assert(b =~= seq![b[0]] + b.drop_first());
    }
}

/// `(s1, t1)` ranks at or above `(s2, t2)`: higher score first, then title order.
pub open spec fn outranks(s1: int, t1: Seq<char>, s2: int, t2: Seq<char>) -> bool {
    s1 > s2 || (s1 == s2 && title_le(t1, t2))
}

pub open spec fn ranks_above(a: RankedAction, b: RankedAction) -> bool {
    outranks(a.score as int, a.title@, b.score as int, b.title@)
}

pub fn title_le_str(a: &str, b: &str) -> (r: bool)
    ensures
        r == title_le(a@, b@),
{
    let av = chars_of(a);
    let bv = chars_of(b);
    let mut i: usize = 0;
    assert(av@.subrange(0, av@.len() as int) =~= av@);
    assert(bv@.subrange(0, bv@.len() as int) =~= bv@);
    while i < av.len() && i < bv.len() && av[i] == bv[i]
        invariant
            i <= av.len(),
            i <= bv.len(),
            title_le(a@, b@) == title_le(
                av@.subrange(i as int, av@.len() as int),
                bv@.subrange(i as int, bv@.len() as int),
            ),
            av@ == a@,
            bv@ == b@,
        decreases av.len() - i,
    {
        assert(av@.subrange(i as int, av@.len() as int).drop_first() =~= av@.subrange(
            i + 1,
            av@.len() as int,
        ));
        assert(bv@.subrange(i as int, bv@.len() as int).drop_first() =~= bv@.subrange(
            i + 1,
            bv@.len() as int,
        ));
        i = i + 1;
    }
    if i == av.len() {
        true
    } else if i == bv.len() {
        false
    } else {
        av[i] < bv[i]
    }
}

fn ranks_above_exec(a: &RankedAction, b: &RankedAction) -> (r: bool)
    ensures
        r == ranks_above(*a, *b),
{
    a.score > b.score || (a.score == b.score && title_le_str(a.title, b.title))
}

/// Bonus for an action last used at tick `last` (0: never) when the engine is at `tick`.
pub open spec fn recency_bonus(tick: u64, last: u64) -> int {
    if last == 0 {
        0
    } else {
        let age: int = if tick >= last {
            tick - last
        } else {
            0
        };
        if age >= MAX_RECENCY_BOOST {
            0
        } else {
            MAX_RECENCY_BOOST - age
        }
    }
}

/// Enumerates, ranks and invokes actions, remembering which were used recently.
#[derive(Debug)]
pub struct ActionsEngine {
    registry: ActionRegistry,
    recency_tick: u64,
    recency: Vec<u64>,
}

impl ActionsEngine {
    /// Successful invocations so far (saturating).
    pub closed spec fn tick(&self) -> u64 {
        self.recency_tick
    }

    /// For each registry position, the tick of its last successful invocation (0: never).
    pub closed spec fn last_used(&self) -> Seq<u64> {
        self.recency@
    }

    pub closed spec fn wf(&self) -> bool {
        self.recency@.len() == ACTION_COUNT
    }

    /// The score of an action now.
    pub open spec fn score_of(&self, id: ActionId, ctx: ActionContext) -> int {
        base_score(id, ctx) + recency_bonus(self.tick(), self.last_used()[action_index(id) as int])
    }

    pub fn new() -> (r: Self)
        ensures
            r.wf(),
            r.tick() == 0,
            forall|i: int| 0 <= i < ACTION_COUNT ==> r.last_used()[i] == 0,
    {
        let mut recency: Vec<u64> = Vec::new();
        let mut i: usize = 0;
        while i < ACTION_COUNT
            invariant
                i <= ACTION_COUNT,
                recency@.len() == i,
                forall|k: int| 0 <= k < i ==> recency@[k] == 0,
            decreases ACTION_COUNT - i,
        {
            recency.push(0);
            i = i + 1;
        }
        ActionsEngine { registry: ActionRegistry, recency_tick: 0, recency }
    }

    pub fn registry(&self) -> (r: &ActionRegistry) {
        &self.registry
    }

    fn recency_boost(&self, action_id: ActionId) -> (r: i32)
        requires
            self.wf(),
        ensures
            r == recency_bonus(self.tick(), self.last_used()[action_index(action_id) as int]),
            0 <= r <= MAX_RECENCY_BOOST,
    {
        let last = self.recency[index_of_action(action_id)];
        if last == 0 {
            return 0;
        }
        let age: u64 = if self.recency_tick >= last {
            self.recency_tick - last
        } else {
            0
        };
        if age >= 25 {
            0
        } else {
            25 - (age as i32)
        }
    }

    fn record_use(&mut self, action_id: ActionId)
        requires
            old(self).wf(),
        ensures
            final(self).wf(),
            final(self).tick() == (if old(self).tick() < u64::MAX {
                (old(self).tick() + 1) as u64
            } else {
                old(self).tick()
            }),
            final(self).last_used() == old(self).last_used().update(
                action_index(action_id) as int,
                final(self).tick(),
            ),
    {
        if self.recency_tick < u64::MAX {
            self.recency_tick = self.recency_tick + 1;
        }
        let i = index_of_action(action_id);
        self.recency.set(i, self.recency_tick);
    }

    /// Invokes an enabled action in a context; a successful invocation is remembered for
    /// ranking.
    pub fn invoke(&mut self, action_id: ActionId, context: &ActionContext) -> (r: Result<
        ActionInvocation,
        ActionEngineError,
    >)
        requires
            old(self).wf(),
        ensures
            final(self).wf(),
            !enabled_in(action_id, *context) ==> r == Err::<ActionInvocation, ActionEngineError>(
                ActionEngineError::ActionDisabled(action_id),
            ),
            enabled_in(action_id, *context) ==> invocation_outcome(r, action_id, *context),
            r is Err ==> final(self).tick() == old(self).tick() && final(self).last_used() == old(
                self,
            ).last_used(),
            r is Ok ==> final(self).tick() == (if old(self).tick() < u64::MAX {
                (old(self).tick() + 1) as u64
            } else {
                old(self).tick()
            }) && final(self).last_used() == old(self).last_used().update(
                action_index(action_id) as int,
                final(self).tick(),
            ),
    {
        if !action_enabled(action_id, context) {
            return Err(ActionEngineError::ActionDisabled(action_id));
        }
        let invocation = match action_id {
            ActionId::PreviewTable => {
                let target = match context_selected_target(context) {
                    Ok(t) => t,
                    Err(e) => return Err(e),
                };
                ActionInvocation::RunSql(preview_select_sql(&target, PREVIEW_LIMIT))
            },
            ActionId::PreviousPage => ActionInvocation::PaginatePrevious,
            ActionId::NextPage => ActionInvocation::PaginateNext,
            ActionId::DescribeTable => {
                let target = match context_selected_target(context) {
                    Ok(t) => t,
                    Err(e) => return Err(e),
                };
                ActionInvocation::RunSql(describe_table_sql(&target))
            },
            ActionId::ShowIndexes => {
                let target = match context_selected_target(context) {
                    Ok(t) => t,
                    Err(e) => return Err(e),
                };
                ActionInvocation::RunSql(show_index_sql(&target))
            },
            ActionId::ShowCreateTable => {
                let target = match context_selected_target(context) {
                    Ok(t) => t,
                    Err(e) => return Err(e),
                };
                ActionInvocation::RunSql(show_create_table_sql(&target))
            },
            ActionId::CountEstimate => {
                let target = match context_selected_target(context) {
                    Ok(t) => t,
                    Err(e) => return Err(e),
                };
                match count_estimate_sql(&target) {
                    Ok(sql) => ActionInvocation::RunSql(sql),
                    Err(e) => return Err(ActionEngineError::from_generation(e)),
                }
            },
            ActionId::RunCurrentQuery => {
                match &context.query_text {
                    Some(q) => ActionInvocation::RunSql(trim_str(q.as_str())),
                    None => return Err(ActionEngineError::MissingQueryText),
                }
            },
            ActionId::ApplyLimit200 => {
                match &context.query_text {
                    Some(q) => match suggest_preview_limit(q.as_str(), PREVIEW_LIMIT) {
                        Some(s) => ActionInvocation::ReplaceQueryEditorText(s),
                        None => return Err(ActionEngineError::NoLimitSuggestion),
                    },
                    None => return Err(ActionEngineError::MissingQueryText),
                }
            },
            ActionId::CancelRunningQuery => ActionInvocation::CancelQuery,
            ActionId::ExportCsv => ActionInvocation::ExportResults(ExportFormat::Csv),
            ActionId::ExportJson => ActionInvocation::ExportResults(ExportFormat::Json),
            ActionId::CopyCell => ActionInvocation::CopyToClipboard(CopyTarget::Cell),
            ActionId::CopyRow => ActionInvocation::CopyToClipboard(CopyTarget::Row),
            ActionId::SearchResults => ActionInvocation::SearchBufferedResults,
            ActionId::FocusQueryEditor => ActionInvocation::OpenView(AppView::QueryEditor),
        };
        self.record_use(action_id);
        Ok(invocation)
    }

    /// The enabled actions ranked by score (then title), at most `limit` of them.
    pub fn rank_top_n(&self, context: &ActionContext, limit: usize) -> (r: Vec<RankedAction>)
        requires
            self.wf(),
        ensures
            r@.len() == (if limit < enabled_ids(*context).len() {
                limit as nat
            } else {
                enabled_ids(*context).len()
            }),
            forall|i: int|
                0 <= i < r@.len() ==> {
                    let a = #[trigger] r@[i];
                    &&& enabled_in(a.id, *context)
                    &&& a.score == self.score_of(a.id, *context)
                    &&& a.title@ == action_title(a.id)
                },
            forall|i: int, j: int| 0 <= i < j < r@.len() ==> #[trigger] r@[i].id != #[trigger] r@[j].id,
            forall|i: int, j: int| 0 <= i < j < r@.len() ==> ranks_above(#[trigger] r@[i], #[trigger] r@[j]),
            forall|id: ActionId, i: int|
                enabled_in(id, *context) && 0 <= i < r@.len() && !(exists|k: int|
                    0 <= k < r@.len() && r@[k].id == id) ==> outranks(
                    (#[trigger] r@[i]).score as int,
                    r@[i].title@,
                    #[trigger] self.score_of(id, *context),
                    action_title(id),
                ),
            limit >= enabled_ids(*context).len() ==> forall|id: ActionId|
                #[trigger] enabled_in(id, *context) ==> exists|k: int| 0 <= k < r@.len() && r@[k].id == id,
    {
        proof {
            lemma_enabled_prefix(*context, ACTION_COUNT as nat);
        }
        let ghost ids = enabled_ids(*context);
        let mut remaining: Vec<RankedAction> = Vec::new();
        let mut i: usize = 0;
        while i < ACTION_COUNT
            invariant
                self.wf(),
                i <= ACTION_COUNT,
                remaining@.map_values(|a: RankedAction| a.id) == enabled_prefix(*context, i as nat),
                forall|k: int|
                    0 <= k < remaining@.len() ==> {
                        let a = #[trigger] remaining@[k];
                        &&& a.score == self.score_of(a.id, *context)
                        &&& a.title@ == action_title(a.id)
                    },
            decreases ACTION_COUNT - i,
        {
            let id = action_at_index(i);
            if action_enabled(id, context) {
                let def = definition_of(id);
                let score = action_base_score(id, context) + self.recency_boost(id);
                remaining.push(RankedAction { id, title: def.title, score });
            }
            assert(remaining@.map_values(|a: RankedAction| a.id) =~= enabled_prefix(
                *context,
                (i + 1) as nat,
            ));
            i = i + 1;
        }
        let ghost all = remaining@;
        assert(all.map_values(|a: RankedAction| a.id) == ids);
        assert forall|k: int| 0 <= k < all.len() implies enabled_in((#[trigger] all[k]).id, *context) by {
            assert(all.map_values(|a: RankedAction| a.id)[k] == ids[k]);
        }
        assert forall|k: int, m: int| 0 <= k < m < all.len() implies (#[trigger] all[k]).id != (
        #[trigger] all[m]).id by {
            assert(all.map_values(|a: RankedAction| a.id)[k] == ids[k]);
            assert(all.map_values(|a: RankedAction| a.id)[m] == ids[m]);
        }
        let count = if limit < remaining.len() {
            limit
        } else {
            remaining.len()
        };
        let mut out: Vec<RankedAction> = Vec::new();
        while out.len() < count
            invariant
                count <= all.len(),
                out@.len() <= count,
                out@.len() + remaining@.len() == all.len(),
                forall|k: int| 0 <= k < all.len() ==> out@.contains(#[trigger] all[k]) || remaining@.contains(all[k]),
                forall|m: int| 0 <= m < out@.len() ==> all.contains(#[trigger] out@[m]),
                forall|m: int| 0 <= m < remaining@.len() ==> all.contains(#[trigger] remaining@[m]),
                forall|k: int, m: int| 0 <= k < m < all.len() ==> (#[trigger] all[k]).id != (#[trigger] all[m]).id,
                forall|k: int, m: int| 0 <= k < m < out@.len() ==> (#[trigger] out@[k]).id != (#[trigger] out@[m]).id,
                forall|k: int, m: int| 0 <= k < out@.len() && 0 <= m < remaining@.len() ==> (#[trigger] out@[k]).id != (#[trigger] remaining@[m]).id,
                forall|k: int, m: int| 0 <= k < m < remaining@.len() ==> (#[trigger] remaining@[k]).id != (#[trigger] remaining@[m]).id,
                forall|k: int, m: int| 0 <= k < m < out@.len() ==> ranks_above(#[trigger] out@[k], #[trigger] out@[m]),
                forall|k: int, m: int| 0 <= k < out@.len() && 0 <= m < remaining@.len() ==> ranks_above(#[trigger] out@[k], #[trigger] remaining@[m]),
            decreases count - out@.len(),
        {
            let mut best: usize = 0;
            let mut j: usize = 1;
            proof {
                lemma_title_le_total(remaining@[0].title@, remaining@[0].title@);
            }
            while j < remaining.len()
                invariant
                    0 < remaining@.len(),
                    best < remaining@.len(),
                    1 <= j <= remaining@.len(),
                    forall|m: int| 0 <= m < j ==> ranks_above(remaining@[best as int], #[trigger] remaining@[m]),
                decreases remaining.len() - j,
            {
                if !ranks_above_exec(&remaining[best], &remaining[j]) {
                    proof {
                        let b = remaining@[best as int];
                        let x = remaining@[j as int];
                        lemma_title_le_total(b.title@, x.title@);
                        assert forall|m: int| 0 <= m < j + 1 implies ranks_above(x, #[trigger] remaining@[m]) by {
                            if m < j {
                                let y = remaining@[m];
                                if x.score == b.score && b.score == y.score {
                                    lemma_title_le_trans(x.title@, b.title@, y.title@);
                                }
                            } else {
                                lemma_title_le_total(x.title@, x.title@);
                            }
                        }
                    }
                    best = j;
                }
                j = j + 1;
            }
            proof {
                if remaining@.len() == 1 {
                    lemma_title_le_total(remaining@[0].title@, remaining@[0].title@);
                }
            }
            let ghost before_out = out@;
            let ghost before_rem = remaining@;
            let picked = remaining.remove(best);
            out.push(picked);
            proof {
                assert forall|k: int| 0 <= k < all.len() implies out@.contains(#[trigger] all[k]) || remaining@.contains(all[k]) by {
                    if before_out.contains(all[k]) {
                        let m = choose|m: int| 0 <= m < before_out.len() && before_out[m] == all[k];
                        assert(out@[m] == all[k]);
                    } else {
                        let m = choose|m: int| 0 <= m < before_rem.len() && before_rem[m] == all[k];
                        if m == best {
                            assert(out@[out@.len() - 1] == all[k]);
                        } else if m < best {
                            assert(remaining@[m] == all[k]);
                        } else {
                            assert(remaining@[m - 1] == all[k]);
                        }
                    }
                }
                assert forall|m: int| 0 <= m < out@.len() implies all.contains(#[trigger] out@[m]) by {
                    if m < before_out.len() {
                        assert(out@[m] == before_out[m]);
                    } else {
                        assert(out@[m] == before_rem[best as int]);
                    }
                }
                assert forall|m: int| 0 <= m < remaining@.len() implies all.contains(#[trigger] remaining@[m]) by {
                    if m < best {
                        assert(remaining@[m] == before_rem[m]);
                    } else {
                        assert(remaining@[m] == before_rem[m + 1]);
                    }
                }
                assert forall|k: int, m: int| 0 <= k < out@.len() && 0 <= m < remaining@.len() implies (#[trigger] out@[k]).id != (#[trigger] remaining@[m]).id by {
                    let mm = if m < best { m } else { m + 1 };
                    assert(remaining@[m] == before_rem[mm]);
                    if k < before_out.len() {
                        assert(out@[k] == before_out[k]);
                    }
                }
                assert forall|k: int, m: int| 0 <= k < m < out@.len() implies (#[trigger] out@[k]).id != (#[trigger] out@[m]).id by {
                    if m < before_out.len() {
                        assert(out@[k] == before_out[k]);
                        assert(out@[m] == before_out[m]);
                    } else {
                        assert(out@[k] == before_out[k]);
                    }
                }
                assert forall|k: int, m: int| 0 <= k < m < remaining@.len() implies (#[trigger] remaining@[k]).id != (#[trigger] remaining@[m]).id by {
                    let kk = if k < best { k } else { k + 1 };
                    let mm = if m < best { m } else { m + 1 };
                    assert(remaining@[k] == before_rem[kk]);
                    assert(remaining@[m] == before_rem[mm]);
                }
                assert forall|k: int, m: int| 0 <= k < m < out@.len() implies ranks_above(#[trigger] out@[k], #[trigger] out@[m]) by {
                    assert(out@[k] == before_out[k]);
                    if m < before_out.len() {
                        assert(out@[m] == before_out[m]);
                    }
                }
                assert forall|k: int, m: int| 0 <= k < out@.len() && 0 <= m < remaining@.len() implies ranks_above(#[trigger] out@[k], #[trigger] remaining@[m]) by {
                    let mm = if m < best { m } else { m + 1 };
                    assert(remaining@[m] == before_rem[mm]);
                    if k < before_out.len() {
                        assert(out@[k] == before_out[k]);
                    }
                }
            }
        }
        proof {
            assert(all.len() == ids.len());
            if limit >= ids.len() {
                assert forall|id: ActionId| #[trigger] enabled_in(id, *context) implies exists|k: int| 0 <= k < out@.len() && out@[k].id == id by {
                    lemma_action_at_index(id);
                    assert(ids.contains(id));
                    let t = choose|t: int| 0 <= t < ids.len() && ids[t] == id;
                    assert(all.map_values(|a: RankedAction| a.id)[t] == id);
                    assert(remaining@.len() == 0);
                    assert(out@.contains(all[t]));
                    let m = choose|m: int| 0 <= m < out@.len() && out@[m] == all[t];
                    assert(out@[m].id == id);
                }
            }
            assert forall|i: int| 0 <= i < out@.len() implies {
                let a = #[trigger] out@[i];
                &&& enabled_in(a.id, *context)
                &&& a.score == self.score_of(a.id, *context)
                &&& a.title@ == action_title(a.id)
            } by {
                let k = choose|k: int| 0 <= k < all.len() && all[k] == out@[i];
            }
            assert forall|id: ActionId, i: int|
                enabled_in(id, *context) && 0 <= i < out@.len() && !(exists|k: int|
                    0 <= k < out@.len() && out@[k].id == id) implies outranks(
                    (#[trigger] out@[i]).score as int,
                    out@[i].title@,
                    #[trigger] self.score_of(id, *context),
                    action_title(id),
                ) by {
                lemma_action_at_index(id);
                assert(ids.contains(id));
                let t = choose|t: int| 0 <= t < ids.len() && ids[t] == id;
                assert(all.map_values(|a: RankedAction| a.id)[t] == id);
                assert(all[t].id == id);
                if out@.contains(all[t]) {
                    let m = choose|m: int| 0 <= m < out@.len() && out@[m] == all[t];
                    assert(out@[m].id == id);
                } else {
                    let m = choose|m: int| 0 <= m < remaining@.len() && remaining@[m] == all[t];
                    assert(ranks_above(out@[i], remaining@[m]));
                }
            }
        }
        out
    }
}

} // verus!
