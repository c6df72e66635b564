use vstd::prelude::*;

use crate::text::{
    same_text,
    ascii_upper, chars_of, decimal, hex_fixed, is_whitespace_char, is_ws, push_all, push_decimal,
    push_hex_fixed, to_ascii_upper, trim, trim_back, trim_bounds, trim_front, upper_seq,
};

verus! {

/// Why a statement is not a plain read.
#[derive(Debug, Clone, PartialEq, Eq)]
pub enum SqlRiskReason {
    MultiStatement,
    WriteOperation(String),
    DdlOperation(String),
    TransactionControl(String),
    SessionMutation(String),
    UnknownStatement(String),
}

/// How a leading keyword is classified.
#[derive(Debug, Clone, Copy, PartialEq, Eq, Structural)]
pub enum KeywordClass {
    SafeRead,
    Write,
    Ddl,
    TransactionControl,
    SessionMutation,
    Unknown,
}

#[derive(Debug, Clone, PartialEq, Eq)]
pub struct SqlSafetyAssessment {
    pub statement_count: usize,
    pub primary_keyword: Option<String>,
    pub reasons: Vec<SqlRiskReason>,
    pub normalized_sql: String,
}

impl SqlSafetyAssessment {
    pub fn is_safe_read_only(&self) -> (r: bool)
        ensures
            r == (self.reasons@.len() == 0),
    {
        self.reasons.len() == 0
    }
}

/// Where the statement scanner stands.
#[derive(Debug, Clone, Copy, PartialEq, Eq, Structural)]
pub enum ScanMode {
    Code,
    SingleQuoted,
    DoubleQuoted,
    Backticked,
    LineComment,
    BlockComment,
}

/// `cur` trimmed is added to `stmts` when not empty.
pub open spec fn close_statement(stmts: Seq<Seq<char>>, cur: Seq<char>) -> Seq<Seq<char>> {
    if trim(cur).len() > 0 {
        stmts.push(trim(cur))
    } else {
        stmts
    }
}

pub open spec fn quote_mode(c: char) -> ScanMode {
    if c == '\'' {
        ScanMode::SingleQuoted
    } else if c == '"' {
        ScanMode::DoubleQuoted
    } else {
        ScanMode::Backticked
    }
}

/// The statements of `s` from position `i` on, given the scanner's mode, the text of the
/// statement so far, and the statements already closed. `;` ends a statement only outside
/// quotes and comments; quotes are kept in the text, comments are dropped.
pub open spec fn scan(s: Seq<char>, i: int, mode: ScanMode, cur: Seq<char>, stmts: Seq<Seq<char>>) -> Seq<Seq<char>>
    decreases s.len() - i,
{
    if i < 0 || i >= s.len() {
        close_statement(stmts, cur)
    } else {
        let c = s[i];
        let two = i + 1 < s.len();
        match mode {
            ScanMode::LineComment => if c == '\n' {
                scan(s, i + 1, ScanMode::Code, cur, stmts)
            } else {
                scan(s, i + 1, ScanMode::LineComment, cur, stmts)
            },
            ScanMode::BlockComment => if c == '*' && two && s[i + 1] == '/' {
                scan(s, i + 2, ScanMode::Code, cur, stmts)
            } else {
                scan(s, i + 1, ScanMode::BlockComment, cur, stmts)
            },
            ScanMode::Code => if c == '-' && two && s[i + 1] == '-' {
                scan(s, i + 2, ScanMode::LineComment, cur, stmts)
            } else if c == '#' {
                scan(s, i + 1, ScanMode::LineComment, cur, stmts)
            } else if c == '/' && two && s[i + 1] == '*' {
                scan(s, i + 2, ScanMode::BlockComment, cur, stmts)
            } else if c == '\'' || c == '"' || c == '`' {
                scan(s, i + 1, quote_mode(c), cur.push(c), stmts)
            } else if c == ';' {
                scan(s, i + 1, ScanMode::Code, seq![], close_statement(stmts, cur))
            } else {
                scan(s, i + 1, ScanMode::Code, cur.push(c), stmts)
            },
            _ => if quote_mode(c) == mode && (c == '\'' || c == '"' || c == '`') {
                scan(s, i + 1, ScanMode::Code, cur.push(c), stmts)
            } else {
                scan(s, i + 1, mode, cur.push(c), stmts)
            },
        }
    }
}

/// The statements of `s`, each trimmed, none empty.
pub open spec fn split_sql(s: Seq<char>) -> Seq<Seq<char>> {
    scan(s, 0, ScanMode::Code, seq![], seq![])
}

/// End of the word of `t` that starts at `i`.
pub open spec fn word_end(t: Seq<char>, i: int) -> int
    decreases t.len() - i,
{
    if 0 <= i < t.len() && !is_ws(t[i]) {
        word_end(t, i + 1)
    } else {
        i
    }
}

/// The first whitespace-delimited word of a statement, in upper case.
pub open spec fn leading_keyword(stmt: Seq<char>) -> Option<Seq<char>> {
    let t = trim_front(stmt);
    if t.len() == 0 {
        None
    } else {
        Some(upper_seq(t.subrange(0, word_end(t, 0))))
    }
}

pub open spec fn in_list(k: Seq<char>, words: Seq<Seq<char>>) -> bool {
    exists|i: int| 0 <= i < words.len() && words[i] == k
}

pub open spec fn safe_read_words() -> Seq<Seq<char>> {
    seq!["SELECT"@, "SHOW"@, "DESCRIBE"@, "DESC"@, "EXPLAIN"@, "HELP"@, "USE"@]
}

pub open spec fn write_words() -> Seq<Seq<char>> {
    seq!["INSERT"@, "UPDATE"@, "DELETE"@, "REPLACE"@, "LOAD"@, "CALL"@, "DO"@]
}

pub open spec fn ddl_words() -> Seq<Seq<char>> {
    seq!["CREATE"@, "ALTER"@, "DROP"@, "TRUNCATE"@, "RENAME"@, "ANALYZE"@, "OPTIMIZE"@, "REPAIR"@]
}

pub open spec fn transaction_words() -> Seq<Seq<char>> {
    seq!["START"@, "BEGIN"@, "COMMIT"@, "ROLLBACK"@, "LOCK"@, "UNLOCK"@]
}

pub open spec fn session_words() -> Seq<Seq<char>> {
    seq!["SET"@, "GRANT"@, "REVOKE"@]
}

pub open spec fn keyword_class(k: Seq<char>) -> KeywordClass {
    if in_list(k, safe_read_words()) {
        KeywordClass::SafeRead
    } else if in_list(k, write_words()) {
        KeywordClass::Write
    } else if in_list(k, ddl_words()) {
        KeywordClass::Ddl
    } else if in_list(k, transaction_words()) {
        KeywordClass::TransactionControl
    } else if in_list(k, session_words()) {
        KeywordClass::SessionMutation
    } else {
        KeywordClass::Unknown
    }
}

/// The (class, keyword) of each statement whose keyword is not a safe read, in order.
pub open spec fn risky_keywords(stmts: Seq<Seq<char>>) -> Seq<(KeywordClass, Seq<char>)>
    decreases stmts.len(),
{
    if stmts.len() == 0 {
        seq![]
    } else {
        let prev = risky_keywords(stmts.drop_last());
        match leading_keyword(stmts.last()) {
            Some(k) => if keyword_class(k) == KeywordClass::SafeRead {
                prev
            } else {
                prev.push((keyword_class(k), k))
            },
            None => prev,
        }
    }
}

/// `r` is the reason given for a statement of class `c` with keyword `k`.
pub open spec fn reason_is(r: SqlRiskReason, c: KeywordClass, k: Seq<char>) -> bool {
    match r {
        SqlRiskReason::WriteOperation(w) => c == KeywordClass::Write && w@ == k,
        SqlRiskReason::DdlOperation(w) => c == KeywordClass::Ddl && w@ == k,
        SqlRiskReason::TransactionControl(w) => c == KeywordClass::TransactionControl && w@ == k,
        SqlRiskReason::SessionMutation(w) => c == KeywordClass::SessionMutation && w@ == k,
        SqlRiskReason::UnknownStatement(w) => c == KeywordClass::Unknown && w@ == k,
        SqlRiskReason::MultiStatement => false,
    }
}

/// Statements joined with `"; "`.
pub open spec fn join_statements(stmts: Seq<Seq<char>>) -> Seq<char>
    decreases stmts.len(),
{
    if stmts.len() == 0 {
        seq![]
    } else if stmts.len() == 1 {
        stmts[0]
    } else {
        join_statements(stmts.drop_last()) + "; "@ + stmts.last()
    }
}

pub open spec fn normalized(s: Seq<char>) -> Seq<char> {
    join_statements(split_sql(s))
}

/// SQL the guard holds back while enabled: several statements, or a statement whose
/// keyword is not a safe read.
pub open spec fn is_risky(sql: Seq<char>) -> bool {
    split_sql(sql).len() > 1 || risky_keywords(split_sql(sql)).len() > 0
}

/// Where the per-statement reasons start: after `MultiStatement` when there are several
/// statements.
pub open spec fn reason_offset(statement_count: nat) -> int {
    if statement_count > 1 {
        1
    } else {
        0
    }
}

/// The assessment of `sql`: its statements, the keyword of the first, one reason per risky
/// statement, preceded by `MultiStatement` where there are several.
pub open spec fn assessment_of(a: SqlSafetyAssessment, sql: Seq<char>) -> bool {
    let stmts = split_sql(sql);
    let risky = risky_keywords(stmts);
    let off = reason_offset(stmts.len());
    &&& a.statement_count == stmts.len()
    &&& a.normalized_sql@ == join_statements(stmts)
    &&& (stmts.len() == 0 ==> a.primary_keyword is None)
    &&& (stmts.len() > 0 ==> match leading_keyword(stmts[0]) {
        Some(k) => a.primary_keyword is Some && a.primary_keyword->0@ == k,
        None => a.primary_keyword is None,
    })
    &&& a.reasons@.len() == off + risky.len()
    &&& (stmts.len() > 1 ==> a.reasons@[0] == SqlRiskReason::MultiStatement)
    &&& forall|i: int|
        0 <= i < risky.len() ==> reason_is(#[trigger] a.reasons@[off + i], risky[i].0, risky[i].1)
}

pub open spec fn strings_view(v: Seq<String>) -> Seq<Seq<char>> {
    v.map_values(|s: String| s@)
}

/// Closes the statement being read.
fn close_current(stmts: &mut Vec<String>, cur: &Vec<char>)
    ensures
        strings_view(final(stmts)@) == close_statement(strings_view(old(stmts)@), cur@),
{
    let (a, b) = trim_bounds(cur, 0, cur.len());
    assert(cur@.subrange(0, cur@.len() as int) =~= cur@);
    if a < b {
        let t = crate::text::string_of(cur, a, b);
        stmts.push(t);
        assert(strings_view(stmts@) =~= strings_view(old(stmts)@).push(trim(cur@)));
    }
}

/// Splits SQL text into trimmed statements (see `split_sql`).
pub fn split_statements(sql: &str) -> (r: Vec<String>)
    ensures
        strings_view(r@) == split_sql(sql@),
{
    let s = chars_of(sql);
    let mut stmts: Vec<String> = Vec::new();
    let mut cur: Vec<char> = Vec::new();
    let mut mode = ScanMode::Code;
    let mut i: usize = 0;
    assert(strings_view(stmts@) =~= Seq::<Seq<char>>::empty());
    while i < s.len()
        invariant
            s@ == sql@,
            i <= s.len(),
            scan(s@, i as int, mode, cur@, strings_view(stmts@)) == split_sql(sql@),
        decreases s.len() - i,
    {
        let c = s[i];
        let two = i + 1 < s.len();
        match mode {
            ScanMode::LineComment => {
                if c == '\n' {
                    mode = ScanMode::Code;
                }
                i = i + 1;
            },
            ScanMode::BlockComment => {
                if c == '*' && two && s[i + 1] == '/' {
                    mode = ScanMode::Code;
                    i = i + 2;
                } else {
                    i = i + 1;
                }
            },
            ScanMode::Code => {
                if c == '-' && two && s[i + 1] == '-' {
                    mode = ScanMode::LineComment;
                    i = i + 2;
                } else if c == '#' {
                    mode = ScanMode::LineComment;
                    i = i + 1;
                } else if c == '/' && two && s[i + 1] == '*' {
                    mode = ScanMode::BlockComment;
                    i = i + 2;
                } else if c == '\'' || c == '"' || c == '`' {
                    mode = if c == '\'' {
                        ScanMode::SingleQuoted
                    } else if c == '"' {
                        ScanMode::DoubleQuoted
                    } else {
                        ScanMode::Backticked
                    };
                    cur.push(c);
                    i = i + 1;
                } else if c == ';' {
                    close_current(&mut stmts, &cur);
                    cur = Vec::new();
                    assert(cur@ =~= Seq::<char>::empty());
                    i = i + 1;
                } else {
                    cur.push(c);
                    i = i + 1;
                }
            },
            _ => {
                let closes = (c == '\'' && mode == ScanMode::SingleQuoted) || (c == '"' && mode
                    == ScanMode::DoubleQuoted) || (c == '`' && mode == ScanMode::Backticked);
                if closes {
                    mode = ScanMode::Code;
                }
                cur.push(c);
                i = i + 1;
            },
        }
    }
    close_current(&mut stmts, &cur);
    stmts
}

/// End of the word of `t` that starts at `i`.
fn scan_word(t: &Vec<char>, i: usize, hi: usize) -> (r: usize)
    requires
        i <= hi <= t.len(),
    ensures
        i <= r <= hi,
        r == word_end(t@.subrange(0, hi as int), i as int),
{
    let mut j = i;
    while j < hi && !is_whitespace_char(t[j])
        invariant
            i <= j <= hi <= t.len(),
            word_end(t@.subrange(0, hi as int), i as int) == word_end(t@.subrange(0, hi as int), j as int),
        decreases hi - j,
    {
        j = j + 1;
    }
    j
}

/// The leading keyword of a statement, in upper case.
pub fn first_keyword(statement: &str) -> (r: Option<String>)
    ensures
        match leading_keyword(statement@) {
            Some(k) => r is Some && r->0@ == k,
            None => r is None,
        },
{
    let v = chars_of(statement);
    let mut a: usize = 0;
    assert(v@.subrange(0, v@.len() as int) =~= v@);
    while a < v.len() && is_whitespace_char(v[a])
        invariant
            a <= v.len(),
            v@ == statement@,
            trim_front(statement@) == trim_front(v@.subrange(a as int, v@.len() as int)),
        decreases v.len() - a,
    {
        assert(v@.subrange(a as int, v@.len() as int).drop_first() =~= v@.subrange(a + 1, v@.len() as int));
        a = a + 1;
    }
    let ghost t = v@.subrange(a as int, v@.len() as int);
    assert(trim_front(t) == t);
    if a == v.len() {
        return None;
    }
    let mut e = a;
    while e < v.len() && !is_whitespace_char(v[e])
        invariant
            a <= e <= v.len(),
            t == v@.subrange(a as int, v@.len() as int),
            word_end(t, 0) == word_end(t, e - a),
        decreases v.len() - e,
    {
        e = e + 1;
    }
    let mut r = String::new();
    let mut k = a;
    while k < e
        invariant
            a <= k <= e <= v.len(),
            r@ == upper_seq(v@.subrange(a as int, k as int)),
        decreases e - k,
    {
        r.push(to_ascii_upper(v[k]));
        assert(upper_seq(v@.subrange(a as int, k + 1)) =~= upper_seq(v@.subrange(a as int, k as int)).push(ascii_upper(v@[k as int])));
        k = k + 1;
    }
    assert(t.subrange(0, word_end(t, 0)) =~= v@.subrange(a as int, e as int));
    Some(r)
}

fn in_words(k: &String, words: &[&str]) -> (r: bool)
    ensures
        r == (exists|i: int| 0 <= i < words@.len() && words@[i]@ == k@),
{
    let mut i: usize = 0;
    while i < words.len()
        invariant
            i <= words@.len(),
            forall|j: int| 0 <= j < i ==> words@[j]@ != k@,
        decreases words.len() - i,
    {
        if same_text(k, words[i]) {
            return true;
        }
        i = i + 1;
    }
    false
}

proof fn lemma_in_list_of_strs(k: Seq<char>, words: Seq<&str>, list: Seq<Seq<char>>)
    requires
        words.len() == list.len(),
        forall|i: int| 0 <= i < words.len() ==> #[trigger] words[i]@ == list[i],
    ensures
        (exists|i: int| 0 <= i < words.len() && words[i]@ == k) == in_list(k, list),
{
    if in_list(k, list) {
        let i = choose|i: int| 0 <= i < list.len() && list[i] == k;
        assert(words[i]@ == k);
    }
}

/// Classifies a leading keyword.
pub fn classify_keyword(k: &String) -> (r: KeywordClass)
    ensures
        r == keyword_class(k@),
{
    let safe: [&str; 7] = ["SELECT", "SHOW", "DESCRIBE", "DESC", "EXPLAIN", "HELP", "USE"];
    let write: [&str; 7] = ["INSERT", "UPDATE", "DELETE", "REPLACE", "LOAD", "CALL", "DO"];
    let ddl: [&str; 8] = [
        "CREATE",
        "ALTER",
        "DROP",
        "TRUNCATE",
        "RENAME",
        "ANALYZE",
        "OPTIMIZE",
        "REPAIR",
    ];
    let tx: [&str; 6] = ["START", "BEGIN", "COMMIT", "ROLLBACK", "LOCK", "UNLOCK"];
    let session: [&str; 3] = ["SET", "GRANT", "REVOKE"];
    proof {
        lemma_in_list_of_strs(k@, safe@, safe_read_words());
        lemma_in_list_of_strs(k@, write@, write_words());
        lemma_in_list_of_strs(k@, ddl@, ddl_words());
        lemma_in_list_of_strs(k@, tx@, transaction_words());
        lemma_in_list_of_strs(k@, session@, session_words());
    }
    if in_words(k, safe.as_slice()) {
        KeywordClass::SafeRead
    } else if in_words(k, write.as_slice()) {
        KeywordClass::Write
    } else if in_words(k, ddl.as_slice()) {
        KeywordClass::Ddl
    } else if in_words(k, tx.as_slice()) {
        KeywordClass::TransactionControl
    } else if in_words(k, session.as_slice()) {
        KeywordClass::SessionMutation
    } else {
        KeywordClass::Unknown
    }
}

/// Classifies each statement of `sql` and lists what makes it risky.
pub fn assess_sql_safety(sql: &str) -> (r: SqlSafetyAssessment)
    ensures
        assessment_of(r, sql@),
{
    let statements = split_statements(sql);
    let ghost stmts = split_sql(sql@);
    let statement_count = statements.len();
    let mut reasons: Vec<SqlRiskReason> = Vec::new();
    let ghost off: int = reason_offset(statement_count as nat);
    if statement_count > 1 {
        reasons.push(SqlRiskReason::MultiStatement);
    }
    assert(strings_view(statements@).len() == statements@.len());
    let primary_keyword = if statement_count > 0 {
        assert(strings_view(statements@)[0] == statements@[0]@);
        first_keyword(statements[0].as_str())
    } else {
        None
    };
    let mut normalized_sql = String::new();
    let mut i: usize = 0;
    while i < statements.len()
        invariant
            strings_view(statements@) == stmts,
            statement_count == statements@.len(),
            i <= statements@.len(),
            off == reason_offset(statement_count as nat),
            statement_count > 1 ==> reasons@[0] == SqlRiskReason::MultiStatement,
            reasons@.len() == off + risky_keywords(stmts.subrange(0, i as int)).len(),
            forall|j: int|
                0 <= j < risky_keywords(stmts.subrange(0, i as int)).len() ==> reason_is(
                    #[trigger] reasons@[off + j],
                    risky_keywords(stmts.subrange(0, i as int))[j].0,
                    risky_keywords(stmts.subrange(0, i as int))[j].1,
                ),
            normalized_sql@ == join_statements(stmts.subrange(0, i as int)),
        decreases statements.len() - i,
    {
        let ghost prev = stmts.subrange(0, i as int);
        let ghost next = stmts.subrange(0, i + 1);
        assert(next.drop_last() =~= prev);
        assert(next.last() == statements@[i as int]@);
        if i > 0 {
            push_all(&mut normalized_sql, "; ");
        }
        push_all(&mut normalized_sql, statements[i].as_str());
        proof {
            if i == 0 {
                assert(normalized_sql@ =~= join_statements(next));
            } else {
                assert(normalized_sql@ =~= join_statements(next));
            }
        }
        if let Some(keyword) = first_keyword(statements[i].as_str()) {
            let class = classify_keyword(&keyword);
            match class {
                KeywordClass::SafeRead => {},
                KeywordClass::Write => reasons.push(SqlRiskReason::WriteOperation(keyword)),
                KeywordClass::Ddl => reasons.push(SqlRiskReason::DdlOperation(keyword)),
                KeywordClass::TransactionControl => reasons.push(
                    SqlRiskReason::TransactionControl(keyword),
                ),
                KeywordClass::SessionMutation => reasons.push(
                    SqlRiskReason::SessionMutation(keyword),
                ),
                KeywordClass::Unknown => reasons.push(SqlRiskReason::UnknownStatement(keyword)),
            }
        }
        i = i + 1;
    }
    assert(stmts.subrange(0, statements@.len() as int) =~= stmts);
    SqlSafetyAssessment { statement_count, primary_keyword, reasons, normalized_sql }
}


pub(crate) proof fn lemma_trim_front_head(s: Seq<char>)
    ensures
        trim_front(s).len() > 0 ==> !is_ws(trim_front(s)[0]),
    decreases s.len(),
{
    if s.len() > 0 && is_ws(s[0]) {
        lemma_trim_front_head(s.drop_first());
    }
}

pub(crate) proof fn lemma_trim_back_prefix(s: Seq<char>)
    ensures
        trim_back(s).len() <= s.len(),
        trim_back(s) == s.subrange(0, trim_back(s).len() as int),
    decreases s.len(),
{
    if s.len() > 0 && is_ws(s.last()) {
        lemma_trim_back_prefix(s.drop_last());
        assert(s.drop_last().subrange(0, trim_back(s).len() as int) =~= s.subrange(
            0,
            trim_back(s).len() as int,
        ));
    } else {
        assert(s.subrange(0, s.len() as int) =~= s);
    }
}

/// A statement that does not start with whitespace.
pub open spec fn starts_solid(x: Seq<char>) -> bool {
    x.len() > 0 && !is_ws(x[0])
}

proof fn lemma_close_keeps_solid(stmts: Seq<Seq<char>>, cur: Seq<char>)
    requires
        forall|k: int| 0 <= k < stmts.len() ==> starts_solid(#[trigger] stmts[k]),
    ensures
        forall|k: int|
            0 <= k < close_statement(stmts, cur).len() ==> starts_solid(
                #[trigger] close_statement(stmts, cur)[k],
            ),
{
    let t = trim(cur);
    if t.len() > 0 {
        lemma_trim_front_head(cur);
        lemma_trim_back_prefix(trim_front(cur));
        assert(t[0] == trim_front(cur)[0]);
        let c = close_statement(stmts, cur);
        assert forall|k: int| 0 <= k < c.len() implies starts_solid(#[trigger] c[k]) by {
            if k < stmts.len() {
                assert(c[k] == stmts[k]);
            }
        }
    }
}

proof fn lemma_scan_solid(s: Seq<char>, i: int, mode: ScanMode, cur: Seq<char>, stmts: Seq<Seq<char>>)
    requires
        forall|k: int| 0 <= k < stmts.len() ==> starts_solid(#[trigger] stmts[k]),
    ensures
        forall|k: int|
            0 <= k < scan(s, i, mode, cur, stmts).len() ==> starts_solid(
                #[trigger] scan(s, i, mode, cur, stmts)[k],
            ),
    decreases s.len() - i,
{
    if i < 0 || i >= s.len() {
        lemma_close_keeps_solid(stmts, cur);
    } else {
        let c = s[i];
        let two = i + 1 < s.len();
        let (j, m, cur2, stmts2) = match mode {
            ScanMode::LineComment => if c == '\n' {
                (i + 1, ScanMode::Code, cur, stmts)
            } else {
                (i + 1, ScanMode::LineComment, cur, stmts)
            },
            ScanMode::BlockComment => if c == '*' && two && s[i + 1] == '/' {
                (i + 2, ScanMode::Code, cur, stmts)
            } else {
                (i + 1, ScanMode::BlockComment, cur, stmts)
            },
            ScanMode::Code => if c == '-' && two && s[i + 1] == '-' {
                (i + 2, ScanMode::LineComment, cur, stmts)
            } else if c == '#' {
                (i + 1, ScanMode::LineComment, cur, stmts)
            } else if c == '/' && two && s[i + 1] == '*' {
                (i + 2, ScanMode::BlockComment, cur, stmts)
            } else if c == '\'' || c == '"' || c == '`' {
                (i + 1, quote_mode(c), cur.push(c), stmts)
            } else if c == ';' {
                (i + 1, ScanMode::Code, seq![], close_statement(stmts, cur))
            } else {
                (i + 1, ScanMode::Code, cur.push(c), stmts)
            },
            _ => if quote_mode(c) == mode && (c == '\'' || c == '"' || c == '`') {
                (i + 1, ScanMode::Code, cur.push(c), stmts)
            } else {
                (i + 1, mode, cur.push(c), stmts)
            },
        };
        assert(scan(s, i, mode, cur, stmts) == scan(s, j, m, cur2, stmts2));
        lemma_close_keeps_solid(stmts, cur);
        lemma_scan_solid(s, j, m, cur2, stmts2);
    }
}

proof fn lemma_no_risky_all_safe(stmts: Seq<Seq<char>>)
    requires
        risky_keywords(stmts).len() == 0,
    ensures
        forall|k: int|
            0 <= k < stmts.len() ==> match leading_keyword(#[trigger] stmts[k]) {
                Some(w) => keyword_class(w) == KeywordClass::SafeRead,
                None => true,
            },
    decreases stmts.len(),
{
    if stmts.len() > 0 {
        let prev = stmts.drop_last();
        lemma_no_risky_all_safe(prev);
        assert forall|k: int| 0 <= k < stmts.len() implies match leading_keyword(
            #[trigger] stmts[k],
        ) {
            Some(w) => keyword_class(w) == KeywordClass::SafeRead,
            None => true,
        } by {
            if k < prev.len() {
                assert(stmts[k] == prev[k]);
            }
        }
    }
}

/// SQL that draws no risk reason is at most one statement, and every statement it has
/// leads with a safe-read keyword.
pub proof fn no_reasons_means_single_safe_read(a: SqlSafetyAssessment, sql: Seq<char>)
    requires
        assessment_of(a, sql),
        a.reasons@.len() == 0,
    ensures
        a.statement_count <= 1,
        forall|k: int|
            0 <= k < split_sql(sql).len() ==> (#[trigger] leading_keyword(split_sql(sql)[k])) is Some
                && keyword_class(leading_keyword(split_sql(sql)[k])->0) == KeywordClass::SafeRead,
{
    let stmts = split_sql(sql);
    lemma_scan_solid(sql, 0, ScanMode::Code, seq![], seq![]);
    lemma_no_risky_all_safe(stmts);
    assert forall|k: int| 0 <= k < stmts.len() implies (#[trigger] leading_keyword(stmts[k])) is Some
        && keyword_class(leading_keyword(stmts[k])->0) == KeywordClass::SafeRead by {
        assert(starts_solid(stmts[k]));
        assert(trim_front(stmts[k]) == stmts[k]);
    }
}

/// Why a confirmation was refused.
#[derive(Debug, Clone, Copy, PartialEq, Eq, Structural)]
pub enum SafeModeError {
    InvalidToken,
    SqlMismatch,
}

impl SafeModeError {
    pub fn message(&self) -> (r: &'static str) {
        match self {
            SafeModeError::InvalidToken => "confirmation token is invalid or expired",
            SafeModeError::SqlMismatch => "confirmation token does not match the SQL statement",
        }
    }
}

/// A single-use authorization, bound to the statement it was minted for.
#[derive(Debug, Clone, PartialEq, Eq, Hash)]
pub struct ConfirmationToken(String);

impl View for ConfirmationToken {
    type V = Seq<char>;

    closed spec fn view(&self) -> Seq<char> {
        self.0@
    }
}

impl ConfirmationToken {
    pub fn as_str(&self) -> (r: &str)
        ensures
            r@ == self@,
    {
        self.0.as_str()
    }
}

#[derive(Debug, Clone, PartialEq, Eq)]
pub enum GuardDecision {
    Allow { assessment: SqlSafetyAssessment },
    RequireConfirmation { token: ConfirmationToken, assessment: SqlSafetyAssessment },
}

#[derive(Debug, Clone)]
struct PendingConfirmation {
    token: String,
    sql_fingerprint: u64,
}

/// Asks for a confirmation token before risky SQL runs, while enabled.
#[derive(Debug)]
pub struct SafeModeGuard {
    enabled: bool,
    nonce: u64,
    pending_confirmations: Vec<PendingConfirmation>,
}

pub const FNV_OFFSET: u64 = 0xcbf2_9ce4_8422_2325;

pub const FNV_PRIME: u64 = 0x0000_0100_0000_01b3;

pub open spec fn fnv_step(h: u64, c: char) -> u64 {
    (((h ^ ((c as u32) as u64)) as int * FNV_PRIME as int) % 0x1_0000_0000_0000_0000) as u64
}

/// FNV-1a over the code points of `s`.
pub open spec fn fingerprint(s: Seq<char>) -> u64
    decreases s.len(),
{
    if s.len() == 0 {
        FNV_OFFSET
    } else {
        fnv_step(fingerprint(s.drop_last()), s.last())
    }
}

/// Text of the token minted with `nonce` for a statement with fingerprint `fp`.
pub open spec fn token_text(nonce: nat, fp: u64) -> Seq<char> {
    "confirm-"@ + decimal(nonce) + "-"@ + hex_fixed(fp as nat, 16)
}

/// Index of the first pending entry, from `i` on, whose token is `t`; -1 if none.
pub open spec fn match_index(p: Seq<(Seq<char>, u64)>, t: Seq<char>, i: int) -> int
    decreases p.len() - i,
{
    if i < 0 || i >= p.len() {
        -1
    } else if p[i].0 == t {
        i
    } else {
        match_index(p, t, i + 1)
    }
}

/// The pending entries without those for token `t`.
pub open spec fn drop_token(p: Seq<(Seq<char>, u64)>, t: Seq<char>) -> Seq<(Seq<char>, u64)>
    decreases p.len(),
{
    if p.len() == 0 {
        seq![]
    } else if p.last().0 == t {
        drop_token(p.drop_last(), t)
    } else {
        drop_token(p.drop_last(), t).push(p.last())
    }
}

/// What confirming token `t` for a statement with fingerprint `fp` returns.
pub open spec fn confirm_outcome(p: Seq<(Seq<char>, u64)>, t: Seq<char>, fp: u64) -> Result<
    (),
    SafeModeError,
> {
    let i = match_index(p, t, 0);
    if i < 0 {
        Err(SafeModeError::InvalidToken)
    } else if p[i].1 == fp {
        Ok(())
    } else {
        Err(SafeModeError::SqlMismatch)
    }
}

proof fn lemma_drop_token_has_none(p: Seq<(Seq<char>, u64)>, t: Seq<char>)
    ensures
        forall|k: int| 0 <= k < drop_token(p, t).len() ==> #[trigger] drop_token(p, t)[k].0 != t,
    decreases p.len(),
{
    if p.len() > 0 {
        lemma_drop_token_has_none(p.drop_last(), t);
        let d = drop_token(p, t);
        let prev = drop_token(p.drop_last(), t);
        if p.last().0 != t {
            assert forall|k: int| 0 <= k < d.len() implies #[trigger] d[k].0 != t by {
                if k < prev.len() {
                    assert(d[k] == prev[k]);
                }
            }
        }
    }
}

/// No two pending entries share a token.
pub open spec fn tokens_unique(p: Seq<(Seq<char>, u64)>) -> bool {
    forall|i: int, j: int| 0 <= i < j < p.len() ==> #[trigger] p[i].0 != #[trigger] p[j].0
}

proof fn lemma_drop_token_members(p: Seq<(Seq<char>, u64)>, t: Seq<char>)
    ensures
        forall|k: int| 0 <= k < drop_token(p, t).len() ==> p.contains(#[trigger] drop_token(p, t)[k]),
    decreases p.len(),
{
    if p.len() > 0 {
        let prev = p.drop_last();
        lemma_drop_token_members(prev, t);
        let d = drop_token(p, t);
        assert forall|k: int| 0 <= k < d.len() implies p.contains(#[trigger] d[k]) by {
            if k < drop_token(prev, t).len() {
                let x = drop_token(prev, t)[k];
                assert(d[k] == x);
                let m = choose|m: int| 0 <= m < prev.len() && prev[m] == x;
                assert(p[m] == x);
            } else {
                assert(d[k] == p[p.len() - 1]);
            }
        }
    }
}

proof fn lemma_drop_token_unique(p: Seq<(Seq<char>, u64)>, t: Seq<char>)
    requires
        tokens_unique(p),
    ensures
        tokens_unique(drop_token(p, t)),
    decreases p.len(),
{
    if p.len() > 0 {
        let prev = p.drop_last();
        assert(tokens_unique(prev)) by {
            assert forall|i: int, j: int| 0 <= i < j < prev.len() implies #[trigger] prev[i].0 != #[trigger] prev[j].0 by {
                assert(prev[i] == p[i] && prev[j] == p[j]);
            }
        }
        lemma_drop_token_unique(prev, t);
        lemma_drop_token_members(prev, t);
        let dp = drop_token(prev, t);
        let d = drop_token(p, t);
        if p.last().0 != t {
            assert forall|i: int, j: int| 0 <= i < j < d.len() implies #[trigger] d[i].0 != #[trigger] d[j].0 by {
                if j < dp.len() {
                    assert(d[i] == dp[i] && d[j] == dp[j]);
                } else {
                    assert(d[i] == dp[i]);
                    assert(prev.contains(dp[i]));
                    let m = choose|m: int| 0 <= m < prev.len() && prev[m] == dp[i];
                    assert(p[m] == dp[i]);
                    assert(d[j] == p[p.len() - 1]);
                }
            }
        }
    }
}

proof fn lemma_no_match(p: Seq<(Seq<char>, u64)>, t: Seq<char>, i: int)
    requires
        forall|k: int| 0 <= k < p.len() ==> #[trigger] p[k].0 != t,
    ensures
        match_index(p, t, i) == -1,
    decreases p.len() - i,
{
    if 0 <= i < p.len() {
        lemma_no_match(p, t, i + 1);
    }
}

/// A token that confirmed once is spent: confirming it again, for the same statement,
/// fails with `InvalidToken`.
pub proof fn confirmation_is_single_use(p: Seq<(Seq<char>, u64)>, t: Seq<char>, fp: u64)
    requires
        confirm_outcome(p, t, fp) is Ok,
    ensures
        confirm_outcome(drop_token(p, t), t, fp) == Err::<(), SafeModeError>(
            SafeModeError::InvalidToken,
        ),
{
    lemma_drop_token_has_none(p, t);
    lemma_no_match(drop_token(p, t), t, 0);
}

/// FNV-1a fingerprint of a statement text.
pub fn fingerprint_sql(normalized_sql: &str) -> (r: u64)
    ensures
        r == fingerprint(normalized_sql@),
{
    let v = chars_of(normalized_sql);
    let mut h: u64 = FNV_OFFSET;
    let mut i: usize = 0;
    while i < v.len()
        invariant
            i <= v.len(),
            h == fingerprint(v@.subrange(0, i as int)),
        decreases v.len() - i,
    {
        let x: u64 = h ^ ((v[i] as u32) as u64);
        let prod: u128 = (x as u128) * (FNV_PRIME as u128);
        proof {
            assert(v@.subrange(0, i + 1).drop_last() =~= v@.subrange(0, i as int));
        }
        h = (prod % 0x1_0000_0000_0000_0000u128) as u64;
        i = i + 1;
    }
    assert(v@.subrange(0, v@.len() as int) =~= v@);
    h
}

impl SafeModeGuard {
    pub closed spec fn enabled_flag(&self) -> bool {
        self.enabled
    }

    /// Tokens minted so far (saturating).
    pub closed spec fn nonce_value(&self) -> nat {
        self.nonce as nat
    }

    /// Tokens awaiting confirmation, oldest first, with the fingerprint each is bound to.
    pub closed spec fn pending(&self) -> Seq<(Seq<char>, u64)> {
        self.pending_confirmations@.map_values(|p: PendingConfirmation| (p.token@, p.sql_fingerprint))
    }

    /// Validity: no two pending entries share a token.
    pub open spec fn wf(&self) -> bool {
        tokens_unique(self.pending())
    }

    pub fn new(enabled: bool) -> (r: Self)
        ensures
            r.enabled_flag() == enabled,
            r.nonce_value() == 0,
            r.pending() == Seq::<(Seq<char>, u64)>::empty(),
            r.wf(),
    {
        let r = SafeModeGuard { enabled, nonce: 0, pending_confirmations: Vec::new() };
        assert(r.pending() =~= Seq::<(Seq<char>, u64)>::empty());
        r
    }

    pub fn is_enabled(&self) -> (r: bool)
        ensures
            r == self.enabled_flag(),
    {
        self.enabled
    }

    /// Turns the guard on or off; turning it off forgets every pending token.
    pub fn set_enabled(&mut self, enabled: bool)
        requires
            old(self).wf(),
        ensures
            final(self).wf(),
            final(self).enabled_flag() == enabled,
            final(self).nonce_value() == old(self).nonce_value(),
            enabled ==> final(self).pending() == old(self).pending(),
            !enabled ==> final(self).pending() == Seq::<(Seq<char>, u64)>::empty(),
    {
        self.enabled = enabled;
        if !enabled {
            self.pending_confirmations = Vec::new();
            assert(self.pending() =~= Seq::<(Seq<char>, u64)>::empty());
        }
    }

    /// Lets safe SQL through; for risky SQL while enabled, mints a token bound to the
    /// statement's fingerprint and asks for it.
    pub fn evaluate(&mut self, sql: &str) -> (r: GuardDecision)
        requires
            old(self).wf(),
        ensures
            final(self).wf(),
            final(self).enabled_flag() == old(self).enabled_flag(),
            match r {
                GuardDecision::Allow { assessment } => {
                    &&& assessment_of(assessment, sql@)
                    &&& (!old(self).enabled_flag() || assessment.reasons@.len() == 0)
                    &&& final(self).pending() == old(self).pending()
                    &&& final(self).nonce_value() == old(self).nonce_value()
                },
                GuardDecision::RequireConfirmation { token, assessment } => {
                    let n: nat = if old(self).nonce_value() < u64::MAX {
                        old(self).nonce_value() + 1
                    } else {
                        old(self).nonce_value()
                    };
                    let fp = fingerprint(normalized(sql@));
                    &&& assessment_of(assessment, sql@)
                    &&& old(self).enabled_flag() && assessment.reasons@.len() > 0
                    &&& final(self).nonce_value() == n
                    &&& token@ == token_text(n, fp)
                    &&& final(self).pending() == drop_token(old(self).pending(), token@).push((token@, fp))
                },
            },
    {
        let assessment = assess_sql_safety(sql);
        if !self.enabled || assessment.is_safe_read_only() {
            return GuardDecision::Allow { assessment };
        }
        if self.nonce < u64::MAX {
            self.nonce = self.nonce + 1;
        }
        let fingerprint = fingerprint_sql(assessment.normalized_sql.as_str());
        let mut token_string = String::new();
        push_all(&mut token_string, "confirm-");
        push_decimal(&mut token_string, self.nonce);
        push_all(&mut token_string, "-");
        push_hex_fixed(&mut token_string, fingerprint, 16);
        assert(token_string@ =~= token_text(self.nonce as nat, fingerprint));
        let kept = token_string.clone();
        self.take_token(token_string.as_str());
        let ghost dropped = self.pending();
        proof {
            lemma_drop_token_has_none(old(self).pending(), token_string@);
        }
        self.pending_confirmations.push(
            PendingConfirmation { token: kept, sql_fingerprint: fingerprint },
        );
        assert(self.pending() =~= dropped.push((token_string@, fingerprint)));
        assert(tokens_unique(self.pending())) by {
            assert forall|i: int, j: int| 0 <= i < j < self.pending().len() implies #[trigger] self.pending()[i].0 != #[trigger] self.pending()[j].0 by {
                if j < dropped.len() {
                    assert(self.pending()[i] == dropped[i] && self.pending()[j] == dropped[j]);
                } else {
                    assert(self.pending()[i] == dropped[i]);
                }
            }
        }
        GuardDecision::RequireConfirmation { token: ConfirmationToken(token_string), assessment }
    }

    /// Removes every pending entry for `token`, handing back the fingerprint of the first.
    fn take_token(&mut self, token: &str) -> (r: Option<u64>)
        requires
            tokens_unique(old(self).pending()),
        ensures
            tokens_unique(final(self).pending()),
            final(self).enabled_flag() == old(self).enabled_flag(),
            final(self).nonce_value() == old(self).nonce_value(),
            final(self).pending() == drop_token(old(self).pending(), token@),
            r is None <==> match_index(old(self).pending(), token@, 0) < 0,
            r is Some ==> r->0 == old(self).pending()[match_index(old(self).pending(), token@, 0)].1,
    {
        let ghost p = old(self).pending();
        let mut found: Option<u64> = None;
        let mut kept: Vec<PendingConfirmation> = Vec::new();
        let mut i: usize = 0;
        let n = self.pending_confirmations.len();
        while i < n
            invariant
                n == self.pending_confirmations@.len(),
                self.pending() == p,
                p.len() == n,
                i <= n,
                kept@.map_values(|q: PendingConfirmation| (q.token@, q.sql_fingerprint))
                    == drop_token(p.subrange(0, i as int), token@),
                match found {
                    None => forall|k: int| 0 <= k < i ==> #[trigger] p[k].0 != token@,
                    Some(fp) => {
                        let m = match_index(p, token@, 0);
                        0 <= m < i && p[m].1 == fp
                    },
                },
                found is None ==> match_index(p, token@, 0) == match_index(p, token@, i as int),
            decreases n - i,
        {
            let entry = &self.pending_confirmations[i];
            let ghost e = p[i as int];
            assert(e == (entry.token@, entry.sql_fingerprint));
            assert(p.subrange(0, i + 1).drop_last() =~= p.subrange(0, i as int));
            let same = same_text(&entry.token, token);
            if same {
                if found.is_none() {
                    found = Some(entry.sql_fingerprint);
                }
            } else {
                let copy = PendingConfirmation {
                    token: entry.token.clone(),
                    sql_fingerprint: entry.sql_fingerprint,
                };
                kept.push(copy);
            }
            assert(kept@.map_values(|q: PendingConfirmation| (q.token@, q.sql_fingerprint))
                =~= drop_token(p.subrange(0, i + 1), token@));
            i = i + 1;
        }
        assert(p.subrange(0, n as int) =~= p);
        self.pending_confirmations = kept;
        proof {
            lemma_drop_token_unique(p, token@);
            if found is None {
                lemma_no_match(p, token@, 0);
            }
        }
        found
    }

    /// Spends `token`: succeeds when it is pending and was minted for a statement with the
    /// same fingerprint as `sql`. The token is gone afterwards, whatever the outcome.
    pub fn confirm(&mut self, token: &ConfirmationToken, sql: &str) -> (r: Result<(), SafeModeError>)
        requires
            old(self).wf(),
        ensures
            final(self).wf(),
            final(self).enabled_flag() == old(self).enabled_flag(),
            final(self).nonce_value() == old(self).nonce_value(),
            final(self).pending() == drop_token(old(self).pending(), token@),
            r == confirm_outcome(old(self).pending(), token@, fingerprint(normalized(sql@))),
    {
        match self.take_token(token.as_str()) {
            None => Err(SafeModeError::InvalidToken),
            Some(stored) => {
                let assessment = assess_sql_safety(sql);
                let fp = fingerprint_sql(assessment.normalized_sql.as_str());
                if stored != fp {
                    Err(SafeModeError::SqlMismatch)
                } else {
                    Ok(())
                }
            },
        }
    }
}

} // verus!
