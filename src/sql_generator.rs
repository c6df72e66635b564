use vstd::prelude::*;

use crate::text::{
    chars_of, decimal, eq_ignore_case, eq_ignore_case_at, is_blank, is_blank_str, push_all,
    push_decimal, string_of, trim, trim_bounds,
};

verus! {

/// Why a statement could not be generated.
#[derive(Debug, Clone, Copy, PartialEq, Eq, Structural)]
pub enum SqlGenerationError {
    EmptyDatabaseName,
    EmptyTableName,
    EmptyColumnName,
    MissingDatabaseForEstimate,
}

impl SqlGenerationError {
    /// Human-readable description of the error.
    pub fn message(&self) -> (r: &'static str) {
        match self {
            SqlGenerationError::EmptyDatabaseName => "database name cannot be empty",
            SqlGenerationError::EmptyTableName => "table name cannot be empty",
            SqlGenerationError::EmptyColumnName => "column name cannot be empty",
            SqlGenerationError::MissingDatabaseForEstimate => {
                "count estimate requires an explicit database name"
            },
        }
    }
}

#[derive(Debug, Clone, Copy, PartialEq, Eq, Structural)]
pub enum PaginationDirection {
    Next,
    Previous,
}

/// A table, optionally qualified by its database.
#[derive(Debug, Clone, PartialEq, Eq)]
pub struct SqlTarget {
    pub database: Option<String>,
    pub table: String,
}

/// One character as it stands inside quotes delimited by `q`: `q` itself is doubled.
pub open spec fn escaped_char(c: char, q: char) -> Seq<char> {
    if c == q {
        seq![q, q]
    } else {
        seq![c]
    }
}

/// `s` with every occurrence of `q` doubled.
pub open spec fn doubled(s: Seq<char>, q: char) -> Seq<char>
    decreases s.len(),
{
    if s.len() == 0 {
        seq![]
    } else {
        escaped_char(s[0], q) + doubled(s.drop_first(), q)
    }
}

/// `s` is a run of characters in which `q` only ever occurs as `qq`.
pub open spec fn paired(s: Seq<char>, q: char) -> bool
    decreases s.len(),
{
    if s.len() == 0 {
        true
    } else if s[0] == q {
        s.len() >= 2 && s[1] == q && paired(s.subrange(2, s.len() as int), q)
    } else {
        paired(s.drop_first(), q)
    }
}

pub open spec fn quoted_identifier(s: Seq<char>) -> Seq<char> {
    seq!['`'] + doubled(s, '`') + seq!['`']
}

pub open spec fn quoted_string(s: Seq<char>) -> Seq<char> {
    seq!['\''] + doubled(s, '\'') + seq!['\'']
}

/// The table reference: `` `db`.`table` `` or `` `table` ``.
pub open spec fn table_ref(t: SqlTarget) -> Seq<char> {
    match t.database {
        Some(d) => quoted_identifier(d@) + "."@ + quoted_identifier(t.table@),
        None => quoted_identifier(t.table@),
    }
}

pub open spec fn is_digit(c: char) -> bool {
    '0' <= c && c <= '9'
}

/// End of the run of decimal digits that starts at `i`.
pub open spec fn digit_run(s: Seq<char>, i: int) -> int
    decreases s.len() - i,
{
    if 0 <= i < s.len() && is_digit(s[i]) {
        digit_run(s, i + 1)
    } else {
        i
    }
}

/// From `j`, either nothing or an exponent `e`/`E`, an optional sign and at least one digit.
pub open spec fn exponent_tail(s: Seq<char>, j: int) -> bool {
    j == s.len() || (j < s.len() && (s[j] == 'e' || s[j] == 'E') && {
        let k = if j + 1 < s.len() && (s[j + 1] == '+' || s[j + 1] == '-') {
            j + 2
        } else {
            j + 1
        };
        digit_run(s, k) > k && digit_run(s, k) == s.len()
    })
}

/// From `i`: digits, an optional fraction, an optional exponent, and at least one digit
/// before the exponent.
pub open spec fn decimal_number_from(s: Seq<char>, i: int) -> bool {
    let a = digit_run(s, i);
    if a < s.len() && s[a] == '.' {
        let b = digit_run(s, a + 1);
        (a > i || b > a + 1) && exponent_tail(s, b)
    } else {
        a > i && exponent_tail(s, a)
    }
}

/// The text of a number: an optional sign, then `inf`, `infinity`, `nan` in any case, or a
/// decimal number.
pub open spec fn is_numeric(s: Seq<char>) -> bool {
    let i: int = if s.len() > 0 && (s[0] == '+' || s[0] == '-') {
        1
    } else {
        0
    };
    let rest = s.subrange(i, s.len() as int);
    eq_ignore_case(rest, "inf"@) || eq_ignore_case(rest, "infinity"@) || eq_ignore_case(
        rest,
        "nan"@,
    ) || decimal_number_from(s, i)
}

/// A value as a literal: numbers stand bare, anything else is quoted; both trimmed.
pub open spec fn sql_literal(v: Seq<char>) -> Seq<char> {
    if is_numeric(trim(v)) {
        trim(v)
    } else {
        quoted_string(trim(v))
    }
}

pub open spec fn preview_select(t: SqlTarget, limit: nat) -> Seq<char> {
    "SELECT * FROM "@ + table_ref(t) + " LIMIT "@ + decimal(limit)
}

pub open spec fn keyset_first_page(t: SqlTarget, key: Seq<char>, limit: nat) -> Seq<char> {
    "SELECT * FROM "@ + table_ref(t) + " ORDER BY "@ + quoted_identifier(key) + " ASC LIMIT "@
        + decimal(limit)
}

pub open spec fn keyset_page(
    t: SqlTarget,
    key: Seq<char>,
    boundary: Seq<char>,
    direction: PaginationDirection,
    limit: nat,
) -> Seq<char> {
    let k = quoted_identifier(key);
    let lit = sql_literal(boundary);
    match direction {
        PaginationDirection::Next => "SELECT * FROM "@ + table_ref(t) + " WHERE "@ + k + " > "@
            + lit + " ORDER BY "@ + k + " ASC LIMIT "@ + decimal(limit),
        PaginationDirection::Previous => "SELECT * FROM (SELECT * FROM "@ + table_ref(t)
            + " WHERE "@ + k + " < "@ + lit + " ORDER BY "@ + k + " DESC LIMIT "@ + decimal(limit)
            + ") AS page_window ORDER BY "@ + k + " ASC"@,
    }
}

pub open spec fn offset_page(t: SqlTarget, limit: nat, offset: nat) -> Seq<char> {
    "SELECT * FROM "@ + table_ref(t) + " LIMIT "@ + decimal(limit) + " OFFSET "@ + decimal(offset)
}

pub open spec fn column_preview(t: SqlTarget, column: Seq<char>, limit: nat) -> Seq<char> {
    "SELECT "@ + quoted_identifier(column) + " FROM "@ + table_ref(t) + " LIMIT "@ + decimal(limit)
}

pub open spec fn count_estimate(database: Seq<char>, table: Seq<char>) -> Seq<char> {
    "SELECT TABLE_ROWS AS estimated_rows FROM information_schema.TABLES WHERE TABLE_SCHEMA = "@
        + quoted_string(database) + " AND TABLE_NAME = "@ + quoted_string(table)
}

pub open spec fn filtered_sorted_preview(t: SqlTarget, column: Seq<char>, limit: nat) -> Seq<
    char,
> {
    let c = quoted_identifier(column);
    "SELECT * FROM "@ + table_ref(t) + " WHERE "@ + c + " LIKE '%search%' ORDER BY "@ + c
        + " ASC LIMIT "@ + decimal(limit)
}

pub(crate) proof fn lemma_doubled_push(s: Seq<char>, c: char, q: char)
    ensures
        doubled(s.push(c), q) == doubled(s, q) + escaped_char(c, q),
    decreases s.len(),
{
    if s.len() == 0 {
        assert(s.push(c).drop_first() =~= Seq::<char>::empty());
        assert(doubled(s.push(c).drop_first(), q) =~= Seq::<char>::empty());
        assert(s =~= Seq::<char>::empty());
        assert(doubled(s.push(c), q) =~= escaped_char(c, q));
    } else {
        assert(s.push(c).drop_first() =~= s.drop_first().push(c));
        lemma_doubled_push(s.drop_first(), c, q);
        assert(doubled(s.push(c), q) =~= doubled(s, q) + escaped_char(c, q));
    }
}

proof fn lemma_doubled_paired(s: Seq<char>, q: char)
    ensures
        paired(doubled(s, q), q),
    decreases s.len(),
{
    if s.len() > 0 {
        lemma_doubled_paired(s.drop_first(), q);
        let d = doubled(s, q);
        let rest = doubled(s.drop_first(), q);
        if s[0] == q {
            assert(d.subrange(2, d.len() as int) =~= rest);
        } else {
            assert(d.drop_first() =~= rest);
        }
    }
}

/// A quoted identifier starts and ends with a backtick, and between them a backtick only
/// occurs doubled.
pub proof fn quote_identifier_is_enclosed_and_doubled(i: Seq<char>)
    ensures
        ({
            let q = quoted_identifier(i);
            &&& q.len() >= 2
            &&& q[0] == '`'
            &&& q[q.len() - 1] == '`'
            &&& paired(q.subrange(1, q.len() - 1), '`')
        }),
{
    let q = quoted_identifier(i);
    assert(q.subrange(1, q.len() - 1) =~= doubled(i, '`'));
    lemma_doubled_paired(i, '`');
}

/// Appends `v` with every `q` doubled.
fn push_doubled(s: &mut String, v: &Vec<char>, lo: usize, hi: usize, q: char)
    requires
        lo <= hi <= v.len(),
    ensures
        final(s)@ == old(s)@ + doubled(v@.subrange(lo as int, hi as int), q),
{
    let mut i = lo;
    assert(v@.subrange(lo as int, lo as int) =~= seq![]);
    assert(old(s)@ + doubled(seq![], q) =~= old(s)@);
    while i < hi
        invariant
            lo <= i <= hi <= v.len(),
            s@ == old(s)@ + doubled(v@.subrange(lo as int, i as int), q),
        decreases hi - i,
    {
        let c = v[i];
        proof {
            assert(v@.subrange(lo as int, i + 1) =~= v@.subrange(lo as int, i as int).push(c));
            lemma_doubled_push(v@.subrange(lo as int, i as int), c, q);
        }
        if c == q {
            s.push(q);
            s.push(q);
        } else {
            s.push(c);
        }
        assert(s@ =~= old(s)@ + doubled(v@.subrange(lo as int, i + 1), q));
        i = i + 1;
    }
}

fn push_quoted(s: &mut String, v: &Vec<char>, lo: usize, hi: usize, q: char)
    requires
        lo <= hi <= v.len(),
    ensures
        final(s)@ == old(s)@ + seq![q] + doubled(v@.subrange(lo as int, hi as int), q) + seq![q],
{
    s.push(q);
    push_doubled(s, v, lo, hi, q);
    s.push(q);
    assert(s@ =~= old(s)@ + seq![q] + doubled(v@.subrange(lo as int, hi as int), q) + seq![q]);
}

fn push_identifier(s: &mut String, ident: &str)
    ensures
        final(s)@ == old(s)@ + quoted_identifier(ident@),
{
    let v = chars_of(ident);
    assert(v@.subrange(0, v@.len() as int) =~= v@);
    push_quoted(s, &v, 0, v.len(), '`');
    assert(s@ =~= old(s)@ + quoted_identifier(ident@));
}

/// Wraps an identifier in backticks, doubling the backticks inside it.
pub fn quote_identifier(identifier: &str) -> (r: String)
    ensures
        r@ == quoted_identifier(identifier@),
{
    let mut r = String::new();
    push_identifier(&mut r, identifier);
    assert(r@ =~= quoted_identifier(identifier@));
    r
}

/// Wraps a value in single quotes, doubling the single quotes inside it.
pub fn quote_sql_string(value: &str) -> (r: String)
    ensures
        r@ == quoted_string(value@),
{
    let v = chars_of(value);
    assert(v@.subrange(0, v@.len() as int) =~= v@);
    let mut r = String::new();
    push_quoted(&mut r, &v, 0, v.len(), '\'');
    assert(r@ =~= quoted_string(value@));
    r
}

/// End of the run of digits of `v` that starts at `i`.
fn scan_digits(v: &Vec<char>, i: usize) -> (r: usize)
    requires
        i <= v.len(),
    ensures
        r as int == digit_run(v@, i as int),
        i <= r <= v.len(),
{
    let mut j = i;
    while j < v.len() && '0' <= v[j] && v[j] <= '9'
        invariant
            i <= j <= v.len(),
            digit_run(v@, i as int) == digit_run(v@, j as int),
        decreases v.len() - j,
    {
        j = j + 1;
    }
    j
}

fn scan_exponent_tail(v: &Vec<char>, j: usize) -> (r: bool)
    requires
        j <= v.len(),
    ensures
        r == exponent_tail(v@, j as int),
{
    if j == v.len() {
        return true;
    }
    if v[j] != 'e' && v[j] != 'E' {
        return false;
    }
    let k = if j + 1 < v.len() && (v[j + 1] == '+' || v[j + 1] == '-') {
        j + 2
    } else {
        j + 1
    };
    let d = scan_digits(v, k);
    d > k && d == v.len()
}

/// Whether `v` is the text of a number (see `is_numeric`).
fn scan_numeric(v: &Vec<char>) -> (r: bool)
    ensures
        r == is_numeric(v@),
{
    let i: usize = if v.len() > 0 && (v[0] == '+' || v[0] == '-') {
        1
    } else {
        0
    };
    if eq_ignore_case_at(v, i, v.len(), "inf") || eq_ignore_case_at(v, i, v.len(), "infinity")
        || eq_ignore_case_at(v, i, v.len(), "nan") {
        return true;
    }
    let a = scan_digits(v, i);
    if a < v.len() && v[a] == '.' {
        let b = scan_digits(v, a + 1);
        (a > i || b > a + 1) && scan_exponent_tail(v, b)
    } else {
        a > i && scan_exponent_tail(v, a)
    }
}

/// Renders a boundary value as a literal.
pub fn quote_sql_literal(value: &str) -> (r: String)
    ensures
        r@ == sql_literal(value@),
{
    let v = chars_of(value);
    let (a, b) = trim_bounds(&v, 0, v.len());
    assert(v@.subrange(0, v@.len() as int) =~= v@);
    let t = string_of(&v, a, b);
    let tv = chars_of(t.as_str());
    if scan_numeric(&tv) {
        t
    } else {
        assert(tv@.subrange(0, tv@.len() as int) =~= tv@);
        let mut r = String::new();
        push_quoted(&mut r, &tv, 0, tv.len(), '\'');
        assert(r@ =~= quoted_string(trim(value@)));
        r
    }
}

impl SqlTarget {
    /// A target whose table (and database, where given) is not blank.
    pub fn new(database: Option<&str>, table: &str) -> (r: Result<SqlTarget, SqlGenerationError>)
        ensures
            is_blank(table@) ==> r == Err::<SqlTarget, _>(SqlGenerationError::EmptyTableName),
            !is_blank(table@) && database is Some && is_blank(database->0@) ==> r == Err::<
                SqlTarget,
                _,
            >(SqlGenerationError::EmptyDatabaseName),
            !is_blank(table@) && !(database is Some && is_blank(database->0@)) ==> r is Ok && r->Ok_0.table@
                == table@ && (match database {
                Some(d) => r->Ok_0.database is Some && r->Ok_0.database->0@ == d@,
                None => r->Ok_0.database is None,
            }),
    {
        if is_blank_str(table) {
            return Err(SqlGenerationError::EmptyTableName);
        }
        let db = match database {
            Some(d) => {
                if is_blank_str(d) {
                    return Err(SqlGenerationError::EmptyDatabaseName);
                }
                Some(crate::text::copy_str(d))
            },
            None => None,
        };
        Ok(SqlTarget { database: db, table: crate::text::copy_str(table) })
    }
}

fn push_table_ref(s: &mut String, target: &SqlTarget)
    ensures
        final(s)@ == old(s)@ + table_ref(*target),
{
    match &target.database {
        Some(d) => {
            push_identifier(s, d.as_str());
            push_all(s, ".");
            push_identifier(s, target.table.as_str());
            assert(s@ =~= old(s)@ + table_ref(*target));
        },
        None => {
            push_identifier(s, target.table.as_str());
        },
    }
}

/// The table reference of a target.
pub fn qualified_table_sql(target: &SqlTarget) -> (r: String)
    ensures
        r@ == table_ref(*target),
{
    let mut r = String::new();
    push_table_ref(&mut r, target);
    assert(r@ =~= table_ref(*target));
    r
}

pub fn preview_select_sql(target: &SqlTarget, limit: usize) -> (r: String)
    ensures
        r@ == preview_select(*target, limit as nat),
{
    let mut r = String::new();
    push_all(&mut r, "SELECT * FROM ");
    push_table_ref(&mut r, target);
    push_all(&mut r, " LIMIT ");
    push_decimal(&mut r, limit as u64);
    assert(r@ =~= preview_select(*target, limit as nat));
    r
}

pub fn keyset_first_page_sql(target: &SqlTarget, key_column: &str, limit: usize) -> (r: Result<
    String,
    SqlGenerationError,
>)
    ensures
        is_blank(key_column@) ==> r == Err::<String, _>(SqlGenerationError::EmptyColumnName),
        !is_blank(key_column@) ==> r is Ok && r->Ok_0@ == keyset_first_page(
            *target,
            key_column@,
            limit as nat,
        ),
{
    if is_blank_str(key_column) {
        return Err(SqlGenerationError::EmptyColumnName);
    }
    let mut r = String::new();
    push_all(&mut r, "SELECT * FROM ");
    push_table_ref(&mut r, target);
    push_all(&mut r, " ORDER BY ");
    push_identifier(&mut r, key_column);
    push_all(&mut r, " ASC LIMIT ");
    push_decimal(&mut r, limit as u64);
    assert(r@ =~= keyset_first_page(*target, key_column@, limit as nat));
    Ok(r)
}

pub fn keyset_page_sql(
    target: &SqlTarget,
    key_column: &str,
    boundary_value: &str,
    direction: PaginationDirection,
    limit: usize,
) -> (r: Result<String, SqlGenerationError>)
    ensures
        is_blank(key_column@) ==> r == Err::<String, _>(SqlGenerationError::EmptyColumnName),
        !is_blank(key_column@) ==> r is Ok && r->Ok_0@ == keyset_page(
            *target,
            key_column@,
            boundary_value@,
            direction,
            limit as nat,
        ),
{
    if is_blank_str(key_column) {
        return Err(SqlGenerationError::EmptyColumnName);
    }
    let literal = quote_sql_literal(boundary_value);
    let mut r = String::new();
    match direction {
        PaginationDirection::Next => {
            push_all(&mut r, "SELECT * FROM ");
            push_table_ref(&mut r, target);
            push_all(&mut r, " WHERE ");
            push_identifier(&mut r, key_column);
            push_all(&mut r, " > ");
            push_all(&mut r, literal.as_str());
            push_all(&mut r, " ORDER BY ");
            push_identifier(&mut r, key_column);
            push_all(&mut r, " ASC LIMIT ");
            push_decimal(&mut r, limit as u64);
        },
        PaginationDirection::Previous => {
            push_all(&mut r, "SELECT * FROM (SELECT * FROM ");
            push_table_ref(&mut r, target);
            push_all(&mut r, " WHERE ");
            push_identifier(&mut r, key_column);
            push_all(&mut r, " < ");
            push_all(&mut r, literal.as_str());
            push_all(&mut r, " ORDER BY ");
            push_identifier(&mut r, key_column);
            push_all(&mut r, " DESC LIMIT ");
            push_decimal(&mut r, limit as u64);
            push_all(&mut r, ") AS page_window ORDER BY ");
            push_identifier(&mut r, key_column);
            push_all(&mut r, " ASC");
        },
    }
    assert(r@ =~= keyset_page(*target, key_column@, boundary_value@, direction, limit as nat));
    Ok(r)
}

pub fn offset_page_sql(target: &SqlTarget, limit: usize, offset: usize) -> (r: String)
    ensures
        r@ == offset_page(*target, limit as nat, offset as nat),
{
    let mut r = String::new();
    push_all(&mut r, "SELECT * FROM ");
    push_table_ref(&mut r, target);
    push_all(&mut r, " LIMIT ");
    push_decimal(&mut r, limit as u64);
    push_all(&mut r, " OFFSET ");
    push_decimal(&mut r, offset as u64);
    assert(r@ =~= offset_page(*target, limit as nat, offset as nat));
    r
}

pub fn describe_table_sql(target: &SqlTarget) -> (r: String)
    ensures
        r@ == "DESCRIBE "@ + table_ref(*target),
{
    let mut r = String::new();
    push_all(&mut r, "DESCRIBE ");
    push_table_ref(&mut r, target);
    r
}

pub fn show_create_table_sql(target: &SqlTarget) -> (r: String)
    ensures
        r@ == "SHOW CREATE TABLE "@ + table_ref(*target),
{
    let mut r = String::new();
    push_all(&mut r, "SHOW CREATE TABLE ");
    push_table_ref(&mut r, target);
    r
}

pub fn show_index_sql(target: &SqlTarget) -> (r: String)
    ensures
        r@ == "SHOW INDEX FROM "@ + table_ref(*target),
{
    let mut r = String::new();
    push_all(&mut r, "SHOW INDEX FROM ");
    push_table_ref(&mut r, target);
    r
}

pub fn select_column_preview_sql(target: &SqlTarget, column: &str, limit: usize) -> (r: Result<
    String,
    SqlGenerationError,
>)
    ensures
        is_blank(column@) ==> r == Err::<String, _>(SqlGenerationError::EmptyColumnName),
        !is_blank(column@) ==> r is Ok && r->Ok_0@ == column_preview(
            *target,
            column@,
            limit as nat,
        ),
{
    if is_blank_str(column) {
        return Err(SqlGenerationError::EmptyColumnName);
    }
    let mut r = String::new();
    push_all(&mut r, "SELECT ");
    push_identifier(&mut r, column);
    push_all(&mut r, " FROM ");
    push_table_ref(&mut r, target);
    push_all(&mut r, " LIMIT ");
    push_decimal(&mut r, limit as u64);
    assert(r@ =~= column_preview(*target, column@, limit as nat));
    Ok(r)
}

pub fn count_estimate_sql(target: &SqlTarget) -> (r: Result<String, SqlGenerationError>)
    ensures
        target.database is None ==> r == Err::<String, _>(
            SqlGenerationError::MissingDatabaseForEstimate,
        ),
        target.database is Some ==> r is Ok && r->Ok_0@ == count_estimate(
            target.database->0@,
            target.table@,
        ),
{
    match &target.database {
        None => Err(SqlGenerationError::MissingDatabaseForEstimate),
        Some(d) => {
            let mut r = String::new();
            push_all(
                &mut r,
                "SELECT TABLE_ROWS AS estimated_rows FROM information_schema.TABLES WHERE TABLE_SCHEMA = ",
            );
            let qd = quote_sql_string(d.as_str());
            push_all(&mut r, qd.as_str());
            push_all(&mut r, " AND TABLE_NAME = ");
            let qt = quote_sql_string(target.table.as_str());
            push_all(&mut r, qt.as_str());
            assert(r@ =~= count_estimate(d@, target.table@));
            Ok(r)
        },
    }
}

pub fn filtered_sorted_preview_sql(target: &SqlTarget, column: &str, limit: usize) -> (r: Result<
    String,
    SqlGenerationError,
>)
    ensures
        is_blank(column@) ==> r == Err::<String, _>(SqlGenerationError::EmptyColumnName),
        !is_blank(column@) ==> r is Ok && r->Ok_0@ == filtered_sorted_preview(
            *target,
            column@,
            limit as nat,
        ),
{
    if is_blank_str(column) {
        return Err(SqlGenerationError::EmptyColumnName);
    }
    let mut r = String::new();
    push_all(&mut r, "SELECT * FROM ");
    push_table_ref(&mut r, target);
    push_all(&mut r, " WHERE ");
    push_identifier(&mut r, column);
    push_all(&mut r, " LIKE '%search%' ORDER BY ");
    push_identifier(&mut r, column);
    push_all(&mut r, " ASC LIMIT ");
    push_decimal(&mut r, limit as u64);
    assert(r@ =~= filtered_sorted_preview(*target, column@, limit as nat));
    Ok(r)
}

} // verus!
