//! Read-only SQL access: the guard that decides which user queries may run,
//! the row limit added to them, and the schema queries.
use vstd::prelude::*;

use crate::text::{
    chars_of, concat, concat3, contains, decimal, decimal_chars, double_char, doubled, has_infix,
    has_prefix, join,
    join_chars, lines, owned, slice, split_lines, starts_with, string_of, to_upper, trim,
    trim_chars, unicode_upper, all_ascii, ascii_upper_text,
};

verus! {

// ---------------------------------------------------------------------------
// Normalisation
// ---------------------------------------------------------------------------

/// A line that takes part in the statement: not empty and not a `--` comment.
pub open spec fn is_statement_line(line: Seq<char>) -> bool {
    line.len() > 0 && !has_prefix(line, seq!['-', '-'])
}

/// The trimmed lines of `ls` that take part in the statement, in order.
pub open spec fn statement_lines(ls: Seq<Seq<char>>) -> Seq<Seq<char>>
    decreases ls.len(),
{
    if ls.len() == 0 {
        seq![]
    } else if is_statement_line(trim(ls.last())) {
        statement_lines(ls.drop_last()).push(trim(ls.last()))
    } else {
        statement_lines(ls.drop_last())
    }
}

/// The trimmed statement lines of `query` joined by single spaces.
pub open spec fn statement_text(query: Seq<char>) -> Seq<char> {
    join(statement_lines(lines(query)), seq![' '])
}

/// The query as the guard reads it: its trimmed statement lines joined by
/// single spaces, in upper case.
pub open spec fn normalized_query(query: Seq<char>) -> Seq<char> {
    unicode_upper(statement_text(query))
}

/// The statement of `query` is ASCII text.
pub open spec fn ascii_statement(query: Seq<char>) -> bool {
    all_ascii(statement_text(query))
}

/// [`normalized_query`] for an ASCII statement: each letter `a`..`z` made
/// `A`..`Z`.
pub open spec fn ascii_normalized_query(query: Seq<char>) -> Seq<char> {
    ascii_upper_text(statement_text(query))
}

/// Executable form of [`normalized_query`].
pub fn normalize_query(query: &str) -> (r: String)
    ensures
        r@ == normalized_query(query@),
        ascii_statement(query@) ==> r@ == ascii_normalized_query(query@),
{
    let chars = chars_of(query);
    let ls = split_lines(&chars);
    let ghost views = ls@.map_values(|l: Vec<char>| l@);
    let mut kept: Vec<Vec<char>> = Vec::new();
    let dash: Vec<char> = vec!['-', '-'];
    for i in 0..ls.len()
        invariant
            views == ls@.map_values(|l: Vec<char>| l@),
            dash@ == seq!['-', '-'],
            kept@.map_values(|l: Vec<char>| l@) == statement_lines(views.take(i as int)),
    {
        let line = trim_chars(&ls[i]);
        let ghost before = kept@.map_values(|l: Vec<char>| l@);
        proof {
            assert(views.take(i + 1).drop_last() =~= views.take(i as int));
            assert(views.take(i + 1).last() == views[i as int]);
        }
        if line.len() > 0 && !starts_with(&line, &dash) {
            kept.push(line);
            assert(kept@.map_values(|l: Vec<char>| l@) =~= before.push(trim(views[i as int])));
        }
    }
    assert(views.take(ls.len() as int) =~= views);
    assert(views == lines(query@));
    let space: Vec<char> = vec![' '];
    assert(space@ =~= seq![' ']);
    let joined = join_chars(&kept, &space);
    let joined_string = string_of(&joined);
    to_upper(joined_string.as_str())
}

// ---------------------------------------------------------------------------
// The read-only guard
// ---------------------------------------------------------------------------

/// The statement is a query: it starts with `SELECT`, or with `WITH` and
/// holds a `SELECT` (a common table expression).
pub open spec fn is_select_statement(u: Seq<char>) -> bool {
    has_prefix(u, "SELECT"@) || (has_prefix(u, "WITH"@) && has_infix(u, "SELECT"@))
}

/// The words that must not occur anywhere in a read-only query, in the
/// order in which they are tested.
pub open spec fn forbidden_keywords() -> Seq<Seq<char>> {
    seq![
        "INSERT"@,
        "UPDATE"@,
        "DELETE"@,
        "DROP"@,
        "CREATE"@,
        "ALTER"@,
        "TRUNCATE"@,
        "EXEC"@,
        "EXECUTE"@,
    ]
}

/// The index (from `k` on) of the first forbidden word that occurs in `u`.
pub open spec fn first_forbidden_from(u: Seq<char>, k: int) -> Option<int>
    decreases forbidden_keywords().len() - k,
{
    if k < 0 || k >= forbidden_keywords().len() {
        None
    } else if has_infix(u, forbidden_keywords()[k]) {
        Some(k)
    } else {
        first_forbidden_from(u, k + 1)
    }
}

/// The index of the first forbidden word that occurs in `u`.
pub open spec fn first_forbidden(u: Seq<char>) -> Option<int> {
    first_forbidden_from(u, 0)
}

/// Why a query was refused.
#[derive(Debug, Clone, PartialEq, Eq)]
pub enum SqlRejection {
    /// The statement is not a `SELECT` (or `WITH ... SELECT`).
    NotSelect,
    /// The statement holds this forbidden word.
    ForbiddenKeyword(String),
}

impl SqlRejection {
    /// The message shown to the caller.
    pub fn message(&self) -> (r: String)
        ensures
            self is NotSelect ==> r@ == "Only SELECT queries are allowed for read-only access"@,
            self matches SqlRejection::ForbiddenKeyword(k) ==> r@
                == "Query contains forbidden keyword: "@ + k@,
    {
        match self {
            SqlRejection::NotSelect => owned("Only SELECT queries are allowed for read-only access"),
            SqlRejection::ForbiddenKeyword(k) => concat(
                "Query contains forbidden keyword: ",
                k.as_str(),
            ),
        }
    }
}

fn forbidden_keyword(i: usize) -> (r: &'static str)
    requires
        i < 9,
    ensures
        r@ == forbidden_keywords()[i as int],
{
    if i == 0 {
        "INSERT"
    } else if i == 1 {
        "UPDATE"
    } else if i == 2 {
        "DELETE"
    } else if i == 3 {
        "DROP"
    } else if i == 4 {
        "CREATE"
    } else if i == 5 {
        "ALTER"
    } else if i == 6 {
        "TRUNCATE"
    } else if i == 7 {
        "EXEC"
    } else {
        "EXECUTE"
    }
}

/// What the guard answers for the normalised statement `u`: not a `SELECT`,
/// the first forbidden word (in [`forbidden_keywords`] order) that occurs in
/// `u`, or `u` itself when the query may run.
pub open spec fn read_only_verdict(u: Seq<char>, r: Result<String, SqlRejection>) -> bool {
    &&& !is_select_statement(u) ==> r == Err::<String, SqlRejection>(SqlRejection::NotSelect)
    &&& is_select_statement(u) ==> match first_forbidden(u) {
        Some(i) => r matches Err(SqlRejection::ForbiddenKeyword(k)) && k@ == forbidden_keywords()[i],
        None => r matches Ok(s) && s@ == u,
    }
}

/// The guard lets a statement through exactly when it is a `SELECT` (or
/// `WITH ... SELECT`) in which none of `INSERT`, `UPDATE`, `DELETE`, `DROP`,
/// `CREATE`, `ALTER`, `TRUNCATE`, `EXEC` and `EXECUTE` occurs, and then
/// gives the statement back; a statement that is no `SELECT` is refused as
/// such, whatever words it holds.
pub proof fn lemma_guard_lets_through(u: Seq<char>, r: Result<String, SqlRejection>)
    requires
        read_only_verdict(u, r),
    ensures
        r is Ok <==> {
            &&& has_prefix(u, "SELECT"@) || (has_prefix(u, "WITH"@) && has_infix(u, "SELECT"@))
            &&& !has_infix(u, "INSERT"@)
            &&& !has_infix(u, "UPDATE"@)
            &&& !has_infix(u, "DELETE"@)
            &&& !has_infix(u, "DROP"@)
            &&& !has_infix(u, "CREATE"@)
            &&& !has_infix(u, "ALTER"@)
            &&& !has_infix(u, "TRUNCATE"@)
            &&& !has_infix(u, "EXEC"@)
            &&& !has_infix(u, "EXECUTE"@)
        },
        r matches Ok(s) ==> s@ == u,
        !(has_prefix(u, "SELECT"@) || (has_prefix(u, "WITH"@) && has_infix(u, "SELECT"@))) ==> r
            == Err::<String, SqlRejection>(SqlRejection::NotSelect),
{
    reveal_with_fuel(first_forbidden_from, 10);
    let k = forbidden_keywords();
    assert(k[0] == "INSERT"@ && k[1] == "UPDATE"@ && k[2] == "DELETE"@ && k[3] == "DROP"@);
    assert(k[4] == "CREATE"@ && k[5] == "ALTER"@ && k[6] == "TRUNCATE"@ && k[7] == "EXEC"@);
    assert(k[8] == "EXECUTE"@ && k.len() == 9);
}

/// Decides whether `query` may run on a read-only connection.
///
/// On success it gives the normalised statement; otherwise the reason: not a
/// `SELECT`, or the first forbidden word (in [`forbidden_keywords`] order)
/// that occurs in the normalised statement.
pub fn check_read_only_query(query: &str) -> (r: Result<String, SqlRejection>)
    ensures
        read_only_verdict(normalized_query(query@), r),
        ascii_statement(query@) ==> read_only_verdict(ascii_normalized_query(query@), r),
{
    let upper = normalize_query(query);
    let u = chars_of(upper.as_str());
    let select = chars_of("SELECT");
    let with = chars_of("WITH");
    let is_select = starts_with(&u, &select);
    let is_with_select = starts_with(&u, &with) && contains(&u, &select);
    if !is_select && !is_with_select {
        return Err(SqlRejection::NotSelect);
    }
    let mut i: usize = 0;
    while i < 9
        invariant
            i <= 9,
            forbidden_keywords().len() == 9,
            u@ == normalized_query(query@),
            ascii_statement(query@) ==> u@ == ascii_normalized_query(query@),
            is_select_statement(u@),
            first_forbidden(u@) == first_forbidden_from(u@, i as int),
        decreases 9 - i,
    {
        let kw = forbidden_keyword(i);
        let kw_chars = chars_of(kw);
        if contains(&u, &kw_chars) {
            return Err(SqlRejection::ForbiddenKeyword(owned(kw)));
        }
        i = i + 1;
    }
    Ok(upper)
}

// ---------------------------------------------------------------------------
// Row limit
// ---------------------------------------------------------------------------

/// `s` without any `;` at its end.
pub open spec fn strip_semicolons(s: Seq<char>) -> Seq<char>
    decreases s.len(),
{
    if s.len() > 0 && s.last() == ';' {
        strip_semicolons(s.drop_last())
    } else {
        s
    }
}

/// The number of rows a query returns when its caller names no limit.
pub const DEFAULT_ROW_LIMIT: u64 = 100;

/// The statement that is run for `query`: unchanged when its normalised form
/// mentions `LIMIT`; otherwise the trimmed query, without trailing `;`,
/// followed by ` LIMIT ` and the limit (100 when none is given).
pub open spec fn limited_query(query: Seq<char>, limit: Option<u64>) -> Seq<char> {
    limited_query_by(query, normalized_query(query), limit)
}

/// [`limited_query`] with `u` for the normalised statement.
pub open spec fn limited_query_by(query: Seq<char>, u: Seq<char>, limit: Option<u64>) -> Seq<char> {
    if has_infix(u, "LIMIT"@) {
        query
    } else {
        strip_semicolons(trim(query)) + " LIMIT "@ + decimal(
            match limit {
                Some(n) => n as nat,
                None => DEFAULT_ROW_LIMIT as nat,
            },
        )
    }
}

/// A query whose normalised form has no `LIMIT` runs as its trimmed text,
/// without trailing `;`, then ` LIMIT ` and the caller's limit `n` itself,
/// whatever its size; two different limits give two different statements.
pub proof fn lemma_caller_limit_is_kept(query: Seq<char>, u: Seq<char>, n: u64, m: u64)
    requires
        !has_infix(u, "LIMIT"@),
    ensures
        limited_query_by(query, u, Some(n)) == strip_semicolons(trim(query)) + " LIMIT "@ + decimal(
            n as nat,
        ),
        limited_query_by(query, u, None) == strip_semicolons(trim(query)) + " LIMIT "@ + decimal(
            100,
        ),
        n != m ==> limited_query_by(query, u, Some(n)) != limited_query_by(query, u, Some(m)),
{
    if n != m {
        let p = strip_semicolons(trim(query)) + " LIMIT "@;
        crate::text::lemma_decimal_injective(n as nat, m as nat);
        if limited_query_by(query, u, Some(n)) == limited_query_by(query, u, Some(m)) {
            assert((p + decimal(n as nat)).subrange(p.len() as int, (p + decimal(n as nat)).len() as int)
                =~= decimal(n as nat));
            assert((p + decimal(m as nat)).subrange(p.len() as int, (p + decimal(m as nat)).len() as int)
                =~= decimal(m as nat));
        }
    }
}

/// Executable form of [`limited_query`].
pub fn apply_row_limit(query: &str, limit: Option<u64>) -> (r: String)
    ensures
        r@ == limited_query(query@, limit),
        ascii_statement(query@) ==> r@ == limited_query_by(query@, ascii_normalized_query(query@), limit),
        has_infix(normalized_query(query@), "LIMIT"@) ==> r@ == query@,
        !has_infix(normalized_query(query@), "LIMIT"@) ==> r@ == strip_semicolons(trim(query@))
            + " LIMIT "@ + decimal(
            match limit {
                Some(n) => n as nat,
                None => 100,
            },
        ),
{
    let upper = normalize_query(query);
    let u = chars_of(upper.as_str());
    let lim = chars_of("LIMIT");
    if contains(&u, &lim) {
        return owned(query);
    }
    let q = chars_of(query);
    let t = trim_chars(&q);
    let mut end = t.len();
    assert(t@.take(end as int) =~= t@);
    while end > 0 && t[end - 1] == ';'
        invariant
            end <= t.len(),
            strip_semicolons(t@) == strip_semicolons(t@.take(end as int)),
        decreases end,
    {
        proof {
            assert(t@.take(end as int).drop_last() =~= t@.take(end - 1));
        }
        end = end - 1;
    }
    let mut out = slice(&t, 0, end);
    proof {
        assert(t@.take(t.len() as int) =~= t@);
        assert(out@ =~= t@.take(end as int));
    }
    let mut tail = chars_of(" LIMIT ");
    out.append(&mut tail);
    let n = match limit {
        Some(n) => n,
        None => DEFAULT_ROW_LIMIT,
    };
    let mut digits = decimal_chars(n);
    out.append(&mut digits);
    string_of(&out)
}

// ---------------------------------------------------------------------------
// Schema queries
// ---------------------------------------------------------------------------

/// `s` with each `'` doubled, as an SQL string literal needs it.
pub open spec fn escape_quotes(s: Seq<char>) -> Seq<char> {
    doubled(s, '\'')
}

/// Executable form of [`escape_quotes`].
pub fn escape_sql_string(s: &str) -> (r: String)
    ensures
        r@ == escape_quotes(s@),
{
    double_char(s, '\'')
}

/// Reads back an escaped literal: each `''` becomes `'`.
pub open spec fn unescape_quotes(s: Seq<char>) -> Seq<char>
    decreases s.len(),
{
    if s.len() == 0 {
        seq![]
    } else if s.len() >= 2 && s[0] == '\'' && s[1] == '\'' {
        seq!['\''] + unescape_quotes(s.skip(2))
    } else {
        seq![s[0]] + unescape_quotes(s.skip(1))
    }
}

/// The query that lists the columns of `table`, or the tables of the
/// database when no table is named.
pub open spec fn schema_query_text(table: Option<Seq<char>>) -> Seq<char> {
    match table {
        Some(t) => "SELECT column_name, data_type, is_nullable FROM information_schema.columns WHERE table_name = '"@
            + escape_quotes(t) + "' ORDER BY ordinal_position"@,
        None => "SELECT table_name FROM information_schema.tables WHERE table_schema = 'main' ORDER BY table_name"@,
    }
}

/// Executable form of [`schema_query_text`].
pub fn schema_query(table: Option<&str>) -> (r: String)
    ensures
        r@ == schema_query_text(
            match table {
                Some(t) => Some(t@),
                None => None,
            },
        ),
{
    match table {
        Some(t) => {
            let escaped = escape_sql_string(t);
            concat3(
                "SELECT column_name, data_type, is_nullable FROM information_schema.columns WHERE table_name = '",
                escaped.as_str(),
                "' ORDER BY ordinal_position",
            )
        },
        None => owned(
            "SELECT table_name FROM information_schema.tables WHERE table_schema = 'main' ORDER BY table_name",
        ),
    }
}

/// Doubling distributes over joining two texts.
pub proof fn lemma_doubled_append(a: Seq<char>, b: Seq<char>, q: char)
    ensures
        doubled(a + b, q) == doubled(a, q) + doubled(b, q),
    decreases b.len(),
{
    if b.len() == 0 {
        assert(a + b =~= a);
        assert(doubled(a, q) + doubled(b, q) =~= doubled(a, q));
    } else {
        lemma_doubled_append(a, b.drop_last(), q);
        assert((a + b).drop_last() =~= a + b.drop_last());
        assert((a + b).last() == b.last());
        if b.last() == q {
            assert(doubled(a, q) + doubled(b, q) =~= doubled(a, q) + doubled(b.drop_last(), q) + seq![q, q]);
        } else {
            assert(doubled(a, q) + doubled(b, q) =~= (doubled(a, q) + doubled(b.drop_last(), q)).push(b.last()));
        }
    }
}

/// Reading back an escaped literal gives the text that was escaped.
pub proof fn lemma_unescape_escape(s: Seq<char>)
    ensures
        unescape_quotes(escape_quotes(s)) == s,
    decreases s.len(),
{
    if s.len() > 0 {
        let head = seq![s[0]];
        let rest = s.skip(1);
        assert(head + rest =~= s);
        lemma_doubled_append(head, rest, '\'');
        lemma_unescape_escape(rest);
        assert(head.drop_last() =~= Seq::<char>::empty());
        let x = doubled(head, '\'');
        let y = doubled(rest, '\'');
        assert(doubled(head.drop_last(), '\'') =~= Seq::<char>::empty());
        assert(head.last() == s[0]);
        if s[0] == '\'' {
            assert(x =~= seq!['\'', '\'']);
            assert((x + y).skip(2) =~= y);
            assert((x + y)[0] == '\'' && (x + y)[1] == '\'');
        } else {
            assert(x =~= seq![s[0]]);
            assert((x + y).skip(1) =~= y);
            assert((x + y)[0] == s[0]);
        }
    }
}

} // verus!
