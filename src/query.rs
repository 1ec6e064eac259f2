//! Parameterised SQL statements for the works table. Filter values travel
//! only as bound parameters; the statement text depends on nothing but which
//! filters are present.

use vstd::prelude::*;
use crate::text::{is_space, is_space_char, push_char, append_str, owned, push_decimal, decimal, digit};
use crate::work::{WorkType, WorkCreateDto, WorkUpdateDto};
use crate::error::AppError;
use vstd::string::*;

verus! {

/// A value bound to a positional placeholder.
#[derive(Debug, Clone, PartialEq, Eq)]
pub enum SqlParam {
    Text(String),
    Int(i64),
    Id(u128),
    MaybeText(Option<String>),
    MaybeInt(Option<i64>),
}

/// What a bound value stands for.
pub enum ParamValue {
    Text(Seq<char>),
    Int(int),
    Id(u128),
    MaybeText(Option<Seq<char>>),
    MaybeInt(Option<int>),
}

pub open spec fn opt_text(o: Option<String>) -> Option<Seq<char>> {
    match o {
        Some(s) => Some(s@),
        None => None,
    }
}

pub open spec fn opt_int(o: Option<i64>) -> Option<int> {
    match o {
        Some(v) => Some(v as int),
        None => None,
    }
}

impl View for SqlParam {
    type V = ParamValue;

    open spec fn view(&self) -> ParamValue {
        match self {
            SqlParam::Text(s) => ParamValue::Text(s@),
            SqlParam::Int(v) => ParamValue::Int(*v as int),
            SqlParam::Id(v) => ParamValue::Id(*v),
            SqlParam::MaybeText(o) => ParamValue::MaybeText(opt_text(*o)),
            SqlParam::MaybeInt(o) => ParamValue::MaybeInt(opt_int(*o)),
        }
    }
}

/// Statement text with `$1`, `$2`, ... placeholders and the values for them, in order.
#[derive(Debug, Clone, PartialEq, Eq)]
pub struct SqlStatement {
    pub sql: String,
    pub params: Vec<SqlParam>,
}

impl SqlStatement {
    pub open spec fn param_values(&self) -> Seq<ParamValue> {
        self.params@.map_values(|p: SqlParam| p@)
    }
}

/// `$n`.
pub open spec fn placeholder(n: nat) -> Seq<char> {
    seq!['$'] + decimal(n)
}

fn push_placeholder(sql: &mut String, n: u64)
    ensures
        final(sql)@ == old(sql)@ + placeholder(n as nat),
{
    push_char(sql, '$');
    push_decimal(sql, n);
    assert(final(sql)@ =~= old(sql)@ + placeholder(n as nat));
}

// ---------------------------------------------------------------------------
// Free text

/// Whether `s` holds a character that is not white space.
pub open spec fn has_word(s: Seq<char>) -> bool {
    exists|i: int| 0 <= i < s.len() && !is_space(s[i])
}

/// A character as it stands inside a quoted text-search lexeme.
pub open spec fn lexeme_char(c: char) -> Seq<char> {
    if c == '\'' {
        seq!['\'', '\'']
    } else if c == '\\' {
        seq!['\\', '\\']
    } else {
        seq![c]
    }
}

/// What the character at `i` of `s` contributes to the text-search query: a
/// word opens a quoted lexeme (joined to an earlier one by ` & `), white space
/// after a word closes it.
pub open spec fn ts_piece(s: Seq<char>, i: int) -> Seq<char> {
    let prev_word = i > 0 && !is_space(s[i - 1]);
    if is_space(s[i]) {
        if prev_word {
            seq!['\'']
        } else {
            seq![]
        }
    } else if prev_word {
        lexeme_char(s[i])
    } else if has_word(s.subrange(0, i)) {
        seq![' ', '&', ' ', '\''] + lexeme_char(s[i])
    } else {
        seq!['\''] + lexeme_char(s[i])
    }
}

/// The pieces of every character of `s`, in order.
pub open spec fn ts_body(s: Seq<char>) -> Seq<char>
    decreases s.len(),
{
    if s.len() == 0 {
        seq![]
    } else {
        ts_body(s.drop_last()) + ts_piece(s, s.len() - 1)
    }
}

/// The text-search query for free text `s`: each white-space separated word
/// becomes a quoted lexeme, and the lexemes are joined by the AND operator
/// `&`. Quotes and backslashes inside a word are escaped, so the query is
/// well-formed whatever `s` holds.
pub open spec fn ts_query(s: Seq<char>) -> Seq<char> {
    if s.len() > 0 && !is_space(s.last()) {
        ts_body(s) + seq!['\'']
    } else {
        ts_body(s)
    }
}

/// The maximal runs of characters of `s` that are not white space, in order.
pub open spec fn words(s: Seq<char>) -> Seq<Seq<char>>
    decreases s.len(),
{
    if s.len() == 0 {
        seq![]
    } else if is_space(s.last()) {
        words(s.drop_last())
    } else if s.len() >= 2 && !is_space(s[s.len() - 2]) {
        let w = words(s.drop_last());
        w.update(w.len() - 1, w.last().push(s.last()))
    } else {
        words(s.drop_last()).push(seq![s.last()])
    }
}

/// `w` with quotes and backslashes doubled.
pub open spec fn lexeme_escaped(w: Seq<char>) -> Seq<char>
    decreases w.len(),
{
    if w.len() == 0 {
        seq![]
    } else {
        lexeme_escaped(w.drop_last()) + lexeme_char(w.last())
    }
}

/// `w` as a quoted text-search lexeme.
pub open spec fn quoted_lexeme(w: Seq<char>) -> Seq<char> {
    seq!['\''] + lexeme_escaped(w) + seq!['\'']
}

/// The quoted lexemes of `ws`, joined by ` & `.
pub open spec fn and_joined(ws: Seq<Seq<char>>) -> Seq<char>
    decreases ws.len(),
{
    if ws.len() == 0 {
        seq![]
    } else if ws.len() == 1 {
        quoted_lexeme(ws[0])
    } else {
        and_joined(ws.drop_last()) + seq![' ', '&', ' '] + quoted_lexeme(ws.last())
    }
}

/// What stands before the last lexeme of `ws` once they are joined.
pub open spec fn before_last(ws: Seq<Seq<char>>) -> Seq<char> {
    if ws.len() <= 1 {
        seq![]
    } else {
        and_joined(ws.drop_last()) + seq![' ', '&', ' ']
    }
}

proof fn lemma_ts_body_words(s: Seq<char>)
    ensures
        has_word(s) <==> words(s).len() > 0,
        s.len() > 0 && !is_space(s.last()) ==> ts_body(s) == before_last(words(s)) + seq!['\'']
            + lexeme_escaped(words(s).last()),
        !(s.len() > 0 && !is_space(s.last())) ==> ts_body(s) == and_joined(words(s)),
    decreases s.len(),
{
    if s.len() == 0 {
        return;
    }
    let t = s.drop_last();
    let c = s.last();
    let i = s.len() - 1;
    lemma_ts_body_words(t);
    assert(s.subrange(0, i) =~= t);
    assert(has_word(s) <==> has_word(t) || !is_space(c)) by {
        if has_word(t) {
            let k = choose|k: int| 0 <= k < t.len() && !is_space(t[k]);
            assert(s[k] == t[k]);
        }
        if has_word(s) && !has_word(t) {
            let k = choose|k: int| 0 <= k < s.len() && !is_space(s[k]);
            if k < i {
                assert(t[k] == s[k]);
            }
        }
        if !is_space(c) {
            assert(s[i] == c);
        }
    }
    let wt = words(t);
    if is_space(c) {
        assert(words(s) == wt);
        if t.len() > 0 && !is_space(t.last()) {
            assert(ts_piece(s, i) == seq!['\'']);
            assert(ts_body(s) =~= and_joined(wt));
        } else {
            assert(ts_piece(s, i) =~= Seq::<char>::empty());
            assert(ts_body(s) =~= and_joined(wt));
        }
    } else if s.len() >= 2 && !is_space(s[s.len() - 2]) {
        assert(t.last() == s[s.len() - 2]);
        let ws = words(s);
        assert(ws == wt.update(wt.len() - 1, wt.last().push(c)));
        assert(ws.drop_last() =~= wt.drop_last());
        assert(ws.last() == wt.last().push(c));
        assert(wt.last().push(c).drop_last() =~= wt.last());
        assert(lexeme_escaped(ws.last()) == lexeme_escaped(wt.last()) + lexeme_char(c));
        assert(ts_piece(s, i) == lexeme_char(c));
        assert(before_last(ws) == before_last(wt));
        assert(ts_body(s) =~= before_last(ws) + seq!['\''] + lexeme_escaped(ws.last()));
    } else {
        let ws = words(s);
        assert(ws == wt.push(seq![c]));
        assert(ws.drop_last() =~= wt);
        assert(seq![c].drop_last() =~= Seq::<char>::empty());
        assert(seq![c].last() == c);
        assert(lexeme_escaped(seq![c].drop_last()) =~= Seq::<char>::empty());
        assert(lexeme_escaped(seq![c]) =~= lexeme_char(c));
        if has_word(t) {
            assert(ts_piece(s, i) == seq![' ', '&', ' ', '\''] + lexeme_char(c));
            assert(ts_body(s) =~= before_last(ws) + seq!['\''] + lexeme_escaped(ws.last()));
        } else {
            assert(wt.len() == 0);
            assert(ts_piece(s, i) == seq!['\''] + lexeme_char(c));
            assert(ts_body(s) =~= before_last(ws) + seq!['\''] + lexeme_escaped(ws.last()));
        }
    }
}

/// The text-search query of free text `s` is each maximal run of characters
/// that are not white space, quoted with quotes and backslashes doubled,
/// joined by ` & `.
pub proof fn lemma_ts_query_joins_words(s: Seq<char>)
    ensures
        ts_query(s) == and_joined(words(s)),
{
    lemma_ts_body_words(s);
    if s.len() > 0 && !is_space(s.last()) {
        let ws = words(s);
        assert(ws.len() > 0) by {
            assert(s[s.len() - 1] == s.last());
        }
        assert(ts_query(s) =~= and_joined(ws));
    }
}

proof fn lemma_ts_piece_prefix(s: Seq<char>, i: int)
    requires
        0 <= i < s.len(),
    ensures
        ts_piece(s.subrange(0, i + 1), i) == ts_piece(s, i),
{
    assert(s.subrange(0, i + 1).subrange(0, i) =~= s.subrange(0, i));
}

/// The text-search query for free text `q`.
pub fn to_ts_query(q: &str) -> (r: String)
    ensures
        r@ == ts_query(q@),
        r@ == and_joined(words(q@)),
{
    proof {
        lemma_ts_query_joins_words(q@);
    }
    let n = q.unicode_len();
    let mut out = String::new();
    let mut prev_word = false;
    let mut seen_word = false;
    let mut i: usize = 0;
    while i < n
        invariant
            n == q@.len(),
            i <= n,
            out@ == ts_body(q@.subrange(0, i as int)),
            prev_word == (i > 0 && !is_space(q@[i - 1])),
            seen_word == has_word(q@.subrange(0, i as int)),
        decreases n - i,
    {
        let c = q.get_char(i);
        proof {
            lemma_ts_piece_prefix(q@, i as int);
            assert(q@.subrange(0, i + 1).drop_last() =~= q@.subrange(0, i as int));
        }
        let ghost before = out@;
        if is_space_char(c) {
            if prev_word {
                push_char(&mut out, '\'');
            }
            prev_word = false;
        } else {
            if !prev_word {
                if seen_word {
                    append_str(&mut out, " & ");
                    proof {
                        reveal_strlit(" & ");
                    }
                }
                push_char(&mut out, '\'');
            }
            if c == '\'' {
                push_char(&mut out, '\'');
                push_char(&mut out, '\'');
            } else if c == '\\' {
                push_char(&mut out, '\\');
                push_char(&mut out, '\\');
            } else {
                push_char(&mut out, c);
            }
            prev_word = true;
            seen_word = true;
        }
        assert(out@ =~= before + ts_piece(q@, i as int));
        proof {
            let p = q@.subrange(0, i + 1);
            if !is_space(c) {
                assert(p[i as int] == c);
            } else {
                if has_word(p) {
                    let k = choose|k: int| 0 <= k < p.len() && !is_space(p[k]);
                    assert(k < i);
                    assert(q@.subrange(0, i as int)[k] == p[k]);
                }
            }
            if has_word(q@.subrange(0, i as int)) {
                let k = choose|k: int|
                    0 <= k < i && !is_space(q@.subrange(0, i as int)[k]);
                assert(p[k] == q@.subrange(0, i as int)[k]);
            }
        }
        i = i + 1;
    }
    assert(q@.subrange(0, n as int) =~= q@);
    if n > 0 && prev_word {
        push_char(&mut out, '\'');
    }
    out
}

// ---------------------------------------------------------------------------
// Specialty pattern

/// A character as it stands in a `LIKE` pattern that matches it literally.
pub open spec fn like_char(c: char) -> Seq<char> {
    if c == '%' || c == '_' || c == '\\' {
        seq!['\\', c]
    } else {
        seq![c]
    }
}

/// `s` with the `LIKE` wildcards and the escape character escaped.
pub open spec fn like_escaped(s: Seq<char>) -> Seq<char>
    decreases s.len(),
{
    if s.len() == 0 {
        seq![]
    } else {
        like_escaped(s.drop_last()) + like_char(s.last())
    }
}

/// The pattern that matches every text holding `s`.
pub open spec fn like_pattern(s: Seq<char>) -> Seq<char> {
    seq!['%'] + like_escaped(s) + seq!['%']
}

/// The `ILIKE` pattern that matches every text holding `s`.
pub fn to_like_pattern(s: &str) -> (r: String)
    ensures
        r@ == like_pattern(s@),
{
    let n = s.unicode_len();
    let mut out = String::new();
    push_char(&mut out, '%');
    let mut i: usize = 0;
    while i < n
        invariant
            n == s@.len(),
            i <= n,
            out@ == seq!['%'] + like_escaped(s@.subrange(0, i as int)),
        decreases n - i,
    {
        let c = s.get_char(i);
        if c == '%' || c == '_' || c == '\\' {
            push_char(&mut out, '\\');
        }
        push_char(&mut out, c);
        assert(s@.subrange(0, i + 1).drop_last() =~= s@.subrange(0, i as int));
        assert(out@ =~= seq!['%'] + like_escaped(s@.subrange(0, i + 1)));
        i = i + 1;
    }
    assert(s@.subrange(0, n as int) =~= s@);
    push_char(&mut out, '%');
    out
}

// ---------------------------------------------------------------------------
// Search

/// The largest page size a search may ask for.
pub const MAX_PAGE_SIZE: u32 = 100;

pub const PAGE_MESSAGE: &'static str = "Номер страницы должен быть не меньше 1";

pub const LIMIT_MESSAGE: &'static str = "Размер страницы должен быть от 1 до 100";

pub const QUERY_MESSAGE: &'static str = "Поисковый запрос не может быть пустым";

/// The page size when none is given.
pub const DEFAULT_PAGE_SIZE: u32 = 20;

/// Independent filters, combined with AND; `None` puts no constraint. Pages
/// count from 1.
#[derive(Debug, Clone, PartialEq, Eq)]
pub struct SearchCriteria {
    pub query: Option<String>,
    pub specialty: Option<String>,
    pub work_type: Option<WorkType>,
    pub year: Option<i32>,
    pub page: u32,
    pub limit: u32,
}

/// Which filters a search applies: free text, specialty, kind, year.
pub struct FilterShape {
    pub text: bool,
    pub specialty: bool,
    pub work_type: bool,
    pub year: bool,
}

impl SearchCriteria {
    /// Why the criteria are refused: a page number below 1, a page size
    /// outside [1, `MAX_PAGE_SIZE`], or free text with no word in it.
    pub open spec fn rejection(&self) -> Option<Seq<char>> {
        if self.page < 1 {
            Some(PAGE_MESSAGE@)
        } else if self.limit < 1 || self.limit > MAX_PAGE_SIZE {
            Some(LIMIT_MESSAGE@)
        } else if self.query matches Some(q) && !has_word(q@) {
            Some(QUERY_MESSAGE@)
        } else {
            None
        }
    }

    /// Checks the criteria before a statement is composed.
    pub fn validate(&self) -> (r: Result<(), AppError>)
        ensures
            r is Ok <==> self.valid(),
            match r {
                Ok(_) => self.rejection() is None,
                Err(e) => self.rejection() matches Some(m) && e.is_validation(m),
            },
    {
        if self.page < 1 {
            return Err(AppError::validation(PAGE_MESSAGE));
        }
        if self.limit < 1 || self.limit > MAX_PAGE_SIZE {
            return Err(AppError::validation(LIMIT_MESSAGE));
        }
        if let Some(q) = &self.query {
            if !has_word_str(q.as_str()) {
                return Err(AppError::validation(QUERY_MESSAGE));
            }
        }
        Ok(())
    }

    /// A page number from 1 on, a page size in [1, `MAX_PAGE_SIZE`], and
    /// free text, where given, that holds a word.
    pub open spec fn valid(&self) -> bool {
        &&& self.page >= 1
        &&& 1 <= self.limit <= MAX_PAGE_SIZE
        &&& (self.query matches Some(q) ==> has_word(q@))
    }

    /// The free text, where given.
    pub open spec fn text_filter(&self) -> Option<Seq<char>> {
        match self.query {
            Some(q) => Some(q@),
            None => None,
        }
    }

    pub open spec fn shape(&self) -> FilterShape {
        FilterShape {
            text: self.text_filter() is Some,
            specialty: self.specialty is Some,
            work_type: self.work_type is Some,
            year: self.year is Some,
        }
    }

    /// The number of rows that the pages before this one hold.
    pub open spec fn offset(&self) -> int {
        (self.page - 1) * self.limit
    }
}

pub const SEARCH_HEAD: &'static str = "SELECT id, title, work_type, specialty, author_name, supervisor_name, year, annotation, keywords, file_path, thumbnail_path, created_at, updated_at FROM works WHERE 1=1";

/// Counts the records that a search's filters match, over every page.
pub const COUNT_HEAD: &'static str = "SELECT COUNT(*) FROM works WHERE 1=1";

pub const TEXT_CLAUSE: &'static str = " AND search_vector @@ to_tsquery('russian', ";

pub const SPECIALTY_CLAUSE: &'static str = " AND specialty ILIKE ";

pub const TYPE_CLAUSE: &'static str = " AND work_type = ";

pub const TYPE_CAST: &'static str = "::work_type";

pub const YEAR_CLAUSE: &'static str = " AND year = ";

/// Newest first; the identifier orders records created at the same instant.
pub const ORDER_CLAUSE: &'static str = " ORDER BY created_at DESC, id DESC LIMIT ";

pub const OFFSET_CLAUSE: &'static str = " OFFSET ";

pub open spec fn count(b: bool) -> nat {
    if b {
        1
    } else {
        0
    }
}

/// The optional part of a clause: `part` where `b` holds, else nothing.
pub open spec fn when(b: bool, part: Seq<char>) -> Seq<char> {
    if b {
        part
    } else {
        seq![]
    }
}

/// The number of the placeholder that follows the filters before it.
pub open spec fn next_slot(f: FilterShape, before: nat) -> nat {
    1 + (if before > 0 { count(f.text) } else { 0 }) + (if before > 1 { count(f.specialty) } else { 0 })
        + (if before > 2 { count(f.work_type) } else { 0 }) + (if before > 3 { count(f.year) } else { 0 })
}

/// The AND-ed clauses of the filters in `f`, placeholders numbered from 1.
pub open spec fn filter_sql(f: FilterShape) -> Seq<char> {
    when(f.text, TEXT_CLAUSE@ + placeholder(next_slot(f, 0)) + seq![')'])
        + when(f.specialty, SPECIALTY_CLAUSE@ + placeholder(next_slot(f, 1)))
        + when(f.work_type, TYPE_CLAUSE@ + placeholder(next_slot(f, 2)) + TYPE_CAST@)
        + when(f.year, YEAR_CLAUSE@ + placeholder(next_slot(f, 3)))
}

/// The statement text of a search with filters `f`: nothing in it comes from
/// a filter's value.
pub open spec fn search_sql(f: FilterShape) -> Seq<char> {
    SEARCH_HEAD@ + filter_sql(f) + ORDER_CLAUSE@ + placeholder(next_slot(f, 4)) + OFFSET_CLAUSE@
        + placeholder(next_slot(f, 4) + 1)
}

/// The statement text that counts every record the filters `f` match.
pub open spec fn count_sql(f: FilterShape) -> Seq<char> {
    COUNT_HEAD@ + filter_sql(f)
}

pub open spec fn param_when(b: bool, v: ParamValue) -> Seq<ParamValue> {
    if b {
        seq![v]
    } else {
        seq![]
    }
}

/// The values of the filters that are present, in order.
pub open spec fn filter_params(c: SearchCriteria) -> Seq<ParamValue> {
    param_when(c.text_filter() is Some, ParamValue::Text(ts_query(c.text_filter()->0)))
        + param_when(c.specialty is Some, ParamValue::Text(like_pattern(c.specialty->0@)))
        + param_when(c.work_type is Some, ParamValue::Text(c.work_type->0.storage_token()))
        + param_when(c.year is Some, ParamValue::Int(c.year->0 as int))
}

/// The values of a search's placeholders, in order: the filters that are
/// present, then the page size and the offset.
pub open spec fn search_params(c: SearchCriteria) -> Seq<ParamValue> {
    filter_params(c) + seq![ParamValue::Int(c.limit as int), ParamValue::Int(c.offset())]
}

pub(crate) fn has_word_str(s: &str) -> (r: bool)
    ensures
        r == has_word(s@),
{
    let n = s.unicode_len();
    let mut i: usize = 0;
    while i < n
        invariant
            n == s@.len(),
            i <= n,
            forall|k: int| 0 <= k < i ==> is_space(s@[k]),
        decreases n - i,
    {
        if !is_space_char(s.get_char(i)) {
            return true;
        }
        i = i + 1;
    }
    false
}

/// Appends `head`, the placeholder `$slot` and `tail` to the text, and the
/// value for that placeholder to the parameters.
fn push_clause(
    sql: &mut String,
    params: &mut Vec<SqlParam>,
    head: &str,
    slot: u64,
    tail: &str,
    value: SqlParam,
)
    ensures
        final(sql)@ == old(sql)@ + head@ + placeholder(slot as nat) + tail@,
        final(params)@ == old(params)@.push(value),
{
    append_str(sql, head);
    push_placeholder(sql, slot);
    append_str(sql, tail);
    params.push(value);
}

proof fn lemma_views_push(s: Seq<SqlParam>, p: SqlParam)
    ensures
        s.push(p).map_values(|q: SqlParam| q@) == s.map_values(|q: SqlParam| q@).push(p@),
{
    assert(s.push(p).map_values(|q: SqlParam| q@) =~= s.map_values(|q: SqlParam| q@).push(p@));
}

pub open spec fn views(s: Seq<SqlParam>) -> Seq<ParamValue> {
    s.map_values(|p: SqlParam| p@)
}

fn push_text_filter(sql: &mut String, params: &mut Vec<SqlParam>, c: &SearchCriteria, slot: u64) -> (next: u64)
    requires
        slot == next_slot(c.shape(), 0),
    ensures
        final(sql)@ == old(sql)@ + when(
            c.shape().text,
            TEXT_CLAUSE@ + placeholder(slot as nat) + seq![')'],
        ),
        views(final(params)@) == views(old(params)@) + param_when(
            c.text_filter() is Some,
            ParamValue::Text(ts_query(c.text_filter()->0)),
        ),
        next == next_slot(c.shape(), 1),
{
    if let Some(q) = &c.query {
        let t = to_ts_query(q.as_str());
        proof {
            lemma_views_push(params@, SqlParam::Text(t));
            reveal_strlit(")");
        }
        push_clause(sql, params, TEXT_CLAUSE, slot, ")", SqlParam::Text(t));
        assert(final(sql)@ =~= old(sql)@ + TEXT_CLAUSE@ + placeholder(slot as nat) + seq![')']);
        return slot + 1;
    }
    assert(final(sql)@ =~= old(sql)@ + Seq::<char>::empty());
    assert(views(final(params)@) =~= views(old(params)@) + Seq::<ParamValue>::empty());
    slot
}

fn push_specialty_filter(sql: &mut String, params: &mut Vec<SqlParam>, c: &SearchCriteria, slot: u64) -> (next: u64)
    requires
        slot == next_slot(c.shape(), 1),
    ensures
        final(sql)@ == old(sql)@ + when(c.shape().specialty, SPECIALTY_CLAUSE@ + placeholder(slot as nat)),
        views(final(params)@) == views(old(params)@) + param_when(
            c.specialty is Some,
            ParamValue::Text(like_pattern(c.specialty->0@)),
        ),
        next == next_slot(c.shape(), 2),
{
    if let Some(sp) = &c.specialty {
        let t = to_like_pattern(sp.as_str());
        proof {
            lemma_views_push(params@, SqlParam::Text(t));
            reveal_strlit("");
        }
        push_clause(sql, params, SPECIALTY_CLAUSE, slot, "", SqlParam::Text(t));
        assert(final(sql)@ =~= old(sql)@ + SPECIALTY_CLAUSE@ + placeholder(slot as nat));
        return slot + 1;
    }
    assert(final(sql)@ =~= old(sql)@ + Seq::<char>::empty());
    assert(views(final(params)@) =~= views(old(params)@) + Seq::<ParamValue>::empty());
    slot
}

fn push_type_filter(sql: &mut String, params: &mut Vec<SqlParam>, c: &SearchCriteria, slot: u64) -> (next: u64)
    requires
        slot == next_slot(c.shape(), 2),
    ensures
        final(sql)@ == old(sql)@ + when(
            c.shape().work_type,
            TYPE_CLAUSE@ + placeholder(slot as nat) + TYPE_CAST@,
        ),
        views(final(params)@) == views(old(params)@) + param_when(
            c.work_type is Some,
            ParamValue::Text(c.work_type->0.storage_token()),
        ),
        next == next_slot(c.shape(), 3),
{
    if let Some(w) = &c.work_type {
        let t = owned(w.as_db_str());
        proof {
            lemma_views_push(params@, SqlParam::Text(t));
        }
        push_clause(sql, params, TYPE_CLAUSE, slot, TYPE_CAST, SqlParam::Text(t));
        assert(final(sql)@ =~= old(sql)@ + TYPE_CLAUSE@ + placeholder(slot as nat) + TYPE_CAST@);
        return slot + 1;
    }
    assert(final(sql)@ =~= old(sql)@ + Seq::<char>::empty());
    assert(views(final(params)@) =~= views(old(params)@) + Seq::<ParamValue>::empty());
    slot
}

fn push_year_filter(sql: &mut String, params: &mut Vec<SqlParam>, c: &SearchCriteria, slot: u64) -> (next: u64)
    requires
        slot == next_slot(c.shape(), 3),
    ensures
        final(sql)@ == old(sql)@ + when(c.shape().year, YEAR_CLAUSE@ + placeholder(slot as nat)),
        views(final(params)@) == views(old(params)@) + param_when(
            c.year is Some,
            ParamValue::Int(c.year->0 as int),
        ),
        next == next_slot(c.shape(), 4),
{
    if let Some(y) = c.year {
        proof {
            lemma_views_push(params@, SqlParam::Int(y as i64));
            reveal_strlit("");
        }
        push_clause(sql, params, YEAR_CLAUSE, slot, "", SqlParam::Int(y as i64));
        assert(final(sql)@ =~= old(sql)@ + YEAR_CLAUSE@ + placeholder(slot as nat));
        return slot + 1;
    }
    assert(final(sql)@ =~= old(sql)@ + Seq::<char>::empty());
    assert(views(final(params)@) =~= views(old(params)@) + Seq::<ParamValue>::empty());
    slot
}

/// Appends the clause and the value of each filter of `c` that is present.
fn push_filters(sql: &mut String, params: &mut Vec<SqlParam>, c: &SearchCriteria) -> (slot: u64)
    ensures
        final(sql)@ == old(sql)@ + filter_sql(c.shape()),
        views(final(params)@) == views(old(params)@) + filter_params(*c),
        slot == next_slot(c.shape(), 4),
{
    let slot = push_text_filter(sql, params, c, 1);
    let slot = push_specialty_filter(sql, params, c, slot);
    let slot = push_type_filter(sql, params, c, slot);
    let slot = push_year_filter(sql, params, c, slot);
    assert(final(sql)@ =~= old(sql)@ + filter_sql(c.shape()));
    assert(views(final(params)@) =~= views(old(params)@) + filter_params(*c));
    slot
}

/// Composes the search statement: one AND-ed clause for each filter that is
/// present, newest records first, `limit` rows from row `(page - 1) * limit`.
pub fn build_search(c: &SearchCriteria) -> (r: SqlStatement)
    requires
        c.valid(),
    ensures
        r.sql@ == search_sql(c.shape()),
        r.param_values() == search_params(*c),
{
    let mut sql = owned(SEARCH_HEAD);
    let mut params: Vec<SqlParam> = Vec::new();
    assert(params@.map_values(|p: SqlParam| p@) =~= Seq::<ParamValue>::empty());
    let slot = push_filters(&mut sql, &mut params, c);
    assert(params@.map_values(|p: SqlParam| p@) =~= filter_params(*c));
    let ghost f = c.shape();
    append_str(&mut sql, ORDER_CLAUSE);
    push_placeholder(&mut sql, slot);
    append_str(&mut sql, OFFSET_CLAUSE);
    push_placeholder(&mut sql, slot + 1);
    assert((c.page - 1) * c.limit <= 4294967295 * 100) by (nonlinear_arith)
        requires
            1 <= c.page <= 4294967295,
            c.limit <= 100,
    ;
    let offset: i64 = (c.page as i64 - 1) * (c.limit as i64);
    proof {
        lemma_views_push(params@, SqlParam::Int(c.limit as i64));
        lemma_views_push(params@.push(SqlParam::Int(c.limit as i64)), SqlParam::Int(offset));
    }
    params.push(SqlParam::Int(c.limit as i64));
    params.push(SqlParam::Int(offset));
    assert(sql@ =~= search_sql(f));
    assert(params@.map_values(|p: SqlParam| p@) =~= search_params(*c));
    SqlStatement { sql, params }
}

/// Composes the statement that counts every record the filters of `c`
/// match, across all pages; page and page size play no part.
pub fn build_count(c: &SearchCriteria) -> (r: SqlStatement)
    requires
        c.valid(),
    ensures
        r.sql@ == count_sql(c.shape()),
        r.param_values() == filter_params(*c),
{
    let mut sql = owned(COUNT_HEAD);
    let mut params: Vec<SqlParam> = Vec::new();
    assert(params@.map_values(|p: SqlParam| p@) =~= Seq::<ParamValue>::empty());
    push_filters(&mut sql, &mut params, c);
    assert(params@.map_values(|p: SqlParam| p@) =~= filter_params(*c));
    SqlStatement { sql, params }
}

// ---------------------------------------------------------------------------
// Single-record statements

pub const SELECT_BY_ID: &'static str = "SELECT id, title, work_type, specialty, author_name, supervisor_name, year, annotation, keywords, file_path, thumbnail_path, created_at, updated_at FROM works WHERE id = $1";

pub const DELETE_BY_ID: &'static str = "DELETE FROM works WHERE id = $1";

pub const SELECT_SPECIALTIES: &'static str = "SELECT DISTINCT specialty FROM works ORDER BY specialty";

pub const INSERT_WORK: &'static str = "INSERT INTO works (title, work_type, specialty, author_name, supervisor_name, year, annotation, keywords, file_path, thumbnail_path) VALUES ($1, $2::work_type, $3, $4, $5, $6, $7, $8, $9, $10) RETURNING id, title, work_type, specialty, author_name, supervisor_name, year, annotation, keywords, file_path, thumbnail_path, created_at, updated_at";

pub const UPDATE_WORK: &'static str = "UPDATE works SET title = COALESCE($1, title), work_type = COALESCE($2::work_type, work_type), specialty = COALESCE($3, specialty), author_name = COALESCE($4, author_name), supervisor_name = COALESCE($5, supervisor_name), year = COALESCE($6, year), annotation = COALESCE($7, annotation), keywords = COALESCE($8, keywords), thumbnail_path = COALESCE($9, thumbnail_path), updated_at = NOW() WHERE id = $10 RETURNING id, title, work_type, specialty, author_name, supervisor_name, year, annotation, keywords, file_path, thumbnail_path, created_at, updated_at";

/// The statement that reads the work with identifier `id`.
pub fn select_by_id(id: u128) -> (r: SqlStatement)
    ensures
        r.sql@ == SELECT_BY_ID@,
        r.param_values() == seq![ParamValue::Id(id)],
{
    let params = vec![SqlParam::Id(id)];
    let r = SqlStatement { sql: owned(SELECT_BY_ID), params };
    assert(r.param_values() =~= seq![ParamValue::Id(id)]);
    r
}

/// The statement that removes the work with identifier `id`.
pub fn delete_by_id(id: u128) -> (r: SqlStatement)
    ensures
        r.sql@ == DELETE_BY_ID@,
        r.param_values() == seq![ParamValue::Id(id)],
{
    let params = vec![SqlParam::Id(id)];
    let r = SqlStatement { sql: owned(DELETE_BY_ID), params };
    assert(r.param_values() =~= seq![ParamValue::Id(id)]);
    r
}

/// The statement that lists each specialty once, in lexicographic order.
pub fn select_specialties() -> (r: SqlStatement)
    ensures
        r.sql@ == SELECT_SPECIALTIES@,
        r.param_values() == Seq::<ParamValue>::empty(),
{
    let r = SqlStatement { sql: owned(SELECT_SPECIALTIES), params: Vec::new() };
    assert(r.param_values() =~= Seq::<ParamValue>::empty());
    r
}

fn copy_opt(o: &Option<String>) -> (r: Option<String>)
    ensures
        opt_text(r) == opt_text(*o),
{
    match o {
        Some(s) => Some(s.clone()),
        None => None,
    }
}

/// The values of an insert's placeholders, field by field.
pub open spec fn insert_params(d: WorkCreateDto) -> Seq<ParamValue> {
    seq![
        ParamValue::Text(d.title@),
        ParamValue::Text(d.work_type.storage_token()),
        ParamValue::Text(d.specialty@),
        ParamValue::Text(d.author_name@),
        ParamValue::Text(d.supervisor_name@),
        ParamValue::Int(d.year as int),
        ParamValue::MaybeText(opt_text(d.annotation)),
        ParamValue::MaybeText(opt_text(d.keywords)),
        ParamValue::Text(d.file_path@),
        ParamValue::MaybeText(opt_text(d.thumbnail_path)),
    ]
}

/// The statement that stores a new work; the store assigns its identifier
/// and both timestamps.
pub fn insert_work(d: &WorkCreateDto) -> (r: SqlStatement)
    ensures
        r.sql@ == INSERT_WORK@,
        r.param_values() == insert_params(*d),
{
    let params = vec![
        SqlParam::Text(d.title.clone()),
        SqlParam::Text(owned(d.work_type.as_db_str())),
        SqlParam::Text(d.specialty.clone()),
        SqlParam::Text(d.author_name.clone()),
        SqlParam::Text(d.supervisor_name.clone()),
        SqlParam::Int(d.year as i64),
        SqlParam::MaybeText(copy_opt(&d.annotation)),
        SqlParam::MaybeText(copy_opt(&d.keywords)),
        SqlParam::Text(d.file_path.clone()),
        SqlParam::MaybeText(copy_opt(&d.thumbnail_path)),
    ];
    let r = SqlStatement { sql: owned(INSERT_WORK), params };
    assert(r.param_values() =~= insert_params(*d));
    r
}

pub open spec fn opt_token(o: Option<WorkType>) -> Option<Seq<char>> {
    match o {
        Some(w) => Some(w.storage_token()),
        None => None,
    }
}

pub open spec fn opt_year(o: Option<i32>) -> Option<int> {
    match o {
        Some(y) => Some(y as int),
        None => None,
    }
}

/// The values of an update's placeholders: each field that `d` leaves out
/// is bound as NULL, which keeps the stored value; the identifier comes last.
pub open spec fn update_params(id: u128, d: WorkUpdateDto) -> Seq<ParamValue> {
    seq![
        ParamValue::MaybeText(opt_text(d.title)),
        ParamValue::MaybeText(opt_token(d.work_type)),
        ParamValue::MaybeText(opt_text(d.specialty)),
        ParamValue::MaybeText(opt_text(d.author_name)),
        ParamValue::MaybeText(opt_text(d.supervisor_name)),
        ParamValue::MaybeInt(opt_year(d.year)),
        ParamValue::MaybeText(opt_text(d.annotation)),
        ParamValue::MaybeText(opt_text(d.keywords)),
        ParamValue::MaybeText(opt_text(d.thumbnail_path)),
        ParamValue::Id(id),
    ]
}

/// The statement that overwrites the supplied fields of work `id` and
/// refreshes its modification time.
pub fn update_work(id: u128, d: &WorkUpdateDto) -> (r: SqlStatement)
    ensures
        r.sql@ == UPDATE_WORK@,
        r.param_values() == update_params(id, *d),
{
    let token = match d.work_type {
        Some(w) => Some(owned(w.as_db_str())),
        None => None,
    };
    let year = match d.year {
        Some(y) => Some(y as i64),
        None => None,
    };
    let params = vec![
        SqlParam::MaybeText(copy_opt(&d.title)),
        SqlParam::MaybeText(token),
        SqlParam::MaybeText(copy_opt(&d.specialty)),
        SqlParam::MaybeText(copy_opt(&d.author_name)),
        SqlParam::MaybeText(copy_opt(&d.supervisor_name)),
        SqlParam::MaybeInt(year),
        SqlParam::MaybeText(copy_opt(&d.annotation)),
        SqlParam::MaybeText(copy_opt(&d.keywords)),
        SqlParam::MaybeText(copy_opt(&d.thumbnail_path)),
        SqlParam::Id(id),
    ];
    let r = SqlStatement { sql: owned(UPDATE_WORK), params };
    assert(r.param_values() =~= update_params(id, *d));
    r
}

// ---------------------------------------------------------------------------
// Laws

/// Two searches that apply the same filters run the same statement text,
/// whatever the filters' values: a value can reach the store only as a bound
/// parameter, never as part of the statement.
pub proof fn lemma_search_text_ignores_values(a: SearchCriteria, b: SearchCriteria)
    requires
        a.shape() == b.shape(),
    ensures
        search_sql(a.shape()) == search_sql(b.shape()),
        count_sql(a.shape()) == count_sql(b.shape()),
{
}

/// Every search orders newest first, by creation time and then by identifier,
/// and reads at most `limit` rows: the last two placeholders of its text are
/// the row limit and the offset, bound to the page size and to
/// `(page - 1) * limit`.
pub proof fn lemma_search_newest_first_and_bounded(c: SearchCriteria)
    requires
        c.valid(),
    ensures
        ({
            let n = search_params(c).len();
            &&& n >= 2
            &&& exists|filters: Seq<char>|
                search_sql(c.shape()) == SEARCH_HEAD@ + filters + ORDER_CLAUSE@ + placeholder(
                    (n - 1) as nat,
                ) + OFFSET_CLAUSE@ + placeholder(n as nat)
            &&& search_params(c)[n - 2] == ParamValue::Int(c.limit as int)
            &&& search_params(c)[n - 1] == ParamValue::Int(c.offset())
            &&& 1 <= c.limit
        }),
{
    let f = c.shape();
    let filters = filter_sql(f);
    assert(search_sql(f) =~= SEARCH_HEAD@ + filters + ORDER_CLAUSE@ + placeholder(next_slot(f, 4))
        + OFFSET_CLAUSE@ + placeholder(next_slot(f, 4) + 1));
    let n = search_params(c).len();
    assert(n == next_slot(f, 4) + 1);
}

/// An update that supplies no field binds NULL for every column, so each
/// stored value is kept; only the modification time, which the statement
/// sets unconditionally, changes.
pub proof fn lemma_empty_update_keeps_fields(id: u128, d: WorkUpdateDto)
    requires
        d.title is None,
        d.work_type is None,
        d.specialty is None,
        d.author_name is None,
        d.supervisor_name is None,
        d.year is None,
        d.annotation is None,
        d.keywords is None,
        d.thumbnail_path is None,
    ensures
        forall|i: int|
            0 <= i < 9 ==> (update_params(id, d)[i] == ParamValue::MaybeText(None)
                || update_params(id, d)[i] == ParamValue::MaybeInt(None)),
        update_params(id, d)[9] == ParamValue::Id(id),
{
}

/// `s` holds no statement separator.
pub open spec fn single_statement(s: Seq<char>) -> bool {
    forall|i: int| 0 <= i < s.len() ==> s[i] != ';'
}

proof fn lemma_single_concat(a: Seq<char>, b: Seq<char>)
    requires
        single_statement(a),
        single_statement(b),
    ensures
        single_statement(a + b),
{
    assert forall|i: int| 0 <= i < (a + b).len() implies (a + b)[i] != ';' by {
        if i < a.len() {
            assert((a + b)[i] == a[i]);
        } else {
            assert((a + b)[i] == b[i - a.len()]);
        }
    }
}

proof fn lemma_decimal_single(n: nat)
    ensures
        single_statement(decimal(n)),
    decreases n,
{
    if n >= 10 {
        lemma_decimal_single(n / 10);
        let d = decimal(n / 10);
        assert(decimal(n) == d.push(digit(n % 10)));
        assert forall|i: int| 0 <= i < decimal(n).len() implies decimal(n)[i] != ';' by {
            if i < d.len() {
                assert(decimal(n)[i] == d[i]);
            }
        }
    }
}

proof fn lemma_placeholder_single(n: nat)
    ensures
        single_statement(placeholder(n)),
{
    lemma_decimal_single(n);
    lemma_single_concat(seq!['$'], decimal(n));
}

proof fn lemma_literals_single()
    ensures
        single_statement(SEARCH_HEAD@),
        single_statement(TEXT_CLAUSE@),
        single_statement(SPECIALTY_CLAUSE@),
        single_statement(TYPE_CLAUSE@),
        single_statement(TYPE_CAST@),
        single_statement(YEAR_CLAUSE@),
        single_statement(ORDER_CLAUSE@),
        single_statement(OFFSET_CLAUSE@),
        single_statement(COUNT_HEAD@),
{
    reveal_strlit("SELECT COUNT(*) FROM works WHERE 1=1");
    reveal_strlit("SELECT id, title, work_type, specialty, author_name, supervisor_name, year, annotation, keywords, file_path, thumbnail_path, created_at, updated_at FROM works WHERE 1=1");
    reveal_strlit(" AND search_vector @@ to_tsquery('russian', ");
    reveal_strlit(" AND specialty ILIKE ");
    reveal_strlit(" AND work_type = ");
    reveal_strlit("::work_type");
    reveal_strlit(" AND year = ");
    reveal_strlit(" ORDER BY created_at DESC, id DESC LIMIT ");
    reveal_strlit(" OFFSET ");
}

proof fn lemma_when_single(b: bool, part: Seq<char>)
    requires
        single_statement(part),
    ensures
        single_statement(when(b, part)),
{
}

proof fn lemma_filters_single(f: FilterShape)
    ensures
        single_statement(filter_sql(f)),
{
    lemma_literals_single();
    lemma_placeholder_single(next_slot(f, 0));
    lemma_placeholder_single(next_slot(f, 1));
    lemma_placeholder_single(next_slot(f, 2));
    lemma_placeholder_single(next_slot(f, 3));
    assert(single_statement(seq![')']));
    let t = TEXT_CLAUSE@ + placeholder(next_slot(f, 0));
    lemma_single_concat(TEXT_CLAUSE@, placeholder(next_slot(f, 0)));
    lemma_single_concat(t, seq![')']);
    lemma_when_single(f.text, t + seq![')']);
    let sp = SPECIALTY_CLAUSE@ + placeholder(next_slot(f, 1));
    lemma_single_concat(SPECIALTY_CLAUSE@, placeholder(next_slot(f, 1)));
    lemma_when_single(f.specialty, sp);
    let w = TYPE_CLAUSE@ + placeholder(next_slot(f, 2));
    lemma_single_concat(TYPE_CLAUSE@, placeholder(next_slot(f, 2)));
    lemma_single_concat(w, TYPE_CAST@);
    lemma_when_single(f.work_type, w + TYPE_CAST@);
    let y = YEAR_CLAUSE@ + placeholder(next_slot(f, 3));
    lemma_single_concat(YEAR_CLAUSE@, placeholder(next_slot(f, 3)));
    lemma_when_single(f.year, y);
    let s1 = when(f.text, t + seq![')']);
    let s2 = s1 + when(f.specialty, sp);
    lemma_single_concat(s1, when(f.specialty, sp));
    let s3 = s2 + when(f.work_type, w + TYPE_CAST@);
    lemma_single_concat(s2, when(f.work_type, w + TYPE_CAST@));
    lemma_single_concat(s3, when(f.year, y));
}

/// Whatever filters a search applies, its statement text and that of its
/// count hold no statement separator: free text such as
/// `'; DROP TABLE works; --` travels as a bound value and can never run as a
/// second statement.
pub proof fn lemma_search_is_one_statement(f: FilterShape)
    ensures
        single_statement(search_sql(f)),
        single_statement(count_sql(f)),
{
    lemma_literals_single();
    lemma_filters_single(f);
    lemma_placeholder_single(next_slot(f, 4));
    lemma_placeholder_single(next_slot(f, 4) + 1);
    let s1 = SEARCH_HEAD@ + filter_sql(f);
    lemma_single_concat(SEARCH_HEAD@, filter_sql(f));
    let s2 = s1 + ORDER_CLAUSE@;
    lemma_single_concat(s1, ORDER_CLAUSE@);
    let s3 = s2 + placeholder(next_slot(f, 4));
    lemma_single_concat(s2, placeholder(next_slot(f, 4)));
    let s4 = s3 + OFFSET_CLAUSE@;
    lemma_single_concat(s3, OFFSET_CLAUSE@);
    lemma_single_concat(s4, placeholder(next_slot(f, 4) + 1));
    lemma_single_concat(COUNT_HEAD@, filter_sql(f));
}

} // verus!
