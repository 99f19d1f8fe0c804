//! Client-defined JSON tables: their definitions, their rows, and the
//! compilation of row filters and sort orders to SQL.
//!
//! A compiled filter is inert against injection: every operand travels as an
//! argument, and the text holds only fixed fragments, casts of declared
//! columns, and field names as quoted literals.
use vstd::prelude::*;

use crate::meaning::{fills, lemma_join, lemma_within, mentions, opens, part_at, says, takes};
use crate::queries::data_table_laws::{lemma_filter_starts, rows_of_table_text};
use crate::queries::texts::data_tables::{
    add_column_text, column_cols_text, count_rows_text, create_table_text, delete_row_by_id_text,
    delete_rows_text, delete_table_text, drop_column_text, get_row_text,
    get_table_by_name_tail_text, get_table_tail_text, insert_rows_text, list_columns_tail_text,
    list_tables_text, rename_column_text, rename_row_key_text, search_tables_tail_text,
    set_schema_mode_text, set_table_embedding_text, table_cols_text, update_column_text,
    update_row_by_id_text, update_table_meta_text,
};
use crate::search_pattern::{like_escape, like_literal};
use crate::statement::{
    executes, fetches_all, fetches_one, fetches_optional, opt_str, opt_text, texts, Bind, BindView,
    Statement, StatementView,
};
use crate::text::{chars_of, decimal_text, text_eq, unsigned_decimal};

verus! {

/// The most rows that one selection returns by default.
pub const MAX_SELECT_ROWS: i64 = 1000;

/// The most rows that are read for an aggregation.
pub const MAX_AGG_SCAN: i64 = 100_000;

pub const TABLE_COLS: &'static str =
    "id, project_id, name, description, schema_mode, created_by, created_at, updated_at";

pub const COLUMN_COLS: &'static str =
    "id, table_id, name, data_type, required, default_json, position, description";

/// A column definition.
#[derive(Debug, Clone)]
pub struct DataColumnRow {
    pub id: i64,
    pub table_id: i64,
    pub name: String,
    pub data_type: String,
    pub required: bool,
    pub default_json: Option<String>,
    pub position: i32,
    pub description: Option<String>,
}

/// How a field is compared with an operand.
#[derive(Debug, Clone, Copy, PartialEq, Eq, Structural)]
pub enum FilterOp {
    Eq,
    Ne,
    Gt,
    Lt,
    Gte,
    Lte,
    Contains,
    Exists,
}

/// How predicates are joined.
#[derive(Debug, Clone, Copy, PartialEq, Eq, Structural)]
pub enum Combinator {
    All,
    Any,
}

/// A sort direction.
#[derive(Debug, Clone, Copy, PartialEq, Eq, Structural)]
pub enum SortDir {
    Asc,
    Desc,
}

/// A JSON operand. Numbers, arrays and objects are held as their JSON text.
#[derive(Debug, Clone)]
pub enum Operand {
    Text(String),
    Bool(bool),
    Number(String),
    Null,
    Json(String),
}

/// A JSON operand as a mathematical value.
pub enum OperandView {
    Text(Seq<char>),
    Bool(bool),
    Number(Seq<char>),
    Null,
    Json(Seq<char>),
}

impl View for Operand {
    type V = OperandView;

    open spec fn view(&self) -> OperandView {
        match *self {
            Operand::Text(s) => OperandView::Text(s@),
            Operand::Bool(b) => OperandView::Bool(b),
            Operand::Number(t) => OperandView::Number(t@),
            Operand::Null => OperandView::Null,
            Operand::Json(t) => OperandView::Json(t@),
        }
    }
}

/// One predicate over a JSON field.
#[derive(Debug, Clone)]
pub struct FieldPredicate {
    pub field: String,
    pub op: FilterOp,
    pub value: Operand,
}

/// A predicate as a mathematical value.
pub struct PredicateView {
    pub field: Seq<char>,
    pub op: FilterOp,
    pub value: OperandView,
}

impl View for FieldPredicate {
    type V = PredicateView;

    open spec fn view(&self) -> PredicateView {
        PredicateView { field: self.field@, op: self.op, value: self.value@ }
    }
}

/// Every field of the model stands for the field of the same name.
pub proof fn law_field_predicate_is_modelled_by_its_fields(predicate: FieldPredicate)
    ensures
        predicate@.field == predicate.field@,
        predicate@.op == predicate.op,
        predicate@.value == predicate.value@,
{
}

/// The values of a list of predicates.
pub open spec fn predicate_views(v: Seq<FieldPredicate>) -> Seq<PredicateView> {
    v.map_values(|p: FieldPredicate| p@)
}

/// Predicates joined by one combinator.
#[derive(Debug, Clone)]
pub struct RowFilter {
    pub predicates: Vec<FieldPredicate>,
    pub combinator: Combinator,
}

impl RowFilter {
    /// The filter that every row passes.
    pub fn none() -> (r: RowFilter)
        ensures
            r.predicates@ == Seq::<FieldPredicate>::empty(),
            r.combinator == Combinator::All,
    {
        RowFilter { predicates: Vec::new(), combinator: Combinator::All }
    }

    /// Whether every row passes.
    pub fn is_empty(&self) -> (b: bool)
        ensures
            b == (self.predicates@.len() == 0),
    {
        self.predicates.len() == 0
    }
}

/// A sort order over a JSON field; without a field, the newest row first.
#[derive(Debug, Clone)]
pub struct RowSort {
    pub field: Option<String>,
    pub dir: SortDir,
}

impl Default for RowSort {
    fn default() -> (r: RowSort)
        ensures
            r.field is None,
            r.dir == SortDir::Desc,
    {
        RowSort { field: None, dir: SortDir::Desc }
    }
}

/// A declared column with the SQL type its text is cast to, if any.
#[derive(Debug, Clone)]
pub struct ColumnCast {
    pub name: String,
    pub cast: Option<String>,
}

/// A declared column as a mathematical value.
pub struct CastView {
    pub name: Seq<char>,
    pub cast: Option<Seq<char>>,
}

impl View for ColumnCast {
    type V = CastView;

    open spec fn view(&self) -> CastView {
        CastView { name: self.name@, cast: opt_text(self.cast) }
    }
}

/// Every field of the model stands for the field of the same name.
pub proof fn law_column_cast_is_modelled_by_its_fields(cast: ColumnCast)
    ensures
        cast@.name == cast.name@,
        cast@.cast == opt_text(cast.cast),
{
}

/// The values of a list of declared columns.
pub open spec fn cast_views(v: Seq<ColumnCast>) -> Seq<CastView> {
    v.map_values(|c: ColumnCast| c@)
}

/// The cast of the declared column with a name; `None` where no column has
/// it.
pub open spec fn declared_cast(types: Seq<CastView>, field: Seq<char>) -> Option<
    Option<Seq<char>>,
>
    decreases types.len(),
{
    if types.len() == 0 {
        None
    } else if types[0].name == field {
        Some(types[0].cast)
    } else {
        declared_cast(types.drop_first(), field)
    }
}

/// The cast of the declared column with a name, as strings.
fn find_cast<'a>(types: &'a [ColumnCast], field: &str) -> (r: Option<&'a ColumnCast>)
    ensures
        declared_cast(cast_views(types@), field@) == (match r {
            Some(c) => Some(opt_text(c.cast)),
            None => None,
        }),
{
    let ghost all = cast_views(types@);
    let mut i: usize = 0;
    assert(all.skip(0) =~= all);
    while i < types.len()
        invariant
            i <= types.len(),
            all == cast_views(types@),
            declared_cast(all, field@) == declared_cast(all.skip(i as int), field@),
        decreases types.len() - i,
    {
        assert(all.skip(i as int)[0] == types@[i as int]@);
        assert(all.skip(i as int).drop_first() =~= all.skip(i + 1));
        if text_eq(types[i].name.as_str(), field) {
            return Some(&types[i]);
        }
        i = i + 1;
    }
    assert(all.skip(i as int) =~= seq![]);
    None
}

/// A quote doubled, any other character as it is.
pub open spec fn escaped_char(c: char) -> Seq<char> {
    if c == '\'' {
        seq!['\'', '\'']
    } else {
        seq![c]
    }
}

/// A text with its quotes doubled, for use between single quotes in SQL.
pub open spec fn escaped_literal(s: Seq<char>) -> Seq<char>
    decreases s.len(),
{
    if s.len() == 0 {
        seq![]
    } else {
        escaped_literal(s.drop_last()) + escaped_char(s.last())
    }
}

/// Escapes a field name for use between single quotes in SQL.
pub fn esc_lit(s: &str) -> (r: String)
    ensures
        r@ == escaped_literal(s@),
{
    let chars = chars_of(s);
    let mut out = String::new();
    let mut i: usize = 0;
    while i < chars.len()
        invariant
            i <= chars.len(),
            chars@ == s@,
            out@ == escaped_literal(s@.take(i as int)),
        decreases chars.len() - i,
    {
        let c: char = chars[i];
        assert(s@.take(i + 1).drop_last() =~= s@.take(i as int));
        let ghost before = out@;
        out.push(c);
        if c == '\'' {
            out.push('\'');
        }
        assert(out@ =~= before + escaped_char(c));
        i = i + 1;
    }
    assert(s@.take(i as int) =~= s@);
    out
}

/// Reads a SQL string literal after its opening quote: its value and what
/// follows the closing quote; `None` where the literal does not end.
pub open spec fn read_literal(s: Seq<char>) -> Option<(Seq<char>, Seq<char>)>
    decreases s.len(),
{
    if s.len() == 0 {
        None
    } else if s[0] != '\'' {
        match read_literal(s.skip(1)) {
            Some((v, rest)) => Some((seq![s[0]] + v, rest)),
            None => None,
        }
    } else if s.len() > 1 && s[1] == '\'' {
        match read_literal(s.skip(2)) {
            Some((v, rest)) => Some((seq!['\''] + v, rest)),
            None => None,
        }
    } else {
        Some((seq![], s.skip(1)))
    }
}

proof fn lemma_escape_front(s: Seq<char>)
    requires
        s.len() > 0,
    ensures
        escaped_literal(s) == escaped_char(s[0]) + escaped_literal(s.skip(1)),
    decreases s.len(),
{
    if s.len() == 1 {
        assert(s.drop_last() =~= seq![]);
        assert(s.skip(1) =~= seq![]);
        reveal_with_fuel(escaped_literal, 2);
        assert(escaped_literal(s) =~= escaped_char(s[0]));
        assert(escaped_char(s[0]) + escaped_literal(s.skip(1)) =~= escaped_char(s[0]));
    } else {
        lemma_escape_front(s.drop_last());
        assert(s.drop_last().skip(1) =~= s.skip(1).drop_last());
        assert(escaped_literal(s) =~= escaped_char(s[0]) + escaped_literal(s.skip(1)));
    }
}

/// A field name cannot end the literal it stands in: a reader of the escaped
/// name and a closing quote gets the name back and goes on after the quote.
pub proof fn law_field_stays_in_its_literal(field: Seq<char>, rest: Seq<char>)
    requires
        rest.len() == 0 || rest[0] != '\'',
    ensures
        read_literal(escaped_literal(field) + seq!['\''] + rest) == Some((field, rest)),
    decreases field.len(),
{
    let whole = escaped_literal(field) + seq!['\''] + rest;
    if field.len() == 0 {
        assert(whole[0] == '\'');
        assert(whole.skip(1) =~= rest);
        assert(field =~= seq![]);
        if rest.len() > 0 {
            assert(whole[1] == rest[0]);
        }
    } else {
        lemma_escape_front(field);
        let tail = escaped_literal(field.skip(1)) + seq!['\''] + rest;
        law_field_stays_in_its_literal(field.skip(1), rest);
        assert(whole =~= escaped_char(field[0]) + tail);
        assert(field =~= seq![field[0]] + field.skip(1));
        if field[0] == '\'' {
            assert(whole[0] == '\'' && whole[1] == '\'');
            assert(whole.skip(2) =~= tail);
        } else {
            assert(whole[0] == field[0]);
            assert(whole.skip(1) =~= tail);
        }
    }
}

/// The hexadecimal digit of a number below sixteen, in lower case.
pub open spec fn hex_char(n: u32) -> char {
    seq!['0', '1', '2', '3', '4', '5', '6', '7', '8', '9', 'a', 'b', 'c', 'd', 'e', 'f'][n as int]
}

/// A character as it stands in a JSON string: quotes, backslashes and control
/// characters are escaped.
pub open spec fn json_char(c: char) -> Seq<char> {
    if c == '"' || c == '\\' {
        seq!['\\', c]
    } else if c == '\u{8}' {
        seq!['\\', 'b']
    } else if c == '\t' {
        seq!['\\', 't']
    } else if c == '\n' {
        seq!['\\', 'n']
    } else if c == '\u{c}' {
        seq!['\\', 'f']
    } else if c == '\r' {
        seq!['\\', 'r']
    } else if (c as u32) < 32 {
        seq!['\\', 'u', '0', '0', hex_char(c as u32 / 16), hex_char(c as u32 % 16)]
    } else {
        seq![c]
    }
}

/// A text as it stands between the quotes of a JSON string.
pub open spec fn json_escaped(s: Seq<char>) -> Seq<char>
    decreases s.len(),
{
    if s.len() == 0 {
        seq![]
    } else {
        json_char(s[0]) + json_escaped(s.skip(1))
    }
}

/// A text as a JSON string, quotes included.
pub open spec fn json_quoted(s: Seq<char>) -> Seq<char> {
    seq!['"'] + json_escaped(s) + seq!['"']
}

/// `serde_json::Value::to_string` on a string value: the text between quotes,
/// with a backslash before a quote and a backslash, the short escapes for
/// backspace, tab, line feed, form feed and carriage return, and four
/// lower-case hexadecimal digits for the other control characters.
#[verifier::external_body]
fn json_string(s: &str) -> (r: String)
    ensures
        r@ == json_quoted(s@),
{
    serde_json::Value::String(s.to_string()).to_string()
}

/// The value of a hexadecimal digit.
pub open spec fn hex_value(c: char) -> int {
    if '0' <= c <= '9' {
        c as int - '0' as int
    } else {
        c as int - 'a' as int + 10
    }
}

/// The character that a short escape stands for.
pub open spec fn json_unescaped(c: char) -> char {
    if c == 'b' {
        '\u{8}'
    } else if c == 't' {
        '\t'
    } else if c == 'n' {
        '\n'
    } else if c == 'f' {
        '\u{c}'
    } else if c == 'r' {
        '\r'
    } else {
        c
    }
}

/// Puts a character before what was read.
pub open spec fn read_before(
    c: char,
    r: Option<(Seq<char>, Seq<char>)>,
) -> Option<(Seq<char>, Seq<char>)> {
    match r {
        Some((text, rest)) => Some((seq![c] + text, rest)),
        None => None,
    }
}

/// What a reader of JSON gets from a string after its opening quote: the text
/// and what follows the closing quote.
pub open spec fn json_read(t: Seq<char>) -> Option<(Seq<char>, Seq<char>)>
    decreases t.len(),
{
    if t.len() == 0 {
        None
    } else if t[0] == '"' {
        Some((seq![], t.skip(1)))
    } else if t[0] != '\\' {
        read_before(t[0], json_read(t.skip(1)))
    } else if t.len() < 2 {
        None
    } else if t[1] != 'u' {
        read_before(json_unescaped(t[1]), json_read(t.skip(2)))
    } else if t.len() < 6 {
        None
    } else {
        let code = ((hex_value(t[2]) * 16 + hex_value(t[3])) * 16 + hex_value(t[4])) * 16
            + hex_value(t[5]);
        read_before(code as char, json_read(t.skip(6)))
    }
}

proof fn lemma_control_is_read_back(c: char)
    requires
        json_char(c).len() == 6,
    ensures
        (((hex_value('0') * 16 + hex_value('0')) * 16 + hex_value(json_char(c)[4])) * 16
            + hex_value(json_char(c)[5])) as char == c,
{
    let n = c as u32;
    assert(n < 32);
    assert(n / 16 == 0 || n / 16 == 1);
    assert(hex_value(hex_char(n / 16)) == n / 16);
    assert(hex_value(hex_char(n % 16)) == n % 16);
    assert(n / 16 * 16 + n % 16 == n);
}

/// A text cannot end the JSON string it stands in: a reader of the escaped
/// text and a closing quote gets the text back and goes on after the quote.
pub proof fn law_text_stays_in_its_json_string(s: Seq<char>, rest: Seq<char>)
    ensures
        json_read(json_escaped(s) + seq!['"'] + rest) == Some((s, rest)),
    decreases s.len(),
{
    let whole = json_escaped(s) + seq!['"'] + rest;
    if s.len() == 0 {
        assert(whole[0] == '"');
        assert(whole.skip(1) =~= rest);
        assert(s =~= seq![]);
    } else {
        law_text_stays_in_its_json_string(s.skip(1), rest);
        let c: char = s[0];
        let tail = json_escaped(s.skip(1)) + seq!['"'] + rest;
        assert(whole =~= json_char(c) + tail);
        assert(whole.skip(json_char(c).len() as int) =~= tail);
        assert(seq![c] + s.skip(1) =~= s);
        assert(forall|i: int| 0 <= i < json_char(c).len() ==> whole[i] == json_char(c)[i]);
        if json_char(c).len() == 6 {
            lemma_control_is_read_back(c);
            assert(whole[0] == '\\' && whole[1] == 'u' && whole[2] == '0' && whole[3] == '0');
        } else if json_char(c).len() == 2 {
            assert(json_unescaped(json_char(c)[1]) == c);
        }
        assert(json_read(whole) == read_before(c, json_read(tail)));
    }
}

/// The text of a boolean.
pub open spec fn bool_text(b: bool) -> Seq<char> {
    if b {
        "true"@
    } else {
        "false"@
    }
}

/// The JSON text of an operand.
pub open spec fn operand_json(v: OperandView) -> Seq<char> {
    match v {
        OperandView::Text(s) => json_quoted(s),
        OperandView::Bool(b) => bool_text(b),
        OperandView::Number(t) => t,
        OperandView::Null => "null"@,
        OperandView::Json(t) => t,
    }
}

/// The comparison text of an operand.
pub open spec fn operand_plain(v: OperandView) -> Seq<char> {
    match v {
        OperandView::Text(s) => s,
        OperandView::Bool(b) => bool_text(b),
        OperandView::Number(t) => t,
        OperandView::Null => seq![],
        OperandView::Json(t) => t,
    }
}

/// An object with one entry, as JSON text.
pub open spec fn one_entry(field: Seq<char>, v: OperandView) -> Seq<char> {
    "{"@ + json_quoted(field) + ":"@ + operand_json(v) + "}"@
}

/// An object with one entry, as JSON text.
pub fn one_key_json(field: &str, value: &Operand) -> (r: String)
    ensures
        r@ == one_entry(field@, value@),
{
    let v: String = match value {
        Operand::Text(s) => json_string(s.as_str()),
        Operand::Bool(b) => if *b {
            String::from_str("true")
        } else {
            String::from_str("false")
        },
        Operand::Number(t) => t.clone(),
        Operand::Null => String::from_str("null"),
        Operand::Json(t) => t.clone(),
    };
    let mut m = String::from_str("{");
    m.append(json_string(field).as_str());
    m.append(":");
    m.append(v.as_str());
    m.append("}");
    m
}

/// The comparison text of an operand.
pub fn operand_text(value: &Operand) -> (r: String)
    ensures
        r@ == operand_plain(value@),
{
    match value {
        Operand::Text(s) => s.clone(),
        Operand::Bool(b) => if *b {
            String::from_str("true")
        } else {
            String::from_str("false")
        },
        Operand::Number(t) => t.clone(),
        Operand::Null => String::new(),
        Operand::Json(t) => t.clone(),
    }
}

impl FilterOp {
    /// The SQL operator of an ordered comparison.
    pub open spec fn symbol(self) -> Option<Seq<char>> {
        match self {
            FilterOp::Gt => Some(">"@),
            FilterOp::Lt => Some("<"@),
            FilterOp::Gte => Some(">="@),
            FilterOp::Lte => Some("<="@),
            _ => None,
        }
    }

    /// The SQL operator of an ordered comparison.
    pub fn sql_symbol(self) -> (r: Option<&'static str>)
        ensures
            opt_str(r) == self.symbol(),
    {
        match self {
            FilterOp::Gt => Some(">"),
            FilterOp::Lt => Some("<"),
            FilterOp::Gte => Some(">="),
            FilterOp::Lte => Some("<="),
            _ => None,
        }
    }
}

impl Combinator {
    /// The SQL operator.
    pub open spec fn symbol(self) -> Seq<char> {
        match self {
            Combinator::All => "AND"@,
            Combinator::Any => "OR"@,
        }
    }

    /// The SQL operator.
    pub fn as_sql(self) -> (r: &'static str)
        ensures
            r@ == self.symbol(),
    {
        match self {
            Combinator::All => "AND",
            Combinator::Any => "OR",
        }
    }
}

impl SortDir {
    /// The SQL keyword.
    pub open spec fn symbol(self) -> Seq<char> {
        match self {
            SortDir::Asc => "ASC"@,
            SortDir::Desc => "DESC"@,
        }
    }

    /// The SQL keyword.
    pub fn as_sql(self) -> (r: &'static str)
        ensures
            r@ == self.symbol(),
    {
        match self {
            SortDir::Asc => "ASC",
            SortDir::Desc => "DESC",
        }
    }
}

/// The cast of an ordered comparison: that of the declared column; without
/// one, numeric for a number and none otherwise.
pub open spec fn comparison_cast(
    types: Seq<CastView>,
    field: Seq<char>,
    v: OperandView,
) -> Option<Seq<char>> {
    match declared_cast(types, field) {
        Some(c) => c,
        None => if v is Number {
            Some("numeric"@)
        } else {
            None
        },
    }
}

/// The cast of an ordered comparison.
pub fn ordered_cast(field: &str, value: &Operand, types: &[ColumnCast]) -> (r: Option<String>)
    ensures
        opt_text(r) == comparison_cast(cast_views(types@), field@, value@),
{
    match find_cast(types, field) {
        Some(c) => crate::statement::copy_opt_text(&c.cast),
        None => match value {
            Operand::Number(_) => Some(String::from_str("numeric")),
            _ => None,
        },
    }
}

/// The placeholder of argument number `n`.
pub open spec fn placeholder(n: nat) -> Seq<char> {
    "$"@ + decimal_text(n as int)
}

/// The SQL of one predicate. Of the operand it depends on nothing but the
/// cast of the comparison; `n` is the number of its argument.
pub open spec fn predicate_sql(
    op: FilterOp,
    field: Seq<char>,
    cast: Option<Seq<char>>,
    n: nat,
) -> Seq<char> {
    let f = escaped_literal(field);
    match op {
        FilterOp::Eq => "data @> "@ + placeholder(n) + "::jsonb"@,
        FilterOp::Ne => "NOT (data @> "@ + placeholder(n) + "::jsonb)"@,
        FilterOp::Contains => "(data ->> '"@ + f + "') ILIKE '%' || "@ + placeholder(n)
            + " || '%'"@,
        FilterOp::Exists => "(data ? '"@ + f + "')"@,
        _ => match cast {
            Some(c) => "(data ->> '"@ + f + "')::"@ + c + " "@ + op.symbol()->0 + " "@
                + placeholder(n) + "::"@ + c,
            None => "(data ->> '"@ + f + "') "@ + op.symbol()->0 + " "@ + placeholder(n),
        },
    }
}

/// The arguments of one predicate.
pub open spec fn predicate_binds(p: PredicateView) -> Seq<BindView> {
    match p.op {
        FilterOp::Eq => seq![BindView::Text(one_entry(p.field, p.value))],
        FilterOp::Ne => seq![BindView::Text(one_entry(p.field, p.value))],
        FilterOp::Contains => seq![BindView::Text(like_literal(operand_plain(p.value)))],
        FilterOp::Exists => seq![],
        _ => seq![BindView::Text(operand_plain(p.value))],
    }
}

/// The arguments of a list of predicates, in order.
pub open spec fn filter_binds(ps: Seq<PredicateView>) -> Seq<BindView>
    decreases ps.len(),
{
    if ps.len() == 0 {
        seq![]
    } else {
        filter_binds(ps.drop_last()) + predicate_binds(ps.last())
    }
}

/// The SQL of a list of predicates, joined; the first argument has number
/// `n + 1`.
pub open spec fn joined_sql(
    ps: Seq<PredicateView>,
    combinator: Combinator,
    types: Seq<CastView>,
    n: nat,
) -> Seq<char>
    decreases ps.len(),
{
    if ps.len() == 0 {
        seq![]
    } else {
        let p = ps.last();
        let front = ps.drop_last();
        let text = predicate_sql(
            p.op,
            p.field,
            comparison_cast(types, p.field, p.value),
            n + filter_binds(front).len() + 1,
        );
        if front.len() == 0 {
            text
        } else {
            joined_sql(front, combinator, types, n) + " "@ + combinator.symbol() + " "@ + text
        }
    }
}

/// The SQL that a filter adds to a `WHERE` clause with `n` arguments.
pub open spec fn filter_sql(
    ps: Seq<PredicateView>,
    combinator: Combinator,
    types: Seq<CastView>,
    n: nat,
) -> Seq<char> {
    if ps.len() == 0 {
        seq![]
    } else {
        " AND ("@ + joined_sql(ps, combinator, types, n) + ")"@
    }
}

/// Compiles one predicate; `n` is the number of its argument.
fn predicate_text(p: &FieldPredicate, types: &[ColumnCast], n: u128) -> (r: String)
    ensures
        r@ == predicate_sql(
            p.op,
            p.field@,
            comparison_cast(cast_views(types@), p.field@, p.value@),
            n as nat,
        ),
{
    let f = esc_lit(p.field.as_str());
    let mut slot = String::from_str("$");
    slot.append(unsigned_decimal(n).as_str());
    match p.op {
        FilterOp::Eq => {
            let mut m = String::from_str("data @> ");
            m.append(slot.as_str());
            m.append("::jsonb");
            m
        },
        FilterOp::Ne => {
            let mut m = String::from_str("NOT (data @> ");
            m.append(slot.as_str());
            m.append("::jsonb)");
            m
        },
        FilterOp::Contains => {
            let mut m = String::from_str("(data ->> '");
            m.append(f.as_str());
            m.append("') ILIKE '%' || ");
            m.append(slot.as_str());
            m.append(" || '%'");
            m
        },
        FilterOp::Exists => {
            let mut m = String::from_str("(data ? '");
            m.append(f.as_str());
            m.append("')");
            m
        },
        _ => {
            let symbol: &'static str = match p.op.sql_symbol() {
                Some(s) => s,
                None => ">",
            };
            match ordered_cast(p.field.as_str(), &p.value, types) {
                Some(c) => {
                    let mut m = String::from_str("(data ->> '");
                    m.append(f.as_str());
                    m.append("')::");
                    m.append(c.as_str());
                    m.append(" ");
                    m.append(symbol);
                    m.append(" ");
                    m.append(slot.as_str());
                    m.append("::");
                    m.append(c.as_str());
                    m
                },
                None => {
                    let mut m = String::from_str("(data ->> '");
                    m.append(f.as_str());
                    m.append("') ");
                    m.append(symbol);
                    m.append(" ");
                    m.append(slot.as_str());
                    m
                },
            }
        },
    }
}

/// Appends one predicate to a statement: its SQL, and its argument, if it
/// has one.
pub fn push_predicate(st: Statement, p: &FieldPredicate, types: &[ColumnCast]) -> (r: Statement)
    ensures
        r@ == (StatementView {
            fetch: st@.fetch,
            sql: st@.sql + predicate_sql(
                p.op,
                p.field@,
                comparison_cast(cast_views(types@), p.field@, p.value@),
                st@.binds.len() + 1,
            ),
            binds: st@.binds + predicate_binds(p@),
        }),
        r@.fetch == st@.fetch,
{
    let n: u128 = st.binds.len() as u128 + 1;
    let text = predicate_text(p, types, n);
    let ghost before = st@;
    let mut s = st;
    s.sql.append(text.as_str());
    assert(s@.binds == before.binds);
    match p.op {
        FilterOp::Eq => {
            let s = s.bind(Bind::Text(one_key_json(p.field.as_str(), &p.value)));
            assert(s@.binds =~= before.binds + predicate_binds(p@));
            s
        },
        FilterOp::Ne => {
            let s = s.bind(Bind::Text(one_key_json(p.field.as_str(), &p.value)));
            assert(s@.binds =~= before.binds + predicate_binds(p@));
            s
        },
        FilterOp::Contains => {
            let s = s.bind(Bind::Text(like_escape(operand_text(&p.value).as_str())));
            assert(s@.binds =~= before.binds + predicate_binds(p@));
            s
        },
        FilterOp::Exists => {
            assert(s@.binds =~= before.binds + predicate_binds(p@));
            s
        },
        _ => {
            let s = s.bind(Bind::Text(operand_text(&p.value)));
            assert(s@.binds =~= before.binds + predicate_binds(p@));
            s
        },
    }
}

/// Appends a filter to a statement that ends in a `WHERE` condition.
pub fn push_filter(st: Statement, filter: &RowFilter, types: &[ColumnCast]) -> (r: Statement)
    ensures
        r@ == (StatementView {
            fetch: st@.fetch,
            sql: st@.sql + filter_sql(
                predicate_views(filter.predicates@),
                filter.combinator,
                cast_views(types@),
                st@.binds.len(),
            ),
            binds: st@.binds + filter_binds(predicate_views(filter.predicates@)),
        }),
        r@.fetch == st@.fetch,
{
    let ghost ps = predicate_views(filter.predicates@);
    let ghost before = st@;
    let ghost n = st@.binds.len();
    let ghost types_v = cast_views(types@);
    if filter.predicates.len() == 0 {
        assert(st@.sql + seq![] =~= st@.sql);
        assert(st@.binds + seq![] =~= st@.binds);
        return st;
    }
    let mut s = st;
    s.sql.append(" AND (");
    let ghost head = before.sql + " AND ("@;
    let mut i: usize = 0;
    assert(ps.take(0) =~= seq![]);
    assert(head + seq![] =~= head);
    assert(before.binds + seq![] =~= before.binds);
    while i < filter.predicates.len()
        invariant
            i <= filter.predicates.len(),
            ps == predicate_views(filter.predicates@),
            types_v == cast_views(types@),
            s@.fetch == before.fetch,
            s@.sql == head + joined_sql(ps.take(i as int), filter.combinator, types_v, n),
            s@.binds == before.binds + filter_binds(ps.take(i as int)),
            before.binds.len() == n,
        decreases filter.predicates.len() - i,
    {
        proof {
            assert(ps.take(i + 1).drop_last() =~= ps.take(i as int));
            assert(ps[i as int] == filter.predicates@[i as int]@);
        }
        let ghost joined = joined_sql(ps.take(i as int), filter.combinator, types_v, n);
        if i > 0 {
            s.sql.append(" ");
            s.sql.append(filter.combinator.as_sql());
            s.sql.append(" ");
        }
        let ghost so_far = s@.sql;
        s = push_predicate(s, &filter.predicates[i], types);
        proof {
            let p = ps[i as int];
            let text = predicate_sql(
                p.op,
                p.field,
                comparison_cast(types_v, p.field, p.value),
                n + filter_binds(ps.take(i as int)).len() + 1,
            );
            assert(s@.sql == so_far + text);
            if i > 0 {
                assert(s@.sql =~= head + (joined + " "@ + filter.combinator.symbol() + " "@
                    + text));
            } else {
                assert(joined =~= seq![]);
                assert(s@.sql =~= head + text);
            }
            assert(s@.binds =~= before.binds + filter_binds(ps.take(i + 1)));
        }
        i = i + 1;
    }
    s.sql.append(")");
    proof {
        assert(ps.take(i as int) =~= ps);
        assert(s@.sql =~= before.sql + filter_sql(ps, filter.combinator, types_v, n));
    }
    s
}

/// The text of a filter does not depend on the operands beyond the casts of
/// ordered comparisons: filters that differ only in operands for which the
/// casts agree have the same text.
pub proof fn law_operands_are_arguments(
    a: Seq<PredicateView>,
    b: Seq<PredicateView>,
    combinator: Combinator,
    types: Seq<CastView>,
    n: nat,
)
    requires
        a.len() == b.len(),
        forall|i: int|
            0 <= i < a.len() ==> (#[trigger] a[i]).field == b[i].field && a[i].op == b[i].op
                && comparison_cast(types, a[i].field, a[i].value) == comparison_cast(
                types,
                b[i].field,
                b[i].value,
            ),
    ensures
        filter_sql(a, combinator, types, n) == filter_sql(b, combinator, types, n),
        filter_binds(a).len() == filter_binds(b).len(),
{
    lemma_joined_same(a, b, combinator, types, n);
}

proof fn lemma_joined_same(
    a: Seq<PredicateView>,
    b: Seq<PredicateView>,
    combinator: Combinator,
    types: Seq<CastView>,
    n: nat,
)
    requires
        a.len() == b.len(),
        forall|i: int|
            0 <= i < a.len() ==> (#[trigger] a[i]).field == b[i].field && a[i].op == b[i].op
                && comparison_cast(types, a[i].field, a[i].value) == comparison_cast(
                types,
                b[i].field,
                b[i].value,
            ),
    ensures
        joined_sql(a, combinator, types, n) == joined_sql(b, combinator, types, n),
        filter_binds(a).len() == filter_binds(b).len(),
    decreases a.len(),
{
    if a.len() > 0 {
        assert forall|i: int| 0 <= i < a.drop_last().len() implies (#[trigger] a.drop_last()[i]).field
            == b.drop_last()[i].field && a.drop_last()[i].op == b.drop_last()[i].op
            && comparison_cast(types, a.drop_last()[i].field, a.drop_last()[i].value)
            == comparison_cast(types, b.drop_last()[i].field, b.drop_last()[i].value) by {
            assert(a[i].field == b[i].field);
        }
        lemma_joined_same(a.drop_last(), b.drop_last(), combinator, types, n);
        assert(a.last() == a[a.len() - 1]);
        assert(b.last() == b[b.len() - 1]);
        assert(a[a.len() - 1].field == b[b.len() - 1].field);
    }
}

/// The text of a sort order.
pub open spec fn sort_sql(
    field: Option<Seq<char>>,
    dir: SortDir,
    types: Seq<CastView>,
) -> Seq<char> {
    match field {
        Some(f) => {
            let cast = match declared_cast(types, f) {
                Some(c) => c,
                None => None,
            };
            match cast {
                Some(c) => "(data ->> '"@ + escaped_literal(f) + "')::"@ + c + " "@ + dir.symbol()
                    + " NULLS LAST"@ + ", id DESC"@,
                None => "(data ->> '"@ + escaped_literal(f) + "') "@ + dir.symbol()
                    + " NULLS LAST"@ + ", id DESC"@,
            }
        },
        None => "id DESC"@,
    }
}

/// Compiles a sort order.
pub fn sort_text(sort: &RowSort, types: &[ColumnCast]) -> (r: String)
    ensures
        r@ == sort_sql(opt_text(sort.field), sort.dir, cast_views(types@)),
{
    match &sort.field {
        Some(f) => {
            let fe = esc_lit(f.as_str());
            let cast: Option<String> = match find_cast(types, f.as_str()) {
                Some(c) => crate::statement::copy_opt_text(&c.cast),
                None => None,
            };
            let mut m = String::from_str("(data ->> '");
            m.append(fe.as_str());
            match cast {
                Some(c) => {
                    m.append("')::");
                    m.append(c.as_str());
                    m.append(" ");
                },
                None => {
                    m.append("') ");
                },
            }
            m.append(sort.dir.as_sql());
            m.append(" NULLS LAST");
            m.append(", id DESC");
            m
        },
        None => String::from_str("id DESC"),
    }
}

/// A row limit brought into the accepted range.
pub open spec fn clamped_limit(limit: i64) -> i64 {
    if limit < 1 {
        1
    } else if limit > MAX_AGG_SCAN {
        MAX_AGG_SCAN
    } else {
        limit
    }
}

/// A row offset that is not negative.
pub open spec fn clamped_offset(offset: i64) -> i64 {
    if offset < 0 {
        0
    } else {
        offset
    }
}

pub const COUNT_ROWS_SQL: &'static str = "SELECT COUNT(*) FROM data_table_rows WHERE table_id = ";

pub const SELECT_ROWS_SQL: &'static str = "SELECT id, data::text AS data_text, created_by, source, created_at, updated_at
         FROM data_table_rows WHERE table_id = ";

pub const DELETE_ROWS_SQL: &'static str = "DELETE FROM data_table_rows WHERE table_id = ";

pub const UPDATE_ROWS_SQL: &'static str = "UPDATE data_table_rows SET data = data || ";

/// Counts the rows of a table that pass a filter.
pub fn count_rows(table_id: i64, filter: &RowFilter, types: &[ColumnCast]) -> (st: Statement)
    ensures
        st@ == fetches_one(
            COUNT_ROWS_SQL@ + "$1"@ + filter_sql(
                predicate_views(filter.predicates@),
                filter.combinator,
                cast_views(types@),
                1,
            ),
            seq![BindView::BigInt(table_id)] + filter_binds(predicate_views(filter.predicates@)),
        ),
        opens(st@.sql, "SELECT COUNT(*) FROM data_table_rows"@),
        takes(st@, "WHERE table_id = "@, BindView::BigInt(table_id)),
{
    let mut s = Statement::one(COUNT_ROWS_SQL).int8(table_id);
    s.sql.append("$1");
    let ghost opening = s@.sql;
    let st = push_filter(s, filter, types);
    proof {
        count_rows_text();
        rows_of_table_text();
        lemma_within(COUNT_ROWS_SQL@ + "$1"@, seq![], COUNT_ROWS_SQL@, "$1"@);
        lemma_filter_starts(predicate_views(filter.predicates@), filter.combinator, cast_views(types@), 1);
        assert(opening =~= COUNT_ROWS_SQL@ + "$1"@);
        lemma_join(
            opening,
            filter_sql(predicate_views(filter.predicates@), filter.combinator, cast_views(types@), 1),
        );
        assert(mentions(st@.sql, "WHERE table_id = "@, 1));
        assert(opens(opening, "SELECT COUNT(*) FROM data_table_rows"@));
    }
    st
}

/// Selects rows of a table that pass a filter, in an order, by pages.
pub fn select_rows(
    table_id: i64,
    filter: &RowFilter,
    sort: &RowSort,
    limit: i64,
    offset: i64,
    types: &[ColumnCast],
) -> (st: Statement)
    ensures
        ({
            let ps = predicate_views(filter.predicates@);
            let n = filter_binds(ps).len();
            st@ == fetches_all(
                SELECT_ROWS_SQL@ + "$1"@ + filter_sql(
                    ps,
                    filter.combinator,
                    cast_views(types@),
                    1,
                ) + " ORDER BY "@ + sort_sql(opt_text(sort.field), sort.dir, cast_views(types@))
                    + " LIMIT "@ + placeholder(n + 2) + " OFFSET "@ + placeholder(n + 3),
                seq![BindView::BigInt(table_id)] + filter_binds(ps) + seq![
                    BindView::BigInt(clamped_limit(limit)),
                    BindView::BigInt(clamped_offset(offset)),
                ],
            )
        }),
        opens(st@.sql, "SELECT"@),
        says(st@.sql, "FROM data_table_rows WHERE table_id = "@),
        takes(st@, "WHERE table_id = "@, BindView::BigInt(table_id)),
        ({
            let n = filter_binds(predicate_views(filter.predicates@)).len();
            &&& says(st@.sql, " LIMIT "@ + placeholder(n + 2))
            &&& st@.binds[n as int + 1] == BindView::BigInt(clamped_limit(limit))
            &&& says(st@.sql, " OFFSET "@ + placeholder(n + 3))
            &&& st@.binds[n as int + 2] == BindView::BigInt(clamped_offset(offset))
        }),
{
    let mut s = Statement::all(SELECT_ROWS_SQL).int8(table_id);
    s.sql.append("$1");
    let ghost opening = s@.sql;
    let mut s = push_filter(s, filter, types);
    let ghost filtered = s@;
    s.sql.append(" ORDER BY ");
    s.sql.append(sort_text(sort, types).as_str());
    s.sql.append(" LIMIT ");
    let n: u128 = s.binds.len() as u128 + 1;
    let m: u128 = s.binds.len() as u128 + 2;
    let mut slot = String::from_str("$");
    slot.append(unsigned_decimal(n).as_str());
    s.sql.append(slot.as_str());
    s.sql.append(" OFFSET ");
    let mut next_slot = String::from_str("$");
    next_slot.append(unsigned_decimal(m).as_str());
    s.sql.append(next_slot.as_str());
    let l: i64 = if limit < 1 {
        1
    } else if limit > MAX_AGG_SCAN {
        MAX_AGG_SCAN
    } else {
        limit
    };
    let o: i64 = if offset < 0 {
        0
    } else {
        offset
    };
    assert(s@.binds == filtered.binds);
    let r = s.int8(l).int8(o);
    assert(r@.binds =~= filtered.binds + seq![BindView::BigInt(l), BindView::BigInt(o)]);
    proof {
        let ps = predicate_views(filter.predicates@);
        let size = filter_binds(ps).len();
        rows_of_table_text();
        lemma_filter_starts(ps, filter.combinator, cast_views(types@), 1);
        assert(opening =~= SELECT_ROWS_SQL@ + "$1"@);
        let limits = " LIMIT "@ + placeholder(size + 2);
        let offsets = " OFFSET "@ + placeholder(size + 3);
        let order = " ORDER BY "@ + sort_sql(opt_text(sort.field), sort.dir, cast_views(types@));
        let narrowed = filter_sql(ps, filter.combinator, cast_views(types@), 1);
        let rest = narrowed + order + limits + offsets;
        assert(r@.sql =~= opening + rest);
        reveal_strlit(" ORDER BY ");
        assert(rest[0] == (narrowed + order)[0]);
        lemma_join(opening, rest);
        assert(opens(opening, "SELECT"@));
        assert(mentions(r@.sql, "WHERE table_id = "@, 1));
        assert(says(r@.sql, "FROM data_table_rows WHERE table_id = "@));
        let before = opening + narrowed + order;
        assert(r@.sql =~= before + limits + offsets);
        assert(part_at(r@.sql, before.len() as int, limits));
        assert(part_at(r@.sql, (before + limits).len() as int, offsets));
    }
    r
}

/// Merges a JSON patch into the rows of a table that pass a filter.
pub fn update_rows(
    table_id: i64,
    filter: &RowFilter,
    patch_json: &str,
    types: &[ColumnCast],
) -> (st: Statement)
    ensures
        st@ == executes(
            UPDATE_ROWS_SQL@ + "$1"@ + "::jsonb, updated_at = now() WHERE table_id = "@ + "$2"@
                + filter_sql(
                predicate_views(filter.predicates@),
                filter.combinator,
                cast_views(types@),
                2,
            ),
            seq![BindView::Text(patch_json@), BindView::BigInt(table_id)] + filter_binds(
                predicate_views(filter.predicates@),
            ),
        ),
        opens(st@.sql, "UPDATE data_table_rows SET data = data || "@),
        takes(st@, "SET data = data || "@, BindView::Text(patch_json@)),
        takes(st@, "WHERE table_id = "@, BindView::BigInt(table_id)),
{
    let mut s = Statement::execute(UPDATE_ROWS_SQL).text(patch_json).int8(table_id);
    s.sql.append("$1");
    s.sql.append("::jsonb, updated_at = now() WHERE table_id = ");
    s.sql.append("$2");
    let ghost opening = s@.sql;
    let st = push_filter(s, filter, types);
    proof {
        rows_of_table_text();
        lemma_filter_starts(predicate_views(filter.predicates@), filter.combinator, cast_views(types@), 2);
        assert(opening =~= UPDATE_ROWS_SQL@ + "$1"@ + "::jsonb, updated_at = now() WHERE table_id = "@
            + "$2"@);
        lemma_join(
            opening,
            filter_sql(predicate_views(filter.predicates@), filter.combinator, cast_views(types@), 2),
        );
        assert(opens(opening, "UPDATE data_table_rows SET data = data || "@));
        assert(mentions(st@.sql, "SET data = data || "@, 1));
        assert(mentions(st@.sql, "WHERE table_id = "@, 2));
    }
    st
}

/// Deletes the rows of a table that pass a filter.
pub fn delete_rows(table_id: i64, filter: &RowFilter, types: &[ColumnCast]) -> (st: Statement)
    ensures
        st@ == executes(
            DELETE_ROWS_SQL@ + "$1"@ + filter_sql(
                predicate_views(filter.predicates@),
                filter.combinator,
                cast_views(types@),
                1,
            ),
            seq![BindView::BigInt(table_id)] + filter_binds(predicate_views(filter.predicates@)),
        ),
        opens(st@.sql, "DELETE FROM data_table_rows"@),
        takes(st@, "WHERE table_id = "@, BindView::BigInt(table_id)),
{
    let mut s = Statement::execute(DELETE_ROWS_SQL).int8(table_id);
    s.sql.append("$1");
    let ghost opening = s@.sql;
    let st = push_filter(s, filter, types);
    proof {
        delete_rows_text();
        rows_of_table_text();
        lemma_within(DELETE_ROWS_SQL@ + "$1"@, seq![], DELETE_ROWS_SQL@, "$1"@);
        lemma_filter_starts(predicate_views(filter.predicates@), filter.combinator, cast_views(types@), 1);
        assert(opening =~= DELETE_ROWS_SQL@ + "$1"@);
        lemma_join(
            opening,
            filter_sql(predicate_views(filter.predicates@), filter.combinator, cast_views(types@), 1),
        );
        assert(mentions(st@.sql, "WHERE table_id = "@, 1));
        assert(opens(opening, "DELETE FROM data_table_rows"@));
    }
    st
}

pub const INSERT_ROWS_SQL: &'static str = "INSERT INTO data_table_rows (table_id, data, created_by, source)
         SELECT $1, j::jsonb, $3, $4 FROM UNNEST($2::text[]) AS j
         RETURNING id";

/// Inserts row objects given as JSON text; none: nothing to send, and no id
/// comes back.
pub fn insert_rows(
    table_id: i64,
    rows_json: &[String],
    created_by: Option<&str>,
    source: Option<&str>,
) -> (r: Option<Statement>)
    ensures
        r is None <==> rows_json.len() == 0,
        r matches Some(st) ==> st@ == fetches_all(
            INSERT_ROWS_SQL@,
            seq![
                BindView::BigInt(table_id),
                BindView::TextArray(texts(rows_json@)),
                BindView::OptText(opt_str(created_by)),
                BindView::OptText(opt_str(source)),
            ],
        ),
        r matches Some(st) ==> opens(st@.sql, "INSERT INTO data_table_rows"@),
        r matches Some(st) ==> fills(
            st@,
            "INSERT INTO data_table_rows"@,
            "table_id"@,
            "SELECT "@,
            BindView::BigInt(table_id),
        ),
        r matches Some(st) ==> fills(
            st@,
            "INSERT INTO data_table_rows"@,
            "created_by"@,
            "SELECT "@,
            BindView::OptText(opt_str(created_by)),
        ),
        r matches Some(st) ==> fills(
            st@,
            "INSERT INTO data_table_rows"@,
            "source"@,
            "SELECT "@,
            BindView::OptText(opt_str(source)),
        ),
        r matches Some(st) ==> takes(st@, "UNNEST("@, BindView::TextArray(texts(rows_json@))),
        r matches Some(st) ==> says(st@.sql, "FROM UNNEST"@),
{
    proof {
        insert_rows_text();
    }
    if rows_json.len() == 0 {
        return None;
    }
    let st = Statement::all(INSERT_ROWS_SQL)
            .int8(table_id)
            .texts(rows_json)
            .opt_text(created_by)
            .opt_text(source);
    assert(st@.sql == INSERT_ROWS_SQL@);
    Some(st)
}

/// A query over the table columns: `SELECT`, the columns, and a tail.
pub open spec fn table_query(tail: Seq<char>) -> Seq<char> {
    "SELECT "@ + TABLE_COLS@ + tail
}

fn table_query_text(tail: &str) -> (r: String)
    ensures
        r@ == table_query(tail@),
{
    let mut m = String::from_str("SELECT ");
    m.append(TABLE_COLS);
    m.append(tail);
    m
}

pub const GET_TABLE_TAIL: &'static str = " FROM data_tables WHERE id = $1";

pub const GET_TABLE_BY_NAME_TAIL: &'static str = " FROM data_tables
         WHERE name = $1 AND project_id IS NOT DISTINCT FROM $2";

pub const LIST_COLUMNS_TAIL: &'static str =
    " FROM data_table_columns WHERE table_id = $1 ORDER BY position, id";

pub const SEARCH_TABLES_TAIL: &'static str = ", 1.0 - (embedding <=> $1) AS similarity
         FROM data_tables
         WHERE embedding IS NOT NULL AND ($2::int IS NULL OR project_id = $2)
         ORDER BY embedding <=> $1
         LIMIT $3";

/// A table definition by id.
pub fn get_table(id: i64) -> (st: Statement)
    ensures
        st@ == fetches_optional(table_query(GET_TABLE_TAIL@), seq![BindView::BigInt(id)]),
        takes(st@, "data_tables WHERE id = "@, BindView::BigInt(id)),
        says(st@.sql, "FROM data_tables"@),
{
    let st = Statement::optional(table_query_text(GET_TABLE_TAIL).as_str()).int8(id);
    proof {
        table_cols_text();
        get_table_tail_text();
        assert(st@.sql =~= ("SELECT "@ + TABLE_COLS@) + GET_TABLE_TAIL@);
        lemma_within(st@.sql, "SELECT "@ + TABLE_COLS@, GET_TABLE_TAIL@, seq![]);
    }
    st
}

/// A table definition by name within a scope; no project is the global scope.
pub fn get_table_by_name(project_id: Option<i32>, name: &str) -> (st: Statement)
    ensures
        st@ == fetches_optional(
            table_query(GET_TABLE_BY_NAME_TAIL@),
            seq![BindView::Text(name@), BindView::OptInt(project_id)],
        ),
        takes(st@, "name = "@, BindView::Text(name@)),
        takes(st@, "project_id IS NOT DISTINCT FROM "@, BindView::OptInt(project_id)),
        says(st@.sql, "FROM data_tables"@),
{
    let st = Statement::optional(table_query_text(GET_TABLE_BY_NAME_TAIL).as_str())
        .text(name)
        .opt_int4(project_id);
    proof {
        table_cols_text();
        get_table_by_name_tail_text();
        assert(st@.sql =~= ("SELECT "@ + TABLE_COLS@) + GET_TABLE_BY_NAME_TAIL@);
        lemma_within(st@.sql, "SELECT "@ + TABLE_COLS@, GET_TABLE_BY_NAME_TAIL@, seq![]);
    }
    st
}

/// The columns of a table, in their order.
pub fn list_columns(table_id: i64) -> (st: Statement)
    ensures
        st@ == fetches_all(
            "SELECT "@ + COLUMN_COLS@ + LIST_COLUMNS_TAIL@,
            seq![BindView::BigInt(table_id)],
        ),
        takes(st@, "table_id = "@, BindView::BigInt(table_id)),
        says(st@.sql, "ORDER BY position, id"@),
        says(st@.sql, "FROM data_table_columns"@),
{
    let mut m = String::from_str("SELECT ");
    m.append(COLUMN_COLS);
    m.append(LIST_COLUMNS_TAIL);
    let st = Statement::all(m.as_str()).int8(table_id);
    proof {
        column_cols_text();
        list_columns_tail_text();
        assert(st@.sql =~= ("SELECT "@ + COLUMN_COLS@) + LIST_COLUMNS_TAIL@);
        lemma_within(st@.sql, "SELECT "@ + COLUMN_COLS@, LIST_COLUMNS_TAIL@, seq![]);
    }
    st
}

/// Tables by similarity of their description to a query. The caller supplies
/// value 0, the query's embedding.
pub fn search_tables(project_id: Option<i32>, limit: i64) -> (st: Statement)
    ensures
        st@ == fetches_all(
            table_query(SEARCH_TABLES_TAIL@),
            seq![BindView::Supplied(0), BindView::OptInt(project_id), BindView::BigInt(limit)],
        ),
        takes(st@, "embedding <=> "@, BindView::Supplied(0)),
        takes(st@, "project_id = "@, BindView::OptInt(project_id)),
        takes(st@, "LIMIT "@, BindView::BigInt(limit)),
        says(st@.sql, "FROM data_tables"@),
{
    let st = Statement::all(table_query_text(SEARCH_TABLES_TAIL).as_str())
        .supplied(0)
        .opt_int4(project_id)
        .int8(limit);
    proof {
        table_cols_text();
        search_tables_tail_text();
        assert(st@.sql =~= ("SELECT "@ + TABLE_COLS@) + SEARCH_TABLES_TAIL@);
        lemma_within(st@.sql, "SELECT "@ + TABLE_COLS@, SEARCH_TABLES_TAIL@, seq![]);
    }
    st
}

pub const SET_TABLE_EMBEDDING_SQL: &'static str = "UPDATE data_tables SET embedding = $2, embedding_signature = $3, updated_at = now()
         WHERE id = $1";

/// Stores the embedding of a table's description. The caller supplies value
/// 0, the embedding.
pub fn set_table_embedding(id: i64, signature: &str) -> (st: Statement)
    ensures
        st@ == executes(
            SET_TABLE_EMBEDDING_SQL@,
            seq![BindView::BigInt(id), BindView::Supplied(0), BindView::Text(signature@)],
        ),
        opens(st@.sql, "UPDATE data_tables"@),
        takes(st@, "WHERE id = "@, BindView::BigInt(id)),
        takes(st@, "embedding = "@, BindView::Supplied(0)),
        takes(st@, "embedding_signature = "@, BindView::Text(signature@)),
{
    proof {
        set_table_embedding_text();
    }
    let st = Statement::execute(SET_TABLE_EMBEDDING_SQL).int8(id).supplied(0).text(signature);
    assert(st@.sql == SET_TABLE_EMBEDDING_SQL@);
    st
}

pub const CREATE_TABLE_SQL: &'static str = "INSERT INTO data_tables (project_id, name, description, schema_mode, created_by)
         VALUES ($1, $2, $3, $4, $5) RETURNING id";

/// Creates a table definition and returns its id.
pub fn create_table(
    project_id: Option<i32>,
    name: &str,
    description: Option<&str>,
    schema_mode: &str,
    created_by: Option<&str>,
) -> (st: Statement)
    ensures
        st@ == fetches_one(
            CREATE_TABLE_SQL@,
            seq![
                BindView::OptInt(project_id),
                BindView::Text(name@),
                BindView::OptText(opt_str(description)),
                BindView::Text(schema_mode@),
                BindView::OptText(opt_str(created_by)),
            ],
        ),
        opens(st@.sql, "INSERT INTO data_tables"@),
        fills(
            st@,
            "INSERT INTO data_tables"@,
            "project_id"@,
            "VALUES ("@,
            BindView::OptInt(project_id),
        ),
        fills(st@, "INSERT INTO data_tables"@, "name"@, "VALUES ("@, BindView::Text(name@)),
        fills(
            st@,
            "INSERT INTO data_tables"@,
            "description"@,
            "VALUES ("@,
            BindView::OptText(opt_str(description)),
        ),
        fills(
            st@,
            "INSERT INTO data_tables"@,
            "schema_mode"@,
            "VALUES ("@,
            BindView::Text(schema_mode@),
        ),
        fills(
            st@,
            "INSERT INTO data_tables"@,
            "created_by"@,
            "VALUES ("@,
            BindView::OptText(opt_str(created_by)),
        ),
{
    proof {
        create_table_text();
    }
    let st = Statement::one(CREATE_TABLE_SQL)
        .opt_int4(project_id)
        .text(name)
        .opt_text(description)
        .text(schema_mode)
        .opt_text(created_by);
    assert(st@.sql == CREATE_TABLE_SQL@);
    st
}

pub const LIST_TABLES_SQL: &'static str = "SELECT t.id, t.project_id, t.name, t.description, t.schema_mode, t.created_by,
                t.created_at, t.updated_at,
                (SELECT COUNT(*) FROM data_table_rows r WHERE r.table_id = t.id) AS row_count,
                (SELECT COUNT(*) FROM data_table_columns c WHERE c.table_id = t.id) AS column_count
         FROM data_tables t
         WHERE ($1::int IS NULL OR t.project_id = $1)
         ORDER BY t.name
         LIMIT $2";

/// List tables (with child counts), optionally scoped to a project (`project_id
/// = None` lists every table across all scopes).
pub fn list_tables(project_id: Option<i32>, limit: i64) -> (st: Statement)
    ensures
        st@ == fetches_all(
            LIST_TABLES_SQL@,
            seq![
                BindView::OptInt(project_id),
                BindView::BigInt(limit),
            ],
        ),
        opens(st@.sql, "SELECT"@),
        takes(st@, "t.project_id = "@, BindView::OptInt(project_id)),
        takes(st@, "LIMIT "@, BindView::BigInt(limit)),
        says(st@.sql, "ORDER BY t.name"@),
        says(st@.sql, "FROM data_table_rows"@),
{
    proof {
        list_tables_text();
    }
    let st = Statement::all(LIST_TABLES_SQL).opt_int4(project_id).int8(limit);
    assert(st@.sql == LIST_TABLES_SQL@);
    st
}

pub const UPDATE_TABLE_META_SQL: &'static str = "UPDATE data_tables
         SET name = COALESCE($2, name),
             description = COALESCE($3, description),
             updated_at = now()
         WHERE id = $1";

/// Update the description and/or rename the table (COALESCE — `None` leaves a
/// field unchanged). Bumps `updated_at`.
pub fn update_table_meta(
    id: i64,
    new_name: Option<&str>,
    description: Option<&str>,
) -> (st: Statement)
    ensures
        st@ == executes(
            UPDATE_TABLE_META_SQL@,
            seq![
                BindView::BigInt(id),
                BindView::OptText(opt_str(new_name)),
                BindView::OptText(opt_str(description)),
            ],
        ),
        opens(st@.sql, "UPDATE data_tables"@),
        takes(st@, "WHERE id = "@, BindView::BigInt(id)),
        takes(st@, "COALESCE("@, BindView::OptText(opt_str(new_name))),
        takes(st@, "COALESCE("@, BindView::OptText(opt_str(description))),
{
    proof {
        update_table_meta_text();
    }
    let st = Statement::execute(UPDATE_TABLE_META_SQL)
        .int8(id)
        .opt_text(new_name)
        .opt_text(description);
    assert(st@.sql == UPDATE_TABLE_META_SQL@);
    st
}

pub const SET_SCHEMA_MODE_SQL: &'static str =
    "UPDATE data_tables SET schema_mode = $2, updated_at = now() WHERE id = $1";

/// Sets how strictly rows are checked against the columns.
pub fn set_schema_mode(id: i64, mode: &str) -> (st: Statement)
    ensures
        st@ == executes(SET_SCHEMA_MODE_SQL@, seq![BindView::BigInt(id), BindView::Text(mode@)]),
        opens(st@.sql, "UPDATE data_tables"@),
        takes(st@, "now() WHERE id = "@, BindView::BigInt(id)),
        takes(st@, "schema_mode = "@, BindView::Text(mode@)),
{
    proof {
        set_schema_mode_text();
    }
    let st = Statement::execute(SET_SCHEMA_MODE_SQL).int8(id).text(mode);
    assert(st@.sql == SET_SCHEMA_MODE_SQL@);
    st
}

pub const DELETE_TABLE_SQL: &'static str = "DELETE FROM data_tables WHERE id = $1";

/// Deletes a table with its columns and rows.
pub fn delete_table(id: i64) -> (st: Statement)
    ensures
        st@ == executes(DELETE_TABLE_SQL@, seq![BindView::BigInt(id)]),
        opens(st@.sql, "DELETE FROM data_tables"@),
        takes(st@, "data_tables WHERE id = "@, BindView::BigInt(id)),
{
    proof {
        delete_table_text();
    }
    let st = Statement::execute(DELETE_TABLE_SQL).int8(id);
    assert(st@.sql == DELETE_TABLE_SQL@);
    st
}

pub const ADD_COLUMN_SQL: &'static str = "INSERT INTO data_table_columns
            (table_id, name, data_type, required, default_json, position, description)
         VALUES ($1, $2, $3, $4, $5, $6, $7) RETURNING id";

/// Adds a column definition and returns its id.
pub fn add_column(
    table_id: i64,
    name: &str,
    data_type: &str,
    required: bool,
    default_json: Option<&str>,
    position: i32,
    description: Option<&str>,
) -> (st: Statement)
    ensures
        st@ == fetches_one(
            ADD_COLUMN_SQL@,
            seq![
                BindView::BigInt(table_id),
                BindView::Text(name@),
                BindView::Text(data_type@),
                BindView::Bool(required),
                BindView::OptText(opt_str(default_json)),
                BindView::Int(position),
                BindView::OptText(opt_str(description)),
            ],
        ),
        opens(st@.sql, "INSERT INTO data_table_columns"@),
        fills(
            st@,
            "INSERT INTO data_table_columns"@,
            "table_id"@,
            "VALUES ("@,
            BindView::BigInt(table_id),
        ),
        fills(st@, "INSERT INTO data_table_columns"@, "name"@, "VALUES ("@, BindView::Text(name@)),
        fills(
            st@,
            "INSERT INTO data_table_columns"@,
            "data_type"@,
            "VALUES ("@,
            BindView::Text(data_type@),
        ),
        fills(
            st@,
            "INSERT INTO data_table_columns"@,
            "required"@,
            "VALUES ("@,
            BindView::Bool(required),
        ),
        fills(
            st@,
            "INSERT INTO data_table_columns"@,
            "default_json"@,
            "VALUES ("@,
            BindView::OptText(opt_str(default_json)),
        ),
        fills(
            st@,
            "INSERT INTO data_table_columns"@,
            "position"@,
            "VALUES ("@,
            BindView::Int(position),
        ),
        fills(
            st@,
            "INSERT INTO data_table_columns"@,
            "description"@,
            "VALUES ("@,
            BindView::OptText(opt_str(description)),
        ),
{
    proof {
        add_column_text();
    }
    let st = Statement::one(ADD_COLUMN_SQL)
        .int8(table_id)
        .text(name)
        .text(data_type)
        .flag(required)
        .opt_text(default_json)
        .int4(position)
        .opt_text(description);
    assert(st@.sql == ADD_COLUMN_SQL@);
    st
}

pub const DROP_COLUMN_SQL: &'static str =
    "DELETE FROM data_table_columns WHERE table_id = $1 AND name = $2";

/// Removes a column definition.
pub fn drop_column(table_id: i64, name: &str) -> (st: Statement)
    ensures
        st@ == executes(DROP_COLUMN_SQL@, seq![BindView::BigInt(table_id), BindView::Text(name@)]),
        opens(st@.sql, "DELETE FROM data_table_columns"@),
        takes(st@, "table_id = "@, BindView::BigInt(table_id)),
        takes(st@, "name = "@, BindView::Text(name@)),
{
    proof {
        drop_column_text();
    }
    let st = Statement::execute(DROP_COLUMN_SQL).int8(table_id).text(name);
    assert(st@.sql == DROP_COLUMN_SQL@);
    st
}

pub const UPDATE_COLUMN_SQL: &'static str = "UPDATE data_table_columns
         SET required = COALESCE($3, required),
             default_json = CASE WHEN $4 THEN $5 ELSE default_json END
         WHERE table_id = $1 AND name = $2";

/// Update a column's `required` flag (COALESCE) and/or its default. When
/// `set_default` is true the default is replaced with `default_json` (which may
/// be `None` to clear it); otherwise the default is left unchanged.
pub fn update_column(
    table_id: i64,
    name: &str,
    required: Option<bool>,
    set_default: bool,
    default_json: Option<&str>,
) -> (st: Statement)
    ensures
        st@ == executes(
            UPDATE_COLUMN_SQL@,
            seq![
                BindView::BigInt(table_id),
                BindView::Text(name@),
                BindView::OptBool(required),
                BindView::Bool(set_default),
                BindView::OptText(opt_str(default_json)),
            ],
        ),
        opens(st@.sql, "UPDATE data_table_columns"@),
        takes(st@, "table_id = "@, BindView::BigInt(table_id)),
        takes(st@, "name = "@, BindView::Text(name@)),
        takes(st@, "COALESCE("@, BindView::OptBool(required)),
        takes(st@, "CASE WHEN "@, BindView::Bool(set_default)),
        takes(st@, "$4 THEN "@, BindView::OptText(opt_str(default_json))),
{
    proof {
        update_column_text();
    }
    let st = Statement::execute(UPDATE_COLUMN_SQL)
        .int8(table_id)
        .text(name)
        .opt_flag(required)
        .flag(set_default)
        .opt_text(default_json);
    assert(st@.sql == UPDATE_COLUMN_SQL@);
    st
}

pub const RENAME_COLUMN_SQL: &'static str =
    "UPDATE data_table_columns SET name = $3 WHERE table_id = $1 AND name = $2";

/// Renames a column definition.
pub fn rename_column(table_id: i64, old: &str, new: &str) -> (st: Statement)
    ensures
        st@ == executes(
            RENAME_COLUMN_SQL@,
            seq![
                BindView::BigInt(table_id),
                BindView::Text(old@),
                BindView::Text(new@),
            ],
        ),
        opens(st@.sql, "UPDATE data_table_columns"@),
        takes(st@, "table_id = "@, BindView::BigInt(table_id)),
        takes(st@, "name = "@, BindView::Text(old@)),
        takes(st@, "name = "@, BindView::Text(new@)),
{
    proof {
        rename_column_text();
    }
    let st = Statement::execute(RENAME_COLUMN_SQL).int8(table_id).text(old).text(new);
    assert(st@.sql == RENAME_COLUMN_SQL@);
    st
}

pub const RENAME_ROW_KEY_SQL: &'static str = "UPDATE data_table_rows
         SET data = (data - $2) || jsonb_build_object($3, data -> $2), updated_at = now()
         WHERE table_id = $1 AND data ? $2";

/// Rename a JSON key inside every row that carries it (so existing rows match a
/// renamed strict-table column). Both keys are bound.
pub fn rename_row_key(table_id: i64, old: &str, new: &str) -> (st: Statement)
    ensures
        st@ == executes(
            RENAME_ROW_KEY_SQL@,
            seq![
                BindView::BigInt(table_id),
                BindView::Text(old@),
                BindView::Text(new@),
            ],
        ),
        opens(st@.sql, "UPDATE data_table_rows"@),
        takes(st@, "table_id = "@, BindView::BigInt(table_id)),
        takes(st@, "data - "@, BindView::Text(old@)),
        takes(st@, "jsonb_build_object("@, BindView::Text(new@)),
{
    proof {
        rename_row_key_text();
    }
    let st = Statement::execute(RENAME_ROW_KEY_SQL).int8(table_id).text(old).text(new);
    assert(st@.sql == RENAME_ROW_KEY_SQL@);
    st
}

pub const GET_ROW_SQL: &'static str = "SELECT id, data::text AS data_text, created_by, source, created_at, updated_at
         FROM data_table_rows WHERE table_id = $1 AND id = $2";

/// One row of a table.
pub fn get_row(table_id: i64, row_id: i64) -> (st: Statement)
    ensures
        st@ == fetches_optional(
            GET_ROW_SQL@,
            seq![
                BindView::BigInt(table_id),
                BindView::BigInt(row_id),
            ],
        ),
        opens(st@.sql, "SELECT"@),
        takes(st@, "table_id = "@, BindView::BigInt(table_id)),
        takes(st@, "$1 AND id = "@, BindView::BigInt(row_id)),
        says(st@.sql, "FROM data_table_rows"@),
{
    proof {
        get_row_text();
    }
    let st = Statement::optional(GET_ROW_SQL).int8(table_id).int8(row_id);
    assert(st@.sql == GET_ROW_SQL@);
    st
}

pub const UPDATE_ROW_BY_ID_SQL: &'static str = "UPDATE data_table_rows SET data = data || $3::jsonb, updated_at = now()
         WHERE table_id = $1 AND id = $2";

/// Merges a JSON patch into one row.
pub fn update_row_by_id(table_id: i64, row_id: i64, patch_json: &str) -> (st: Statement)
    ensures
        st@ == executes(
            UPDATE_ROW_BY_ID_SQL@,
            seq![
                BindView::BigInt(table_id),
                BindView::BigInt(row_id),
                BindView::Text(patch_json@),
            ],
        ),
        opens(st@.sql, "UPDATE data_table_rows"@),
        takes(st@, "table_id = "@, BindView::BigInt(table_id)),
        takes(st@, "$1 AND id = "@, BindView::BigInt(row_id)),
        takes(st@, "data || "@, BindView::Text(patch_json@)),
{
    proof {
        update_row_by_id_text();
    }
    let st = Statement::execute(UPDATE_ROW_BY_ID_SQL).int8(table_id).int8(row_id).text(patch_json);
    assert(st@.sql == UPDATE_ROW_BY_ID_SQL@);
    st
}

pub const DELETE_ROW_BY_ID_SQL: &'static str =
    "DELETE FROM data_table_rows WHERE table_id = $1 AND id = $2";

/// Deletes one row.
pub fn delete_row_by_id(table_id: i64, row_id: i64) -> (st: Statement)
    ensures
        st@ == executes(
            DELETE_ROW_BY_ID_SQL@,
            seq![
                BindView::BigInt(table_id),
                BindView::BigInt(row_id),
            ],
        ),
        opens(st@.sql, "DELETE FROM data_table_rows"@),
        takes(st@, "table_id = "@, BindView::BigInt(table_id)),
        takes(st@, "$1 AND id = "@, BindView::BigInt(row_id)),
{
    proof {
        delete_row_by_id_text();
    }
    let st = Statement::execute(DELETE_ROW_BY_ID_SQL).int8(table_id).int8(row_id);
    assert(st@.sql == DELETE_ROW_BY_ID_SQL@);
    st
}

} // verus!
