//! SQL statements with their positional arguments, and the values that pass
//! between a multi-statement protocol and the database.
use vstd::prelude::*;

verus! {

/// How the answer to a statement is read.
#[derive(Debug, Clone, Copy, PartialEq, Eq, Structural)]
pub enum Fetch {
    /// Run it and count the rows it touched.
    Execute,
    /// Exactly one row.
    One,
    /// At most one row.
    Optional,
    /// Every row.
    All,
}

/// One positional argument of a statement.
#[derive(Debug)]
pub enum Bind {
    Int(i32),
    BigInt(i64),
    Bool(bool),
    Text(String),
    OptInt(Option<i32>),
    OptBigInt(Option<i64>),
    OptBool(Option<bool>),
    OptText(Option<String>),
    IntArray(Vec<i32>),
    BigIntArray(Vec<i64>),
    BoolArray(Vec<bool>),
    TextArray(Vec<String>),
    OptBigIntArray(Vec<Option<i64>>),
    OptTextArray(Vec<Option<String>>),
    MaybeTextArray(Option<Vec<String>>),
    MaybeIntArray(Option<Vec<i32>>),
    /// The value with this number among those that the caller holds beside
    /// the plan and the plan does not read: an embedding, a timestamp, a
    /// floating-point number, a JSON document, a UUID.
    Supplied(u8),
}

/// A positional argument as a mathematical value.
pub enum BindView {
    Int(i32),
    BigInt(i64),
    Bool(bool),
    Text(Seq<char>),
    OptInt(Option<i32>),
    OptBigInt(Option<i64>),
    OptBool(Option<bool>),
    OptText(Option<Seq<char>>),
    IntArray(Seq<i32>),
    BigIntArray(Seq<i64>),
    BoolArray(Seq<bool>),
    TextArray(Seq<Seq<char>>),
    OptBigIntArray(Seq<Option<i64>>),
    OptTextArray(Seq<Option<Seq<char>>>),
    MaybeTextArray(Option<Seq<Seq<char>>>),
    MaybeIntArray(Option<Seq<i32>>),
    Supplied(u8),
}

/// The texts in a list of strings.
pub open spec fn texts(v: Seq<String>) -> Seq<Seq<char>> {
    v.map_values(|s: String| s@)
}

/// The texts in a list of string slices.
pub open spec fn str_texts(v: Seq<&str>) -> Seq<Seq<char>> {
    v.map_values(|s: &str| s@)
}

/// The text in an optional string.
pub open spec fn opt_text(s: Option<String>) -> Option<Seq<char>> {
    match s {
        Some(t) => Some(t@),
        None => None,
    }
}

/// The text in an optional string slice.
pub open spec fn opt_str(s: Option<&str>) -> Option<Seq<char>> {
    match s {
        Some(t) => Some(t@),
        None => None,
    }
}

/// The texts in a list of optional strings.
pub open spec fn opt_texts(v: Seq<Option<String>>) -> Seq<Option<Seq<char>>> {
    v.map_values(|s: Option<String>| opt_text(s))
}

impl View for Bind {
    type V = BindView;

    open spec fn view(&self) -> BindView {
        match *self {
            Bind::Int(n) => BindView::Int(n),
            Bind::BigInt(n) => BindView::BigInt(n),
            Bind::Bool(b) => BindView::Bool(b),
            Bind::Text(s) => BindView::Text(s@),
            Bind::OptInt(n) => BindView::OptInt(n),
            Bind::OptBigInt(n) => BindView::OptBigInt(n),
            Bind::OptBool(b) => BindView::OptBool(b),
            Bind::OptText(s) => BindView::OptText(opt_text(s)),
            Bind::IntArray(v) => BindView::IntArray(v@),
            Bind::BigIntArray(v) => BindView::BigIntArray(v@),
            Bind::BoolArray(v) => BindView::BoolArray(v@),
            Bind::TextArray(v) => BindView::TextArray(texts(v@)),
            Bind::OptBigIntArray(v) => BindView::OptBigIntArray(v@),
            Bind::OptTextArray(v) => BindView::OptTextArray(opt_texts(v@)),
            Bind::MaybeTextArray(v) => BindView::MaybeTextArray(
                match v {
                    Some(w) => Some(texts(w@)),
                    None => None,
                },
            ),
            Bind::MaybeIntArray(v) => BindView::MaybeIntArray(
                match v {
                    Some(w) => Some(w@),
                    None => None,
                },
            ),
            Bind::Supplied(n) => BindView::Supplied(n),
        }
    }
}

/// One SQL statement: its text, its arguments in the order of `$1`, `$2`, ...
/// and how its answer is read.
#[derive(Debug)]
pub struct Statement {
    pub fetch: Fetch,
    pub sql: String,
    pub binds: Vec<Bind>,
}

/// A statement as a mathematical value.
#[verifier::ext_equal]
pub struct StatementView {
    pub fetch: Fetch,
    pub sql: Seq<char>,
    pub binds: Seq<BindView>,
}

/// The values of a list of arguments.
pub open spec fn bind_views(v: Seq<Bind>) -> Seq<BindView> {
    v.map_values(|b: Bind| b@)
}

impl View for Statement {
    type V = StatementView;

    open spec fn view(&self) -> StatementView {
        StatementView { fetch: self.fetch, sql: self.sql@, binds: bind_views(self.binds@) }
    }
}

/// Every field of the model stands for the field of the same name.
pub proof fn law_statement_is_modelled_by_its_fields(statement: Statement)
    ensures
        statement@.fetch == statement.fetch,
        statement@.sql == statement.sql@,
        statement@.binds == bind_views(statement.binds@),
{
}

/// A statement that is run for its effect.
pub open spec fn executes(sql: Seq<char>, binds: Seq<BindView>) -> StatementView {
    StatementView { fetch: Fetch::Execute, sql, binds }
}

/// A statement that answers with exactly one row.
pub open spec fn fetches_one(sql: Seq<char>, binds: Seq<BindView>) -> StatementView {
    StatementView { fetch: Fetch::One, sql, binds }
}

/// A statement that answers with at most one row.
pub open spec fn fetches_optional(sql: Seq<char>, binds: Seq<BindView>) -> StatementView {
    StatementView { fetch: Fetch::Optional, sql, binds }
}

/// A statement whose rows are all read.
pub open spec fn fetches_all(sql: Seq<char>, binds: Seq<BindView>) -> StatementView {
    StatementView { fetch: Fetch::All, sql, binds }
}

/// Copies a list of strings.
pub fn copy_texts(v: &[String]) -> (r: Vec<String>)
    ensures
        texts(r@) == texts(v@),
        r.len() == v.len(),
{
    let mut out: Vec<String> = Vec::new();
    let mut i: usize = 0;
    while i < v.len()
        invariant
            i <= v.len(),
            out.len() == i,
            forall|j: int| 0 <= j < i ==> out@[j]@ == v@[j]@,
        decreases v.len() - i,
    {
        out.push(v[i].clone());
        i = i + 1;
    }
    assert(texts(out@) =~= texts(v@));
    out
}

/// Copies an optional string.
pub fn copy_opt_text(s: &Option<String>) -> (r: Option<String>)
    ensures
        opt_text(r) == opt_text(*s),
{
    match s {
        Some(t) => Some(t.clone()),
        None => None,
    }
}

/// An optional string as an optional slice.
pub fn opt_as_str(s: &Option<String>) -> (r: Option<&str>)
    ensures
        opt_str(r) == opt_text(*s),
{
    match s {
        Some(t) => Some(t.as_str()),
        None => None,
    }
}

/// The texts in an optional list of strings.
pub open spec fn opt_list(v: Option<&[String]>) -> Option<Seq<Seq<char>>> {
    match v {
        Some(w) => Some(texts(w@)),
        None => None,
    }
}

/// The numbers in an optional list.
pub open spec fn opt_numbers(v: Option<&[i32]>) -> Option<Seq<i32>> {
    match v {
        Some(w) => Some(w@),
        None => None,
    }
}

/// Copies a list of small numbers.
pub fn copy_numbers(v: &[i32]) -> (r: Vec<i32>)
    ensures
        r@ == v@,
{
    let mut out: Vec<i32> = Vec::new();
    let mut i: usize = 0;
    while i < v.len()
        invariant
            i <= v.len(),
            out@ == v@.take(i as int),
        decreases v.len() - i,
    {
        out.push(v[i]);
        i = i + 1;
        assert(v@.take(i as int) =~= v@.take(i - 1).push(v@[i - 1]));
    }
    assert(v@.take(i as int) =~= v@);
    out
}

/// Copies a list of texts.
pub fn copy_strs(v: &[&str]) -> (r: Vec<String>)
    ensures
        texts(r@) == str_texts(v@),
{
    let mut out: Vec<String> = Vec::new();
    let mut i: usize = 0;
    while i < v.len()
        invariant
            i <= v.len(),
            out.len() == i,
            forall|j: int| 0 <= j < i ==> (#[trigger] out@[j])@ == v@[j]@,
        decreases v.len() - i,
    {
        out.push(String::from_str(v[i]));
        i = i + 1;
    }
    assert(texts(out@) =~= str_texts(v@));
    out
}

/// Copies a list of numbers.
pub fn copy_ids(v: &[i64]) -> (r: Vec<i64>)
    ensures
        r@ == v@,
{
    let mut out: Vec<i64> = Vec::new();
    let mut i: usize = 0;
    while i < v.len()
        invariant
            i <= v.len(),
            out@ == v@.take(i as int),
        decreases v.len() - i,
    {
        out.push(v[i]);
        i = i + 1;
        assert(v@.take(i as int) =~= v@.take(i - 1).push(v@[i - 1]));
    }
    assert(v@.take(i as int) =~= v@);
    out
}

impl Statement {
    fn start(fetch: Fetch, sql: String) -> (r: Statement)
        ensures
            r@ == (StatementView { fetch, sql: sql@, binds: seq![] }),
    {
        let r = Statement { fetch, sql, binds: Vec::new() };
        assert(bind_views(r.binds@) =~= seq![]);
        r
    }

    /// A statement to run for its effect.
    pub fn execute(sql: &str) -> (r: Statement)
        ensures
            r@ == executes(sql@, seq![]),
    {
        Statement::start(Fetch::Execute, String::from_str(sql))
    }

    /// A statement that answers with exactly one row.
    pub fn one(sql: &str) -> (r: Statement)
        ensures
            r@ == fetches_one(sql@, seq![]),
    {
        Statement::start(Fetch::One, String::from_str(sql))
    }

    /// A statement that answers with at most one row.
    pub fn optional(sql: &str) -> (r: Statement)
        ensures
            r@ == fetches_optional(sql@, seq![]),
    {
        Statement::start(Fetch::Optional, String::from_str(sql))
    }

    /// A statement whose rows are all read.
    pub fn all(sql: &str) -> (r: Statement)
        ensures
            r@ == fetches_all(sql@, seq![]),
    {
        Statement::start(Fetch::All, String::from_str(sql))
    }

    /// Appends an argument.
    pub fn bind(self, b: Bind) -> (r: Statement)
        ensures
            r@ == (StatementView {
                fetch: self@.fetch,
                sql: self@.sql,
                binds: self@.binds.push(b@),
            }),
    {
        let mut s = self;
        s.binds.push(b);
        assert(bind_views(s.binds@) =~= bind_views(self.binds@).push(b@));
        s
    }

    pub fn int4(self, n: i32) -> (r: Statement)
        ensures
            r@ == (StatementView { binds: self@.binds.push(BindView::Int(n)), ..self@ }),
    {
        self.bind(Bind::Int(n))
    }

    pub fn int8(self, n: i64) -> (r: Statement)
        ensures
            r@ == (StatementView { binds: self@.binds.push(BindView::BigInt(n)), ..self@ }),
    {
        self.bind(Bind::BigInt(n))
    }

    pub fn flag(self, b: bool) -> (r: Statement)
        ensures
            r@ == (StatementView { binds: self@.binds.push(BindView::Bool(b)), ..self@ }),
    {
        self.bind(Bind::Bool(b))
    }

    pub fn text(self, s: &str) -> (r: Statement)
        ensures
            r@ == (StatementView { binds: self@.binds.push(BindView::Text(s@)), ..self@ }),
    {
        self.bind(Bind::Text(String::from_str(s)))
    }

    pub fn opt_int4(self, n: Option<i32>) -> (r: Statement)
        ensures
            r@ == (StatementView { binds: self@.binds.push(BindView::OptInt(n)), ..self@ }),
    {
        self.bind(Bind::OptInt(n))
    }

    pub fn opt_int8(self, n: Option<i64>) -> (r: Statement)
        ensures
            r@ == (StatementView { binds: self@.binds.push(BindView::OptBigInt(n)), ..self@ }),
    {
        self.bind(Bind::OptBigInt(n))
    }

    pub fn opt_flag(self, b: Option<bool>) -> (r: Statement)
        ensures
            r@ == (StatementView { binds: self@.binds.push(BindView::OptBool(b)), ..self@ }),
    {
        self.bind(Bind::OptBool(b))
    }

    pub fn opt_text(self, s: Option<&str>) -> (r: Statement)
        ensures
            r@ == (StatementView {
                binds: self@.binds.push(BindView::OptText(opt_str(s))),
                ..self@
            }),
    {
        let t: Option<String> = match s {
            Some(x) => Some(String::from_str(x)),
            None => None,
        };
        self.bind(Bind::OptText(t))
    }

    pub fn texts(self, v: &[String]) -> (r: Statement)
        ensures
            r@ == (StatementView { binds: self@.binds.push(BindView::TextArray(texts(v@))), ..self@ }),
    {
        self.bind(Bind::TextArray(copy_texts(v)))
    }

    pub fn int8s(self, v: &[i64]) -> (r: Statement)
        ensures
            r@ == (StatementView { binds: self@.binds.push(BindView::BigIntArray(v@)), ..self@ }),
    {
        self.bind(Bind::BigIntArray(copy_ids(v)))
    }

    pub fn int4s(self, v: &[i32]) -> (r: Statement)
        ensures
            r@ == (StatementView { binds: self@.binds.push(BindView::IntArray(v@)), ..self@ }),
    {
        self.bind(Bind::IntArray(copy_numbers(v)))
    }

    pub fn maybe_texts(self, v: Option<&[String]>) -> (r: Statement)
        ensures
            r@ == (StatementView {
                binds: self@.binds.push(BindView::MaybeTextArray(opt_list(v))),
                ..self@
            }),
    {
        let w: Option<Vec<String>> = match v {
            Some(x) => Some(copy_texts(x)),
            None => None,
        };
        self.bind(Bind::MaybeTextArray(w))
    }

    pub fn maybe_ints(self, v: Option<&[i32]>) -> (r: Statement)
        ensures
            r@ == (StatementView {
                binds: self@.binds.push(BindView::MaybeIntArray(opt_numbers(v))),
                ..self@
            }),
    {
        let w: Option<Vec<i32>> = match v {
            Some(x) => Some(copy_numbers(x)),
            None => None,
        };
        self.bind(Bind::MaybeIntArray(w))
    }

    /// Appends the value with number `n` among those the caller holds.
    pub fn supplied(self, n: u8) -> (r: Statement)
        ensures
            r@ == (StatementView { binds: self@.binds.push(BindView::Supplied(n)), ..self@ }),
    {
        self.bind(Bind::Supplied(n))
    }
}

} // verus!
