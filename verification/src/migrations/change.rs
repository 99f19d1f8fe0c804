//! Changes to the schema.
use vstd::prelude::*;

use crate::statement::{executes, Statement, StatementView};

verus! {

/// One change that a step makes.
#[derive(Debug)]
pub enum Change {
    /// A statement to run.
    Run(Statement),
    /// A named constraint that a table is to have, in place of any constraint
    /// of that name with another predicate.
    Check { table: String, constraint: String, predicate: String },
    /// A category of the tool catalog, by its place, to insert or update.
    Category(usize),
    /// A card of the tool catalog, by its place, to insert or update.
    Tool(usize),
}

/// A change as a mathematical value.
#[verifier::ext_equal]
pub enum ChangeView {
    Run(StatementView),
    Check { table: Seq<char>, constraint: Seq<char>, predicate: Seq<char> },
    Category(int),
    Tool(int),
}

impl View for Change {
    type V = ChangeView;

    open spec fn view(&self) -> ChangeView {
        match self {
            Change::Run(st) => ChangeView::Run(st@),
            Change::Check { table, constraint, predicate } => ChangeView::Check {
                table: table@,
                constraint: constraint@,
                predicate: predicate@,
            },
            Change::Category(i) => ChangeView::Category(*i as int),
            Change::Tool(i) => ChangeView::Tool(*i as int),
        }
    }
}

/// The changes of a step as mathematical values.
pub open spec fn changes(v: Seq<Change>) -> Seq<ChangeView> {
    v.map_values(|c: Change| c@)
}

/// A statement without arguments that a step runs.
pub open spec fn runs(sql: Seq<char>) -> ChangeView {
    ChangeView::Run(executes(sql, seq![]))
}

/// A constraint that a step installs.
pub open spec fn checks(
    table: Seq<char>,
    constraint: Seq<char>,
    predicate: Seq<char>,
) -> ChangeView {
    ChangeView::Check { table, constraint, predicate }
}

/// What a table is created with where it is missing.
pub const CREATE_TABLE: &'static str = "CREATE TABLE IF NOT EXISTS ";

/// What an index is created with where it is missing.
pub const CREATE_INDEX: &'static str = "CREATE INDEX IF NOT EXISTS ";

/// Creating a table, given its name and what follows it, unless a table of
/// that name exists.
pub open spec fn creates_table(definition: Seq<char>) -> ChangeView {
    runs(CREATE_TABLE@ + definition)
}

/// Creating an index, given its name and what follows it, unless an index of
/// that name exists.
pub open spec fn creates_index(definition: Seq<char>) -> ChangeView {
    runs(CREATE_INDEX@ + definition)
}

/// Makes a change that creates a missing table.
pub fn create_table(definition: &str) -> (r: Change)
    ensures
        r@ == creates_table(definition@),
{
    let mut m = String::from_str(CREATE_TABLE);
    m.append(definition);
    run(m.as_str())
}

/// Makes a change that creates a missing index.
pub fn create_index(definition: &str) -> (r: Change)
    ensures
        r@ == creates_index(definition@),
{
    let mut m = String::from_str(CREATE_INDEX);
    m.append(definition);
    run(m.as_str())
}

/// The text up to the first space.
pub open spec fn first_word(s: Seq<char>) -> Seq<char>
    decreases s.len(),
{
    if s.len() == 0 || s[0] == ' ' {
        seq![]
    } else {
        seq![s[0]] + first_word(s.skip(1))
    }
}

/// The name of the table or index that a statement creates where it is
/// missing; `None` for any other statement.
pub open spec fn created_object(sql: Seq<char>) -> Option<Seq<char>> {
    if CREATE_TABLE@.is_prefix_of(sql) {
        Some(first_word(sql.skip(CREATE_TABLE@.len() as int)))
    } else if CREATE_INDEX@.is_prefix_of(sql) {
        Some(first_word(sql.skip(CREATE_INDEX@.len() as int)))
    } else {
        None
    }
}

/// Whether a change creates a table or an index where it is missing, and does
/// nothing else.
pub open spec fn is_creation(c: ChangeView) -> bool {
    c matches ChangeView::Run(st) && st.binds.len() == 0 && created_object(st.sql) is Some
}

/// The name that a creation is about.
pub open spec fn object_of(c: ChangeView) -> Seq<char> {
    created_object(c->Run_0.sql)->0
}

/// A schema after a creation: one that has an object of the name stays as it
/// is, another gets the object. A schema is given by its tables and indexes,
/// each with the change that made it.
pub open spec fn with_change(
    schema: Map<Seq<char>, ChangeView>,
    c: ChangeView,
) -> Map<Seq<char>, ChangeView> {
    if schema.contains_key(object_of(c)) {
        schema
    } else {
        schema.insert(object_of(c), c)
    }
}

/// A schema after some creations, in order.
pub open spec fn with_changes(
    schema: Map<Seq<char>, ChangeView>,
    all: Seq<ChangeView>,
) -> Map<Seq<char>, ChangeView>
    decreases all.len(),
{
    if all.len() == 0 {
        schema
    } else {
        with_change(with_changes(schema, all.drop_last()), all.last())
    }
}

pub proof fn lemma_creations(definition: Seq<char>)
    ensures
        is_creation(creates_table(definition)),
        object_of(creates_table(definition)) == first_word(definition),
        is_creation(creates_index(definition)),
        object_of(creates_index(definition)) == first_word(definition),
{
    reveal_strlit("CREATE TABLE IF NOT EXISTS ");
    reveal_strlit("CREATE INDEX IF NOT EXISTS ");
    let t = CREATE_TABLE@ + definition;
    let i = CREATE_INDEX@ + definition;
    assert(t.subrange(0, CREATE_TABLE@.len() as int) =~= CREATE_TABLE@);
    assert(i.subrange(0, CREATE_INDEX@.len() as int) =~= CREATE_INDEX@);
    assert(t.skip(CREATE_TABLE@.len() as int) =~= definition);
    assert(i.skip(CREATE_INDEX@.len() as int) =~= definition);
    assert(!CREATE_TABLE@.is_prefix_of(i)) by {
        assert(i[7] == 'I' && CREATE_TABLE@[7] == 'T');
        if CREATE_TABLE@.is_prefix_of(i) {
            assert(CREATE_TABLE@[7] == i.subrange(0, CREATE_TABLE@.len() as int)[7]);
        }
    }
}

proof fn lemma_all_there(schema: Map<Seq<char>, ChangeView>, all: Seq<ChangeView>)
    ensures
        schema.submap_of(with_changes(schema, all)),
        forall|i: int|
            0 <= i < all.len() ==> with_changes(schema, all).contains_key(
                object_of(#[trigger] all[i]),
            ),
    decreases all.len(),
{
    if all.len() > 0 {
        lemma_all_there(schema, all.drop_last());
        assert forall|i: int| 0 <= i < all.len() implies with_changes(schema, all).contains_key(
            object_of(#[trigger] all[i]),
        ) by {
            if i < all.len() - 1 {
                assert(all.drop_last()[i] == all[i]);
            }
        }
    }
}

proof fn lemma_nothing_missing(schema: Map<Seq<char>, ChangeView>, all: Seq<ChangeView>)
    requires
        forall|i: int| 0 <= i < all.len() ==> schema.contains_key(object_of(#[trigger] all[i])),
    ensures
        with_changes(schema, all) == schema,
    decreases all.len(),
{
    if all.len() > 0 {
        assert forall|i: int| 0 <= i < all.drop_last().len() implies schema.contains_key(
            object_of(#[trigger] all.drop_last()[i]),
        ) by {
            assert(all[i] == all.drop_last()[i]);
        }
        lemma_nothing_missing(schema, all.drop_last());
        assert(schema.contains_key(object_of(all[all.len() - 1])));
    }
}

/// Creations have no effect a second time, and keep what was there.
pub proof fn law_creating_again_changes_nothing(
    schema: Map<Seq<char>, ChangeView>,
    all: Seq<ChangeView>,
)
    ensures
        schema.submap_of(with_changes(schema, all)),
        with_changes(with_changes(schema, all), all) == with_changes(schema, all),
{
    lemma_all_there(schema, all);
    lemma_nothing_missing(with_changes(schema, all), all);
}

/// Makes a change of a statement without arguments.
pub fn run(sql: &str) -> (r: Change)
    ensures
        r@ == runs(sql@),
{
    Change::Run(Statement::execute(sql))
}

/// Makes a change of a constraint.
pub fn check(table: &str, constraint: &str, predicate: &str) -> (r: Change)
    ensures
        r@ == checks(table@, constraint@, predicate@),
{
    Change::Check {
        table: String::from_str(table),
        constraint: String::from_str(constraint),
        predicate: String::from_str(predicate),
    }
}

/// The predicate that a column holds one of some values.
pub open spec fn one_of(column: Seq<char>, list: Seq<char>) -> Seq<char> {
    column + " IN ("@ + list + ")"@
}

/// Writes the predicate that a column holds one of some values.
pub fn write_one_of(column: &str, list: &str) -> (r: String)
    ensures
        r@ == one_of(column@, list@),
{
    let mut m = String::from_str(column);
    m.append(" IN (");
    m.append(list);
    m.append(")");
    m
}

} // verus!
