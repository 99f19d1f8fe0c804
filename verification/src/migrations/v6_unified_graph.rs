//! Links that make work items, experiments, symbols and projects part of one
//! graph.
use vstd::prelude::*;

use crate::migrations::change::{changes, one_of, run, runs, write_one_of, Change, ChangeView};

verus! {

/// The number of the step.
pub const UNIFIED_GRAPH_V1: i32 = 6;

/// The name of the step.
pub const UNIFIED_GRAPH_V1_NAME: &'static str = "unified_graph_v1";

pub const ADD_WORK_ITEMS_OBSERVATION_ID: &'static str = "ALTER TABLE work_items ADD COLUMN IF NOT EXISTS observation_id BIGINT \
         REFERENCES memory_observations(id) ON DELETE SET NULL";

pub const CREATE_IDX_WORK_ITEMS_OBSERVATION: &'static str = "CREATE INDEX IF NOT EXISTS idx_work_items_observation \
         ON work_items(observation_id) WHERE observation_id IS NOT NULL";

pub const CREATE_EXPERIMENT_RELATIONS: &'static str = "CREATE TABLE IF NOT EXISTS experiment_relations (
            id                 BIGSERIAL PRIMARY KEY,
            from_experiment_id BIGINT NOT NULL REFERENCES experiments(id) ON DELETE CASCADE,
            to_experiment_id   BIGINT NOT NULL REFERENCES experiments(id) ON DELETE CASCADE,
            relation_type      TEXT NOT NULL,
            created_by         TEXT,
            created_at         TIMESTAMPTZ NOT NULL DEFAULT NOW(),
            UNIQUE (from_experiment_id, to_experiment_id, relation_type),
            CHECK (from_experiment_id <> to_experiment_id)
        )";

pub const CREATE_IDX_EXP_REL_FROM: &'static str =
    "CREATE INDEX IF NOT EXISTS idx_exp_rel_from ON experiment_relations(from_experiment_id)";

pub const CREATE_IDX_EXP_REL_TO: &'static str =
    "CREATE INDEX IF NOT EXISTS idx_exp_rel_to ON experiment_relations(to_experiment_id)";

pub const ADD_MEMORY_CODE_ANCHOR_SYMBOL_ID: &'static str = "ALTER TABLE memory_code_anchor ADD COLUMN IF NOT EXISTS symbol_id BIGINT \
         REFERENCES file_symbols(id) ON DELETE CASCADE";

pub const ADD_MEMORY_CODE_ANCHOR_PROJECT_ID: &'static str = "ALTER TABLE memory_code_anchor ADD COLUMN IF NOT EXISTS project_id INTEGER \
         REFERENCES projects(id) ON DELETE CASCADE";

pub const RELAX_TARGET_CHECK: &'static str = "DO $$
         DECLARE con_name TEXT;
         BEGIN
            FOR con_name IN
                SELECT conname FROM pg_constraint
                 WHERE conrelid = 'memory_code_anchor'::regclass
                   AND contype  = 'c'
                   AND conname <> 'memory_code_anchor_target_check'
            LOOP
                EXECUTE format('ALTER TABLE memory_code_anchor DROP CONSTRAINT %I', con_name);
            END LOOP;
            IF NOT EXISTS (
                SELECT 1 FROM pg_constraint
                 WHERE conrelid = 'memory_code_anchor'::regclass
                   AND conname  = 'memory_code_anchor_target_check'
            ) THEN
                ALTER TABLE memory_code_anchor
                    ADD CONSTRAINT memory_code_anchor_target_check
                    CHECK (file_id IS NOT NULL OR chunk_id IS NOT NULL OR topic_id IS NOT NULL
                           OR symbol_id IS NOT NULL OR project_id IS NOT NULL);
            END IF;
         END $$;";

pub const CREATE_IDX_MEMORY_CODE_ANCHOR_SYMBOL: &'static str = "CREATE INDEX IF NOT EXISTS idx_memory_code_anchor_symbol \
         ON memory_code_anchor(symbol_id) WHERE symbol_id IS NOT NULL";

pub const CREATE_IDX_MEMORY_CODE_ANCHOR_PROJECT: &'static str = "CREATE INDEX IF NOT EXISTS idx_memory_code_anchor_project \
         ON memory_code_anchor(project_id) WHERE project_id IS NOT NULL";

pub const ADD_MEMORY_SOURCE_AUTO_INDEX: &'static str =
    "ALTER TYPE memory_source ADD VALUE IF NOT EXISTS 'auto_index'";

pub const STAMP_METADATA: &'static str = "INSERT INTO pgmcp_metadata (key, value)
         VALUES ('unified_graph_version', '1')
         ON CONFLICT (key) DO UPDATE SET value = excluded.value";

/// The statement that removes a constraint, if a table has it.
pub open spec fn dropped_check(table: Seq<char>, constraint: Seq<char>) -> Seq<char> {
    "ALTER TABLE "@ + table + " DROP CONSTRAINT IF EXISTS "@ + constraint
}

/// The statement that adds a constraint to a table.
pub open spec fn added_check(
    table: Seq<char>,
    constraint: Seq<char>,
    predicate: Seq<char>,
) -> Seq<char> {
    "ALTER TABLE "@ + table + " ADD CONSTRAINT "@ + constraint + " CHECK ("@ + predicate + ")"@
}

fn drop_check(table: &str, constraint: &str) -> (r: String)
    ensures
        r@ == dropped_check(table@, constraint@),
{
    let mut m = String::from_str("ALTER TABLE ");
    m.append(table);
    m.append(" DROP CONSTRAINT IF EXISTS ");
    m.append(constraint);
    m
}

fn add_check(table: &str, constraint: &str, predicate: &str) -> (r: String)
    ensures
        r@ == added_check(table@, constraint@, predicate@),
{
    let mut m = String::from_str("ALTER TABLE ");
    m.append(table);
    m.append(" ADD CONSTRAINT ");
    m.append(constraint);
    m.append(" CHECK (");
    m.append(predicate);
    m.append(")");
    m
}

/// The changes that link a work item to its observation, in their order.
pub open spec fn observation_link() -> Seq<ChangeView> {
    seq![
        runs(ADD_WORK_ITEMS_OBSERVATION_ID@),
        runs(CREATE_IDX_WORK_ITEMS_OBSERVATION@),
    ]
}

fn add_work_item_observation_link() -> (r: Vec<Change>)
    ensures
        changes(r@) == observation_link(),
{
    let r = vec![
        run(ADD_WORK_ITEMS_OBSERVATION_ID),
        run(CREATE_IDX_WORK_ITEMS_OBSERVATION),
    ];
    assert(changes(r@) =~= observation_link());
    r
}

/// The changes that relate experiments to each other, in their order.
pub open spec fn experiment_relations(relations: Seq<char>) -> Seq<ChangeView> {
    seq![
        runs(CREATE_EXPERIMENT_RELATIONS@),
        runs(dropped_check("experiment_relations"@, "experiment_relations_type_check"@)),
        runs(
            added_check(
                "experiment_relations"@,
                "experiment_relations_type_check"@,
                one_of("relation_type"@, relations),
            ),
        ),
        runs(CREATE_IDX_EXP_REL_FROM@),
        runs(CREATE_IDX_EXP_REL_TO@),
    ]
}

fn create_experiment_relations(relations: &str) -> (r: Vec<Change>)
    ensures
        changes(r@) == experiment_relations(relations@),
{
    let r = vec![
        run(CREATE_EXPERIMENT_RELATIONS),
        run(drop_check("experiment_relations", "experiment_relations_type_check").as_str()),
        run(
            add_check(
                "experiment_relations",
                "experiment_relations_type_check",
                write_one_of("relation_type", relations).as_str(),
            ).as_str(),
        ),
        run(CREATE_IDX_EXP_REL_FROM),
        run(CREATE_IDX_EXP_REL_TO),
    ];
    assert(changes(r@) =~= experiment_relations(relations@));
    r
}

/// The changes that let an entity be anchored to a symbol or a project, in their order.
pub open spec fn code_anchor() -> Seq<ChangeView> {
    seq![
        runs(ADD_MEMORY_CODE_ANCHOR_SYMBOL_ID@),
        runs(ADD_MEMORY_CODE_ANCHOR_PROJECT_ID@),
        runs(RELAX_TARGET_CHECK@),
        runs(CREATE_IDX_MEMORY_CODE_ANCHOR_SYMBOL@),
        runs(CREATE_IDX_MEMORY_CODE_ANCHOR_PROJECT@),
    ]
}

fn extend_memory_code_anchor() -> (r: Vec<Change>)
    ensures
        changes(r@) == code_anchor(),
{
    let r = vec![
        run(ADD_MEMORY_CODE_ANCHOR_SYMBOL_ID),
        run(ADD_MEMORY_CODE_ANCHOR_PROJECT_ID),
        run(RELAX_TARGET_CHECK),
        run(CREATE_IDX_MEMORY_CODE_ANCHOR_SYMBOL),
        run(CREATE_IDX_MEMORY_CODE_ANCHOR_PROJECT),
    ];
    assert(changes(r@) =~= code_anchor());
    r
}

/// The changes that admit automatic indexing as a source, in their order.
pub open spec fn auto_index_source() -> Seq<ChangeView> {
    seq![
        runs(ADD_MEMORY_SOURCE_AUTO_INDEX@),
    ]
}

fn add_auto_index_source() -> (r: Vec<Change>)
    ensures
        changes(r@) == auto_index_source(),
{
    let r = vec![
        run(ADD_MEMORY_SOURCE_AUTO_INDEX),
    ];
    assert(changes(r@) =~= auto_index_source());
    r
}

/// The changes that record the version of the graph, in their order.
pub open spec fn metadata_stamp() -> Seq<ChangeView> {
    seq![
        runs(STAMP_METADATA@),
    ]
}

fn stamp_metadata() -> (r: Vec<Change>)
    ensures
        changes(r@) == metadata_stamp(),
{
    let r = vec![
        run(STAMP_METADATA),
    ];
    assert(changes(r@) =~= metadata_stamp());
    r
}

/// The changes of the step, in their order.
pub open spec fn steps(relations: Seq<char>) -> Seq<ChangeView> {
    observation_link() + experiment_relations(relations) + code_anchor() + auto_index_source()
        + metadata_stamp()
}

/// Adds the links. `relations` is the list of relations between experiments,
/// as it stands between the parentheses of `IN`.
pub fn apply(relations: &str) -> (r: Vec<Change>)
    ensures
        changes(r@) == steps(relations@),
{
    let mut r = add_work_item_observation_link();
    let mut more = create_experiment_relations(relations);
    r.append(&mut more);
    let mut more = extend_memory_code_anchor();
    r.append(&mut more);
    let mut more = add_auto_index_source();
    r.append(&mut more);
    let mut more = stamp_metadata();
    r.append(&mut more);
    assert(changes(r@) =~= steps(relations@));
    r
}

} // verus!
