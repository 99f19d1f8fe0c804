//! Metrics of functions, the call graph and the graph of similar files.
use vstd::prelude::*;

use crate::embedding::{
    column_for, dimension_refusal, embedding_column_for_dim, require_dimension, set_ef_search,
    sets_ef_search, tune, tuned, TunedQuery, TunedView, EMBEDDING_DIM,
};
use crate::meaning::{fills, lemma_within, opens, says, takes};
use crate::metadata::{key_for_project, project_key, read_metadata, reads, write_metadata, writes};
use crate::moments::{four_digit_year, moment_to_store, reads_back, rfc3339_text};
use crate::protocol::{statement_views, ProtocolError};
use crate::queries::texts::graph::{
    ck_class_rows_text, ck_inheritance_edges_text, code_raptor_search_text,
    delete_call_edges_for_project_text, delete_semantic_edges_for_project_text,
    law_stores_calls_stands_for_its_values, law_stores_metrics_stands_for_its_values,
    law_stores_semantic_edges_stands_for_its_values, law_updates_centralities_stands_for_its_values,
    law_updates_fan_io_stands_for_its_values, list_call_edges_for_project_text,
    list_function_nodes_for_project_text, project_missing_function_metrics_text,
    semantic_edges_1_text, semantic_edges_2_text, semantic_edges_3_text, semantic_edges_4_text,
    semantic_edges_5_text, semantic_edges_6_text, semantic_edges_7_text,
};
use crate::queries::texts::metadata::law_reads_stands_for_its_values;
use crate::statement::{
    copy_strs, executes, fetches_all, fetches_one, opt_str, str_texts, texts, Bind, BindView,
    Statement, StatementView,
};
use crate::text::decimal_text;

verus! {

/// A function symbol of a project.
#[derive(Debug, Clone)]
pub struct FunctionNodeRow {
    pub symbol_id: i64,
    pub file_id: i64,
    pub name: String,
    pub relative_path: String,
    pub language: String,
    pub parent_id: Option<i64>,
}

/// The metrics of a class.
#[derive(Debug, Clone)]
pub struct CkClassRow {
    pub symbol_id: i64,
    pub name: String,
    pub relative_path: String,
    pub method_count: i64,
    /// The sum of the cyclomatic complexities of the methods.
    pub wmc: i64,
    /// How many different targets the methods call.
    pub distinct_callees: i64,
    /// How many different files the methods call into.
    pub cbo: i64,
}

/// The metrics of a function that are whole numbers. Those that are not stay
/// with the caller.
#[derive(Debug, Clone, Copy, PartialEq, Eq, Structural)]
pub struct FunctionMetricsRow {
    pub function_id: i64,
    pub file_id: i64,
    pub project_id: i32,
    pub cyclomatic: i32,
    pub cognitive: i32,
    pub halstead_n1: i32,
    pub halstead_n2: i32,
    pub halstead_big_n1: i32,
    pub halstead_big_n2: i32,
    pub npath: i64,
    pub npath_overflow: bool,
    pub loc: i32,
    pub comment_lines: i32,
    pub panic_paths: i32,
    pub unsafe_blocks: i32,
}

pub const UPSERT_FUNCTION_METRICS_BATCH_SQL: &'static str = "INSERT INTO function_metrics (
            function_id, file_id, project_id,
            cyclomatic, cognitive,
            halstead_n1, halstead_n2, halstead_big_n1, halstead_big_n2,
            halstead_volume, halstead_difficulty, halstead_effort, halstead_bugs,
            npath, npath_overflow,
            loc, comment_lines,
            maintainability_index,
            panic_paths, unsafe_blocks,
            computed_at
        )
        SELECT * FROM UNNEST(
            $1::int8[], $2::int8[], $3::int4[],
            $4::int4[], $5::int4[],
            $6::int4[], $7::int4[], $8::int4[], $9::int4[],
            $10::float8[], $11::float8[], $12::float8[], $13::float8[],
            $14::int8[], $15::bool[],
            $16::int4[], $17::int4[],
            $18::float8[],
            $19::int4[], $20::int4[]
        ) AS u(
            function_id, file_id, project_id,
            cyclomatic, cognitive,
            halstead_n1, halstead_n2, halstead_big_n1, halstead_big_n2,
            halstead_volume, halstead_difficulty, halstead_effort, halstead_bugs,
            npath, npath_overflow,
            loc, comment_lines,
            maintainability_index,
            panic_paths, unsafe_blocks
        ), (SELECT NOW())
        ON CONFLICT (function_id) DO UPDATE SET
            file_id = EXCLUDED.file_id,
            project_id = EXCLUDED.project_id,
            cyclomatic = EXCLUDED.cyclomatic,
            cognitive = EXCLUDED.cognitive,
            halstead_n1 = EXCLUDED.halstead_n1,
            halstead_n2 = EXCLUDED.halstead_n2,
            halstead_big_n1 = EXCLUDED.halstead_big_n1,
            halstead_big_n2 = EXCLUDED.halstead_big_n2,
            halstead_volume = EXCLUDED.halstead_volume,
            halstead_difficulty = EXCLUDED.halstead_difficulty,
            halstead_effort = EXCLUDED.halstead_effort,
            halstead_bugs = EXCLUDED.halstead_bugs,
            npath = EXCLUDED.npath,
            npath_overflow = EXCLUDED.npath_overflow,
            loc = EXCLUDED.loc,
            comment_lines = EXCLUDED.comment_lines,
            maintainability_index = EXCLUDED.maintainability_index,
            panic_paths = EXCLUDED.panic_paths,
            unsafe_blocks = EXCLUDED.unsafe_blocks,
            computed_at = NOW()";

/// Storing the metrics of functions, column by column.
pub open spec fn stores_metrics(rows: Seq<FunctionMetricsRow>) -> StatementView {
    executes(
        UPSERT_FUNCTION_METRICS_BATCH_SQL@,
        seq![
            BindView::BigIntArray(rows.map_values(|r: FunctionMetricsRow| r.function_id)),
            BindView::BigIntArray(rows.map_values(|r: FunctionMetricsRow| r.file_id)),
            BindView::IntArray(rows.map_values(|r: FunctionMetricsRow| r.project_id)),
            BindView::IntArray(rows.map_values(|r: FunctionMetricsRow| r.cyclomatic)),
            BindView::IntArray(rows.map_values(|r: FunctionMetricsRow| r.cognitive)),
            BindView::IntArray(rows.map_values(|r: FunctionMetricsRow| r.halstead_n1)),
            BindView::IntArray(rows.map_values(|r: FunctionMetricsRow| r.halstead_n2)),
            BindView::IntArray(rows.map_values(|r: FunctionMetricsRow| r.halstead_big_n1)),
            BindView::IntArray(rows.map_values(|r: FunctionMetricsRow| r.halstead_big_n2)),
            BindView::Supplied(0),
            BindView::Supplied(1),
            BindView::Supplied(2),
            BindView::Supplied(3),
            BindView::BigIntArray(rows.map_values(|r: FunctionMetricsRow| r.npath)),
            BindView::BoolArray(rows.map_values(|r: FunctionMetricsRow| r.npath_overflow)),
            BindView::IntArray(rows.map_values(|r: FunctionMetricsRow| r.loc)),
            BindView::IntArray(rows.map_values(|r: FunctionMetricsRow| r.comment_lines)),
            BindView::Supplied(4),
            BindView::IntArray(rows.map_values(|r: FunctionMetricsRow| r.panic_paths)),
            BindView::IntArray(rows.map_values(|r: FunctionMetricsRow| r.unsafe_blocks)),
        ],
    )
}

/// Stores the metrics of functions, all but fan-in, fan-out and centralities.
/// No rows: nothing to send. The caller supplies, each as a column in row
/// order, values 0 to 3, the volume, difficulty, effort and bugs after
/// Halstead, and value 4, the maintainability index.
pub fn upsert_function_metrics_batch(rows: &[FunctionMetricsRow]) -> (r: Option<Statement>)
    ensures
        r is None <==> rows.len() == 0,
        r matches Some(st) ==> st@ == stores_metrics(rows@),
        r matches Some(st) ==> opens(st@.sql, "INSERT INTO function_metrics"@),
        r matches Some(st) ==> fills(
            st@,
            "AS u"@,
            "function_id"@,
            "UNNEST("@,
            BindView::BigIntArray(rows@.map_values(|r: FunctionMetricsRow| r.function_id)),
        ),
        r matches Some(st) ==> fills(
            st@,
            "AS u"@,
            "file_id"@,
            "UNNEST("@,
            BindView::BigIntArray(rows@.map_values(|r: FunctionMetricsRow| r.file_id)),
        ),
        r matches Some(st) ==> fills(
            st@,
            "AS u"@,
            "project_id"@,
            "UNNEST("@,
            BindView::IntArray(rows@.map_values(|r: FunctionMetricsRow| r.project_id)),
        ),
        r matches Some(st) ==> fills(
            st@,
            "AS u"@,
            "cyclomatic"@,
            "UNNEST("@,
            BindView::IntArray(rows@.map_values(|r: FunctionMetricsRow| r.cyclomatic)),
        ),
        r matches Some(st) ==> fills(
            st@,
            "AS u"@,
            "cognitive"@,
            "UNNEST("@,
            BindView::IntArray(rows@.map_values(|r: FunctionMetricsRow| r.cognitive)),
        ),
        r matches Some(st) ==> fills(
            st@,
            "AS u"@,
            "halstead_n1"@,
            "UNNEST("@,
            BindView::IntArray(rows@.map_values(|r: FunctionMetricsRow| r.halstead_n1)),
        ),
        r matches Some(st) ==> fills(
            st@,
            "AS u"@,
            "halstead_n2"@,
            "UNNEST("@,
            BindView::IntArray(rows@.map_values(|r: FunctionMetricsRow| r.halstead_n2)),
        ),
        r matches Some(st) ==> fills(
            st@,
            "AS u"@,
            "halstead_big_n1"@,
            "UNNEST("@,
            BindView::IntArray(rows@.map_values(|r: FunctionMetricsRow| r.halstead_big_n1)),
        ),
        r matches Some(st) ==> fills(
            st@,
            "AS u"@,
            "halstead_big_n2"@,
            "UNNEST("@,
            BindView::IntArray(rows@.map_values(|r: FunctionMetricsRow| r.halstead_big_n2)),
        ),
        r matches Some(st) ==> fills(
            st@,
            "AS u"@,
            "halstead_volume"@,
            "UNNEST("@,
            BindView::Supplied(0),
        ),
        r matches Some(st) ==> fills(
            st@,
            "AS u"@,
            "halstead_difficulty"@,
            "UNNEST("@,
            BindView::Supplied(1),
        ),
        r matches Some(st) ==> fills(
            st@,
            "AS u"@,
            "halstead_effort"@,
            "UNNEST("@,
            BindView::Supplied(2),
        ),
        r matches Some(st) ==> fills(
            st@,
            "AS u"@,
            "halstead_bugs"@,
            "UNNEST("@,
            BindView::Supplied(3),
        ),
        r matches Some(st) ==> fills(
            st@,
            "AS u"@,
            "npath"@,
            "UNNEST("@,
            BindView::BigIntArray(rows@.map_values(|r: FunctionMetricsRow| r.npath)),
        ),
        r matches Some(st) ==> fills(
            st@,
            "AS u"@,
            "npath_overflow"@,
            "UNNEST("@,
            BindView::BoolArray(rows@.map_values(|r: FunctionMetricsRow| r.npath_overflow)),
        ),
        r matches Some(st) ==> fills(
            st@,
            "AS u"@,
            "loc"@,
            "UNNEST("@,
            BindView::IntArray(rows@.map_values(|r: FunctionMetricsRow| r.loc)),
        ),
        r matches Some(st) ==> fills(
            st@,
            "AS u"@,
            "comment_lines"@,
            "UNNEST("@,
            BindView::IntArray(rows@.map_values(|r: FunctionMetricsRow| r.comment_lines)),
        ),
        r matches Some(st) ==> fills(
            st@,
            "AS u"@,
            "maintainability_index"@,
            "UNNEST("@,
            BindView::Supplied(4),
        ),
        r matches Some(st) ==> fills(
            st@,
            "AS u"@,
            "panic_paths"@,
            "UNNEST("@,
            BindView::IntArray(rows@.map_values(|r: FunctionMetricsRow| r.panic_paths)),
        ),
        r matches Some(st) ==> fills(
            st@,
            "AS u"@,
            "unsafe_blocks"@,
            "UNNEST("@,
            BindView::IntArray(rows@.map_values(|r: FunctionMetricsRow| r.unsafe_blocks)),
        ),
{
    proof {
        law_stores_metrics_stands_for_its_values(rows@);
    }
    if rows.len() == 0 {
        return None;
    }
    let mut function_ids: Vec<i64> = Vec::new();
    let mut file_ids: Vec<i64> = Vec::new();
    let mut project_ids: Vec<i32> = Vec::new();
    let mut cyclomatic: Vec<i32> = Vec::new();
    let mut cognitive: Vec<i32> = Vec::new();
    let mut n1: Vec<i32> = Vec::new();
    let mut n2: Vec<i32> = Vec::new();
    let mut big_n1: Vec<i32> = Vec::new();
    let mut big_n2: Vec<i32> = Vec::new();
    let mut npath: Vec<i64> = Vec::new();
    let mut npath_overflow: Vec<bool> = Vec::new();
    let mut loc: Vec<i32> = Vec::new();
    let mut comment_lines: Vec<i32> = Vec::new();
    let mut panic_paths: Vec<i32> = Vec::new();
    let mut unsafe_blocks: Vec<i32> = Vec::new();
    let mut i: usize = 0;
    while i < rows.len()
        invariant
            i <= rows.len(),
            function_ids.len() == i,
            forall|j: int| 0 <= j < i ==> #[trigger] function_ids@[j] == rows@[j].function_id,
            file_ids.len() == i,
            forall|j: int| 0 <= j < i ==> #[trigger] file_ids@[j] == rows@[j].file_id,
            project_ids.len() == i,
            forall|j: int| 0 <= j < i ==> #[trigger] project_ids@[j] == rows@[j].project_id,
            cyclomatic.len() == i,
            forall|j: int| 0 <= j < i ==> #[trigger] cyclomatic@[j] == rows@[j].cyclomatic,
            cognitive.len() == i,
            forall|j: int| 0 <= j < i ==> #[trigger] cognitive@[j] == rows@[j].cognitive,
            n1.len() == i,
            forall|j: int| 0 <= j < i ==> #[trigger] n1@[j] == rows@[j].halstead_n1,
            n2.len() == i,
            forall|j: int| 0 <= j < i ==> #[trigger] n2@[j] == rows@[j].halstead_n2,
            big_n1.len() == i,
            forall|j: int| 0 <= j < i ==> #[trigger] big_n1@[j] == rows@[j].halstead_big_n1,
            big_n2.len() == i,
            forall|j: int| 0 <= j < i ==> #[trigger] big_n2@[j] == rows@[j].halstead_big_n2,
            npath.len() == i,
            forall|j: int| 0 <= j < i ==> #[trigger] npath@[j] == rows@[j].npath,
            npath_overflow.len() == i,
            forall|j: int| 0 <= j < i ==> #[trigger] npath_overflow@[j] == rows@[j].npath_overflow,
            loc.len() == i,
            forall|j: int| 0 <= j < i ==> #[trigger] loc@[j] == rows@[j].loc,
            comment_lines.len() == i,
            forall|j: int| 0 <= j < i ==> #[trigger] comment_lines@[j] == rows@[j].comment_lines,
            panic_paths.len() == i,
            forall|j: int| 0 <= j < i ==> #[trigger] panic_paths@[j] == rows@[j].panic_paths,
            unsafe_blocks.len() == i,
            forall|j: int| 0 <= j < i ==> #[trigger] unsafe_blocks@[j] == rows@[j].unsafe_blocks,
        decreases rows.len() - i,
    {
        function_ids.push(rows[i].function_id);
        file_ids.push(rows[i].file_id);
        project_ids.push(rows[i].project_id);
        cyclomatic.push(rows[i].cyclomatic);
        cognitive.push(rows[i].cognitive);
        n1.push(rows[i].halstead_n1);
        n2.push(rows[i].halstead_n2);
        big_n1.push(rows[i].halstead_big_n1);
        big_n2.push(rows[i].halstead_big_n2);
        npath.push(rows[i].npath);
        npath_overflow.push(rows[i].npath_overflow);
        loc.push(rows[i].loc);
        comment_lines.push(rows[i].comment_lines);
        panic_paths.push(rows[i].panic_paths);
        unsafe_blocks.push(rows[i].unsafe_blocks);
        i = i + 1;
    }
    assert(function_ids@ =~= rows@.map_values(|r: FunctionMetricsRow| r.function_id));
    assert(file_ids@ =~= rows@.map_values(|r: FunctionMetricsRow| r.file_id));
    assert(project_ids@ =~= rows@.map_values(|r: FunctionMetricsRow| r.project_id));
    assert(cyclomatic@ =~= rows@.map_values(|r: FunctionMetricsRow| r.cyclomatic));
    assert(cognitive@ =~= rows@.map_values(|r: FunctionMetricsRow| r.cognitive));
    assert(n1@ =~= rows@.map_values(|r: FunctionMetricsRow| r.halstead_n1));
    assert(n2@ =~= rows@.map_values(|r: FunctionMetricsRow| r.halstead_n2));
    assert(big_n1@ =~= rows@.map_values(|r: FunctionMetricsRow| r.halstead_big_n1));
    assert(big_n2@ =~= rows@.map_values(|r: FunctionMetricsRow| r.halstead_big_n2));
    assert(npath@ =~= rows@.map_values(|r: FunctionMetricsRow| r.npath));
    assert(npath_overflow@ =~= rows@.map_values(|r: FunctionMetricsRow| r.npath_overflow));
    assert(loc@ =~= rows@.map_values(|r: FunctionMetricsRow| r.loc));
    assert(comment_lines@ =~= rows@.map_values(|r: FunctionMetricsRow| r.comment_lines));
    assert(panic_paths@ =~= rows@.map_values(|r: FunctionMetricsRow| r.panic_paths));
    assert(unsafe_blocks@ =~= rows@.map_values(|r: FunctionMetricsRow| r.unsafe_blocks));
    let st = Statement::execute(UPSERT_FUNCTION_METRICS_BATCH_SQL)
        .bind(Bind::BigIntArray(function_ids))
        .bind(Bind::BigIntArray(file_ids))
        .bind(Bind::IntArray(project_ids))
        .bind(Bind::IntArray(cyclomatic))
        .bind(Bind::IntArray(cognitive))
        .bind(Bind::IntArray(n1))
        .bind(Bind::IntArray(n2))
        .bind(Bind::IntArray(big_n1))
        .bind(Bind::IntArray(big_n2))
        .supplied(0)
        .supplied(1)
        .supplied(2)
        .supplied(3)
        .bind(Bind::BigIntArray(npath))
        .bind(Bind::BoolArray(npath_overflow))
        .bind(Bind::IntArray(loc))
        .bind(Bind::IntArray(comment_lines))
        .supplied(4)
        .bind(Bind::IntArray(panic_paths))
        .bind(Bind::IntArray(unsafe_blocks));
    assert(st@ =~= stores_metrics(rows@));
    Some(st)
}

pub const FUNCTION_METRICS_KEY: &'static str = "function_metrics_last_run:";

/// When the function metrics of a project were last computed, as a stored text.
pub fn get_function_metrics_watermark(project_id: i32) -> (st: Statement)
    ensures
        st@ == reads(project_key(FUNCTION_METRICS_KEY@, project_id)),
        opens(st@.sql, "SELECT"@),
        takes(
            st@,
            "key = "@,
            BindView::Text("function_metrics_last_run:"@ + decimal_text(project_id as int)),
        ),
{
    proof {
        law_reads_stands_for_its_values(project_key(FUNCTION_METRICS_KEY@, project_id));
    }
    read_metadata(key_for_project(FUNCTION_METRICS_KEY, project_id).as_str())
}

/// Records when the function metrics of a project were last computed, at a moment given
/// as seconds since the start of 1970 and nanoseconds on top. In the years 0
/// to 9999 every moment outside a leap second is read back as it was.
pub fn set_function_metrics_watermark(
    project_id: i32,
    secs: i64,
    nanos: u32,
) -> (r: Option<Statement>)
    ensures
        match rfc3339_text(secs, nanos) {
            Some(t) => r matches Some(st) && st@ == writes(
                project_key(FUNCTION_METRICS_KEY@, project_id),
                t,
            ),
            None => r is None,
        },
        four_digit_year(secs) && nanos < 1_000_000_000 ==> reads_back(
            rfc3339_text(secs, nanos),
            secs,
            nanos,
        ),
        r matches Some(st) ==> fills(
            st@,
            "INSERT INTO pgmcp_metadata"@,
            "key"@,
            "VALUES ("@,
            BindView::Text("function_metrics_last_run:"@ + decimal_text(project_id as int)),
        ),
        r matches Some(st) ==> fills(
            st@,
            "INSERT INTO pgmcp_metadata"@,
            "value"@,
            "VALUES ("@,
            BindView::Text(rfc3339_text(secs, nanos)->0),
        ),
{
    match moment_to_store(secs, nanos) {
        Some(t) => Some(
            write_metadata(key_for_project(FUNCTION_METRICS_KEY, project_id).as_str(), t.as_str()),
        ),
        None => None,
    }
}

pub const PROJECT_MISSING_FUNCTION_METRICS_SQL: &'static str = "SELECT EXISTS(
                 SELECT 1 FROM indexed_files
                 WHERE project_id = $1 AND language = ANY($2::text[])
             ) AND NOT EXISTS(
                 SELECT 1 FROM function_metrics WHERE project_id = $1
             )";

/// Whether a project has files in one of some languages but no function
/// metrics at all.
pub fn project_missing_function_metrics(project_id: i32, languages: &[&str]) -> (st: Statement)
    ensures
        st@ == fetches_one(
            PROJECT_MISSING_FUNCTION_METRICS_SQL@,
            seq![BindView::Int(project_id), BindView::TextArray(str_texts(languages@))],
        ),
        opens(st@.sql, "SELECT"@),
        takes(st@, "project_id = "@, BindView::Int(project_id)),
        takes(st@, "language = ANY("@, BindView::TextArray(str_texts(languages@))),
        says(st@.sql, "FROM indexed_files"@),
{
    proof {
        project_missing_function_metrics_text();
    }
    let st = Statement::one(PROJECT_MISSING_FUNCTION_METRICS_SQL)
        .int4(project_id)
        .bind(Bind::TextArray(copy_strs(languages)));
    assert(st@.sql == PROJECT_MISSING_FUNCTION_METRICS_SQL@);
    st
}

pub const LIST_FUNCTION_NODES_FOR_PROJECT_SQL: &'static str = "SELECT fs.id as symbol_id,
                fs.file_id,
                fs.name,
                f.relative_path,
                f.language,
                fs.parent_id
         FROM file_symbols fs
         JOIN indexed_files f ON fs.file_id = f.id
         WHERE f.project_id = $1 AND fs.kind = 'function'";

/// All function symbols of a project.
pub fn list_function_nodes_for_project(project_id: i32) -> (st: Statement)
    ensures
        st@ == fetches_all(LIST_FUNCTION_NODES_FOR_PROJECT_SQL@, seq![BindView::Int(project_id)]),
        opens(st@.sql, "SELECT"@),
        takes(st@, "f.project_id = "@, BindView::Int(project_id)),
        says(st@.sql, "FROM file_symbols"@),
{
    proof {
        list_function_nodes_for_project_text();
    }
    let st = Statement::all(LIST_FUNCTION_NODES_FOR_PROJECT_SQL).int4(project_id);
    assert(st@.sql == LIST_FUNCTION_NODES_FOR_PROJECT_SQL@);
    st
}

/// A call as it was found in the source. How sure its target is stays with
/// the caller.
#[derive(Debug, Clone)]
pub struct RawCallEdgeRow {
    pub source_file_id: i64,
    pub source_symbol_id: Option<i64>,
    pub target_file_id: Option<i64>,
    pub target_symbol_id: Option<i64>,
    pub target_raw: String,
}

pub const LIST_CALL_EDGES_FOR_PROJECT_SQL: &'static str = "SELECT sr.source_file_id,
                sr.source_symbol_id,
                sr.target_file_id,
                sr.target_symbol_id,
                sr.target_raw,
                sr.resolution_confidence
         FROM symbol_references sr
         JOIN indexed_files f ON sr.source_file_id = f.id
         WHERE f.project_id = $1
           AND sr.ref_kind = 'call'
           AND sr.source_symbol_id IS NOT NULL";

/// All calls of a project whose caller is known.
pub fn list_call_edges_for_project(project_id: i32) -> (st: Statement)
    ensures
        st@ == fetches_all(LIST_CALL_EDGES_FOR_PROJECT_SQL@, seq![BindView::Int(project_id)]),
        opens(st@.sql, "SELECT"@),
        takes(st@, "f.project_id = "@, BindView::Int(project_id)),
        says(st@.sql, "AND sr.ref_kind = 'call'"@),
        says(st@.sql, "AND sr.source_symbol_id IS NOT NULL"@),
        says(st@.sql, "FROM symbol_references"@),
{
    proof {
        list_call_edges_for_project_text();
    }
    let st = Statement::all(LIST_CALL_EDGES_FOR_PROJECT_SQL).int4(project_id);
    assert(st@.sql == LIST_CALL_EDGES_FOR_PROJECT_SQL@);
    st
}

pub const DELETE_CALL_EDGES_FOR_PROJECT_SQL: &'static str =
    "DELETE FROM code_graph_edges WHERE project_id = $1 AND edge_type = 'call'";

/// Deletes the calls of a project.
pub fn delete_call_edges_for_project(project_id: i32) -> (st: Statement)
    ensures
        st@ == executes(DELETE_CALL_EDGES_FOR_PROJECT_SQL@, seq![BindView::Int(project_id)]),
        opens(st@.sql, "DELETE FROM code_graph_edges"@),
        takes(st@, "project_id = "@, BindView::Int(project_id)),
{
    proof {
        delete_call_edges_for_project_text();
    }
    let st = Statement::execute(DELETE_CALL_EDGES_FOR_PROJECT_SQL).int4(project_id);
    assert(st@.sql == DELETE_CALL_EDGES_FOR_PROJECT_SQL@);
    st
}

pub const BULK_INSERT_CALL_EDGES_SQL: &'static str = "INSERT INTO code_graph_edges
            (project_id, source_file_id, target_file_id, source_symbol_id,
             target_symbol_id, edge_type, target_raw, weight, computed_at)
         SELECT u.project_id, u.source_file_id, u.target_file_id, u.source_symbol_id,
                u.target_symbol_id, 'call', u.target_raw,
                COALESCE(u.weight, 1.0), NOW()
         FROM UNNEST(
             $1::int4[], $2::int8[], $3::int8[], $4::int8[],
             $5::int8[], $6::text[], $7::float8[]
         ) AS u(project_id, source_file_id, target_file_id, source_symbol_id,
                target_symbol_id, target_raw, weight)
         ON CONFLICT (source_file_id, COALESCE(target_file_id, -1::BIGINT), edge_type, COALESCE(target_raw, '')) DO NOTHING";

/// A call whose caller is known.
pub struct CallView {
    pub source_file_id: i64,
    pub source_symbol_id: i64,
    pub target_file_id: Option<i64>,
    pub target_symbol_id: Option<i64>,
    pub target_raw: Seq<char>,
}

/// The calls of a list whose caller is known, in order.
pub open spec fn known_calls(edges: Seq<RawCallEdgeRow>) -> Seq<CallView>
    decreases edges.len(),
{
    if edges.len() == 0 {
        Seq::empty()
    } else {
        let before = known_calls(edges.drop_last());
        let e = edges.last();
        match e.source_symbol_id {
            Some(caller) => before.push(
                CallView {
                    source_file_id: e.source_file_id,
                    source_symbol_id: caller,
                    target_file_id: e.target_file_id,
                    target_symbol_id: e.target_symbol_id,
                    target_raw: e.target_raw@,
                },
            ),
            None => before,
        }
    }
}

/// The positions in a list of the calls whose caller is known, in order.
pub open spec fn known_positions(edges: Seq<RawCallEdgeRow>) -> Seq<usize>
    decreases edges.len(),
{
    if edges.len() == 0 {
        Seq::empty()
    } else {
        let before = known_positions(edges.drop_last());
        if edges.last().source_symbol_id is Some {
            before.push((edges.len() - 1) as usize)
        } else {
            before
        }
    }
}

/// Whether a stored call is the one of a row.
pub open spec fn is_call_of(c: CallView, e: RawCallEdgeRow) -> bool {
    &&& e.source_symbol_id == Some(c.source_symbol_id)
    &&& e.source_file_id == c.source_file_id
    &&& e.target_file_id == c.target_file_id
    &&& e.target_symbol_id == c.target_symbol_id
    &&& e.target_raw@ == c.target_raw
}

/// The positions name, call by call, the rows of the calls that are stored;
/// so values picked by them line up with the calls.
pub proof fn law_positions_line_up_with_calls(edges: Seq<RawCallEdgeRow>)
    requires
        edges.len() <= usize::MAX,
    ensures
        known_positions(edges).len() == known_calls(edges).len(),
        forall|k: int|
            0 <= k < known_positions(edges).len() ==> (#[trigger] known_positions(edges)[k])
                < edges.len() && is_call_of(
                known_calls(edges)[k],
                edges[known_positions(edges)[k] as int],
            ),
    decreases edges.len(),
{
    if edges.len() > 0 {
        law_positions_line_up_with_calls(edges.drop_last());
    }
}

/// The positions of the calls whose caller is known: the weights of these go
/// with the calls that are stored.
pub fn known_call_positions(edges: &[RawCallEdgeRow]) -> (r: Vec<usize>)
    ensures
        r@ == known_positions(edges@),
        forall|k: int| 0 <= k < r.len() ==> (#[trigger] r@[k]) < edges.len(),
{
    let mut out: Vec<usize> = Vec::new();
    let mut i: usize = 0;
    assert(edges@.take(0) =~= Seq::<RawCallEdgeRow>::empty());
    while i < edges.len()
        invariant
            i <= edges.len(),
            out@ == known_positions(edges@.take(i as int)),
            forall|k: int| 0 <= k < out.len() ==> (#[trigger] out@[k]) < i,
        decreases edges.len() - i,
    {
        assert(edges@.take(i + 1).drop_last() =~= edges@.take(i as int));
        if edges[i].source_symbol_id.is_some() {
            out.push(i);
        }
        i = i + 1;
    }
    assert(edges@.take(i as int) =~= edges@);
    out
}

/// Storing calls of a project, column by column.
pub open spec fn stores_calls(project_id: i32, calls: Seq<CallView>) -> StatementView {
    executes(
        BULK_INSERT_CALL_EDGES_SQL@,
        seq![
            BindView::IntArray(calls.map_values(|c: CallView| project_id)),
            BindView::BigIntArray(calls.map_values(|c: CallView| c.source_file_id)),
            BindView::OptBigIntArray(calls.map_values(|c: CallView| c.target_file_id)),
            BindView::BigIntArray(calls.map_values(|c: CallView| c.source_symbol_id)),
            BindView::OptBigIntArray(calls.map_values(|c: CallView| c.target_symbol_id)),
            BindView::TextArray(calls.map_values(|c: CallView| c.target_raw)),
            BindView::Supplied(0),
        ],
    )
}

/// Stores the calls of a project whose caller is known. The caller supplies
/// value 0, the weights of these calls in order: how sure each target is, one
/// where it is unknown.
/// None of them: nothing to send.
pub fn bulk_insert_call_edges(project_id: i32, edges: &[RawCallEdgeRow]) -> (r: Option<Statement>)
    ensures
        r is None <==> known_calls(edges@).len() == 0,
        r matches Some(st) ==> st@ == stores_calls(project_id, known_calls(edges@)),
        r matches Some(st) ==> opens(st@.sql, "INSERT INTO code_graph_edges"@),
        r matches Some(st) ==> fills(
            st@,
            "AS u"@,
            "project_id"@,
            "UNNEST("@,
            BindView::IntArray(known_calls(edges@).map_values(|c: CallView| project_id)),
        ),
        r matches Some(st) ==> fills(
            st@,
            "AS u"@,
            "source_file_id"@,
            "UNNEST("@,
            BindView::BigIntArray(known_calls(edges@).map_values(|c: CallView| c.source_file_id)),
        ),
        r matches Some(st) ==> fills(
            st@,
            "AS u"@,
            "target_file_id"@,
            "UNNEST("@,
            BindView::OptBigIntArray(known_calls(edges@).map_values(|c: CallView| c.target_file_id)),
        ),
        r matches Some(st) ==> fills(
            st@,
            "AS u"@,
            "source_symbol_id"@,
            "UNNEST("@,
            BindView::BigIntArray(known_calls(edges@).map_values(|c: CallView| c.source_symbol_id)),
        ),
        r matches Some(st) ==> fills(
            st@,
            "AS u"@,
            "target_symbol_id"@,
            "UNNEST("@,
            BindView::OptBigIntArray(known_calls(edges@).map_values(|c: CallView| c.target_symbol_id)),
        ),
        r matches Some(st) ==> fills(
            st@,
            "AS u"@,
            "target_raw"@,
            "UNNEST("@,
            BindView::TextArray(known_calls(edges@).map_values(|c: CallView| c.target_raw)),
        ),
        r matches Some(st) ==> fills(st@, "AS u"@, "weight"@, "UNNEST("@, BindView::Supplied(0)),
{
    proof {
        law_stores_calls_stands_for_its_values(project_id, known_calls(edges@));
    }
    let mut projects: Vec<i32> = Vec::new();
    let mut source_files: Vec<i64> = Vec::new();
    let mut target_files: Vec<Option<i64>> = Vec::new();
    let mut source_symbols: Vec<i64> = Vec::new();
    let mut target_symbols: Vec<Option<i64>> = Vec::new();
    let mut target_raws: Vec<String> = Vec::new();
    let mut i: usize = 0;
    assert(edges@.take(0) =~= Seq::<RawCallEdgeRow>::empty());
    assert(texts(target_raws@) =~= known_calls(edges@.take(0)).map_values(
        |c: CallView| c.target_raw,
    ));
    while i < edges.len()
        invariant
            i <= edges.len(),
            ({
                let calls = known_calls(edges@.take(i as int));
                &&& projects@ =~= calls.map_values(|c: CallView| project_id)
                &&& source_files@ =~= calls.map_values(|c: CallView| c.source_file_id)
                &&& target_files@ =~= calls.map_values(|c: CallView| c.target_file_id)
                &&& source_symbols@ =~= calls.map_values(|c: CallView| c.source_symbol_id)
                &&& target_symbols@ =~= calls.map_values(|c: CallView| c.target_symbol_id)
                &&& texts(target_raws@) =~= calls.map_values(|c: CallView| c.target_raw)
            }),
        decreases edges.len() - i,
    {
        assert(edges@.take(i + 1).drop_last() =~= edges@.take(i as int));
        assert(edges@.take(i + 1).last() == edges@[i as int]);
        if let Some(caller) = edges[i].source_symbol_id {
            projects.push(project_id);
            source_files.push(edges[i].source_file_id);
            target_files.push(edges[i].target_file_id);
            source_symbols.push(caller);
            target_symbols.push(edges[i].target_symbol_id);
            let ghost raws = texts(target_raws@);
            target_raws.push(String::from_str(edges[i].target_raw.as_str()));
            assert(texts(target_raws@) =~= raws.push(edges@[i as int].target_raw@));
        }
        proof {
            let calls = known_calls(edges@.take(i + 1));
            assert(projects@ =~= calls.map_values(|c: CallView| project_id));
            assert(source_files@ =~= calls.map_values(|c: CallView| c.source_file_id));
            assert(target_files@ =~= calls.map_values(|c: CallView| c.target_file_id));
            assert(source_symbols@ =~= calls.map_values(|c: CallView| c.source_symbol_id));
            assert(target_symbols@ =~= calls.map_values(|c: CallView| c.target_symbol_id));
            assert(texts(target_raws@) =~= calls.map_values(|c: CallView| c.target_raw));
        }
        i = i + 1;
    }
    assert(edges@.take(i as int) =~= edges@);
    let ghost calls = known_calls(edges@);
    assert(projects@.len() == calls.len());
    if projects.len() == 0 {
        return None;
    }
    let st = Statement::execute(BULK_INSERT_CALL_EDGES_SQL)
        .bind(Bind::IntArray(projects))
        .bind(Bind::BigIntArray(source_files))
        .bind(Bind::OptBigIntArray(target_files))
        .bind(Bind::BigIntArray(source_symbols))
        .bind(Bind::OptBigIntArray(target_symbols))
        .bind(Bind::TextArray(target_raws))
        .supplied(0);
    assert(st@ =~= stores_calls(project_id, calls));
    Some(st)
}

/// Every call that is stored has a caller, and the columns are of one length.
pub proof fn law_call_columns_line_up(project_id: i32, edges: Seq<RawCallEdgeRow>)
    ensures
        ({
            let n = known_calls(edges).len();
            let b = stores_calls(project_id, known_calls(edges)).binds;
            &&& n <= edges.len()
            &&& b[0]->IntArray_0.len() == n
            &&& b[1]->BigIntArray_0.len() == n
            &&& b[2]->OptBigIntArray_0.len() == n
            &&& b[3]->BigIntArray_0.len() == n
            &&& b[4]->OptBigIntArray_0.len() == n
            &&& b[5]->TextArray_0.len() == n
        }),
    decreases edges.len(),
{
    if edges.len() > 0 {
        law_call_columns_line_up(project_id, edges.drop_last());
    }
}

pub const DELETE_SEMANTIC_EDGES_FOR_PROJECT_SQL: &'static str =
    "DELETE FROM code_graph_edges WHERE project_id = $1 AND edge_type = 'semantic'";

/// Deletes the edges between similar files of a project; other edges stay.
pub fn delete_semantic_edges_for_project(project_id: i32) -> (st: Statement)
    ensures
        st@ == executes(DELETE_SEMANTIC_EDGES_FOR_PROJECT_SQL@, seq![BindView::Int(project_id)]),
        opens(st@.sql, "DELETE FROM code_graph_edges"@),
        takes(st@, "project_id = "@, BindView::Int(project_id)),
{
    proof {
        delete_semantic_edges_for_project_text();
    }
    let st = Statement::execute(DELETE_SEMANTIC_EDGES_FOR_PROJECT_SQL).int4(project_id);
    assert(st@.sql == DELETE_SEMANTIC_EDGES_FOR_PROJECT_SQL@);
    st
}

pub const SEMANTIC_EDGES_1: &'static str = "WITH chunk_nn AS (
            SELECT c.file_id AS source_file_id,
                   nn.file_id AS target_file_id,
                   nn.similarity
            FROM file_chunks c
            JOIN indexed_files f ON f.id = c.file_id
            CROSS JOIN LATERAL (
                SELECT c2.file_id,
                       1 - (c2.";

pub const SEMANTIC_EDGES_2: &'static str = " <=> c.";

pub const SEMANTIC_EDGES_3: &'static str = ") AS similarity
                FROM file_chunks c2
                JOIN indexed_files f2 ON f2.id = c2.file_id
                WHERE f2.project_id = $1
                  AND c2.file_id <> c.file_id
                  AND c2.";

pub const SEMANTIC_EDGES_4: &'static str = " IS NOT NULL
                ORDER BY c2.";

pub const SEMANTIC_EDGES_5: &'static str = " <=> c.";

pub const SEMANTIC_EDGES_6: &'static str = "
                LIMIT $3
            ) nn
            WHERE f.project_id = $1
              AND c.";

pub const SEMANTIC_EDGES_7: &'static str = " IS NOT NULL
        ),
        file_pairs AS (
            SELECT source_file_id, target_file_id, MAX(similarity) AS weight
            FROM chunk_nn
            WHERE similarity >= $2
            GROUP BY source_file_id, target_file_id
        ),
        ranked AS (
            SELECT source_file_id, target_file_id, weight,
                   ROW_NUMBER() OVER (
                       PARTITION BY source_file_id ORDER BY weight DESC
                   ) AS rn
            FROM file_pairs
        )
        SELECT source_file_id, target_file_id, weight
        FROM ranked
        WHERE rn <= $4";

/// The query for the edges between similar files of a project, by the
/// embeddings in column `col`.
pub open spec fn semantic_edges_sql(col: Seq<char>) -> Seq<char> {
    SEMANTIC_EDGES_1@ + col + SEMANTIC_EDGES_2@ + col + SEMANTIC_EDGES_3@ + col
        + SEMANTIC_EDGES_4@ + col + SEMANTIC_EDGES_5@ + col + SEMANTIC_EDGES_6@ + col
        + SEMANTIC_EDGES_7@
}

fn write_semantic_edges_sql(col: &str) -> (r: String)
    ensures
        r@ == semantic_edges_sql(col@),
{
    let mut m = String::from_str(SEMANTIC_EDGES_1);
    m.append(col);
    m.append(SEMANTIC_EDGES_2);
    m.append(col);
    m.append(SEMANTIC_EDGES_3);
    m.append(col);
    m.append(SEMANTIC_EDGES_4);
    m.append(col);
    m.append(SEMANTIC_EDGES_5);
    m.append(col);
    m.append(SEMANTIC_EDGES_6);
    m.append(col);
    m.append(SEMANTIC_EDGES_7);
    m
}

pub const SEMANTIC_EDGES_TIMEOUT_SQL: &'static str = "SET LOCAL statement_timeout = '5min'";

pub const SEMANTIC_EDGES_NAME_SQL: &'static str =
    "SET LOCAL application_name = 'pgmcp:heavy:semantic-edges'";

/// The edges between similar files of a project, by the embeddings in column
/// `col`: each chunk looks at its `per_chunk_k` nearest ones in other files,
/// and each file keeps its `fanout_k` closest files. The caller supplies
/// value 0, the least similarity.
pub fn compute_semantic_file_edges(
    col: &str,
    project_id: i32,
    per_chunk_k: i32,
    fanout_k: i32,
    ef_search: i32,
) -> (r: TunedQuery)
    ensures
        r@ == (TunedView {
            settings: seq![
                sets_ef_search(ef_search),
                executes(SEMANTIC_EDGES_TIMEOUT_SQL@, seq![]),
                executes(SEMANTIC_EDGES_NAME_SQL@, seq![]),
            ],
            query: fetches_all(
                semantic_edges_sql(col@),
                seq![
                    BindView::Int(project_id),
                    BindView::Supplied(0),
                    BindView::Int(per_chunk_k),
                    BindView::Int(fanout_k),
                ],
            ),
        }),
        opens(r@.query.sql, "WITH"@),
        says(r@.query.sql, "FROM file_chunks"@),
        takes(r@.query, "f2.project_id = "@, BindView::Int(project_id)),
        says(r@.query.sql, "AND c2.file_id <> c.file_id"@),
        says(r@.query.sql, "AND c2."@),
        says(r@.query.sql, "ORDER BY c2."@),
        takes(r@.query, "f.project_id = "@, BindView::Int(project_id)),
        takes(r@.query, "LIMIT "@, BindView::Int(per_chunk_k)),
        says(r@.query.sql, "AND c."@),
        takes(r@.query, "similarity >= "@, BindView::Supplied(0)),
        takes(r@.query, "rn <= "@, BindView::Int(fanout_k)),
        says(r@.query.sql, "GROUP BY source_file_id, target_file_id"@),
        says(r@.query.sql, "ORDER BY weight DESC"@),
        says(r@.query.sql, "FROM chunk_nn"@),
{
    let settings: Vec<Statement> = vec![
        set_ef_search(ef_search),
        Statement::execute(SEMANTIC_EDGES_TIMEOUT_SQL),
        Statement::execute(SEMANTIC_EDGES_NAME_SQL),
    ];
    let query = Statement::all(write_semantic_edges_sql(col).as_str())
        .int4(project_id)
        .supplied(0)
        .int4(per_chunk_k)
        .int4(fanout_k);
    assert(statement_views(settings@) =~= seq![settings@[0]@, settings@[1]@, settings@[2]@]);
    assert(query@ =~= fetches_all(
        semantic_edges_sql(col@),
        seq![
            BindView::Int(project_id),
            BindView::Supplied(0),
            BindView::Int(per_chunk_k),
            BindView::Int(fanout_k),
        ],
    ));
    proof {
        semantic_edges_1_text();
        semantic_edges_2_text();
        semantic_edges_3_text();
        semantic_edges_4_text();
        semantic_edges_5_text();
        semantic_edges_6_text();
        semantic_edges_7_text();
        assert(query@.sql =~= SEMANTIC_EDGES_1@ + (col@ + SEMANTIC_EDGES_2@ + col@ + SEMANTIC_EDGES_3@ + col@ + SEMANTIC_EDGES_4@ + col@ + SEMANTIC_EDGES_5@ + col@ + SEMANTIC_EDGES_6@ + col@ + SEMANTIC_EDGES_7@));
        lemma_within(
            query@.sql,
            seq![],
            SEMANTIC_EDGES_1@,
            col@ + SEMANTIC_EDGES_2@ + col@ + SEMANTIC_EDGES_3@ + col@ + SEMANTIC_EDGES_4@ + col@ + SEMANTIC_EDGES_5@ + col@ + SEMANTIC_EDGES_6@ + col@ + SEMANTIC_EDGES_7@,
        );
        assert(query@.sql =~= (SEMANTIC_EDGES_1@ + col@ + SEMANTIC_EDGES_2@ + col@) + SEMANTIC_EDGES_3@ + (col@ + SEMANTIC_EDGES_4@ + col@ + SEMANTIC_EDGES_5@ + col@ + SEMANTIC_EDGES_6@ + col@ + SEMANTIC_EDGES_7@));
        lemma_within(
            query@.sql,
            SEMANTIC_EDGES_1@ + col@ + SEMANTIC_EDGES_2@ + col@,
            SEMANTIC_EDGES_3@,
            col@ + SEMANTIC_EDGES_4@ + col@ + SEMANTIC_EDGES_5@ + col@ + SEMANTIC_EDGES_6@ + col@ + SEMANTIC_EDGES_7@,
        );
        assert(query@.sql =~= (SEMANTIC_EDGES_1@ + col@ + SEMANTIC_EDGES_2@ + col@ + SEMANTIC_EDGES_3@ + col@) + SEMANTIC_EDGES_4@ + (col@ + SEMANTIC_EDGES_5@ + col@ + SEMANTIC_EDGES_6@ + col@ + SEMANTIC_EDGES_7@));
        lemma_within(
            query@.sql,
            SEMANTIC_EDGES_1@ + col@ + SEMANTIC_EDGES_2@ + col@ + SEMANTIC_EDGES_3@ + col@,
            SEMANTIC_EDGES_4@,
            col@ + SEMANTIC_EDGES_5@ + col@ + SEMANTIC_EDGES_6@ + col@ + SEMANTIC_EDGES_7@,
        );
        assert(query@.sql =~= (SEMANTIC_EDGES_1@ + col@ + SEMANTIC_EDGES_2@ + col@ + SEMANTIC_EDGES_3@ + col@ + SEMANTIC_EDGES_4@ + col@ + SEMANTIC_EDGES_5@ + col@) + SEMANTIC_EDGES_6@ + (col@ + SEMANTIC_EDGES_7@));
        lemma_within(
            query@.sql,
            SEMANTIC_EDGES_1@ + col@ + SEMANTIC_EDGES_2@ + col@ + SEMANTIC_EDGES_3@ + col@ + SEMANTIC_EDGES_4@ + col@ + SEMANTIC_EDGES_5@ + col@,
            SEMANTIC_EDGES_6@,
            col@ + SEMANTIC_EDGES_7@,
        );
        assert(query@.sql =~= (SEMANTIC_EDGES_1@ + col@ + SEMANTIC_EDGES_2@ + col@ + SEMANTIC_EDGES_3@ + col@ + SEMANTIC_EDGES_4@ + col@ + SEMANTIC_EDGES_5@ + col@ + SEMANTIC_EDGES_6@ + col@) + SEMANTIC_EDGES_7@);
        lemma_within(
            query@.sql,
            SEMANTIC_EDGES_1@ + col@ + SEMANTIC_EDGES_2@ + col@ + SEMANTIC_EDGES_3@ + col@ + SEMANTIC_EDGES_4@ + col@ + SEMANTIC_EDGES_5@ + col@ + SEMANTIC_EDGES_6@ + col@,
            SEMANTIC_EDGES_7@,
            seq![],
        );
    }
    TunedQuery { settings, query }
}

/// An edge between similar files. Its weight stays with the caller.
#[derive(Debug, Clone, Copy, PartialEq, Eq, Structural)]
pub struct SemanticFileEdge {
    pub source_file_id: i64,
    pub target_file_id: i64,
}

pub const BULK_INSERT_SEMANTIC_EDGES_SQL: &'static str = "INSERT INTO code_graph_edges
            (project_id, source_file_id, target_file_id, edge_type, target_raw, weight, computed_at)
         SELECT u.project_id, u.source_file_id, u.target_file_id, 'semantic', NULL, u.weight, NOW()
         FROM UNNEST($1::int4[], $2::int8[], $3::int8[], $4::float8[])
             AS u(project_id, source_file_id, target_file_id, weight)
         ON CONFLICT (source_file_id, COALESCE(target_file_id, -1::BIGINT), edge_type, COALESCE(target_raw, '')) DO NOTHING";

/// Storing edges between similar files, column by column.
pub open spec fn stores_semantic_edges(
    project_id: i32,
    edges: Seq<SemanticFileEdge>,
) -> StatementView {
    executes(
        BULK_INSERT_SEMANTIC_EDGES_SQL@,
        seq![
            BindView::IntArray(edges.map_values(|r: SemanticFileEdge| project_id)),
            BindView::BigIntArray(edges.map_values(|r: SemanticFileEdge| r.source_file_id)),
            BindView::BigIntArray(edges.map_values(|r: SemanticFileEdge| r.target_file_id)),
            BindView::Supplied(0),
        ],
    )
}

/// Stores edges between similar files. No edges: nothing to send. The caller
/// supplies value 0, the weights as a column in the order of the edges.
pub fn bulk_insert_semantic_edges(project_id: i32, edges: &[SemanticFileEdge]) -> (r: Option<
    Statement,
>)
    ensures
        r is None <==> edges.len() == 0,
        r matches Some(st) ==> st@ == stores_semantic_edges(project_id, edges@),
        r matches Some(st) ==> opens(st@.sql, "INSERT INTO code_graph_edges"@),
        r matches Some(st) ==> fills(
            st@,
            "AS u"@,
            "project_id"@,
            "UNNEST("@,
            BindView::IntArray(edges@.map_values(|r: SemanticFileEdge| project_id)),
        ),
        r matches Some(st) ==> fills(
            st@,
            "AS u"@,
            "source_file_id"@,
            "UNNEST("@,
            BindView::BigIntArray(edges@.map_values(|r: SemanticFileEdge| r.source_file_id)),
        ),
        r matches Some(st) ==> fills(
            st@,
            "AS u"@,
            "target_file_id"@,
            "UNNEST("@,
            BindView::BigIntArray(edges@.map_values(|r: SemanticFileEdge| r.target_file_id)),
        ),
        r matches Some(st) ==> fills(st@, "AS u"@, "weight"@, "UNNEST("@, BindView::Supplied(0)),
{
    proof {
        law_stores_semantic_edges_stands_for_its_values(project_id, edges@);
    }
    if edges.len() == 0 {
        return None;
    }
    let mut projects: Vec<i32> = Vec::new();
    let mut sources: Vec<i64> = Vec::new();
    let mut targets: Vec<i64> = Vec::new();
    let mut i: usize = 0;
    while i < edges.len()
        invariant
            i <= edges.len(),
            projects.len() == i,
            forall|j: int| 0 <= j < i ==> #[trigger] projects@[j] == project_id,
            sources.len() == i,
            forall|j: int| 0 <= j < i ==> #[trigger] sources@[j] == edges@[j].source_file_id,
            targets.len() == i,
            forall|j: int| 0 <= j < i ==> #[trigger] targets@[j] == edges@[j].target_file_id,
        decreases edges.len() - i,
    {
        projects.push(project_id);
        sources.push(edges[i].source_file_id);
        targets.push(edges[i].target_file_id);
        i = i + 1;
    }
    assert(projects@ =~= edges@.map_values(|r: SemanticFileEdge| project_id));
    assert(sources@ =~= edges@.map_values(|r: SemanticFileEdge| r.source_file_id));
    assert(targets@ =~= edges@.map_values(|r: SemanticFileEdge| r.target_file_id));
    let st = Statement::execute(BULK_INSERT_SEMANTIC_EDGES_SQL)
        .bind(Bind::IntArray(projects))
        .bind(Bind::BigIntArray(sources))
        .bind(Bind::BigIntArray(targets))
        .supplied(0);
    assert(st@ =~= stores_semantic_edges(project_id, edges@));
    Some(st)
}

pub const SEED_FILES_1: &'static str = "SELECT file_id, MAX(sim)::float8 AS sim FROM (
            SELECT c.file_id, (1.0 - (c.";

pub const SEED_FILES_2: &'static str = " <=> $1)) AS sim
            FROM file_chunks c
            JOIN indexed_files f ON f.id = c.file_id
            WHERE f.project_id = $2 AND c.";

pub const SEED_FILES_3: &'static str = " IS NOT NULL
            ORDER BY c.";

pub const SEED_FILES_4: &'static str = " <=> $1
            LIMIT $3
         ) t
         GROUP BY file_id
         ORDER BY sim DESC";

/// The query for the files of a project with the chunks closest to an
/// embedding, by the embeddings in column `col`.
pub open spec fn seed_files_sql(col: Seq<char>) -> Seq<char> {
    SEED_FILES_1@ + col + SEED_FILES_2@ + col + SEED_FILES_3@ + col + SEED_FILES_4@
}

fn write_seed_files_sql(col: &str) -> (r: String)
    ensures
        r@ == seed_files_sql(col@),
{
    let mut m = String::from_str(SEED_FILES_1);
    m.append(col);
    m.append(SEED_FILES_2);
    m.append(col);
    m.append(SEED_FILES_3);
    m.append(col);
    m.append(SEED_FILES_4);
    m
}

/// The files of a project with the chunks closest to an embedding. The caller
/// supplies value 0, the embedding, of dimension `dim`.
pub fn ppr_seed_files(dim: usize, project_id: i32, limit: i32, ef_search: i32) -> (r: Result<
    TunedQuery,
    ProtocolError,
>)
    ensures
        match (r, column_for(dim)) {
            (Ok(q), Ok(col)) => q@ == tuned(
                ef_search,
                fetches_all(
                    seed_files_sql(col),
                    seq![BindView::Supplied(0), BindView::Int(project_id), BindView::Int(limit)],
                ),
            ),
            (Err(e), Err(message)) => e@ == message,
            _ => false,
        },
{
    match embedding_column_for_dim(dim) {
        Ok(col) => {
            let query = Statement::all(write_seed_files_sql(col).as_str())
                .supplied(0)
                .int4(project_id)
                .int4(limit);
            assert(query@ =~= fetches_all(
                seed_files_sql(col@),
                seq![BindView::Supplied(0), BindView::Int(project_id), BindView::Int(limit)],
            ));
            Ok(tune(ef_search, query))
        },
        Err(e) => Err(e),
    }
}

pub const CODE_RAPTOR_SEARCH_SQL: &'static str = "SELECT p.name AS project_name, t.summary_text, t.member_count,
                t.member_paths, t.top_topics,
                (1.0 - (t.summary_embedding <=> $1))::float8 AS similarity
         FROM code_summary_tree t
         JOIN projects p ON p.id = t.project_id
         WHERE ($2::text IS NULL OR p.name = $2)
         ORDER BY t.summary_embedding <=> $1
         LIMIT $3";

pub const CODE_RAPTOR_SEARCH_REFUSAL: &'static str =
    "code_raptor_search: expected 1024-d (BGE-M3) embedding, got ";

/// Summaries of code by similarity to a query, optionally of one project. The
/// caller supplies value 0, the embedding, of dimension `dim`.
pub fn code_raptor_search(dim: usize, project: Option<&str>, k: i32) -> (r: Result<
    Statement,
    ProtocolError,
>)
    ensures
        r is Ok <==> dim == EMBEDDING_DIM,
        r matches Err(e) ==> e@ == dimension_refusal(CODE_RAPTOR_SEARCH_REFUSAL@, dim),
        r matches Ok(st) ==> st@ == fetches_all(
            CODE_RAPTOR_SEARCH_SQL@,
            seq![BindView::Supplied(0), BindView::OptText(opt_str(project)), BindView::Int(k)],
        ),
        r matches Ok(st) ==> opens(st@.sql, "SELECT"@),
        r matches Ok(st) ==> takes(st@, "t.summary_embedding <=> "@, BindView::Supplied(0)),
        r matches Ok(st) ==> takes(st@, "p.name = "@, BindView::OptText(opt_str(project))),
        r matches Ok(st) ==> takes(st@, "LIMIT "@, BindView::Int(k)),
        r matches Ok(st) ==> says(st@.sql, "FROM code_summary_tree"@),
{
    proof {
        code_raptor_search_text();
    }
    match require_dimension(dim, CODE_RAPTOR_SEARCH_REFUSAL) {
        Ok(_) => {},
        Err(e) => return Err(e),
    }
    let st = Statement::all(CODE_RAPTOR_SEARCH_SQL).supplied(0).opt_text(project).int4(k);
    assert(st@.sql == CODE_RAPTOR_SEARCH_SQL@);
    Ok(st)
}

pub const CK_CLASS_ROWS_SQL: &'static str = "SELECT c.id AS symbol_id, c.name, f.relative_path,
                COUNT(DISTINCT m.id) AS method_count,
                COALESCE((SELECT SUM(fm.cyclomatic)
                            FROM file_symbols cm
                            JOIN function_metrics fm ON fm.function_id = cm.id
                           WHERE cm.parent_id = c.id), 0)::int8 AS wmc,
                COUNT(DISTINCT sr.target_raw)
                    FILTER (WHERE sr.ref_kind = 'call') AS distinct_callees,
                COUNT(DISTINCT sr.target_file_id)
                    FILTER (WHERE sr.ref_kind = 'call' AND sr.target_file_id IS NOT NULL) AS cbo
         FROM file_symbols c
         JOIN indexed_files f ON f.id = c.file_id
         LEFT JOIN file_symbols m ON m.parent_id = c.id
         LEFT JOIN symbol_references sr ON sr.source_symbol_id = m.id
         WHERE f.project_id = $1
           AND c.kind IN ('class', 'struct', 'interface', 'trait', 'enum')
         GROUP BY c.id, c.name, f.relative_path";

/// The metrics of the classes of a project. The complexity of a method counts
/// once towards its class, however many references the method holds.
pub fn ck_class_rows(project_id: i32) -> (st: Statement)
    ensures
        st@ == fetches_all(CK_CLASS_ROWS_SQL@, seq![BindView::Int(project_id)]),
        opens(st@.sql, "SELECT"@),
        takes(st@, "f.project_id = "@, BindView::Int(project_id)),
        says(st@.sql, "WHERE cm.parent_id = c.id), 0)::int8 AS wmc,"@),
        says(st@.sql, "AND c.kind IN ('class', 'struct', 'interface', 'trait', 'enum')"@),
        says(st@.sql, "GROUP BY c.id, c.name, f.relative_path"@),
        says(st@.sql, "FROM file_symbols"@),
{
    proof {
        ck_class_rows_text();
    }
    let st = Statement::all(CK_CLASS_ROWS_SQL).int4(project_id);
    assert(st@.sql == CK_CLASS_ROWS_SQL@);
    st
}

pub const CK_INHERITANCE_EDGES_SQL: &'static str = "SELECT sr.source_symbol_id, sr.target_symbol_id
         FROM symbol_references sr
         JOIN indexed_files f ON f.id = sr.source_file_id
         WHERE f.project_id = $1
           AND sr.ref_kind IN ('inherit', 'impl')
           AND sr.source_symbol_id IS NOT NULL
           AND sr.target_symbol_id IS NOT NULL";

/// Pairs of a class of a project and one that it inherits from or implements.
pub fn ck_inheritance_edges(project_id: i32) -> (st: Statement)
    ensures
        st@ == fetches_all(CK_INHERITANCE_EDGES_SQL@, seq![BindView::Int(project_id)]),
        opens(st@.sql, "SELECT"@),
        takes(st@, "f.project_id = "@, BindView::Int(project_id)),
        says(st@.sql, "AND sr.ref_kind IN ('inherit', 'impl')"@),
        says(st@.sql, "AND sr.source_symbol_id IS NOT NULL"@),
        says(st@.sql, "AND sr.target_symbol_id IS NOT NULL"@),
        says(st@.sql, "FROM symbol_references"@),
{
    proof {
        ck_inheritance_edges_text();
    }
    let st = Statement::all(CK_INHERITANCE_EDGES_SQL).int4(project_id);
    assert(st@.sql == CK_INHERITANCE_EDGES_SQL@);
    st
}

pub const UPDATE_FUNCTION_FAN_IO_SQL: &'static str = "UPDATE function_metrics
         SET fan_in = u.fan_in, fan_out = u.fan_out
         FROM UNNEST($1::int8[], $2::int4[], $3::int4[]) AS u(function_id, fan_in, fan_out)
         WHERE function_metrics.function_id = u.function_id";

/// Updating fan-in and fan-out of functions, column by column.
pub open spec fn updates_fan_io(triples: Seq<(i64, i32, i32)>) -> StatementView {
    executes(
        UPDATE_FUNCTION_FAN_IO_SQL@,
        seq![
            BindView::BigIntArray(triples.map_values(|r: (i64, i32, i32)| r.0)),
            BindView::IntArray(triples.map_values(|r: (i64, i32, i32)| r.1)),
            BindView::IntArray(triples.map_values(|r: (i64, i32, i32)| r.2)),
        ],
    )
}

/// Updates functions, each given by its id, fan-in and fan-out. No rows:
/// nothing to send.
pub fn update_function_fan_io(triples: &[(i64, i32, i32)]) -> (r: Option<Statement>)
    ensures
        r is None <==> triples.len() == 0,
        r matches Some(st) ==> st@ == updates_fan_io(triples@),
        r matches Some(st) ==> opens(st@.sql, "UPDATE function_metrics"@),
        r matches Some(st) ==> fills(
            st@,
            "AS u"@,
            "function_id"@,
            "UNNEST("@,
            BindView::BigIntArray(triples@.map_values(|r: (i64, i32, i32)| r.0)),
        ),
        r matches Some(st) ==> fills(
            st@,
            "AS u"@,
            "fan_in"@,
            "UNNEST("@,
            BindView::IntArray(triples@.map_values(|r: (i64, i32, i32)| r.1)),
        ),
        r matches Some(st) ==> fills(
            st@,
            "AS u"@,
            "fan_out"@,
            "UNNEST("@,
            BindView::IntArray(triples@.map_values(|r: (i64, i32, i32)| r.2)),
        ),
{
    proof {
        law_updates_fan_io_stands_for_its_values(triples@);
    }
    if triples.len() == 0 {
        return None;
    }
    let mut ids: Vec<i64> = Vec::new();
    let mut fan_in: Vec<i32> = Vec::new();
    let mut fan_out: Vec<i32> = Vec::new();
    let mut i: usize = 0;
    while i < triples.len()
        invariant
            i <= triples.len(),
            ids.len() == i,
            forall|j: int| 0 <= j < i ==> #[trigger] ids@[j] == triples@[j].0,
            fan_in.len() == i,
            forall|j: int| 0 <= j < i ==> #[trigger] fan_in@[j] == triples@[j].1,
            fan_out.len() == i,
            forall|j: int| 0 <= j < i ==> #[trigger] fan_out@[j] == triples@[j].2,
        decreases triples.len() - i,
    {
        ids.push(triples[i].0);
        fan_in.push(triples[i].1);
        fan_out.push(triples[i].2);
        i = i + 1;
    }
    assert(ids@ =~= triples@.map_values(|r: (i64, i32, i32)| r.0));
    assert(fan_in@ =~= triples@.map_values(|r: (i64, i32, i32)| r.1));
    assert(fan_out@ =~= triples@.map_values(|r: (i64, i32, i32)| r.2));
    let st = Statement::execute(UPDATE_FUNCTION_FAN_IO_SQL)
        .bind(Bind::BigIntArray(ids))
        .bind(Bind::IntArray(fan_in))
        .bind(Bind::IntArray(fan_out));
    assert(st@ =~= updates_fan_io(triples@));
    Some(st)
}

pub const UPDATE_FUNCTION_CENTRALITIES_SQL: &'static str = "UPDATE function_metrics
         SET pagerank = u.pagerank,
             betweenness = u.betweenness,
             community_id = u.community_id,
             coreness = u.coreness,
             harmonic = u.harmonic
         FROM UNNEST($1::int8[], $2::float8[], $3::float8[], $4::int4[], $5::int4[], $6::float8[])
              AS u(function_id, pagerank, betweenness, community_id, coreness, harmonic)
         WHERE function_metrics.function_id = u.function_id";

/// Updating the centralities of functions, column by column.
pub open spec fn updates_centralities(rows: Seq<(i64, i32, i32)>) -> StatementView {
    executes(
        UPDATE_FUNCTION_CENTRALITIES_SQL@,
        seq![
            BindView::BigIntArray(rows.map_values(|r: (i64, i32, i32)| r.0)),
            BindView::Supplied(0),
            BindView::Supplied(1),
            BindView::IntArray(rows.map_values(|r: (i64, i32, i32)| r.1)),
            BindView::IntArray(rows.map_values(|r: (i64, i32, i32)| r.2)),
            BindView::Supplied(2),
        ],
    )
}

/// Updates functions, each given by its id, community and coreness. No rows:
/// nothing to send. The caller supplies, each as a column in row order,
/// values 0 to 2: rank, betweenness and harmonic centrality.
pub fn update_function_centralities(rows: &[(i64, i32, i32)]) -> (r: Option<Statement>)
    ensures
        r is None <==> rows.len() == 0,
        r matches Some(st) ==> st@ == updates_centralities(rows@),
        r matches Some(st) ==> opens(st@.sql, "UPDATE function_metrics"@),
        r matches Some(st) ==> fills(
            st@,
            "AS u"@,
            "function_id"@,
            "UNNEST("@,
            BindView::BigIntArray(rows@.map_values(|r: (i64, i32, i32)| r.0)),
        ),
        r matches Some(st) ==> fills(st@, "AS u"@, "pagerank"@, "UNNEST("@, BindView::Supplied(0)),
        r matches Some(st) ==> fills(
            st@,
            "AS u"@,
            "betweenness"@,
            "UNNEST("@,
            BindView::Supplied(1),
        ),
        r matches Some(st) ==> fills(
            st@,
            "AS u"@,
            "community_id"@,
            "UNNEST("@,
            BindView::IntArray(rows@.map_values(|r: (i64, i32, i32)| r.1)),
        ),
        r matches Some(st) ==> fills(
            st@,
            "AS u"@,
            "coreness"@,
            "UNNEST("@,
            BindView::IntArray(rows@.map_values(|r: (i64, i32, i32)| r.2)),
        ),
        r matches Some(st) ==> fills(st@, "AS u"@, "harmonic"@, "UNNEST("@, BindView::Supplied(2)),
{
    proof {
        law_updates_centralities_stands_for_its_values(rows@);
    }
    if rows.len() == 0 {
        return None;
    }
    let mut ids: Vec<i64> = Vec::new();
    let mut communities: Vec<i32> = Vec::new();
    let mut coreness: Vec<i32> = Vec::new();
    let mut i: usize = 0;
    while i < rows.len()
        invariant
            i <= rows.len(),
            ids.len() == i,
            forall|j: int| 0 <= j < i ==> #[trigger] ids@[j] == rows@[j].0,
            communities.len() == i,
            forall|j: int| 0 <= j < i ==> #[trigger] communities@[j] == rows@[j].1,
            coreness.len() == i,
            forall|j: int| 0 <= j < i ==> #[trigger] coreness@[j] == rows@[j].2,
        decreases rows.len() - i,
    {
        ids.push(rows[i].0);
        communities.push(rows[i].1);
        coreness.push(rows[i].2);
        i = i + 1;
    }
    assert(ids@ =~= rows@.map_values(|r: (i64, i32, i32)| r.0));
    assert(communities@ =~= rows@.map_values(|r: (i64, i32, i32)| r.1));
    assert(coreness@ =~= rows@.map_values(|r: (i64, i32, i32)| r.2));
    let st = Statement::execute(UPDATE_FUNCTION_CENTRALITIES_SQL)
        .bind(Bind::BigIntArray(ids))
        .supplied(0)
        .supplied(1)
        .bind(Bind::IntArray(communities))
        .bind(Bind::IntArray(coreness))
        .supplied(2);
    assert(st@ =~= updates_centralities(rows@));
    Some(st)
}

pub const CALL_GRAPH_KEY: &'static str = "call_graph_last_run:";

/// When the calls of a project were last computed, as a stored text.
pub fn get_call_graph_watermark(project_id: i32) -> (st: Statement)
    ensures
        st@ == reads(project_key(CALL_GRAPH_KEY@, project_id)),
        opens(st@.sql, "SELECT"@),
        takes(
            st@,
            "key = "@,
            BindView::Text("call_graph_last_run:"@ + decimal_text(project_id as int)),
        ),
{
    proof {
        law_reads_stands_for_its_values(project_key(CALL_GRAPH_KEY@, project_id));
    }
    read_metadata(key_for_project(CALL_GRAPH_KEY, project_id).as_str())
}

/// Records when the calls of a project were last computed, at a moment given
/// as seconds since the start of 1970 and nanoseconds on top. In the years 0
/// to 9999 every moment outside a leap second is read back as it was.
pub fn set_call_graph_watermark(project_id: i32, secs: i64, nanos: u32) -> (r: Option<Statement>)
    ensures
        match rfc3339_text(secs, nanos) {
            Some(t) => r matches Some(st) && st@ == writes(
                project_key(CALL_GRAPH_KEY@, project_id),
                t,
            ),
            None => r is None,
        },
        four_digit_year(secs) && nanos < 1_000_000_000 ==> reads_back(
            rfc3339_text(secs, nanos),
            secs,
            nanos,
        ),
        r matches Some(st) ==> fills(
            st@,
            "INSERT INTO pgmcp_metadata"@,
            "key"@,
            "VALUES ("@,
            BindView::Text("call_graph_last_run:"@ + decimal_text(project_id as int)),
        ),
        r matches Some(st) ==> fills(
            st@,
            "INSERT INTO pgmcp_metadata"@,
            "value"@,
            "VALUES ("@,
            BindView::Text(rfc3339_text(secs, nanos)->0),
        ),
{
    match moment_to_store(secs, nanos) {
        Some(t) => Some(
            write_metadata(key_for_project(CALL_GRAPH_KEY, project_id).as_str(), t.as_str()),
        ),
        None => None,
    }
}

} // verus!
