//! What the statements of `graph` say.
use vstd::prelude::*;

use crate::meaning::{
    ends_plainly, fills, item, lined_up_at, lines_up, mentions, opens, part_at, past, past_blanks,
    says,
};
use crate::queries::graph::{
    stores_calls, stores_metrics, stores_semantic_edges, updates_centralities, updates_fan_io,
    CallView, FunctionMetricsRow, SemanticFileEdge, BULK_INSERT_CALL_EDGES_SQL,
    BULK_INSERT_SEMANTIC_EDGES_SQL, CK_CLASS_ROWS_SQL, CK_INHERITANCE_EDGES_SQL,
    CODE_RAPTOR_SEARCH_SQL, DELETE_CALL_EDGES_FOR_PROJECT_SQL,
    DELETE_SEMANTIC_EDGES_FOR_PROJECT_SQL, LIST_CALL_EDGES_FOR_PROJECT_SQL,
    LIST_FUNCTION_NODES_FOR_PROJECT_SQL, PROJECT_MISSING_FUNCTION_METRICS_SQL, SEED_FILES_1,
    SEED_FILES_2, SEED_FILES_3, SEED_FILES_4, SEMANTIC_EDGES_1, SEMANTIC_EDGES_2, SEMANTIC_EDGES_3,
    SEMANTIC_EDGES_4, SEMANTIC_EDGES_5, SEMANTIC_EDGES_6, SEMANTIC_EDGES_7,
    UPDATE_FUNCTION_CENTRALITIES_SQL, UPDATE_FUNCTION_FAN_IO_SQL, UPSERT_FUNCTION_METRICS_BATCH_SQL,
};
use crate::statement::BindView;

verus! {

/// What the text of [`UPSERT_FUNCTION_METRICS_BATCH_SQL`] says.
#[verifier::rlimit(100)]
pub proof fn upsert_function_metrics_batch_text()
    ensures
        opens(UPSERT_FUNCTION_METRICS_BATCH_SQL@, "INSERT INTO function_metrics"@),
        lines_up(UPSERT_FUNCTION_METRICS_BATCH_SQL@, "AS u"@, "function_id"@, "UNNEST("@, 1),
        lines_up(UPSERT_FUNCTION_METRICS_BATCH_SQL@, "AS u"@, "file_id"@, "UNNEST("@, 2),
        lines_up(UPSERT_FUNCTION_METRICS_BATCH_SQL@, "AS u"@, "project_id"@, "UNNEST("@, 3),
        lines_up(UPSERT_FUNCTION_METRICS_BATCH_SQL@, "AS u"@, "cyclomatic"@, "UNNEST("@, 4),
        lines_up(UPSERT_FUNCTION_METRICS_BATCH_SQL@, "AS u"@, "cognitive"@, "UNNEST("@, 5),
        lines_up(UPSERT_FUNCTION_METRICS_BATCH_SQL@, "AS u"@, "halstead_n1"@, "UNNEST("@, 6),
        lines_up(UPSERT_FUNCTION_METRICS_BATCH_SQL@, "AS u"@, "halstead_n2"@, "UNNEST("@, 7),
        lines_up(UPSERT_FUNCTION_METRICS_BATCH_SQL@, "AS u"@, "halstead_big_n1"@, "UNNEST("@, 8),
        lines_up(UPSERT_FUNCTION_METRICS_BATCH_SQL@, "AS u"@, "halstead_big_n2"@, "UNNEST("@, 9),
        lines_up(UPSERT_FUNCTION_METRICS_BATCH_SQL@, "AS u"@, "halstead_volume"@, "UNNEST("@, 10),
        lines_up(
            UPSERT_FUNCTION_METRICS_BATCH_SQL@,
            "AS u"@,
            "halstead_difficulty"@,
            "UNNEST("@,
            11,
        ),
        lines_up(UPSERT_FUNCTION_METRICS_BATCH_SQL@, "AS u"@, "halstead_effort"@, "UNNEST("@, 12),
        lines_up(UPSERT_FUNCTION_METRICS_BATCH_SQL@, "AS u"@, "halstead_bugs"@, "UNNEST("@, 13),
        lines_up(UPSERT_FUNCTION_METRICS_BATCH_SQL@, "AS u"@, "npath"@, "UNNEST("@, 14),
        lines_up(UPSERT_FUNCTION_METRICS_BATCH_SQL@, "AS u"@, "npath_overflow"@, "UNNEST("@, 15),
        lines_up(UPSERT_FUNCTION_METRICS_BATCH_SQL@, "AS u"@, "loc"@, "UNNEST("@, 16),
        lines_up(UPSERT_FUNCTION_METRICS_BATCH_SQL@, "AS u"@, "comment_lines"@, "UNNEST("@, 17),
        lines_up(
            UPSERT_FUNCTION_METRICS_BATCH_SQL@,
            "AS u"@,
            "maintainability_index"@,
            "UNNEST("@,
            18,
        ),
        lines_up(UPSERT_FUNCTION_METRICS_BATCH_SQL@, "AS u"@, "panic_paths"@, "UNNEST("@, 19),
        lines_up(UPSERT_FUNCTION_METRICS_BATCH_SQL@, "AS u"@, "unsafe_blocks"@, "UNNEST("@, 20),
        says(UPSERT_FUNCTION_METRICS_BATCH_SQL@, "ON CONFLICT (function_id) DO UPDATE SET"@),
        says(UPSERT_FUNCTION_METRICS_BATCH_SQL@, "FROM UNNEST"@),
        says(UPSERT_FUNCTION_METRICS_BATCH_SQL@, "file_id = EXCLUDED.file_id"@),
        says(UPSERT_FUNCTION_METRICS_BATCH_SQL@, "project_id = EXCLUDED.project_id"@),
        says(UPSERT_FUNCTION_METRICS_BATCH_SQL@, "cyclomatic = EXCLUDED.cyclomatic"@),
        says(UPSERT_FUNCTION_METRICS_BATCH_SQL@, "cognitive = EXCLUDED.cognitive"@),
        says(UPSERT_FUNCTION_METRICS_BATCH_SQL@, "halstead_n1 = EXCLUDED.halstead_n1"@),
        says(UPSERT_FUNCTION_METRICS_BATCH_SQL@, "halstead_n2 = EXCLUDED.halstead_n2"@),
        says(UPSERT_FUNCTION_METRICS_BATCH_SQL@, "halstead_big_n1 = EXCLUDED.halstead_big_n1"@),
        says(UPSERT_FUNCTION_METRICS_BATCH_SQL@, "halstead_big_n2 = EXCLUDED.halstead_big_n2"@),
        says(UPSERT_FUNCTION_METRICS_BATCH_SQL@, "halstead_volume = EXCLUDED.halstead_volume"@),
        says(
            UPSERT_FUNCTION_METRICS_BATCH_SQL@,
            "halstead_difficulty = EXCLUDED.halstead_difficulty"@,
        ),
        says(UPSERT_FUNCTION_METRICS_BATCH_SQL@, "halstead_effort = EXCLUDED.halstead_effort"@),
        says(UPSERT_FUNCTION_METRICS_BATCH_SQL@, "halstead_bugs = EXCLUDED.halstead_bugs"@),
        says(UPSERT_FUNCTION_METRICS_BATCH_SQL@, "npath = EXCLUDED.npath"@),
        says(UPSERT_FUNCTION_METRICS_BATCH_SQL@, "npath_overflow = EXCLUDED.npath_overflow"@),
        says(UPSERT_FUNCTION_METRICS_BATCH_SQL@, "loc = EXCLUDED.loc"@),
        says(UPSERT_FUNCTION_METRICS_BATCH_SQL@, "comment_lines = EXCLUDED.comment_lines"@),
        says(
            UPSERT_FUNCTION_METRICS_BATCH_SQL@,
            "maintainability_index = EXCLUDED.maintainability_index"@,
        ),
        says(UPSERT_FUNCTION_METRICS_BATCH_SQL@, "panic_paths = EXCLUDED.panic_paths"@),
        says(UPSERT_FUNCTION_METRICS_BATCH_SQL@, "unsafe_blocks = EXCLUDED.unsafe_blocks"@),
{
    reveal_strlit(
        "INSERT INTO function_metrics (
            function_id, file_id, project_id,
            cyclomatic, cognitive,
            halstead_n1, halstead_n2, halstead_big_n1, halstead_big_n2,
            halstead_volume, halstead_difficulty, halstead_effort, halstead_bugs,
            npath, npath_overflow,
            loc, comment_lines,
            maintainability_index,
            panic_paths, unsafe_blocks,
            computed_at
        )
        SELECT * FROM UNNEST(
            $1::int8[], $2::int8[], $3::int4[],
            $4::int4[], $5::int4[],
            $6::int4[], $7::int4[], $8::int4[], $9::int4[],
            $10::float8[], $11::float8[], $12::float8[], $13::float8[],
            $14::int8[], $15::bool[],
            $16::int4[], $17::int4[],
            $18::float8[],
            $19::int4[], $20::int4[]
        ) AS u(
            function_id, file_id, project_id,
            cyclomatic, cognitive,
            halstead_n1, halstead_n2, halstead_big_n1, halstead_big_n2,
            halstead_volume, halstead_difficulty, halstead_effort, halstead_bugs,
            npath, npath_overflow,
            loc, comment_lines,
            maintainability_index,
            panic_paths, unsafe_blocks
        ), (SELECT NOW())
        ON CONFLICT (function_id) DO UPDATE SET
            file_id = EXCLUDED.file_id,
            project_id = EXCLUDED.project_id,
            cyclomatic = EXCLUDED.cyclomatic,
            cognitive = EXCLUDED.cognitive,
            halstead_n1 = EXCLUDED.halstead_n1,
            halstead_n2 = EXCLUDED.halstead_n2,
            halstead_big_n1 = EXCLUDED.halstead_big_n1,
            halstead_big_n2 = EXCLUDED.halstead_big_n2,
            halstead_volume = EXCLUDED.halstead_volume,
            halstead_difficulty = EXCLUDED.halstead_difficulty,
            halstead_effort = EXCLUDED.halstead_effort,
            halstead_bugs = EXCLUDED.halstead_bugs,
            npath = EXCLUDED.npath,
            npath_overflow = EXCLUDED.npath_overflow,
            loc = EXCLUDED.loc,
            comment_lines = EXCLUDED.comment_lines,
            maintainability_index = EXCLUDED.maintainability_index,
            panic_paths = EXCLUDED.panic_paths,
            unsafe_blocks = EXCLUDED.unsafe_blocks,
            computed_at = NOW()",
    );
    reveal_strlit("AS u");
    reveal_strlit("FROM UNNEST");
    reveal_strlit("INSERT INTO function_metrics");
    reveal_strlit("ON CONFLICT (function_id) DO UPDATE SET");
    reveal_strlit("UNNEST(");
    reveal_strlit("cognitive");
    reveal_strlit("cognitive = EXCLUDED.cognitive");
    reveal_strlit("comment_lines");
    reveal_strlit("comment_lines = EXCLUDED.comment_lines");
    reveal_strlit("cyclomatic");
    reveal_strlit("cyclomatic = EXCLUDED.cyclomatic");
    reveal_strlit("file_id");
    reveal_strlit("file_id = EXCLUDED.file_id");
    reveal_strlit("function_id");
    reveal_strlit("halstead_big_n1");
    reveal_strlit("halstead_big_n1 = EXCLUDED.halstead_big_n1");
    reveal_strlit("halstead_big_n2");
    reveal_strlit("halstead_big_n2 = EXCLUDED.halstead_big_n2");
    reveal_strlit("halstead_bugs");
    reveal_strlit("halstead_bugs = EXCLUDED.halstead_bugs");
    reveal_strlit("halstead_difficulty");
    reveal_strlit("halstead_difficulty = EXCLUDED.halstead_difficulty");
    reveal_strlit("halstead_effort");
    reveal_strlit("halstead_effort = EXCLUDED.halstead_effort");
    reveal_strlit("halstead_n1");
    reveal_strlit("halstead_n1 = EXCLUDED.halstead_n1");
    reveal_strlit("halstead_n2");
    reveal_strlit("halstead_n2 = EXCLUDED.halstead_n2");
    reveal_strlit("halstead_volume");
    reveal_strlit("halstead_volume = EXCLUDED.halstead_volume");
    reveal_strlit("loc");
    reveal_strlit("loc = EXCLUDED.loc");
    reveal_strlit("maintainability_index");
    reveal_strlit("maintainability_index = EXCLUDED.maintainability_index");
    reveal_strlit("npath");
    reveal_strlit("npath = EXCLUDED.npath");
    reveal_strlit("npath_overflow");
    reveal_strlit("npath_overflow = EXCLUDED.npath_overflow");
    reveal_strlit("panic_paths");
    reveal_strlit("panic_paths = EXCLUDED.panic_paths");
    reveal_strlit("project_id");
    reveal_strlit("project_id = EXCLUDED.project_id");
    reveal_strlit("unsafe_blocks");
    reveal_strlit("unsafe_blocks = EXCLUDED.unsafe_blocks");
    let t = UPSERT_FUNCTION_METRICS_BATCH_SQL@;
    assert(part_at(t, 0, "INSERT INTO function_metrics"@));
    reveal_with_fuel(past, 23);
    reveal_with_fuel(past_blanks, 14);
    assert(past(t, 842, '(') == 843);
    assert(item(t, 843, 0) == 856);
    assert(item(t, 843, 1) == 869);
    assert(item(t, 843, 2) == 878);
    assert(item(t, 843, 3) == 902);
    assert(item(t, 843, 4) == 914);
    assert(item(t, 843, 5) == 937);
    assert(item(t, 843, 6) == 950);
    assert(item(t, 843, 7) == 963);
    assert(item(t, 843, 8) == 980);
    assert(item(t, 843, 9) == 1009);
    assert(item(t, 843, 10) == 1026);
    assert(item(t, 843, 11) == 1047);
    assert(item(t, 843, 12) == 1064);
    assert(item(t, 843, 13) == 1091);
    assert(item(t, 843, 14) == 1098);
    assert(item(t, 843, 15) == 1126);
    assert(item(t, 843, 16) == 1131);
    assert(item(t, 843, 17) == 1158);
    assert(item(t, 843, 18) == 1193);
    assert(item(t, 843, 19) == 1206);
    assert(item(t, 471, 0) == 484);
    assert(item(t, 471, 1) == 496);
    assert(item(t, 471, 2) == 508);
    assert(item(t, 471, 3) == 532);
    assert(item(t, 471, 4) == 544);
    assert(item(t, 471, 5) == 568);
    assert(item(t, 471, 6) == 580);
    assert(item(t, 471, 7) == 592);
    assert(item(t, 471, 8) == 604);
    assert(item(t, 471, 9) == 628);
    assert(item(t, 471, 10) == 643);
    assert(item(t, 471, 11) == 658);
    assert(item(t, 471, 12) == 673);
    assert(item(t, 471, 13) == 700);
    assert(item(t, 471, 14) == 713);
    assert(item(t, 471, 15) == 738);
    assert(item(t, 471, 16) == 751);
    assert(item(t, 471, 17) == 776);
    assert(item(t, 471, 18) == 803);
    assert(item(t, 471, 19) == 816);
    assert(lined_up_at(t, "AS u"@, "function_id"@, "UNNEST("@, 1, 838, 464, 0));
    assert(lined_up_at(t, "AS u"@, "file_id"@, "UNNEST("@, 2, 838, 464, 1));
    assert(lined_up_at(t, "AS u"@, "project_id"@, "UNNEST("@, 3, 838, 464, 2));
    assert(lined_up_at(t, "AS u"@, "cyclomatic"@, "UNNEST("@, 4, 838, 464, 3));
    assert(lined_up_at(t, "AS u"@, "cognitive"@, "UNNEST("@, 5, 838, 464, 4));
    assert(lined_up_at(t, "AS u"@, "halstead_n1"@, "UNNEST("@, 6, 838, 464, 5));
    assert(lined_up_at(t, "AS u"@, "halstead_n2"@, "UNNEST("@, 7, 838, 464, 6));
    assert(lined_up_at(t, "AS u"@, "halstead_big_n1"@, "UNNEST("@, 8, 838, 464, 7));
    assert(lined_up_at(t, "AS u"@, "halstead_big_n2"@, "UNNEST("@, 9, 838, 464, 8));
    assert(lined_up_at(t, "AS u"@, "halstead_volume"@, "UNNEST("@, 10, 838, 464, 9));
    assert(lined_up_at(t, "AS u"@, "halstead_difficulty"@, "UNNEST("@, 11, 838, 464, 10));
    assert(lined_up_at(t, "AS u"@, "halstead_effort"@, "UNNEST("@, 12, 838, 464, 11));
    assert(lined_up_at(t, "AS u"@, "halstead_bugs"@, "UNNEST("@, 13, 838, 464, 12));
    assert(lined_up_at(t, "AS u"@, "npath"@, "UNNEST("@, 14, 838, 464, 13));
    assert(lined_up_at(t, "AS u"@, "npath_overflow"@, "UNNEST("@, 15, 838, 464, 14));
    assert(lined_up_at(t, "AS u"@, "loc"@, "UNNEST("@, 16, 838, 464, 15));
    assert(lined_up_at(t, "AS u"@, "comment_lines"@, "UNNEST("@, 17, 838, 464, 16));
    assert(lined_up_at(t, "AS u"@, "maintainability_index"@, "UNNEST("@, 18, 838, 464, 17));
    assert(lined_up_at(t, "AS u"@, "panic_paths"@, "UNNEST("@, 19, 838, 464, 18));
    assert(lined_up_at(t, "AS u"@, "unsafe_blocks"@, "UNNEST("@, 20, 838, 464, 19));
    assert(part_at(t, 1254, "ON CONFLICT (function_id) DO UPDATE SET"@));
    assert(part_at(t, 459, "FROM UNNEST"@));
    assert(part_at(t, 1306, "file_id = EXCLUDED.file_id"@));
    assert(part_at(t, 1346, "project_id = EXCLUDED.project_id"@));
    assert(part_at(t, 1392, "cyclomatic = EXCLUDED.cyclomatic"@));
    assert(part_at(t, 1438, "cognitive = EXCLUDED.cognitive"@));
    assert(part_at(t, 1482, "halstead_n1 = EXCLUDED.halstead_n1"@));
    assert(part_at(t, 1530, "halstead_n2 = EXCLUDED.halstead_n2"@));
    assert(part_at(t, 1578, "halstead_big_n1 = EXCLUDED.halstead_big_n1"@));
    assert(part_at(t, 1634, "halstead_big_n2 = EXCLUDED.halstead_big_n2"@));
    assert(part_at(t, 1690, "halstead_volume = EXCLUDED.halstead_volume"@));
    assert(part_at(t, 1746, "halstead_difficulty = EXCLUDED.halstead_difficulty"@));
    assert(part_at(t, 1810, "halstead_effort = EXCLUDED.halstead_effort"@));
    assert(part_at(t, 1866, "halstead_bugs = EXCLUDED.halstead_bugs"@));
    assert(part_at(t, 1918, "npath = EXCLUDED.npath"@));
    assert(part_at(t, 1954, "npath_overflow = EXCLUDED.npath_overflow"@));
    assert(part_at(t, 2008, "loc = EXCLUDED.loc"@));
    assert(part_at(t, 2040, "comment_lines = EXCLUDED.comment_lines"@));
    assert(part_at(t, 2092, "maintainability_index = EXCLUDED.maintainability_index"@));
    assert(part_at(t, 2160, "panic_paths = EXCLUDED.panic_paths"@));
    assert(part_at(t, 2208, "unsafe_blocks = EXCLUDED.unsafe_blocks"@));
}

/// What the text of [`PROJECT_MISSING_FUNCTION_METRICS_SQL`] says.
pub proof fn project_missing_function_metrics_text()
    ensures
        opens(PROJECT_MISSING_FUNCTION_METRICS_SQL@, "SELECT"@),
        mentions(PROJECT_MISSING_FUNCTION_METRICS_SQL@, "project_id = "@, 1),
        mentions(PROJECT_MISSING_FUNCTION_METRICS_SQL@, "language = ANY("@, 2),
        says(PROJECT_MISSING_FUNCTION_METRICS_SQL@, "FROM indexed_files"@),
{
    reveal_strlit(
        "SELECT EXISTS(
                 SELECT 1 FROM indexed_files
                 WHERE project_id = $1 AND language = ANY($2::text[])
             ) AND NOT EXISTS(
                 SELECT 1 FROM function_metrics WHERE project_id = $1
             )",
    );
    reveal_strlit("FROM indexed_files");
    reveal_strlit("SELECT");
    reveal_strlit("language = ANY(");
    reveal_strlit("project_id = ");
    let t = PROJECT_MISSING_FUNCTION_METRICS_SQL@;
    assert(part_at(t, 0, "SELECT"@));
    assert(part_at(t, 83, "project_id = "@));
    assert(part_at(t, 103, "language = ANY("@));
    assert(part_at(t, 41, "FROM indexed_files"@));
}

/// What the text of [`LIST_FUNCTION_NODES_FOR_PROJECT_SQL`] says.
pub proof fn list_function_nodes_for_project_text()
    ensures
        opens(LIST_FUNCTION_NODES_FOR_PROJECT_SQL@, "SELECT"@),
        mentions(LIST_FUNCTION_NODES_FOR_PROJECT_SQL@, "f.project_id = "@, 1),
        says(LIST_FUNCTION_NODES_FOR_PROJECT_SQL@, "FROM file_symbols"@),
        says(LIST_FUNCTION_NODES_FOR_PROJECT_SQL@, "JOIN indexed_files f ON fs.file_id = f.id"@),
{
    reveal_strlit(
        "SELECT fs.id as symbol_id,
                fs.file_id,
                fs.name,
                f.relative_path,
                f.language,
                fs.parent_id
         FROM file_symbols fs
         JOIN indexed_files f ON fs.file_id = f.id
         WHERE f.project_id = $1 AND fs.kind = 'function'",
    );
    reveal_strlit("FROM file_symbols");
    reveal_strlit("JOIN indexed_files f ON fs.file_id = f.id");
    reveal_strlit("SELECT");
    reveal_strlit("f.project_id = ");
    let t = LIST_FUNCTION_NODES_FOR_PROJECT_SQL@;
    assert(part_at(t, 0, "SELECT"@));
    assert(part_at(t, 266, "f.project_id = "@));
    assert(part_at(t, 179, "FROM file_symbols"@));
    assert(part_at(t, 209, "JOIN indexed_files f ON fs.file_id = f.id"@));
}

/// What the text of [`LIST_CALL_EDGES_FOR_PROJECT_SQL`] says.
pub proof fn list_call_edges_for_project_text()
    ensures
        opens(LIST_CALL_EDGES_FOR_PROJECT_SQL@, "SELECT"@),
        mentions(LIST_CALL_EDGES_FOR_PROJECT_SQL@, "f.project_id = "@, 1),
        says(LIST_CALL_EDGES_FOR_PROJECT_SQL@, "AND sr.ref_kind = 'call'"@),
        says(LIST_CALL_EDGES_FOR_PROJECT_SQL@, "AND sr.source_symbol_id IS NOT NULL"@),
        says(LIST_CALL_EDGES_FOR_PROJECT_SQL@, "FROM symbol_references"@),
        says(LIST_CALL_EDGES_FOR_PROJECT_SQL@, "JOIN indexed_files f ON sr.source_file_id = f.id"@),
{
    reveal_strlit(
        "SELECT sr.source_file_id,
                sr.source_symbol_id,
                sr.target_file_id,
                sr.target_symbol_id,
                sr.target_raw,
                sr.resolution_confidence
         FROM symbol_references sr
         JOIN indexed_files f ON sr.source_file_id = f.id
         WHERE f.project_id = $1
           AND sr.ref_kind = 'call'
           AND sr.source_symbol_id IS NOT NULL",
    );
    reveal_strlit("AND sr.ref_kind = 'call'");
    reveal_strlit("AND sr.source_symbol_id IS NOT NULL");
    reveal_strlit("FROM symbol_references");
    reveal_strlit("JOIN indexed_files f ON sr.source_file_id = f.id");
    reveal_strlit("SELECT");
    reveal_strlit("f.project_id = ");
    let t = LIST_CALL_EDGES_FOR_PROJECT_SQL@;
    assert(part_at(t, 0, "SELECT"@));
    assert(part_at(t, 315, "f.project_id = "@));
    assert(part_at(t, 344, "AND sr.ref_kind = 'call'"@));
    assert(part_at(t, 380, "AND sr.source_symbol_id IS NOT NULL"@));
    assert(part_at(t, 216, "FROM symbol_references"@));
    assert(part_at(t, 251, "JOIN indexed_files f ON sr.source_file_id = f.id"@));
}

/// What the text of [`DELETE_CALL_EDGES_FOR_PROJECT_SQL`] says.
pub proof fn delete_call_edges_for_project_text()
    ensures
        opens(DELETE_CALL_EDGES_FOR_PROJECT_SQL@, "DELETE FROM code_graph_edges"@),
        mentions(DELETE_CALL_EDGES_FOR_PROJECT_SQL@, "project_id = "@, 1),
{
    reveal_strlit(
        "DELETE FROM code_graph_edges WHERE project_id = $1 AND edge_type = 'call'",
    );
    reveal_strlit("DELETE FROM code_graph_edges");
    reveal_strlit("project_id = ");
    let t = DELETE_CALL_EDGES_FOR_PROJECT_SQL@;
    assert(part_at(t, 0, "DELETE FROM code_graph_edges"@));
    assert(part_at(t, 35, "project_id = "@));
}

/// What the text of [`BULK_INSERT_CALL_EDGES_SQL`] says.
#[verifier::rlimit(50)]
pub proof fn bulk_insert_call_edges_text()
    ensures
        opens(BULK_INSERT_CALL_EDGES_SQL@, "INSERT INTO code_graph_edges"@),
        lines_up(BULK_INSERT_CALL_EDGES_SQL@, "AS u"@, "project_id"@, "UNNEST("@, 1),
        lines_up(BULK_INSERT_CALL_EDGES_SQL@, "AS u"@, "source_file_id"@, "UNNEST("@, 2),
        lines_up(BULK_INSERT_CALL_EDGES_SQL@, "AS u"@, "target_file_id"@, "UNNEST("@, 3),
        lines_up(BULK_INSERT_CALL_EDGES_SQL@, "AS u"@, "source_symbol_id"@, "UNNEST("@, 4),
        lines_up(BULK_INSERT_CALL_EDGES_SQL@, "AS u"@, "target_symbol_id"@, "UNNEST("@, 5),
        lines_up(BULK_INSERT_CALL_EDGES_SQL@, "AS u"@, "target_raw"@, "UNNEST("@, 6),
        lines_up(BULK_INSERT_CALL_EDGES_SQL@, "AS u"@, "weight"@, "UNNEST("@, 7),
        says(BULK_INSERT_CALL_EDGES_SQL@, "FROM UNNEST"@),
{
    reveal_strlit(
        "INSERT INTO code_graph_edges
            (project_id, source_file_id, target_file_id, source_symbol_id,
             target_symbol_id, edge_type, target_raw, weight, computed_at)
         SELECT u.project_id, u.source_file_id, u.target_file_id, u.source_symbol_id,
                u.target_symbol_id, 'call', u.target_raw,
                COALESCE(u.weight, 1.0), NOW()
         FROM UNNEST(
             $1::int4[], $2::int8[], $3::int8[], $4::int8[],
             $5::int8[], $6::text[], $7::float8[]
         ) AS u(project_id, source_file_id, target_file_id, source_symbol_id,
                target_symbol_id, target_raw, weight)
         ON CONFLICT (source_file_id, COALESCE(target_file_id, -1::BIGINT), edge_type, COALESCE(target_raw, '')) DO NOTHING",
    );
    reveal_strlit("AS u");
    reveal_strlit("FROM UNNEST");
    reveal_strlit("INSERT INTO code_graph_edges");
    reveal_strlit("UNNEST(");
    reveal_strlit("project_id");
    reveal_strlit("source_file_id");
    reveal_strlit("source_symbol_id");
    reveal_strlit("target_file_id");
    reveal_strlit("target_raw");
    reveal_strlit("target_symbol_id");
    reveal_strlit("weight");
    let t = BULK_INSERT_CALL_EDGES_SQL@;
    assert(part_at(t, 0, "INSERT INTO code_graph_edges"@));
    reveal_with_fuel(past, 18);
    reveal_with_fuel(past_blanks, 18);
    assert(past(t, 518, '(') == 519);
    assert(item(t, 519, 0) == 519);
    assert(item(t, 519, 1) == 531);
    assert(item(t, 519, 2) == 547);
    assert(item(t, 519, 3) == 563);
    assert(item(t, 519, 4) == 597);
    assert(item(t, 519, 5) == 615);
    assert(item(t, 519, 6) == 627);
    assert(item(t, 391, 0) == 405);
    assert(item(t, 391, 1) == 417);
    assert(item(t, 391, 2) == 429);
    assert(item(t, 391, 3) == 441);
    assert(item(t, 391, 4) == 466);
    assert(item(t, 391, 5) == 478);
    assert(item(t, 391, 6) == 490);
    assert(lined_up_at(t, "AS u"@, "project_id"@, "UNNEST("@, 1, 514, 384, 0));
    assert(lined_up_at(t, "AS u"@, "source_file_id"@, "UNNEST("@, 2, 514, 384, 1));
    assert(lined_up_at(t, "AS u"@, "target_file_id"@, "UNNEST("@, 3, 514, 384, 2));
    assert(lined_up_at(t, "AS u"@, "source_symbol_id"@, "UNNEST("@, 4, 514, 384, 3));
    assert(lined_up_at(t, "AS u"@, "target_symbol_id"@, "UNNEST("@, 5, 514, 384, 4));
    assert(lined_up_at(t, "AS u"@, "target_raw"@, "UNNEST("@, 6, 514, 384, 5));
    assert(lined_up_at(t, "AS u"@, "weight"@, "UNNEST("@, 7, 514, 384, 6));
    assert(part_at(t, 379, "FROM UNNEST"@));
}

/// What the text of [`DELETE_SEMANTIC_EDGES_FOR_PROJECT_SQL`] says.
pub proof fn delete_semantic_edges_for_project_text()
    ensures
        opens(DELETE_SEMANTIC_EDGES_FOR_PROJECT_SQL@, "DELETE FROM code_graph_edges"@),
        mentions(DELETE_SEMANTIC_EDGES_FOR_PROJECT_SQL@, "project_id = "@, 1),
{
    reveal_strlit(
        "DELETE FROM code_graph_edges WHERE project_id = $1 AND edge_type = 'semantic'",
    );
    reveal_strlit("DELETE FROM code_graph_edges");
    reveal_strlit("project_id = ");
    let t = DELETE_SEMANTIC_EDGES_FOR_PROJECT_SQL@;
    assert(part_at(t, 0, "DELETE FROM code_graph_edges"@));
    assert(part_at(t, 35, "project_id = "@));
}

/// What the text of [`BULK_INSERT_SEMANTIC_EDGES_SQL`] says.
pub proof fn bulk_insert_semantic_edges_text()
    ensures
        opens(BULK_INSERT_SEMANTIC_EDGES_SQL@, "INSERT INTO code_graph_edges"@),
        lines_up(BULK_INSERT_SEMANTIC_EDGES_SQL@, "AS u"@, "project_id"@, "UNNEST("@, 1),
        lines_up(BULK_INSERT_SEMANTIC_EDGES_SQL@, "AS u"@, "source_file_id"@, "UNNEST("@, 2),
        lines_up(BULK_INSERT_SEMANTIC_EDGES_SQL@, "AS u"@, "target_file_id"@, "UNNEST("@, 3),
        lines_up(BULK_INSERT_SEMANTIC_EDGES_SQL@, "AS u"@, "weight"@, "UNNEST("@, 4),
        says(BULK_INSERT_SEMANTIC_EDGES_SQL@, "FROM UNNEST"@),
{
    reveal_strlit(
        "INSERT INTO code_graph_edges
            (project_id, source_file_id, target_file_id, edge_type, target_raw, weight, computed_at)
         SELECT u.project_id, u.source_file_id, u.target_file_id, 'semantic', NULL, u.weight, NOW()
         FROM UNNEST($1::int4[], $2::int8[], $3::int8[], $4::float8[])
             AS u(project_id, source_file_id, target_file_id, weight)
         ON CONFLICT (source_file_id, COALESCE(target_file_id, -1::BIGINT), edge_type, COALESCE(target_raw, '')) DO NOTHING",
    );
    reveal_strlit("AS u");
    reveal_strlit("FROM UNNEST");
    reveal_strlit("INSERT INTO code_graph_edges");
    reveal_strlit("UNNEST(");
    reveal_strlit("project_id");
    reveal_strlit("source_file_id");
    reveal_strlit("target_file_id");
    reveal_strlit("weight");
    let t = BULK_INSERT_SEMANTIC_EDGES_SQL@;
    assert(part_at(t, 0, "INSERT INTO code_graph_edges"@));
    reveal_with_fuel(past, 16);
    reveal_with_fuel(past_blanks, 2);
    assert(past(t, 318, '(') == 319);
    assert(item(t, 319, 0) == 319);
    assert(item(t, 319, 1) == 331);
    assert(item(t, 319, 2) == 347);
    assert(item(t, 319, 3) == 363);
    assert(item(t, 251, 0) == 251);
    assert(item(t, 251, 1) == 263);
    assert(item(t, 251, 2) == 275);
    assert(item(t, 251, 3) == 287);
    assert(lined_up_at(t, "AS u"@, "project_id"@, "UNNEST("@, 1, 314, 244, 0));
    assert(lined_up_at(t, "AS u"@, "source_file_id"@, "UNNEST("@, 2, 314, 244, 1));
    assert(lined_up_at(t, "AS u"@, "target_file_id"@, "UNNEST("@, 3, 314, 244, 2));
    assert(lined_up_at(t, "AS u"@, "weight"@, "UNNEST("@, 4, 314, 244, 3));
    assert(part_at(t, 239, "FROM UNNEST"@));
}

/// What the text of [`CODE_RAPTOR_SEARCH_SQL`] says.
pub proof fn code_raptor_search_text()
    ensures
        opens(CODE_RAPTOR_SEARCH_SQL@, "SELECT"@),
        mentions(CODE_RAPTOR_SEARCH_SQL@, "t.summary_embedding <=> "@, 1),
        mentions(CODE_RAPTOR_SEARCH_SQL@, "p.name = "@, 2),
        mentions(CODE_RAPTOR_SEARCH_SQL@, "LIMIT "@, 3),
        says(CODE_RAPTOR_SEARCH_SQL@, "FROM code_summary_tree"@),
        says(CODE_RAPTOR_SEARCH_SQL@, "JOIN projects p ON p.id = t.project_id"@),
{
    reveal_strlit(
        "SELECT p.name AS project_name, t.summary_text, t.member_count,
                t.member_paths, t.top_topics,
                (1.0 - (t.summary_embedding <=> $1))::float8 AS similarity
         FROM code_summary_tree t
         JOIN projects p ON p.id = t.project_id
         WHERE ($2::text IS NULL OR p.name = $2)
         ORDER BY t.summary_embedding <=> $1
         LIMIT $3",
    );
    reveal_strlit("FROM code_summary_tree");
    reveal_strlit("JOIN projects p ON p.id = t.project_id");
    reveal_strlit("LIMIT ");
    reveal_strlit("SELECT");
    reveal_strlit("p.name = ");
    reveal_strlit("t.summary_embedding <=> ");
    let t = CODE_RAPTOR_SEARCH_SQL@;
    assert(part_at(t, 0, "SELECT"@));
    assert(part_at(t, 133, "t.summary_embedding <=> "@));
    assert(part_at(t, 302, "p.name = "@));
    assert(part_at(t, 369, "LIMIT "@));
    assert(part_at(t, 193, "FROM code_summary_tree"@));
    assert(part_at(t, 227, "JOIN projects p ON p.id = t.project_id"@));
}

/// What the text of [`CK_CLASS_ROWS_SQL`] says.
#[verifier::rlimit(50)]
pub proof fn ck_class_rows_text()
    ensures
        opens(CK_CLASS_ROWS_SQL@, "SELECT"@),
        mentions(CK_CLASS_ROWS_SQL@, "f.project_id = "@, 1),
        says(CK_CLASS_ROWS_SQL@, "WHERE cm.parent_id = c.id), 0)::int8 AS wmc,"@),
        says(
            CK_CLASS_ROWS_SQL@,
            "AND c.kind IN ('class', 'struct', 'interface', 'trait', 'enum')"@,
        ),
        says(CK_CLASS_ROWS_SQL@, "GROUP BY c.id, c.name, f.relative_path"@),
        says(CK_CLASS_ROWS_SQL@, "FROM file_symbols"@),
        says(CK_CLASS_ROWS_SQL@, "JOIN function_metrics fm ON fm.function_id = cm.id"@),
        says(CK_CLASS_ROWS_SQL@, "JOIN indexed_files f ON f.id = c.file_id"@),
        says(CK_CLASS_ROWS_SQL@, "LEFT JOIN file_symbols m ON m.parent_id = c.id"@),
        says(CK_CLASS_ROWS_SQL@, "LEFT JOIN symbol_references sr ON sr.source_symbol_id = m.id"@),
{
    reveal_strlit(
        "SELECT c.id AS symbol_id, c.name, f.relative_path,
                COUNT(DISTINCT m.id) AS method_count,
                COALESCE((SELECT SUM(fm.cyclomatic)
                            FROM file_symbols cm
                            JOIN function_metrics fm ON fm.function_id = cm.id
                           WHERE cm.parent_id = c.id), 0)::int8 AS wmc,
                COUNT(DISTINCT sr.target_raw)
                    FILTER (WHERE sr.ref_kind = 'call') AS distinct_callees,
                COUNT(DISTINCT sr.target_file_id)
                    FILTER (WHERE sr.ref_kind = 'call' AND sr.target_file_id IS NOT NULL) AS cbo
         FROM file_symbols c
         JOIN indexed_files f ON f.id = c.file_id
         LEFT JOIN file_symbols m ON m.parent_id = c.id
         LEFT JOIN symbol_references sr ON sr.source_symbol_id = m.id
         WHERE f.project_id = $1
           AND c.kind IN ('class', 'struct', 'interface', 'trait', 'enum')
         GROUP BY c.id, c.name, f.relative_path",
    );
    reveal_strlit("AND c.kind IN ('class', 'struct', 'interface', 'trait', 'enum')");
    reveal_strlit("FROM file_symbols");
    reveal_strlit("GROUP BY c.id, c.name, f.relative_path");
    reveal_strlit("JOIN function_metrics fm ON fm.function_id = cm.id");
    reveal_strlit("JOIN indexed_files f ON f.id = c.file_id");
    reveal_strlit("LEFT JOIN file_symbols m ON m.parent_id = c.id");
    reveal_strlit("LEFT JOIN symbol_references sr ON sr.source_symbol_id = m.id");
    reveal_strlit("SELECT");
    reveal_strlit("WHERE cm.parent_id = c.id), 0)::int8 AS wmc,");
    reveal_strlit("f.project_id = ");
    let t = CK_CLASS_ROWS_SQL@;
    assert(part_at(t, 0, "SELECT"@));
    assert(part_at(t, 847, "f.project_id = "@));
    assert(part_at(t, 312, "WHERE cm.parent_id = c.id), 0)::int8 AS wmc,"@));
    assert(part_at(t, 876, "AND c.kind IN ('class', 'struct', 'interface', 'trait', 'enum')"@));
    assert(part_at(t, 949, "GROUP BY c.id, c.name, f.relative_path"@));
    assert(part_at(t, 185, "FROM file_symbols"@));
    assert(part_at(t, 234, "JOIN function_metrics fm ON fm.function_id = cm.id"@));
    assert(part_at(t, 665, "JOIN indexed_files f ON f.id = c.file_id"@));
    assert(part_at(t, 715, "LEFT JOIN file_symbols m ON m.parent_id = c.id"@));
    assert(part_at(t, 771, "LEFT JOIN symbol_references sr ON sr.source_symbol_id = m.id"@));
}

/// What the text of [`CK_INHERITANCE_EDGES_SQL`] says.
pub proof fn ck_inheritance_edges_text()
    ensures
        opens(CK_INHERITANCE_EDGES_SQL@, "SELECT"@),
        mentions(CK_INHERITANCE_EDGES_SQL@, "f.project_id = "@, 1),
        says(CK_INHERITANCE_EDGES_SQL@, "AND sr.ref_kind IN ('inherit', 'impl')"@),
        says(CK_INHERITANCE_EDGES_SQL@, "AND sr.source_symbol_id IS NOT NULL"@),
        says(CK_INHERITANCE_EDGES_SQL@, "AND sr.target_symbol_id IS NOT NULL"@),
        says(CK_INHERITANCE_EDGES_SQL@, "FROM symbol_references"@),
        says(CK_INHERITANCE_EDGES_SQL@, "JOIN indexed_files f ON f.id = sr.source_file_id"@),
{
    reveal_strlit(
        "SELECT sr.source_symbol_id, sr.target_symbol_id
         FROM symbol_references sr
         JOIN indexed_files f ON f.id = sr.source_file_id
         WHERE f.project_id = $1
           AND sr.ref_kind IN ('inherit', 'impl')
           AND sr.source_symbol_id IS NOT NULL
           AND sr.target_symbol_id IS NOT NULL",
    );
    reveal_strlit("AND sr.ref_kind IN ('inherit', 'impl')");
    reveal_strlit("AND sr.source_symbol_id IS NOT NULL");
    reveal_strlit("AND sr.target_symbol_id IS NOT NULL");
    reveal_strlit("FROM symbol_references");
    reveal_strlit("JOIN indexed_files f ON f.id = sr.source_file_id");
    reveal_strlit("SELECT");
    reveal_strlit("f.project_id = ");
    let t = CK_INHERITANCE_EDGES_SQL@;
    assert(part_at(t, 0, "SELECT"@));
    assert(part_at(t, 156, "f.project_id = "@));
    assert(part_at(t, 185, "AND sr.ref_kind IN ('inherit', 'impl')"@));
    assert(part_at(t, 235, "AND sr.source_symbol_id IS NOT NULL"@));
    assert(part_at(t, 282, "AND sr.target_symbol_id IS NOT NULL"@));
    assert(part_at(t, 57, "FROM symbol_references"@));
    assert(part_at(t, 92, "JOIN indexed_files f ON f.id = sr.source_file_id"@));
}

/// What the text of [`UPDATE_FUNCTION_FAN_IO_SQL`] says.
pub proof fn update_function_fan_io_text()
    ensures
        opens(UPDATE_FUNCTION_FAN_IO_SQL@, "UPDATE function_metrics"@),
        lines_up(UPDATE_FUNCTION_FAN_IO_SQL@, "AS u"@, "function_id"@, "UNNEST("@, 1),
        lines_up(UPDATE_FUNCTION_FAN_IO_SQL@, "AS u"@, "fan_in"@, "UNNEST("@, 2),
        lines_up(UPDATE_FUNCTION_FAN_IO_SQL@, "AS u"@, "fan_out"@, "UNNEST("@, 3),
        says(UPDATE_FUNCTION_FAN_IO_SQL@, "WHERE function_metrics.function_id = u.function_id"@),
        says(UPDATE_FUNCTION_FAN_IO_SQL@, "FROM UNNEST"@),
{
    reveal_strlit(
        "UPDATE function_metrics
         SET fan_in = u.fan_in, fan_out = u.fan_out
         FROM UNNEST($1::int8[], $2::int4[], $3::int4[]) AS u(function_id, fan_in, fan_out)
         WHERE function_metrics.function_id = u.function_id",
    );
    reveal_strlit("AS u");
    reveal_strlit("FROM UNNEST");
    reveal_strlit("UNNEST(");
    reveal_strlit("UPDATE function_metrics");
    reveal_strlit("WHERE function_metrics.function_id = u.function_id");
    reveal_strlit("fan_in");
    reveal_strlit("fan_out");
    reveal_strlit("function_id");
    let t = UPDATE_FUNCTION_FAN_IO_SQL@;
    assert(part_at(t, 0, "UPDATE function_metrics"@));
    reveal_with_fuel(past, 13);
    reveal_with_fuel(past_blanks, 2);
    assert(past(t, 137, '(') == 138);
    assert(item(t, 138, 0) == 138);
    assert(item(t, 138, 1) == 151);
    assert(item(t, 138, 2) == 159);
    assert(item(t, 97, 0) == 97);
    assert(item(t, 97, 1) == 109);
    assert(item(t, 97, 2) == 121);
    assert(lined_up_at(t, "AS u"@, "function_id"@, "UNNEST("@, 1, 133, 90, 0));
    assert(lined_up_at(t, "AS u"@, "fan_in"@, "UNNEST("@, 2, 133, 90, 1));
    assert(lined_up_at(t, "AS u"@, "fan_out"@, "UNNEST("@, 3, 133, 90, 2));
    assert(part_at(t, 177, "WHERE function_metrics.function_id = u.function_id"@));
    assert(part_at(t, 85, "FROM UNNEST"@));
}

/// What the text of [`UPDATE_FUNCTION_CENTRALITIES_SQL`] says.
pub proof fn update_function_centralities_text()
    ensures
        opens(UPDATE_FUNCTION_CENTRALITIES_SQL@, "UPDATE function_metrics"@),
        lines_up(UPDATE_FUNCTION_CENTRALITIES_SQL@, "AS u"@, "function_id"@, "UNNEST("@, 1),
        lines_up(UPDATE_FUNCTION_CENTRALITIES_SQL@, "AS u"@, "pagerank"@, "UNNEST("@, 2),
        lines_up(UPDATE_FUNCTION_CENTRALITIES_SQL@, "AS u"@, "betweenness"@, "UNNEST("@, 3),
        lines_up(UPDATE_FUNCTION_CENTRALITIES_SQL@, "AS u"@, "community_id"@, "UNNEST("@, 4),
        lines_up(UPDATE_FUNCTION_CENTRALITIES_SQL@, "AS u"@, "coreness"@, "UNNEST("@, 5),
        lines_up(UPDATE_FUNCTION_CENTRALITIES_SQL@, "AS u"@, "harmonic"@, "UNNEST("@, 6),
        says(
            UPDATE_FUNCTION_CENTRALITIES_SQL@,
            "WHERE function_metrics.function_id = u.function_id"@,
        ),
        says(UPDATE_FUNCTION_CENTRALITIES_SQL@, "FROM UNNEST"@),
{
    reveal_strlit(
        "UPDATE function_metrics
         SET pagerank = u.pagerank,
             betweenness = u.betweenness,
             community_id = u.community_id,
             coreness = u.coreness,
             harmonic = u.harmonic
         FROM UNNEST($1::int8[], $2::float8[], $3::float8[], $4::int4[], $5::int4[], $6::float8[])
              AS u(function_id, pagerank, betweenness, community_id, coreness, harmonic)
         WHERE function_metrics.function_id = u.function_id",
    );
    reveal_strlit("AS u");
    reveal_strlit("FROM UNNEST");
    reveal_strlit("UNNEST(");
    reveal_strlit("UPDATE function_metrics");
    reveal_strlit("WHERE function_metrics.function_id = u.function_id");
    reveal_strlit("betweenness");
    reveal_strlit("community_id");
    reveal_strlit("coreness");
    reveal_strlit("function_id");
    reveal_strlit("harmonic");
    reveal_strlit("pagerank");
    let t = UPDATE_FUNCTION_CENTRALITIES_SQL@;
    assert(part_at(t, 0, "UPDATE function_metrics"@));
    reveal_with_fuel(past, 14);
    reveal_with_fuel(past_blanks, 2);
    assert(past(t, 334, '(') == 335);
    assert(item(t, 335, 0) == 335);
    assert(item(t, 335, 1) == 348);
    assert(item(t, 335, 2) == 358);
    assert(item(t, 335, 3) == 371);
    assert(item(t, 335, 4) == 385);
    assert(item(t, 335, 5) == 395);
    assert(item(t, 238, 0) == 238);
    assert(item(t, 238, 1) == 250);
    assert(item(t, 238, 2) == 264);
    assert(item(t, 238, 3) == 278);
    assert(item(t, 238, 4) == 290);
    assert(item(t, 238, 5) == 302);
    assert(lined_up_at(t, "AS u"@, "function_id"@, "UNNEST("@, 1, 330, 231, 0));
    assert(lined_up_at(t, "AS u"@, "pagerank"@, "UNNEST("@, 2, 330, 231, 1));
    assert(lined_up_at(t, "AS u"@, "betweenness"@, "UNNEST("@, 3, 330, 231, 2));
    assert(lined_up_at(t, "AS u"@, "community_id"@, "UNNEST("@, 4, 330, 231, 3));
    assert(lined_up_at(t, "AS u"@, "coreness"@, "UNNEST("@, 5, 330, 231, 4));
    assert(lined_up_at(t, "AS u"@, "harmonic"@, "UNNEST("@, 6, 330, 231, 5));
    assert(part_at(t, 414, "WHERE function_metrics.function_id = u.function_id"@));
    assert(part_at(t, 226, "FROM UNNEST"@));
}

/// What the text of [`SEMANTIC_EDGES_1`] says.
pub proof fn semantic_edges_1_text()
    ensures
        opens(SEMANTIC_EDGES_1@, "WITH"@),
        says(SEMANTIC_EDGES_1@, "FROM file_chunks"@),
        says(SEMANTIC_EDGES_1@, "JOIN indexed_files f ON f.id = c.file_id"@),
        says(SEMANTIC_EDGES_1@, "CROSS JOIN LATERAL ("@),
        ends_plainly(SEMANTIC_EDGES_1@),
{
    reveal_strlit(
        "WITH chunk_nn AS (
            SELECT c.file_id AS source_file_id,
                   nn.file_id AS target_file_id,
                   nn.similarity
            FROM file_chunks c
            JOIN indexed_files f ON f.id = c.file_id
            CROSS JOIN LATERAL (
                SELECT c2.file_id,
                       1 - (c2.",
    );
    reveal_strlit("CROSS JOIN LATERAL (");
    reveal_strlit("FROM file_chunks");
    reveal_strlit("JOIN indexed_files f ON f.id = c.file_id");
    reveal_strlit("WITH");
    let t = SEMANTIC_EDGES_1@;
    assert(part_at(t, 0, "WITH"@));
    assert(part_at(t, 161, "FROM file_chunks"@));
    assert(part_at(t, 192, "JOIN indexed_files f ON f.id = c.file_id"@));
    assert(part_at(t, 245, "CROSS JOIN LATERAL ("@));
}

/// What the text of [`SEMANTIC_EDGES_2`] says.
pub proof fn semantic_edges_2_text()
    ensures
        ends_plainly(SEMANTIC_EDGES_2@),
{
    reveal_strlit(
        " <=> c.",
    );
    let t = SEMANTIC_EDGES_2@;
}

/// What the text of [`SEMANTIC_EDGES_3`] says.
pub proof fn semantic_edges_3_text()
    ensures
        mentions(SEMANTIC_EDGES_3@, "f2.project_id = "@, 1),
        says(SEMANTIC_EDGES_3@, "AND c2.file_id <> c.file_id"@),
        says(SEMANTIC_EDGES_3@, "AND c2."@),
        says(SEMANTIC_EDGES_3@, "FROM file_chunks"@),
        says(SEMANTIC_EDGES_3@, "JOIN indexed_files f2 ON f2.id = c2.file_id"@),
        ends_plainly(SEMANTIC_EDGES_3@),
{
    reveal_strlit(
        ") AS similarity
                FROM file_chunks c2
                JOIN indexed_files f2 ON f2.id = c2.file_id
                WHERE f2.project_id = $1
                  AND c2.file_id <> c.file_id
                  AND c2.",
    );
    reveal_strlit("AND c2.");
    reveal_strlit("AND c2.file_id <> c.file_id");
    reveal_strlit("FROM file_chunks");
    reveal_strlit("JOIN indexed_files f2 ON f2.id = c2.file_id");
    reveal_strlit("f2.project_id = ");
    let t = SEMANTIC_EDGES_3@;
    assert(part_at(t, 134, "f2.project_id = "@));
    assert(part_at(t, 171, "AND c2.file_id <> c.file_id"@));
    assert(part_at(t, 217, "AND c2."@));
    assert(part_at(t, 32, "FROM file_chunks"@));
    assert(part_at(t, 68, "JOIN indexed_files f2 ON f2.id = c2.file_id"@));
}

/// What the text of [`SEMANTIC_EDGES_4`] says.
pub proof fn semantic_edges_4_text()
    ensures
        says(SEMANTIC_EDGES_4@, "ORDER BY c2."@),
        ends_plainly(SEMANTIC_EDGES_4@),
{
    reveal_strlit(
        " IS NOT NULL
                ORDER BY c2.",
    );
    reveal_strlit("ORDER BY c2.");
    let t = SEMANTIC_EDGES_4@;
    assert(part_at(t, 29, "ORDER BY c2."@));
}

/// What the text of [`SEMANTIC_EDGES_5`] says.
pub proof fn semantic_edges_5_text()
    ensures
        ends_plainly(SEMANTIC_EDGES_5@),
{
    reveal_strlit(
        " <=> c.",
    );
    let t = SEMANTIC_EDGES_5@;
}

/// What the text of [`SEMANTIC_EDGES_6`] says.
pub proof fn semantic_edges_6_text()
    ensures
        mentions(SEMANTIC_EDGES_6@, "f.project_id = "@, 1),
        mentions(SEMANTIC_EDGES_6@, "LIMIT "@, 3),
        says(SEMANTIC_EDGES_6@, "AND c."@),
        ends_plainly(SEMANTIC_EDGES_6@),
{
    reveal_strlit(
        "
                LIMIT $3
            ) nn
            WHERE f.project_id = $1
              AND c.",
    );
    reveal_strlit("AND c.");
    reveal_strlit("LIMIT ");
    reveal_strlit("f.project_id = ");
    let t = SEMANTIC_EDGES_6@;
    assert(part_at(t, 61, "f.project_id = "@));
    assert(part_at(t, 17, "LIMIT "@));
    assert(part_at(t, 93, "AND c."@));
}

/// What the text of [`SEMANTIC_EDGES_7`] says.
#[verifier::rlimit(50)]
pub proof fn semantic_edges_7_text()
    ensures
        mentions(SEMANTIC_EDGES_7@, "similarity >= "@, 2),
        mentions(SEMANTIC_EDGES_7@, "rn <= "@, 4),
        says(SEMANTIC_EDGES_7@, "GROUP BY source_file_id, target_file_id"@),
        says(SEMANTIC_EDGES_7@, "ORDER BY weight DESC"@),
        says(SEMANTIC_EDGES_7@, "FROM chunk_nn"@),
{
    reveal_strlit(
        " IS NOT NULL
        ),
        file_pairs AS (
            SELECT source_file_id, target_file_id, MAX(similarity) AS weight
            FROM chunk_nn
            WHERE similarity >= $2
            GROUP BY source_file_id, target_file_id
        ),
        ranked AS (
            SELECT source_file_id, target_file_id, weight,
                   ROW_NUMBER() OVER (
                       PARTITION BY source_file_id ORDER BY weight DESC
                   ) AS rn
            FROM file_pairs
        )
        SELECT source_file_id, target_file_id, weight
        FROM ranked
        WHERE rn <= $4",
    );
    reveal_strlit("FROM chunk_nn");
    reveal_strlit("GROUP BY source_file_id, target_file_id");
    reveal_strlit("ORDER BY weight DESC");
    reveal_strlit("rn <= ");
    reveal_strlit("similarity >= ");
    let t = SEMANTIC_EDGES_7@;
    assert(part_at(t, 169, "similarity >= "@));
    assert(part_at(t, 592, "rn <= "@));
    assert(part_at(t, 198, "GROUP BY source_file_id, target_file_id"@));
    assert(part_at(t, 418, "ORDER BY weight DESC"@));
    assert(part_at(t, 137, "FROM chunk_nn"@));
}

/// What the text of [`SEED_FILES_1`] says.
pub proof fn seed_files_1_text()
    ensures
        opens(SEED_FILES_1@, "SELECT"@),
        ends_plainly(SEED_FILES_1@),
{
    reveal_strlit(
        "SELECT file_id, MAX(sim)::float8 AS sim FROM (
            SELECT c.file_id, (1.0 - (c.",
    );
    reveal_strlit("SELECT");
    let t = SEED_FILES_1@;
    assert(part_at(t, 0, "SELECT"@));
}

/// What the text of [`SEED_FILES_2`] says.
pub proof fn seed_files_2_text()
    ensures
        mentions(SEED_FILES_2@, "<=> "@, 1),
        mentions(SEED_FILES_2@, "f.project_id = "@, 2),
        says(SEED_FILES_2@, "FROM file_chunks"@),
        says(SEED_FILES_2@, "JOIN indexed_files f ON f.id = c.file_id"@),
        ends_plainly(SEED_FILES_2@),
{
    reveal_strlit(
        " <=> $1)) AS sim
            FROM file_chunks c
            JOIN indexed_files f ON f.id = c.file_id
            WHERE f.project_id = $2 AND c.",
    );
    reveal_strlit("<=> ");
    reveal_strlit("FROM file_chunks");
    reveal_strlit("JOIN indexed_files f ON f.id = c.file_id");
    reveal_strlit("f.project_id = ");
    let t = SEED_FILES_2@;
    assert(part_at(t, 1, "<=> "@));
    assert(part_at(t, 119, "f.project_id = "@));
    assert(part_at(t, 29, "FROM file_chunks"@));
    assert(part_at(t, 60, "JOIN indexed_files f ON f.id = c.file_id"@));
}

/// What the text of [`SEED_FILES_3`] says.
pub proof fn seed_files_3_text()
    ensures
        says(SEED_FILES_3@, "ORDER BY c."@),
        ends_plainly(SEED_FILES_3@),
{
    reveal_strlit(
        " IS NOT NULL
            ORDER BY c.",
    );
    reveal_strlit("ORDER BY c.");
    let t = SEED_FILES_3@;
    assert(part_at(t, 25, "ORDER BY c."@));
}

/// What the text of [`SEED_FILES_4`] says.
pub proof fn seed_files_4_text()
    ensures
        mentions(SEED_FILES_4@, "<=> "@, 1),
        mentions(SEED_FILES_4@, "LIMIT "@, 3),
        says(SEED_FILES_4@, "GROUP BY file_id"@),
        says(SEED_FILES_4@, "ORDER BY sim DESC"@),
        ends_plainly(SEED_FILES_4@),
{
    reveal_strlit(
        " <=> $1
            LIMIT $3
         ) t
         GROUP BY file_id
         ORDER BY sim DESC",
    );
    reveal_strlit("<=> ");
    reveal_strlit("GROUP BY file_id");
    reveal_strlit("LIMIT ");
    reveal_strlit("ORDER BY sim DESC");
    let t = SEED_FILES_4@;
    assert(part_at(t, 1, "<=> "@));
    assert(part_at(t, 20, "LIMIT "@));
    assert(part_at(t, 51, "GROUP BY file_id"@));
    assert(part_at(t, 77, "ORDER BY sim DESC"@));
}

/// Each argument of [`stores_metrics`] is what the text names in its place.
pub proof fn law_stores_metrics_stands_for_its_values(rows: Seq<FunctionMetricsRow>)
    ensures
        opens(stores_metrics(rows).sql, "INSERT INTO function_metrics"@),
        fills(
            stores_metrics(rows),
            "AS u"@,
            "function_id"@,
            "UNNEST("@,
            BindView::BigIntArray(rows.map_values(|r: FunctionMetricsRow| r.function_id)),
        ),
        fills(
            stores_metrics(rows),
            "AS u"@,
            "file_id"@,
            "UNNEST("@,
            BindView::BigIntArray(rows.map_values(|r: FunctionMetricsRow| r.file_id)),
        ),
        fills(
            stores_metrics(rows),
            "AS u"@,
            "project_id"@,
            "UNNEST("@,
            BindView::IntArray(rows.map_values(|r: FunctionMetricsRow| r.project_id)),
        ),
        fills(
            stores_metrics(rows),
            "AS u"@,
            "cyclomatic"@,
            "UNNEST("@,
            BindView::IntArray(rows.map_values(|r: FunctionMetricsRow| r.cyclomatic)),
        ),
        fills(
            stores_metrics(rows),
            "AS u"@,
            "cognitive"@,
            "UNNEST("@,
            BindView::IntArray(rows.map_values(|r: FunctionMetricsRow| r.cognitive)),
        ),
        fills(
            stores_metrics(rows),
            "AS u"@,
            "halstead_n1"@,
            "UNNEST("@,
            BindView::IntArray(rows.map_values(|r: FunctionMetricsRow| r.halstead_n1)),
        ),
        fills(
            stores_metrics(rows),
            "AS u"@,
            "halstead_n2"@,
            "UNNEST("@,
            BindView::IntArray(rows.map_values(|r: FunctionMetricsRow| r.halstead_n2)),
        ),
        fills(
            stores_metrics(rows),
            "AS u"@,
            "halstead_big_n1"@,
            "UNNEST("@,
            BindView::IntArray(rows.map_values(|r: FunctionMetricsRow| r.halstead_big_n1)),
        ),
        fills(
            stores_metrics(rows),
            "AS u"@,
            "halstead_big_n2"@,
            "UNNEST("@,
            BindView::IntArray(rows.map_values(|r: FunctionMetricsRow| r.halstead_big_n2)),
        ),
        fills(stores_metrics(rows), "AS u"@, "halstead_volume"@, "UNNEST("@, BindView::Supplied(0)),
        fills(
            stores_metrics(rows),
            "AS u"@,
            "halstead_difficulty"@,
            "UNNEST("@,
            BindView::Supplied(1),
        ),
        fills(stores_metrics(rows), "AS u"@, "halstead_effort"@, "UNNEST("@, BindView::Supplied(2)),
        fills(stores_metrics(rows), "AS u"@, "halstead_bugs"@, "UNNEST("@, BindView::Supplied(3)),
        fills(
            stores_metrics(rows),
            "AS u"@,
            "npath"@,
            "UNNEST("@,
            BindView::BigIntArray(rows.map_values(|r: FunctionMetricsRow| r.npath)),
        ),
        fills(
            stores_metrics(rows),
            "AS u"@,
            "npath_overflow"@,
            "UNNEST("@,
            BindView::BoolArray(rows.map_values(|r: FunctionMetricsRow| r.npath_overflow)),
        ),
        fills(
            stores_metrics(rows),
            "AS u"@,
            "loc"@,
            "UNNEST("@,
            BindView::IntArray(rows.map_values(|r: FunctionMetricsRow| r.loc)),
        ),
        fills(
            stores_metrics(rows),
            "AS u"@,
            "comment_lines"@,
            "UNNEST("@,
            BindView::IntArray(rows.map_values(|r: FunctionMetricsRow| r.comment_lines)),
        ),
        fills(
            stores_metrics(rows),
            "AS u"@,
            "maintainability_index"@,
            "UNNEST("@,
            BindView::Supplied(4),
        ),
        fills(
            stores_metrics(rows),
            "AS u"@,
            "panic_paths"@,
            "UNNEST("@,
            BindView::IntArray(rows.map_values(|r: FunctionMetricsRow| r.panic_paths)),
        ),
        fills(
            stores_metrics(rows),
            "AS u"@,
            "unsafe_blocks"@,
            "UNNEST("@,
            BindView::IntArray(rows.map_values(|r: FunctionMetricsRow| r.unsafe_blocks)),
        ),
        says(stores_metrics(rows).sql, "ON CONFLICT (function_id) DO UPDATE SET"@),
        says(stores_metrics(rows).sql, "FROM UNNEST"@),
        says(stores_metrics(rows).sql, "file_id = EXCLUDED.file_id"@),
        says(stores_metrics(rows).sql, "project_id = EXCLUDED.project_id"@),
        says(stores_metrics(rows).sql, "cyclomatic = EXCLUDED.cyclomatic"@),
        says(stores_metrics(rows).sql, "cognitive = EXCLUDED.cognitive"@),
        says(stores_metrics(rows).sql, "halstead_n1 = EXCLUDED.halstead_n1"@),
        says(stores_metrics(rows).sql, "halstead_n2 = EXCLUDED.halstead_n2"@),
        says(stores_metrics(rows).sql, "halstead_big_n1 = EXCLUDED.halstead_big_n1"@),
        says(stores_metrics(rows).sql, "halstead_big_n2 = EXCLUDED.halstead_big_n2"@),
        says(stores_metrics(rows).sql, "halstead_volume = EXCLUDED.halstead_volume"@),
        says(stores_metrics(rows).sql, "halstead_difficulty = EXCLUDED.halstead_difficulty"@),
        says(stores_metrics(rows).sql, "halstead_effort = EXCLUDED.halstead_effort"@),
        says(stores_metrics(rows).sql, "halstead_bugs = EXCLUDED.halstead_bugs"@),
        says(stores_metrics(rows).sql, "npath = EXCLUDED.npath"@),
        says(stores_metrics(rows).sql, "npath_overflow = EXCLUDED.npath_overflow"@),
        says(stores_metrics(rows).sql, "loc = EXCLUDED.loc"@),
        says(stores_metrics(rows).sql, "comment_lines = EXCLUDED.comment_lines"@),
        says(stores_metrics(rows).sql, "maintainability_index = EXCLUDED.maintainability_index"@),
        says(stores_metrics(rows).sql, "panic_paths = EXCLUDED.panic_paths"@),
        says(stores_metrics(rows).sql, "unsafe_blocks = EXCLUDED.unsafe_blocks"@),
{
    upsert_function_metrics_batch_text();
    assert(stores_metrics(rows).sql == UPSERT_FUNCTION_METRICS_BATCH_SQL@);
}

/// Each argument of [`stores_calls`] is what the text names in its place.
pub proof fn law_stores_calls_stands_for_its_values(project_id: i32, calls: Seq<CallView>)
    ensures
        opens(stores_calls(project_id, calls).sql, "INSERT INTO code_graph_edges"@),
        fills(
            stores_calls(project_id, calls),
            "AS u"@,
            "project_id"@,
            "UNNEST("@,
            BindView::IntArray(calls.map_values(|c: CallView| project_id)),
        ),
        fills(
            stores_calls(project_id, calls),
            "AS u"@,
            "source_file_id"@,
            "UNNEST("@,
            BindView::BigIntArray(calls.map_values(|c: CallView| c.source_file_id)),
        ),
        fills(
            stores_calls(project_id, calls),
            "AS u"@,
            "target_file_id"@,
            "UNNEST("@,
            BindView::OptBigIntArray(calls.map_values(|c: CallView| c.target_file_id)),
        ),
        fills(
            stores_calls(project_id, calls),
            "AS u"@,
            "source_symbol_id"@,
            "UNNEST("@,
            BindView::BigIntArray(calls.map_values(|c: CallView| c.source_symbol_id)),
        ),
        fills(
            stores_calls(project_id, calls),
            "AS u"@,
            "target_symbol_id"@,
            "UNNEST("@,
            BindView::OptBigIntArray(calls.map_values(|c: CallView| c.target_symbol_id)),
        ),
        fills(
            stores_calls(project_id, calls),
            "AS u"@,
            "target_raw"@,
            "UNNEST("@,
            BindView::TextArray(calls.map_values(|c: CallView| c.target_raw)),
        ),
        fills(
            stores_calls(project_id, calls),
            "AS u"@,
            "weight"@,
            "UNNEST("@,
            BindView::Supplied(0),
        ),
        says(stores_calls(project_id, calls).sql, "FROM UNNEST"@),
{
    bulk_insert_call_edges_text();
    assert(stores_calls(project_id, calls).sql == BULK_INSERT_CALL_EDGES_SQL@);
}

/// Each argument of [`stores_semantic_edges`] is what the text names in its place.
pub proof fn law_stores_semantic_edges_stands_for_its_values(
    project_id: i32,
    edges: Seq<SemanticFileEdge>,
)
    ensures
        opens(stores_semantic_edges(project_id, edges).sql, "INSERT INTO code_graph_edges"@),
        fills(
            stores_semantic_edges(project_id, edges),
            "AS u"@,
            "project_id"@,
            "UNNEST("@,
            BindView::IntArray(edges.map_values(|r: SemanticFileEdge| project_id)),
        ),
        fills(
            stores_semantic_edges(project_id, edges),
            "AS u"@,
            "source_file_id"@,
            "UNNEST("@,
            BindView::BigIntArray(edges.map_values(|r: SemanticFileEdge| r.source_file_id)),
        ),
        fills(
            stores_semantic_edges(project_id, edges),
            "AS u"@,
            "target_file_id"@,
            "UNNEST("@,
            BindView::BigIntArray(edges.map_values(|r: SemanticFileEdge| r.target_file_id)),
        ),
        fills(
            stores_semantic_edges(project_id, edges),
            "AS u"@,
            "weight"@,
            "UNNEST("@,
            BindView::Supplied(0),
        ),
        says(stores_semantic_edges(project_id, edges).sql, "FROM UNNEST"@),
{
    bulk_insert_semantic_edges_text();
    assert(stores_semantic_edges(project_id, edges).sql == BULK_INSERT_SEMANTIC_EDGES_SQL@);
}

/// Each argument of [`updates_fan_io`] is what the text names in its place.
pub proof fn law_updates_fan_io_stands_for_its_values(triples: Seq<(i64, i32, i32)>)
    ensures
        opens(updates_fan_io(triples).sql, "UPDATE function_metrics"@),
        fills(
            updates_fan_io(triples),
            "AS u"@,
            "function_id"@,
            "UNNEST("@,
            BindView::BigIntArray(triples.map_values(|r: (i64, i32, i32)| r.0)),
        ),
        fills(
            updates_fan_io(triples),
            "AS u"@,
            "fan_in"@,
            "UNNEST("@,
            BindView::IntArray(triples.map_values(|r: (i64, i32, i32)| r.1)),
        ),
        fills(
            updates_fan_io(triples),
            "AS u"@,
            "fan_out"@,
            "UNNEST("@,
            BindView::IntArray(triples.map_values(|r: (i64, i32, i32)| r.2)),
        ),
        says(updates_fan_io(triples).sql, "WHERE function_metrics.function_id = u.function_id"@),
        says(updates_fan_io(triples).sql, "FROM UNNEST"@),
{
    update_function_fan_io_text();
    assert(updates_fan_io(triples).sql == UPDATE_FUNCTION_FAN_IO_SQL@);
}

/// Each argument of [`updates_centralities`] is what the text names in its place.
pub proof fn law_updates_centralities_stands_for_its_values(rows: Seq<(i64, i32, i32)>)
    ensures
        opens(updates_centralities(rows).sql, "UPDATE function_metrics"@),
        fills(
            updates_centralities(rows),
            "AS u"@,
            "function_id"@,
            "UNNEST("@,
            BindView::BigIntArray(rows.map_values(|r: (i64, i32, i32)| r.0)),
        ),
        fills(updates_centralities(rows), "AS u"@, "pagerank"@, "UNNEST("@, BindView::Supplied(0)),
        fills(
            updates_centralities(rows),
            "AS u"@,
            "betweenness"@,
            "UNNEST("@,
            BindView::Supplied(1),
        ),
        fills(
            updates_centralities(rows),
            "AS u"@,
            "community_id"@,
            "UNNEST("@,
            BindView::IntArray(rows.map_values(|r: (i64, i32, i32)| r.1)),
        ),
        fills(
            updates_centralities(rows),
            "AS u"@,
            "coreness"@,
            "UNNEST("@,
            BindView::IntArray(rows.map_values(|r: (i64, i32, i32)| r.2)),
        ),
        fills(updates_centralities(rows), "AS u"@, "harmonic"@, "UNNEST("@, BindView::Supplied(2)),
        says(updates_centralities(rows).sql, "WHERE function_metrics.function_id = u.function_id"@),
        says(updates_centralities(rows).sql, "FROM UNNEST"@),
{
    update_function_centralities_text();
    assert(updates_centralities(rows).sql == UPDATE_FUNCTION_CENTRALITIES_SQL@);
}

} // verus!
