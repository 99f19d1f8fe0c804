//! What the statements of `ontology` say.
use vstd::prelude::*;

use crate::meaning::{
    fills, item, lined_up_at, lines_up, mentions, opens, part_at, past, past_blanks, says, takes,
};
use crate::protocol::{ActionView, ReplyView};
use crate::queries::memory_search::MEMORY_ANCHOR_ENTITY_SQL;
use crate::queries::ontology::{
    adds_evidence, agent_provenance, anchors_concept, asks_for_anchor, describes_concept,
    describes_invariant, finds_by_id, finds_by_name, AssertionView, ConceptCreationView,
    ConceptOrigin, CONCEPTS_FOR_FILE_SQL, CONCEPT_ANCESTORS_SQL, CONCEPT_BROADER_LINKS_SQL,
    CONCEPT_CONCURRENCY_FINDINGS_SQL, CONCEPT_DESCENDANTS_SQL, CONCEPT_HIERARCHY_EDGES_SQL,
    COUNT_CONCEPT_EVIDENCE_SQL, CREATE_CONCEPT_SQL, DETECT_IS_A_CYCLES_SQL, EXPORT_CONCEPTS_SQL,
    EXPORT_EDGES_SQL, FIND_CONCEPT_SQL, FIND_SIMILAR_CONCEPT_PAIRS_SQL, GET_CONCEPT_META_SQL,
    INSERT_CONCEPT_EVIDENCE_SQL, INSERT_ONTOLOGY_EDGE_SQL, INVARIANTS_FOR_FILE_SQL,
    INVARIANT_ANCHORED_SQL, LIST_CONCEPTS_BY_FACET_SQL, LIST_CONCEPT_EVIDENCE_SQL,
    LIST_CONCEPT_IDS_BY_FACET_SQL, LOAD_CONCEPT_EFFECT_ROWS_SQL, LOAD_ISA_EDGE_IDS_SQL,
    LOAD_SOFTWARE_PATTERNS_SQL, MIGRATE_CONCEPT_SQL, RESOLVE_CONCEPTS_BY_NAMES_SQL,
    RESOLVE_CONCEPT_BY_ID_SQL, RESOLVE_CONCEPT_BY_NAME_SQL, SEARCH_CONCEPTS_BY_NAME_SQL,
    SET_CONCEPT_ATTR_SQL, SET_CONCEPT_STATUS_SQL, UNANCHORED_INVARIANTS_SQL,
    UPSERT_CONCEPT_META_SQL, UPSERT_INVARIANT_META_SQL,
};
use crate::queries::texts::memory_search::memory_anchor_entity_text;
use crate::statement::BindView;

verus! {

/// What the text of [`UPSERT_CONCEPT_META_SQL`] says.
pub proof fn upsert_concept_meta_text()
    ensures
        opens(UPSERT_CONCEPT_META_SQL@, "INSERT INTO ontology_concept_meta"@),
        lines_up(
            UPSERT_CONCEPT_META_SQL@,
            "INSERT INTO ontology_concept_meta"@,
            "entity_id"@,
            "VALUES ("@,
            1,
        ),
        lines_up(
            UPSERT_CONCEPT_META_SQL@,
            "INSERT INTO ontology_concept_meta"@,
            "facet"@,
            "VALUES ("@,
            2,
        ),
        lines_up(
            UPSERT_CONCEPT_META_SQL@,
            "INSERT INTO ontology_concept_meta"@,
            "build_method"@,
            "VALUES ("@,
            3,
        ),
        lines_up(
            UPSERT_CONCEPT_META_SQL@,
            "INSERT INTO ontology_concept_meta"@,
            "project_id"@,
            "VALUES ("@,
            4,
        ),
        says(UPSERT_CONCEPT_META_SQL@, "WHERE ontology_concept_meta.status = 'candidate'"@),
        says(UPSERT_CONCEPT_META_SQL@, "ON CONFLICT (entity_id) DO UPDATE"@),
        says(UPSERT_CONCEPT_META_SQL@, "facet = EXCLUDED.facet"@),
        says(UPSERT_CONCEPT_META_SQL@, "build_method = EXCLUDED.build_method"@),
{
    reveal_strlit(
        "INSERT INTO ontology_concept_meta (entity_id, facet, build_method, project_id)
         VALUES ($1, $2, $3, $4)
         ON CONFLICT (entity_id) DO UPDATE
            SET facet = EXCLUDED.facet,
                build_method = EXCLUDED.build_method,
                project_id = COALESCE(ontology_concept_meta.project_id, EXCLUDED.project_id),
                updated_at = now()
          WHERE ontology_concept_meta.status = 'candidate'",
    );
    reveal_strlit("INSERT INTO ontology_concept_meta");
    reveal_strlit("ON CONFLICT (entity_id) DO UPDATE");
    reveal_strlit("VALUES (");
    reveal_strlit("WHERE ontology_concept_meta.status = 'candidate'");
    reveal_strlit("build_method");
    reveal_strlit("build_method = EXCLUDED.build_method");
    reveal_strlit("entity_id");
    reveal_strlit("facet");
    reveal_strlit("facet = EXCLUDED.facet");
    reveal_strlit("project_id");
    let t = UPSERT_CONCEPT_META_SQL@;
    assert(part_at(t, 0, "INSERT INTO ontology_concept_meta"@));
    reveal_with_fuel(past, 14);
    reveal_with_fuel(past_blanks, 2);
    assert(past(t, 33, '(') == 35);
    assert(item(t, 35, 0) == 35);
    assert(item(t, 35, 1) == 46);
    assert(item(t, 35, 2) == 53);
    assert(item(t, 35, 3) == 67);
    assert(item(t, 96, 0) == 96);
    assert(item(t, 96, 1) == 100);
    assert(item(t, 96, 2) == 104);
    assert(item(t, 96, 3) == 108);
    assert(lined_up_at(
        t,
        "INSERT INTO ontology_concept_meta"@,
        "entity_id"@,
        "VALUES ("@,
        1,
        0,
        88,
        0,
    ));
    assert(lined_up_at(
        t,
        "INSERT INTO ontology_concept_meta"@,
        "facet"@,
        "VALUES ("@,
        2,
        0,
        88,
        1,
    ));
    assert(lined_up_at(
        t,
        "INSERT INTO ontology_concept_meta"@,
        "build_method"@,
        "VALUES ("@,
        3,
        0,
        88,
        2,
    ));
    assert(lined_up_at(
        t,
        "INSERT INTO ontology_concept_meta"@,
        "project_id"@,
        "VALUES ("@,
        4,
        0,
        88,
        3,
    ));
    assert(part_at(t, 388, "WHERE ontology_concept_meta.status = 'candidate'"@));
    assert(part_at(t, 121, "ON CONFLICT (entity_id) DO UPDATE"@));
    assert(part_at(t, 171, "facet = EXCLUDED.facet"@));
    assert(part_at(t, 211, "build_method = EXCLUDED.build_method"@));
}

/// What the text of [`GET_CONCEPT_META_SQL`] says.
pub proof fn get_concept_meta_text()
    ensures
        opens(GET_CONCEPT_META_SQL@, "SELECT"@),
        mentions(GET_CONCEPT_META_SQL@, "entity_id = "@, 1),
        says(GET_CONCEPT_META_SQL@, "FROM ontology_concept_meta"@),
{
    reveal_strlit(
        "SELECT entity_id, facet, status, confidence, constraint_text, rationale,
                sequence_spec, build_method, project_id
         FROM ontology_concept_meta WHERE entity_id = $1",
    );
    reveal_strlit("FROM ontology_concept_meta");
    reveal_strlit("SELECT");
    reveal_strlit("entity_id = ");
    let t = GET_CONCEPT_META_SQL@;
    assert(part_at(t, 0, "SELECT"@));
    assert(part_at(t, 171, "entity_id = "@));
    assert(part_at(t, 138, "FROM ontology_concept_meta"@));
}

/// What the text of [`SET_CONCEPT_STATUS_SQL`] says.
pub proof fn set_concept_status_text()
    ensures
        opens(SET_CONCEPT_STATUS_SQL@, "UPDATE ontology_concept_meta"@),
        mentions(SET_CONCEPT_STATUS_SQL@, "entity_id = "@, 1),
        mentions(SET_CONCEPT_STATUS_SQL@, "status = "@, 2),
{
    reveal_strlit(
        "UPDATE ontology_concept_meta SET status = $2, updated_at = now() WHERE entity_id = $1",
    );
    reveal_strlit("UPDATE ontology_concept_meta");
    reveal_strlit("entity_id = ");
    reveal_strlit("status = ");
    let t = SET_CONCEPT_STATUS_SQL@;
    assert(part_at(t, 0, "UPDATE ontology_concept_meta"@));
    assert(part_at(t, 71, "entity_id = "@));
    assert(part_at(t, 33, "status = "@));
}

/// What the text of [`LIST_CONCEPTS_BY_FACET_SQL`] says.
pub proof fn list_concepts_by_facet_text()
    ensures
        opens(LIST_CONCEPTS_BY_FACET_SQL@, "SELECT"@),
        mentions(LIST_CONCEPTS_BY_FACET_SQL@, "m.facet = "@, 1),
        mentions(LIST_CONCEPTS_BY_FACET_SQL@, "m.project_id = "@, 2),
        mentions(LIST_CONCEPTS_BY_FACET_SQL@, "LIMIT "@, 3),
        says(
            LIST_CONCEPTS_BY_FACET_SQL@,
            "ORDER BY (m.status = 'canonical') DESC, m.confidence DESC, e.id"@,
        ),
        says(LIST_CONCEPTS_BY_FACET_SQL@, "FROM ontology_concept_meta"@),
        says(
            LIST_CONCEPTS_BY_FACET_SQL@,
            "JOIN memory_entities e ON e.id = m.entity_id AND e.valid_to IS NULL"@,
        ),
{
    reveal_strlit(
        "SELECT e.id AS entity_id, e.name, m.facet, m.status, m.confidence
         FROM ontology_concept_meta m
         JOIN memory_entities e ON e.id = m.entity_id AND e.valid_to IS NULL
         WHERE m.facet = $1 AND ($2::int IS NULL OR m.project_id = $2)
         ORDER BY (m.status = 'canonical') DESC, m.confidence DESC, e.id
         LIMIT $3",
    );
    reveal_strlit("FROM ontology_concept_meta");
    reveal_strlit("JOIN memory_entities e ON e.id = m.entity_id AND e.valid_to IS NULL");
    reveal_strlit("LIMIT ");
    reveal_strlit("ORDER BY (m.status = 'canonical') DESC, m.confidence DESC, e.id");
    reveal_strlit("SELECT");
    reveal_strlit("m.facet = ");
    reveal_strlit("m.project_id = ");
    let t = LIST_CONCEPTS_BY_FACET_SQL@;
    assert(part_at(t, 0, "SELECT"@));
    assert(part_at(t, 196, "m.facet = "@));
    assert(part_at(t, 233, "m.project_id = "@));
    assert(part_at(t, 334, "LIMIT "@));
    assert(part_at(t, 261, "ORDER BY (m.status = 'canonical') DESC, m.confidence DESC, e.id"@));
    assert(part_at(t, 75, "FROM ontology_concept_meta"@));
    assert(part_at(t, 113, "JOIN memory_entities e ON e.id = m.entity_id AND e.valid_to IS NULL"@));
}

/// What the text of [`CONCEPTS_FOR_FILE_SQL`] says.
pub proof fn concepts_for_file_text()
    ensures
        opens(CONCEPTS_FOR_FILE_SQL@, "SELECT DISTINCT"@),
        mentions(CONCEPTS_FOR_FILE_SQL@, "a.file_id = "@, 1),
        says(CONCEPTS_FOR_FILE_SQL@, "ORDER BY m.confidence DESC"@),
        says(CONCEPTS_FOR_FILE_SQL@, "FROM ontology_concept_meta"@),
        says(
            CONCEPTS_FOR_FILE_SQL@,
            "JOIN memory_entities e     ON e.id = m.entity_id AND e.valid_to IS NULL"@,
        ),
        says(CONCEPTS_FOR_FILE_SQL@, "JOIN memory_code_anchor a  ON a.entity_id = m.entity_id"@),
        says(CONCEPTS_FOR_FILE_SQL@, "LEFT JOIN file_symbols s   ON s.id = a.symbol_id"@),
{
    reveal_strlit(
        "SELECT DISTINCT e.id AS entity_id, e.name, m.facet, m.status, m.confidence
         FROM ontology_concept_meta m
         JOIN memory_entities e     ON e.id = m.entity_id AND e.valid_to IS NULL
         JOIN memory_code_anchor a  ON a.entity_id = m.entity_id
         LEFT JOIN file_symbols s   ON s.id = a.symbol_id
         WHERE a.file_id = $1 OR s.file_id = $1
         ORDER BY m.confidence DESC",
    );
    reveal_strlit("FROM ontology_concept_meta");
    reveal_strlit("JOIN memory_code_anchor a  ON a.entity_id = m.entity_id");
    reveal_strlit("JOIN memory_entities e     ON e.id = m.entity_id AND e.valid_to IS NULL");
    reveal_strlit("LEFT JOIN file_symbols s   ON s.id = a.symbol_id");
    reveal_strlit("ORDER BY m.confidence DESC");
    reveal_strlit("SELECT DISTINCT");
    reveal_strlit("a.file_id = ");
    let t = CONCEPTS_FOR_FILE_SQL@;
    assert(part_at(t, 0, "SELECT DISTINCT"@));
    assert(part_at(t, 332, "a.file_id = "@));
    assert(part_at(t, 374, "ORDER BY m.confidence DESC"@));
    assert(part_at(t, 84, "FROM ontology_concept_meta"@));
    assert(part_at(
        t,
        122,
        "JOIN memory_entities e     ON e.id = m.entity_id AND e.valid_to IS NULL"@,
    ));
    assert(part_at(t, 203, "JOIN memory_code_anchor a  ON a.entity_id = m.entity_id"@));
    assert(part_at(t, 268, "LEFT JOIN file_symbols s   ON s.id = a.symbol_id"@));
}

/// What the text of [`INVARIANTS_FOR_FILE_SQL`] says.
#[verifier::rlimit(50)]
pub proof fn invariants_for_file_text()
    ensures
        opens(INVARIANTS_FOR_FILE_SQL@, "SELECT"@),
        mentions(INVARIANTS_FOR_FILE_SQL@, "a.file_id = "@, 1),
        says(INVARIANTS_FOR_FILE_SQL@, "WHERE m.facet = 'invariant'"@),
        says(INVARIANTS_FOR_FILE_SQL@, "AND EXISTS ("@),
        says(INVARIANTS_FOR_FILE_SQL@, "WHERE a.entity_id = m.entity_id"@),
        says(
            INVARIANTS_FOR_FILE_SQL@,
            "ORDER BY (m.status = 'canonical') DESC, m.confidence DESC"@,
        ),
        says(INVARIANTS_FOR_FILE_SQL@, "FROM ontology_concept_meta"@),
        says(
            INVARIANTS_FOR_FILE_SQL@,
            "JOIN memory_entities e     ON e.id = m.entity_id AND e.valid_to IS NULL"@,
        ),
        says(INVARIANTS_FOR_FILE_SQL@, "LEFT JOIN file_symbols s ON s.id = a.symbol_id"@),
{
    reveal_strlit(
        "SELECT e.id AS entity_id, e.name, m.constraint_text, m.rationale,
                m.status, m.confidence
         FROM ontology_concept_meta m
         JOIN memory_entities e     ON e.id = m.entity_id AND e.valid_to IS NULL
         WHERE m.facet = 'invariant'
           AND EXISTS (
                 SELECT 1 FROM memory_code_anchor a
                 LEFT JOIN file_symbols s ON s.id = a.symbol_id
                 WHERE a.entity_id = m.entity_id
                   AND (a.file_id = $1 OR s.file_id = $1))
         ORDER BY (m.status = 'canonical') DESC, m.confidence DESC",
    );
    reveal_strlit("AND EXISTS (");
    reveal_strlit("FROM ontology_concept_meta");
    reveal_strlit("JOIN memory_entities e     ON e.id = m.entity_id AND e.valid_to IS NULL");
    reveal_strlit("LEFT JOIN file_symbols s ON s.id = a.symbol_id");
    reveal_strlit("ORDER BY (m.status = 'canonical') DESC, m.confidence DESC");
    reveal_strlit("SELECT");
    reveal_strlit("WHERE a.entity_id = m.entity_id");
    reveal_strlit("WHERE m.facet = 'invariant'");
    reveal_strlit("a.file_id = ");
    let t = INVARIANTS_FOR_FILE_SQL@;
    assert(part_at(t, 0, "SELECT"@));
    assert(part_at(t, 474, "a.file_id = "@));
    assert(part_at(t, 233, "WHERE m.facet = 'invariant'"@));
    assert(part_at(t, 272, "AND EXISTS ("@));
    assert(part_at(t, 418, "WHERE a.entity_id = m.entity_id"@));
    assert(part_at(t, 518, "ORDER BY (m.status = 'canonical') DESC, m.confidence DESC"@));
    assert(part_at(t, 114, "FROM ontology_concept_meta"@));
    assert(part_at(
        t,
        152,
        "JOIN memory_entities e     ON e.id = m.entity_id AND e.valid_to IS NULL"@,
    ));
    assert(part_at(t, 354, "LEFT JOIN file_symbols s ON s.id = a.symbol_id"@));
}

/// What the text of [`UPSERT_INVARIANT_META_SQL`] says.
#[verifier::rlimit(50)]
pub proof fn upsert_invariant_meta_text()
    ensures
        opens(UPSERT_INVARIANT_META_SQL@, "INSERT INTO ontology_concept_meta"@),
        lines_up(
            UPSERT_INVARIANT_META_SQL@,
            "INSERT INTO ontology_concept_meta"@,
            "entity_id"@,
            "VALUES ("@,
            1,
        ),
        lines_up(
            UPSERT_INVARIANT_META_SQL@,
            "INSERT INTO ontology_concept_meta"@,
            "constraint_text"@,
            "VALUES ("@,
            2,
        ),
        lines_up(
            UPSERT_INVARIANT_META_SQL@,
            "INSERT INTO ontology_concept_meta"@,
            "rationale"@,
            "VALUES ("@,
            3,
        ),
        lines_up(
            UPSERT_INVARIANT_META_SQL@,
            "INSERT INTO ontology_concept_meta"@,
            "build_method"@,
            "VALUES ("@,
            4,
        ),
        lines_up(
            UPSERT_INVARIANT_META_SQL@,
            "INSERT INTO ontology_concept_meta"@,
            "project_id"@,
            "VALUES ("@,
            5,
        ),
        says(UPSERT_INVARIANT_META_SQL@, "WHERE ontology_concept_meta.status = 'candidate'"@),
        says(UPSERT_INVARIANT_META_SQL@, "ON CONFLICT (entity_id) DO UPDATE"@),
        says(UPSERT_INVARIANT_META_SQL@, "constraint_text = EXCLUDED.constraint_text"@),
        says(UPSERT_INVARIANT_META_SQL@, "rationale = EXCLUDED.rationale"@),
        says(UPSERT_INVARIANT_META_SQL@, "build_method = EXCLUDED.build_method"@),
{
    reveal_strlit(
        "INSERT INTO ontology_concept_meta
            (entity_id, facet, constraint_text, rationale, build_method, project_id)
         VALUES ($1, 'invariant', $2, $3, $4, $5)
         ON CONFLICT (entity_id) DO UPDATE
            SET facet = 'invariant',
                constraint_text = EXCLUDED.constraint_text,
                rationale = EXCLUDED.rationale,
                build_method = EXCLUDED.build_method,
                project_id = COALESCE(ontology_concept_meta.project_id, EXCLUDED.project_id),
                updated_at = now()
          WHERE ontology_concept_meta.status = 'candidate'",
    );
    reveal_strlit("INSERT INTO ontology_concept_meta");
    reveal_strlit("ON CONFLICT (entity_id) DO UPDATE");
    reveal_strlit("VALUES (");
    reveal_strlit("WHERE ontology_concept_meta.status = 'candidate'");
    reveal_strlit("build_method");
    reveal_strlit("build_method = EXCLUDED.build_method");
    reveal_strlit("constraint_text");
    reveal_strlit("constraint_text = EXCLUDED.constraint_text");
    reveal_strlit("entity_id");
    reveal_strlit("project_id");
    reveal_strlit("rationale");
    reveal_strlit("rationale = EXCLUDED.rationale");
    let t = UPSERT_INVARIANT_META_SQL@;
    assert(part_at(t, 0, "INSERT INTO ontology_concept_meta"@));
    reveal_with_fuel(past, 17);
    reveal_with_fuel(past_blanks, 2);
    assert(past(t, 33, '(') == 47);
    assert(item(t, 47, 0) == 47);
    assert(item(t, 47, 1) == 58);
    assert(item(t, 47, 2) == 65);
    assert(item(t, 47, 3) == 82);
    assert(item(t, 47, 4) == 93);
    assert(item(t, 47, 5) == 107);
    assert(item(t, 136, 0) == 136);
    assert(item(t, 136, 1) == 140);
    assert(item(t, 136, 2) == 153);
    assert(item(t, 136, 3) == 157);
    assert(item(t, 136, 4) == 161);
    assert(item(t, 136, 5) == 165);
    assert(lined_up_at(
        t,
        "INSERT INTO ontology_concept_meta"@,
        "entity_id"@,
        "VALUES ("@,
        1,
        0,
        128,
        0,
    ));
    assert(lined_up_at(
        t,
        "INSERT INTO ontology_concept_meta"@,
        "constraint_text"@,
        "VALUES ("@,
        2,
        0,
        128,
        2,
    ));
    assert(lined_up_at(
        t,
        "INSERT INTO ontology_concept_meta"@,
        "rationale"@,
        "VALUES ("@,
        3,
        0,
        128,
        3,
    ));
    assert(lined_up_at(
        t,
        "INSERT INTO ontology_concept_meta"@,
        "build_method"@,
        "VALUES ("@,
        4,
        0,
        128,
        4,
    ));
    assert(lined_up_at(
        t,
        "INSERT INTO ontology_concept_meta"@,
        "project_id"@,
        "VALUES ("@,
        5,
        0,
        128,
        5,
    ));
    assert(part_at(t, 550, "WHERE ontology_concept_meta.status = 'candidate'"@));
    assert(part_at(t, 178, "ON CONFLICT (entity_id) DO UPDATE"@));
    assert(part_at(t, 265, "constraint_text = EXCLUDED.constraint_text"@));
    assert(part_at(t, 325, "rationale = EXCLUDED.rationale"@));
    assert(part_at(t, 373, "build_method = EXCLUDED.build_method"@));
}

/// What the text of [`INSERT_CONCEPT_EVIDENCE_SQL`] says.
pub proof fn insert_concept_evidence_text()
    ensures
        opens(INSERT_CONCEPT_EVIDENCE_SQL@, "INSERT INTO ontology_concept_evidence"@),
        lines_up(
            INSERT_CONCEPT_EVIDENCE_SQL@,
            "INSERT INTO ontology_concept_evidence"@,
            "entity_id"@,
            "VALUES ("@,
            1,
        ),
        lines_up(
            INSERT_CONCEPT_EVIDENCE_SQL@,
            "INSERT INTO ontology_concept_evidence"@,
            "evidence_kind"@,
            "VALUES ("@,
            2,
        ),
        lines_up(
            INSERT_CONCEPT_EVIDENCE_SQL@,
            "INSERT INTO ontology_concept_evidence"@,
            "commit_id"@,
            "VALUES ("@,
            3,
        ),
        lines_up(
            INSERT_CONCEPT_EVIDENCE_SQL@,
            "INSERT INTO ontology_concept_evidence"@,
            "file_id"@,
            "VALUES ("@,
            4,
        ),
        lines_up(
            INSERT_CONCEPT_EVIDENCE_SQL@,
            "INSERT INTO ontology_concept_evidence"@,
            "mandate_ref"@,
            "VALUES ("@,
            5,
        ),
        lines_up(
            INSERT_CONCEPT_EVIDENCE_SQL@,
            "INSERT INTO ontology_concept_evidence"@,
            "detail"@,
            "VALUES ("@,
            6,
        ),
        lines_up(
            INSERT_CONCEPT_EVIDENCE_SQL@,
            "INSERT INTO ontology_concept_evidence"@,
            "provenance_key"@,
            "VALUES ("@,
            7,
        ),
        says(INSERT_CONCEPT_EVIDENCE_SQL@, "ON CONFLICT (provenance_key) DO NOTHING"@),
{
    reveal_strlit(
        "INSERT INTO ontology_concept_evidence
            (entity_id, evidence_kind, commit_id, file_id, mandate_ref, detail, provenance_key)
         VALUES ($1, $2, $3, $4, $5, $6, $7)
         ON CONFLICT (provenance_key) DO NOTHING
         RETURNING id",
    );
    reveal_strlit("INSERT INTO ontology_concept_evidence");
    reveal_strlit("ON CONFLICT (provenance_key) DO NOTHING");
    reveal_strlit("VALUES (");
    reveal_strlit("commit_id");
    reveal_strlit("detail");
    reveal_strlit("entity_id");
    reveal_strlit("evidence_kind");
    reveal_strlit("file_id");
    reveal_strlit("mandate_ref");
    reveal_strlit("provenance_key");
    let t = INSERT_CONCEPT_EVIDENCE_SQL@;
    assert(part_at(t, 0, "INSERT INTO ontology_concept_evidence"@));
    reveal_with_fuel(past, 15);
    reveal_with_fuel(past_blanks, 2);
    assert(past(t, 37, '(') == 51);
    assert(item(t, 51, 0) == 51);
    assert(item(t, 51, 1) == 62);
    assert(item(t, 51, 2) == 77);
    assert(item(t, 51, 3) == 88);
    assert(item(t, 51, 4) == 97);
    assert(item(t, 51, 5) == 110);
    assert(item(t, 51, 6) == 118);
    assert(item(t, 151, 0) == 151);
    assert(item(t, 151, 1) == 155);
    assert(item(t, 151, 2) == 159);
    assert(item(t, 151, 3) == 163);
    assert(item(t, 151, 4) == 167);
    assert(item(t, 151, 5) == 171);
    assert(item(t, 151, 6) == 175);
    assert(lined_up_at(
        t,
        "INSERT INTO ontology_concept_evidence"@,
        "entity_id"@,
        "VALUES ("@,
        1,
        0,
        143,
        0,
    ));
    assert(lined_up_at(
        t,
        "INSERT INTO ontology_concept_evidence"@,
        "evidence_kind"@,
        "VALUES ("@,
        2,
        0,
        143,
        1,
    ));
    assert(lined_up_at(
        t,
        "INSERT INTO ontology_concept_evidence"@,
        "commit_id"@,
        "VALUES ("@,
        3,
        0,
        143,
        2,
    ));
    assert(lined_up_at(
        t,
        "INSERT INTO ontology_concept_evidence"@,
        "file_id"@,
        "VALUES ("@,
        4,
        0,
        143,
        3,
    ));
    assert(lined_up_at(
        t,
        "INSERT INTO ontology_concept_evidence"@,
        "mandate_ref"@,
        "VALUES ("@,
        5,
        0,
        143,
        4,
    ));
    assert(lined_up_at(
        t,
        "INSERT INTO ontology_concept_evidence"@,
        "detail"@,
        "VALUES ("@,
        6,
        0,
        143,
        5,
    ));
    assert(lined_up_at(
        t,
        "INSERT INTO ontology_concept_evidence"@,
        "provenance_key"@,
        "VALUES ("@,
        7,
        0,
        143,
        6,
    ));
    assert(part_at(t, 188, "ON CONFLICT (provenance_key) DO NOTHING"@));
}

/// What the text of [`COUNT_CONCEPT_EVIDENCE_SQL`] says.
pub proof fn count_concept_evidence_text()
    ensures
        opens(COUNT_CONCEPT_EVIDENCE_SQL@, "SELECT COUNT(*) FROM ontology_concept_evidence"@),
        mentions(COUNT_CONCEPT_EVIDENCE_SQL@, "entity_id = "@, 1),
{
    reveal_strlit(
        "SELECT COUNT(*) FROM ontology_concept_evidence WHERE entity_id = $1",
    );
    reveal_strlit("SELECT COUNT(*) FROM ontology_concept_evidence");
    reveal_strlit("entity_id = ");
    let t = COUNT_CONCEPT_EVIDENCE_SQL@;
    assert(part_at(t, 0, "SELECT COUNT(*) FROM ontology_concept_evidence"@));
    assert(part_at(t, 53, "entity_id = "@));
}

/// What the text of [`INSERT_ONTOLOGY_EDGE_SQL`] says.
pub proof fn insert_ontology_edge_text()
    ensures
        opens(INSERT_ONTOLOGY_EDGE_SQL@, "INSERT INTO memory_relations"@),
        lines_up(
            INSERT_ONTOLOGY_EDGE_SQL@,
            "INSERT INTO memory_relations"@,
            "from_entity_id"@,
            "SELECT "@,
            1,
        ),
        lines_up(
            INSERT_ONTOLOGY_EDGE_SQL@,
            "INSERT INTO memory_relations"@,
            "to_entity_id"@,
            "SELECT "@,
            2,
        ),
        lines_up(
            INSERT_ONTOLOGY_EDGE_SQL@,
            "INSERT INTO memory_relations"@,
            "relation_type"@,
            "SELECT "@,
            3,
        ),
        lines_up(
            INSERT_ONTOLOGY_EDGE_SQL@,
            "INSERT INTO memory_relations"@,
            "importance"@,
            "SELECT "@,
            4,
        ),
        says(INSERT_ONTOLOGY_EDGE_SQL@, "WHERE NOT EXISTS ("@),
        says(INSERT_ONTOLOGY_EDGE_SQL@, "FROM memory_relations"@),
{
    reveal_strlit(
        "INSERT INTO memory_relations
            (from_entity_id, to_entity_id, relation_type, importance, source)
         SELECT $1, $2, $3, $4, 'auto_index'::memory_source
         WHERE NOT EXISTS (
             SELECT 1 FROM memory_relations
             WHERE from_entity_id = $1 AND to_entity_id = $2
               AND relation_type = $3 AND valid_to IS NULL
         )
         RETURNING id",
    );
    reveal_strlit("FROM memory_relations");
    reveal_strlit("INSERT INTO memory_relations");
    reveal_strlit("SELECT ");
    reveal_strlit("WHERE NOT EXISTS (");
    reveal_strlit("from_entity_id");
    reveal_strlit("importance");
    reveal_strlit("relation_type");
    reveal_strlit("to_entity_id");
    let t = INSERT_ONTOLOGY_EDGE_SQL@;
    assert(part_at(t, 0, "INSERT INTO memory_relations"@));
    reveal_with_fuel(past, 16);
    reveal_with_fuel(past_blanks, 2);
    assert(past(t, 28, '(') == 42);
    assert(item(t, 42, 0) == 42);
    assert(item(t, 42, 1) == 58);
    assert(item(t, 42, 2) == 72);
    assert(item(t, 42, 3) == 87);
    assert(item(t, 123, 0) == 123);
    assert(item(t, 123, 1) == 127);
    assert(item(t, 123, 2) == 131);
    assert(item(t, 123, 3) == 135);
    assert(lined_up_at(
        t,
        "INSERT INTO memory_relations"@,
        "from_entity_id"@,
        "SELECT "@,
        1,
        0,
        116,
        0,
    ));
    assert(lined_up_at(
        t,
        "INSERT INTO memory_relations"@,
        "to_entity_id"@,
        "SELECT "@,
        2,
        0,
        116,
        1,
    ));
    assert(lined_up_at(
        t,
        "INSERT INTO memory_relations"@,
        "relation_type"@,
        "SELECT "@,
        3,
        0,
        116,
        2,
    ));
    assert(lined_up_at(
        t,
        "INSERT INTO memory_relations"@,
        "importance"@,
        "SELECT "@,
        4,
        0,
        116,
        3,
    ));
    assert(part_at(t, 176, "WHERE NOT EXISTS ("@));
    assert(part_at(t, 217, "FROM memory_relations"@));
}

/// What the text of [`LIST_CONCEPT_IDS_BY_FACET_SQL`] says.
pub proof fn list_concept_ids_by_facet_text()
    ensures
        opens(LIST_CONCEPT_IDS_BY_FACET_SQL@, "SELECT"@),
        mentions(LIST_CONCEPT_IDS_BY_FACET_SQL@, "m.facet = "@, 1),
        says(LIST_CONCEPT_IDS_BY_FACET_SQL@, "ORDER BY m.entity_id"@),
        says(LIST_CONCEPT_IDS_BY_FACET_SQL@, "FROM ontology_concept_meta"@),
        says(
            LIST_CONCEPT_IDS_BY_FACET_SQL@,
            "JOIN memory_entities e ON e.id = m.entity_id AND e.valid_to IS NULL"@,
        ),
{
    reveal_strlit(
        "SELECT m.entity_id FROM ontology_concept_meta m
         JOIN memory_entities e ON e.id = m.entity_id AND e.valid_to IS NULL
         WHERE m.facet = $1
         ORDER BY m.entity_id",
    );
    reveal_strlit("FROM ontology_concept_meta");
    reveal_strlit("JOIN memory_entities e ON e.id = m.entity_id AND e.valid_to IS NULL");
    reveal_strlit("ORDER BY m.entity_id");
    reveal_strlit("SELECT");
    reveal_strlit("m.facet = ");
    let t = LIST_CONCEPT_IDS_BY_FACET_SQL@;
    assert(part_at(t, 0, "SELECT"@));
    assert(part_at(t, 140, "m.facet = "@));
    assert(part_at(t, 162, "ORDER BY m.entity_id"@));
    assert(part_at(t, 19, "FROM ontology_concept_meta"@));
    assert(part_at(t, 57, "JOIN memory_entities e ON e.id = m.entity_id AND e.valid_to IS NULL"@));
}

/// What the text of [`CONCEPT_CONCURRENCY_FINDINGS_SQL`] says.
pub proof fn concept_concurrency_findings_text()
    ensures
        opens(CONCEPT_CONCURRENCY_FINDINGS_SQL@, "SELECT DISTINCT"@),
        says(
            CONCEPT_CONCURRENCY_FINDINGS_SQL@,
            "OR (cf.symbol_id IS NOT NULL AND a.symbol_id = cf.symbol_id)"@,
        ),
        says(CONCEPT_CONCURRENCY_FINDINGS_SQL@, "ORDER BY m.entity_id, cf.id"@),
        says(CONCEPT_CONCURRENCY_FINDINGS_SQL@, "FROM concurrency_findings"@),
        says(CONCEPT_CONCURRENCY_FINDINGS_SQL@, "JOIN memory_code_anchor a"@),
        says(
            CONCEPT_CONCURRENCY_FINDINGS_SQL@,
            "JOIN ontology_concept_meta m ON m.entity_id = a.entity_id"@,
        ),
{
    reveal_strlit(
        "SELECT DISTINCT m.entity_id, cf.id, cf.title, cf.file_id
         FROM concurrency_findings cf
         JOIN memory_code_anchor a
           ON (cf.file_id   IS NOT NULL AND a.file_id   = cf.file_id)
           OR (cf.symbol_id IS NOT NULL AND a.symbol_id = cf.symbol_id)
         JOIN ontology_concept_meta m ON m.entity_id = a.entity_id
         ORDER BY m.entity_id, cf.id",
    );
    reveal_strlit("FROM concurrency_findings");
    reveal_strlit("JOIN memory_code_anchor a");
    reveal_strlit("JOIN ontology_concept_meta m ON m.entity_id = a.entity_id");
    reveal_strlit("OR (cf.symbol_id IS NOT NULL AND a.symbol_id = cf.symbol_id)");
    reveal_strlit("ORDER BY m.entity_id, cf.id");
    reveal_strlit("SELECT DISTINCT");
    let t = CONCEPT_CONCURRENCY_FINDINGS_SQL@;
    assert(part_at(t, 0, "SELECT DISTINCT"@));
    assert(part_at(t, 211, "OR (cf.symbol_id IS NOT NULL AND a.symbol_id = cf.symbol_id)"@));
    assert(part_at(t, 348, "ORDER BY m.entity_id, cf.id"@));
    assert(part_at(t, 66, "FROM concurrency_findings"@));
    assert(part_at(t, 104, "JOIN memory_code_anchor a"@));
    assert(part_at(t, 281, "JOIN ontology_concept_meta m ON m.entity_id = a.entity_id"@));
}

/// What the text of [`LOAD_SOFTWARE_PATTERNS_SQL`] says.
pub proof fn load_software_patterns_text()
    ensures
        opens(LOAD_SOFTWARE_PATTERNS_SQL@, "SELECT"@),
        says(LOAD_SOFTWARE_PATTERNS_SQL@, "ORDER BY id"@),
        says(LOAD_SOFTWARE_PATTERNS_SQL@, "FROM software_patterns"@),
{
    reveal_strlit(
        "SELECT slug, name, category, kind FROM software_patterns ORDER BY id",
    );
    reveal_strlit("FROM software_patterns");
    reveal_strlit("ORDER BY id");
    reveal_strlit("SELECT");
    let t = LOAD_SOFTWARE_PATTERNS_SQL@;
    assert(part_at(t, 0, "SELECT"@));
    assert(part_at(t, 57, "ORDER BY id"@));
    assert(part_at(t, 34, "FROM software_patterns"@));
}

/// What the text of [`FIND_CONCEPT_SQL`] says.
pub proof fn find_concept_text()
    ensures
        opens(FIND_CONCEPT_SQL@, "SELECT"@),
        mentions(FIND_CONCEPT_SQL@, "name = "@, 1),
        says(FIND_CONCEPT_SQL@, "FROM memory_entities"@),
{
    reveal_strlit(
        "SELECT id FROM memory_entities \
         WHERE name = $1 AND entity_type = 'concept' AND valid_to IS NULL LIMIT 1",
    );
    reveal_strlit("FROM memory_entities");
    reveal_strlit("SELECT");
    reveal_strlit("name = ");
    let t = FIND_CONCEPT_SQL@;
    assert(part_at(t, 0, "SELECT"@));
    assert(part_at(t, 37, "name = "@));
    assert(part_at(t, 10, "FROM memory_entities"@));
}

/// What the text of [`MIGRATE_CONCEPT_SQL`] says.
pub proof fn migrate_concept_text()
    ensures
        opens(MIGRATE_CONCEPT_SQL@, "INSERT INTO memory_entities"@),
        lines_up(MIGRATE_CONCEPT_SQL@, "INSERT INTO memory_entities"@, "name"@, "VALUES ("@, 1),
{
    reveal_strlit(
        "INSERT INTO memory_entities (name, entity_type, source) \
                 VALUES ($1, 'concept', 'migration'::memory_source) RETURNING id",
    );
    reveal_strlit("INSERT INTO memory_entities");
    reveal_strlit("VALUES (");
    reveal_strlit("name");
    let t = MIGRATE_CONCEPT_SQL@;
    assert(part_at(t, 0, "INSERT INTO memory_entities"@));
    reveal_with_fuel(past, 3);
    reveal_with_fuel(past_blanks, 1);
    assert(past(t, 27, '(') == 29);
    assert(item(t, 29, 0) == 29);
    assert(item(t, 64, 0) == 64);
    assert(lined_up_at(t, "INSERT INTO memory_entities"@, "name"@, "VALUES ("@, 1, 0, 56, 0));
}

/// What the text of [`CREATE_CONCEPT_SQL`] says.
pub proof fn create_concept_text()
    ensures
        opens(CREATE_CONCEPT_SQL@, "INSERT INTO memory_entities"@),
        lines_up(CREATE_CONCEPT_SQL@, "INSERT INTO memory_entities"@, "name"@, "VALUES ("@, 1),
        lines_up(CREATE_CONCEPT_SQL@, "INSERT INTO memory_entities"@, "source"@, "VALUES ("@, 2),
{
    reveal_strlit(
        "INSERT INTO memory_entities (name, entity_type, source) \
                 VALUES ($1, 'concept', $2::memory_source) RETURNING id",
    );
    reveal_strlit("INSERT INTO memory_entities");
    reveal_strlit("VALUES (");
    reveal_strlit("name");
    reveal_strlit("source");
    let t = CREATE_CONCEPT_SQL@;
    assert(part_at(t, 0, "INSERT INTO memory_entities"@));
    reveal_with_fuel(past, 13);
    reveal_with_fuel(past_blanks, 2);
    assert(past(t, 27, '(') == 29);
    assert(item(t, 29, 0) == 29);
    assert(item(t, 29, 1) == 35);
    assert(item(t, 29, 2) == 48);
    assert(item(t, 64, 0) == 64);
    assert(item(t, 64, 1) == 68);
    assert(item(t, 64, 2) == 79);
    assert(lined_up_at(t, "INSERT INTO memory_entities"@, "name"@, "VALUES ("@, 1, 0, 56, 0));
    assert(lined_up_at(t, "INSERT INTO memory_entities"@, "source"@, "VALUES ("@, 2, 0, 56, 2));
}

/// What the text of [`SET_CONCEPT_ATTR_SQL`] says.
pub proof fn set_concept_attr_text()
    ensures
        opens(SET_CONCEPT_ATTR_SQL@, "INSERT INTO ontology_concept_attr"@),
        lines_up(
            SET_CONCEPT_ATTR_SQL@,
            "INSERT INTO ontology_concept_attr"@,
            "entity_id"@,
            "VALUES ("@,
            1,
        ),
        lines_up(
            SET_CONCEPT_ATTR_SQL@,
            "INSERT INTO ontology_concept_attr"@,
            "key"@,
            "VALUES ("@,
            2,
        ),
        lines_up(
            SET_CONCEPT_ATTR_SQL@,
            "INSERT INTO ontology_concept_attr"@,
            "value"@,
            "VALUES ("@,
            3,
        ),
        says(
            SET_CONCEPT_ATTR_SQL@,
            "ON CONFLICT (entity_id, key) DO UPDATE SET value = EXCLUDED.value"@,
        ),
        says(SET_CONCEPT_ATTR_SQL@, "value = EXCLUDED.value"@),
{
    reveal_strlit(
        "INSERT INTO ontology_concept_attr (entity_id, key, value) VALUES ($1, $2, $3)
         ON CONFLICT (entity_id, key) DO UPDATE SET value = EXCLUDED.value",
    );
    reveal_strlit("INSERT INTO ontology_concept_attr");
    reveal_strlit("ON CONFLICT (entity_id, key) DO UPDATE SET value = EXCLUDED.value");
    reveal_strlit("VALUES (");
    reveal_strlit("entity_id");
    reveal_strlit("key");
    reveal_strlit("value");
    reveal_strlit("value = EXCLUDED.value");
    let t = SET_CONCEPT_ATTR_SQL@;
    assert(part_at(t, 0, "INSERT INTO ontology_concept_attr"@));
    reveal_with_fuel(past, 11);
    reveal_with_fuel(past_blanks, 2);
    assert(past(t, 33, '(') == 35);
    assert(item(t, 35, 0) == 35);
    assert(item(t, 35, 1) == 46);
    assert(item(t, 35, 2) == 51);
    assert(item(t, 66, 0) == 66);
    assert(item(t, 66, 1) == 70);
    assert(item(t, 66, 2) == 74);
    assert(lined_up_at(
        t,
        "INSERT INTO ontology_concept_attr"@,
        "entity_id"@,
        "VALUES ("@,
        1,
        0,
        58,
        0,
    ));
    assert(lined_up_at(t, "INSERT INTO ontology_concept_attr"@, "key"@, "VALUES ("@, 2, 0, 58, 1));
    assert(lined_up_at(
        t,
        "INSERT INTO ontology_concept_attr"@,
        "value"@,
        "VALUES ("@,
        3,
        0,
        58,
        2,
    ));
    assert(part_at(t, 87, "ON CONFLICT (entity_id, key) DO UPDATE SET value = EXCLUDED.value"@));
    assert(part_at(t, 130, "value = EXCLUDED.value"@));
}

/// What the text of [`DETECT_IS_A_CYCLES_SQL`] says.
pub proof fn detect_is_a_cycles_text()
    ensures
        opens(DETECT_IS_A_CYCLES_SQL@, "WITH RECURSIVE"@),
        says(DETECT_IS_A_CYCLES_SQL@, "WHERE relation_type = 'is_a' AND valid_to IS NULL"@),
        says(DETECT_IS_A_CYCLES_SQL@, "ORDER BY start"@),
        says(DETECT_IS_A_CYCLES_SQL@, "FROM memory_relations"@),
        says(DETECT_IS_A_CYCLES_SQL@, "JOIN memory_relations m"@),
{
    reveal_strlit(
        "WITH RECURSIVE reach(start, node) AS (
             SELECT from_entity_id, to_entity_id FROM memory_relations
             WHERE relation_type = 'is_a' AND valid_to IS NULL
             UNION
             SELECT r.start, m.to_entity_id
             FROM reach r
             JOIN memory_relations m
               ON m.from_entity_id = r.node AND m.relation_type = 'is_a' AND m.valid_to IS NULL
         )
         SELECT DISTINCT start FROM reach WHERE start = node ORDER BY start",
    );
    reveal_strlit("FROM memory_relations");
    reveal_strlit("JOIN memory_relations m");
    reveal_strlit("ORDER BY start");
    reveal_strlit("WHERE relation_type = 'is_a' AND valid_to IS NULL");
    reveal_strlit("WITH RECURSIVE");
    let t = DETECT_IS_A_CYCLES_SQL@;
    assert(part_at(t, 0, "WITH RECURSIVE"@));
    assert(part_at(t, 123, "WHERE relation_type = 'is_a' AND valid_to IS NULL"@));
    assert(part_at(t, 467, "ORDER BY start"@));
    assert(part_at(t, 88, "FROM memory_relations"@));
    assert(part_at(t, 275, "JOIN memory_relations m"@));
}

/// What the text of [`UNANCHORED_INVARIANTS_SQL`] says.
pub proof fn unanchored_invariants_text()
    ensures
        opens(UNANCHORED_INVARIANTS_SQL@, "SELECT"@),
        says(UNANCHORED_INVARIANTS_SQL@, "WHERE m.facet = 'invariant'"@),
        says(UNANCHORED_INVARIANTS_SQL@, "ORDER BY m.entity_id"@),
        says(UNANCHORED_INVARIANTS_SQL@, "FROM ontology_concept_meta"@),
        says(
            UNANCHORED_INVARIANTS_SQL@,
            "JOIN memory_entities e ON e.id = m.entity_id AND e.valid_to IS NULL"@,
        ),
{
    reveal_strlit(
        "SELECT m.entity_id, e.name
         FROM ontology_concept_meta m
         JOIN memory_entities e ON e.id = m.entity_id AND e.valid_to IS NULL
         WHERE m.facet = 'invariant'
           AND NOT EXISTS (SELECT 1 FROM memory_code_anchor a WHERE a.entity_id = m.entity_id)
         ORDER BY m.entity_id",
    );
    reveal_strlit("FROM ontology_concept_meta");
    reveal_strlit("JOIN memory_entities e ON e.id = m.entity_id AND e.valid_to IS NULL");
    reveal_strlit("ORDER BY m.entity_id");
    reveal_strlit("SELECT");
    reveal_strlit("WHERE m.facet = 'invariant'");
    let t = UNANCHORED_INVARIANTS_SQL@;
    assert(part_at(t, 0, "SELECT"@));
    assert(part_at(t, 151, "WHERE m.facet = 'invariant'"@));
    assert(part_at(t, 283, "ORDER BY m.entity_id"@));
    assert(part_at(t, 36, "FROM ontology_concept_meta"@));
    assert(part_at(t, 74, "JOIN memory_entities e ON e.id = m.entity_id AND e.valid_to IS NULL"@));
}

/// What the text of [`CONCEPT_ANCESTORS_SQL`] says.
#[verifier::rlimit(50)]
pub proof fn concept_ancestors_text()
    ensures
        opens(CONCEPT_ANCESTORS_SQL@, "WITH RECURSIVE"@),
        mentions(CONCEPT_ANCESTORS_SQL@, "from_entity_id = "@, 1),
        says(CONCEPT_ANCESTORS_SQL@, "WHERE NOT r.to_entity_id = ANY(a.path)"@),
        says(CONCEPT_ANCESTORS_SQL@, "GROUP BY a.node, e.name"@),
        says(CONCEPT_ANCESTORS_SQL@, "ORDER BY MIN(a.depth), e.name"@),
        says(CONCEPT_ANCESTORS_SQL@, "FROM memory_relations"@),
        says(CONCEPT_ANCESTORS_SQL@, "JOIN memory_relations r"@),
        says(
            CONCEPT_ANCESTORS_SQL@,
            "JOIN memory_entities e ON e.id = a.node AND e.valid_to IS NULL"@,
        ),
{
    reveal_strlit(
        "WITH RECURSIVE anc(node, depth, path) AS (
             SELECT to_entity_id, 1, ARRAY[to_entity_id] FROM memory_relations
             WHERE from_entity_id = $1 AND relation_type = 'is_a' AND valid_to IS NULL
             UNION
             SELECT r.to_entity_id, a.depth + 1, a.path || r.to_entity_id
             FROM anc a
             JOIN memory_relations r
               ON r.from_entity_id = a.node AND r.relation_type = 'is_a' AND r.valid_to IS NULL
             WHERE NOT r.to_entity_id = ANY(a.path)
         )
         SELECT a.node, e.name
         FROM anc a JOIN memory_entities e ON e.id = a.node AND e.valid_to IS NULL
         GROUP BY a.node, e.name
         ORDER BY MIN(a.depth), e.name",
    );
    reveal_strlit("FROM memory_relations");
    reveal_strlit("GROUP BY a.node, e.name");
    reveal_strlit("JOIN memory_entities e ON e.id = a.node AND e.valid_to IS NULL");
    reveal_strlit("JOIN memory_relations r");
    reveal_strlit("ORDER BY MIN(a.depth), e.name");
    reveal_strlit("WHERE NOT r.to_entity_id = ANY(a.path)");
    reveal_strlit("WITH RECURSIVE");
    reveal_strlit("from_entity_id = ");
    let t = CONCEPT_ANCESTORS_SQL@;
    assert(part_at(t, 0, "WITH RECURSIVE"@));
    assert(part_at(t, 141, "from_entity_id = "@));
    assert(part_at(t, 472, "WHERE NOT r.to_entity_id = ANY(a.path)"@));
    assert(part_at(t, 645, "GROUP BY a.node, e.name"@));
    assert(part_at(t, 678, "ORDER BY MIN(a.depth), e.name"@));
    assert(part_at(t, 100, "FROM memory_relations"@));
    assert(part_at(t, 339, "JOIN memory_relations r"@));
    assert(part_at(t, 573, "JOIN memory_entities e ON e.id = a.node AND e.valid_to IS NULL"@));
}

/// What the text of [`CONCEPT_DESCENDANTS_SQL`] says.
#[verifier::rlimit(50)]
pub proof fn concept_descendants_text()
    ensures
        opens(CONCEPT_DESCENDANTS_SQL@, "WITH RECURSIVE"@),
        mentions(CONCEPT_DESCENDANTS_SQL@, "r.to_entity_id = "@, 1),
        mentions(CONCEPT_DESCENDANTS_SQL@, "s.depth < "@, 2),
        says(CONCEPT_DESCENDANTS_SQL@, "ORDER BY s.parent_id, s.child_id"@),
        says(CONCEPT_DESCENDANTS_SQL@, "FROM memory_relations"@),
        says(CONCEPT_DESCENDANTS_SQL@, "JOIN memory_relations r"@),
        says(
            CONCEPT_DESCENDANTS_SQL@,
            "JOIN memory_entities cf ON cf.id = s.child_id AND cf.valid_to IS NULL"@,
        ),
        says(
            CONCEPT_DESCENDANTS_SQL@,
            "JOIN memory_entities pf ON pf.id = s.parent_id AND pf.valid_to IS NULL"@,
        ),
{
    reveal_strlit(
        "WITH RECURSIVE sub(child_id, parent_id, relation, depth) AS (
             SELECT r.from_entity_id, r.to_entity_id, r.relation_type, 1
             FROM memory_relations r
             WHERE r.to_entity_id = $1
               AND r.relation_type IN ('is_a','part_of','broader') AND r.valid_to IS NULL
             UNION
             SELECT r.from_entity_id, r.to_entity_id, r.relation_type, s.depth + 1
             FROM sub s
             JOIN memory_relations r
               ON r.to_entity_id = s.child_id
               AND r.relation_type IN ('is_a','part_of','broader') AND r.valid_to IS NULL
             WHERE s.depth < $2
         )
         SELECT s.child_id, cf.name AS child_name, s.parent_id, pf.name AS parent_name, s.relation
         FROM sub s
         JOIN memory_entities cf ON cf.id = s.child_id AND cf.valid_to IS NULL
         JOIN memory_entities pf ON pf.id = s.parent_id AND pf.valid_to IS NULL
         ORDER BY s.parent_id, s.child_id",
    );
    reveal_strlit("FROM memory_relations");
    reveal_strlit("JOIN memory_entities cf ON cf.id = s.child_id AND cf.valid_to IS NULL");
    reveal_strlit("JOIN memory_entities pf ON pf.id = s.parent_id AND pf.valid_to IS NULL");
    reveal_strlit("JOIN memory_relations r");
    reveal_strlit("ORDER BY s.parent_id, s.child_id");
    reveal_strlit("WITH RECURSIVE");
    reveal_strlit("r.to_entity_id = ");
    reveal_strlit("s.depth < ");
    let t = CONCEPT_DESCENDANTS_SQL@;
    assert(part_at(t, 0, "WITH RECURSIVE"@));
    assert(part_at(t, 191, "r.to_entity_id = "@));
    assert(part_at(t, 619, "s.depth < "@));
    assert(part_at(t, 930, "ORDER BY s.parent_id, s.child_id"@));
    assert(part_at(t, 148, "FROM memory_relations"@));
    assert(part_at(t, 440, "JOIN memory_relations r"@));
    assert(part_at(
        t,
        771,
        "JOIN memory_entities cf ON cf.id = s.child_id AND cf.valid_to IS NULL"@,
    ));
    assert(part_at(
        t,
        850,
        "JOIN memory_entities pf ON pf.id = s.parent_id AND pf.valid_to IS NULL"@,
    ));
}

/// What the text of [`EXPORT_CONCEPTS_SQL`] says.
pub proof fn export_concepts_text()
    ensures
        opens(EXPORT_CONCEPTS_SQL@, "SELECT"@),
        says(EXPORT_CONCEPTS_SQL@, "ORDER BY m.entity_id"@),
        says(EXPORT_CONCEPTS_SQL@, "FROM ontology_concept_meta"@),
        says(
            EXPORT_CONCEPTS_SQL@,
            "JOIN memory_entities e ON e.id = m.entity_id AND e.valid_to IS NULL"@,
        ),
{
    reveal_strlit(
        "SELECT m.entity_id, e.name, m.facet, m.status
         FROM ontology_concept_meta m
         JOIN memory_entities e ON e.id = m.entity_id AND e.valid_to IS NULL
         ORDER BY m.entity_id",
    );
    reveal_strlit("FROM ontology_concept_meta");
    reveal_strlit("JOIN memory_entities e ON e.id = m.entity_id AND e.valid_to IS NULL");
    reveal_strlit("ORDER BY m.entity_id");
    reveal_strlit("SELECT");
    let t = EXPORT_CONCEPTS_SQL@;
    assert(part_at(t, 0, "SELECT"@));
    assert(part_at(t, 170, "ORDER BY m.entity_id"@));
    assert(part_at(t, 55, "FROM ontology_concept_meta"@));
    assert(part_at(t, 93, "JOIN memory_entities e ON e.id = m.entity_id AND e.valid_to IS NULL"@));
}

/// What the text of [`EXPORT_EDGES_SQL`] says.
pub proof fn export_edges_text()
    ensures
        opens(EXPORT_EDGES_SQL@, "SELECT"@),
        says(EXPORT_EDGES_SQL@, "AND r.valid_to IS NULL"@),
        says(EXPORT_EDGES_SQL@, "ORDER BY r.from_entity_id, r.to_entity_id"@),
        says(EXPORT_EDGES_SQL@, "FROM memory_relations"@),
        says(EXPORT_EDGES_SQL@, "JOIN ontology_concept_meta a ON a.entity_id = r.from_entity_id"@),
        says(EXPORT_EDGES_SQL@, "JOIN ontology_concept_meta b ON b.entity_id = r.to_entity_id"@),
{
    reveal_strlit(
        "SELECT r.from_entity_id, r.to_entity_id, r.relation_type
         FROM memory_relations r
         JOIN ontology_concept_meta a ON a.entity_id = r.from_entity_id
         JOIN ontology_concept_meta b ON b.entity_id = r.to_entity_id
         WHERE r.relation_type IN ('is_a','part_of','broader','narrower','member_of')
           AND r.valid_to IS NULL
         ORDER BY r.from_entity_id, r.to_entity_id",
    );
    reveal_strlit("AND r.valid_to IS NULL");
    reveal_strlit("FROM memory_relations");
    reveal_strlit("JOIN ontology_concept_meta a ON a.entity_id = r.from_entity_id");
    reveal_strlit("JOIN ontology_concept_meta b ON b.entity_id = r.to_entity_id");
    reveal_strlit("ORDER BY r.from_entity_id, r.to_entity_id");
    reveal_strlit("SELECT");
    let t = EXPORT_EDGES_SQL@;
    assert(part_at(t, 0, "SELECT"@));
    assert(part_at(t, 329, "AND r.valid_to IS NULL"@));
    assert(part_at(t, 361, "ORDER BY r.from_entity_id, r.to_entity_id"@));
    assert(part_at(t, 66, "FROM memory_relations"@));
    assert(part_at(t, 99, "JOIN ontology_concept_meta a ON a.entity_id = r.from_entity_id"@));
    assert(part_at(t, 171, "JOIN ontology_concept_meta b ON b.entity_id = r.to_entity_id"@));
}

/// What the text of [`LOAD_ISA_EDGE_IDS_SQL`] says.
pub proof fn load_isa_edge_ids_text()
    ensures
        opens(LOAD_ISA_EDGE_IDS_SQL@, "SELECT"@),
        mentions(LOAD_ISA_EDGE_IDS_SQL@, "cm.facet = "@, 1),
        says(LOAD_ISA_EDGE_IDS_SQL@, "WHERE r.relation_type = 'is_a' AND r.valid_to IS NULL"@),
        says(LOAD_ISA_EDGE_IDS_SQL@, "FROM memory_relations"@),
{
    reveal_strlit(
        "SELECT r.from_entity_id, r.to_entity_id
         FROM memory_relations r
         JOIN ontology_concept_meta cm ON cm.entity_id = r.from_entity_id AND cm.facet = $1
         JOIN ontology_concept_meta pm ON pm.entity_id = r.to_entity_id   AND pm.facet = $1
         WHERE r.relation_type = 'is_a' AND r.valid_to IS NULL",
    );
    reveal_strlit("FROM memory_relations");
    reveal_strlit("SELECT");
    reveal_strlit("WHERE r.relation_type = 'is_a' AND r.valid_to IS NULL");
    reveal_strlit("cm.facet = ");
    let t = LOAD_ISA_EDGE_IDS_SQL@;
    assert(part_at(t, 0, "SELECT"@));
    assert(part_at(t, 151, "cm.facet = "@));
    assert(part_at(t, 266, "WHERE r.relation_type = 'is_a' AND r.valid_to IS NULL"@));
    assert(part_at(t, 49, "FROM memory_relations"@));
}

/// What the text of [`CONCEPT_BROADER_LINKS_SQL`] says.
pub proof fn concept_broader_links_text()
    ensures
        opens(CONCEPT_BROADER_LINKS_SQL@, "SELECT"@),
        mentions(CONCEPT_BROADER_LINKS_SQL@, "r.from_entity_id = "@, 1),
        mentions(CONCEPT_BROADER_LINKS_SQL@, "LIMIT "@, 2),
        says(
            CONCEPT_BROADER_LINKS_SQL@,
            "WHERE r.relation_type = 'broader' AND r.valid_to IS NULL"@,
        ),
        says(CONCEPT_BROADER_LINKS_SQL@, "ORDER BY r.importance DESC"@),
        says(CONCEPT_BROADER_LINKS_SQL@, "FROM memory_relations"@),
        says(
            CONCEPT_BROADER_LINKS_SQL@,
            "JOIN memory_entities ef ON ef.id = r.from_entity_id AND ef.valid_to IS NULL"@,
        ),
        says(
            CONCEPT_BROADER_LINKS_SQL@,
            "JOIN memory_entities et ON et.id = r.to_entity_id   AND et.valid_to IS NULL"@,
        ),
{
    reveal_strlit(
        "SELECT r.from_entity_id, ef.name, r.to_entity_id, et.name, r.importance::float8
         FROM memory_relations r
         JOIN memory_entities ef ON ef.id = r.from_entity_id AND ef.valid_to IS NULL
         JOIN memory_entities et ON et.id = r.to_entity_id   AND et.valid_to IS NULL
         WHERE r.relation_type = 'broader' AND r.valid_to IS NULL
           AND (r.from_entity_id = $1 OR r.to_entity_id = $1)
         ORDER BY r.importance DESC
         LIMIT $2",
    );
    reveal_strlit("FROM memory_relations");
    reveal_strlit("JOIN memory_entities ef ON ef.id = r.from_entity_id AND ef.valid_to IS NULL");
    reveal_strlit("JOIN memory_entities et ON et.id = r.to_entity_id   AND et.valid_to IS NULL");
    reveal_strlit("LIMIT ");
    reveal_strlit("ORDER BY r.importance DESC");
    reveal_strlit("SELECT");
    reveal_strlit("WHERE r.relation_type = 'broader' AND r.valid_to IS NULL");
    reveal_strlit("r.from_entity_id = ");
    let t = CONCEPT_BROADER_LINKS_SQL@;
    assert(part_at(t, 0, "SELECT"@));
    assert(part_at(t, 365, "r.from_entity_id = "@));
    assert(part_at(t, 456, "LIMIT "@));
    assert(part_at(t, 292, "WHERE r.relation_type = 'broader' AND r.valid_to IS NULL"@));
    assert(part_at(t, 420, "ORDER BY r.importance DESC"@));
    assert(part_at(t, 89, "FROM memory_relations"@));
    assert(part_at(
        t,
        122,
        "JOIN memory_entities ef ON ef.id = r.from_entity_id AND ef.valid_to IS NULL"@,
    ));
    assert(part_at(
        t,
        207,
        "JOIN memory_entities et ON et.id = r.to_entity_id   AND et.valid_to IS NULL"@,
    ));
}

/// What the text of [`CONCEPT_HIERARCHY_EDGES_SQL`] says.
#[verifier::rlimit(50)]
pub proof fn concept_hierarchy_edges_text()
    ensures
        opens(CONCEPT_HIERARCHY_EDGES_SQL@, "SELECT"@),
        mentions(CONCEPT_HIERARCHY_EDGES_SQL@, "cm.facet = "@, 1),
        says(CONCEPT_HIERARCHY_EDGES_SQL@, "ORDER BY r.from_entity_id, r.to_entity_id"@),
        says(CONCEPT_HIERARCHY_EDGES_SQL@, "FROM memory_relations"@),
        says(
            CONCEPT_HIERARCHY_EDGES_SQL@,
            "JOIN memory_entities cf ON cf.id = r.from_entity_id AND cf.valid_to IS NULL"@,
        ),
        says(
            CONCEPT_HIERARCHY_EDGES_SQL@,
            "JOIN memory_entities pf ON pf.id = r.to_entity_id   AND pf.valid_to IS NULL"@,
        ),
{
    reveal_strlit(
        "SELECT r.from_entity_id AS child_id, cf.name AS child_name,
                r.to_entity_id AS parent_id, pf.name AS parent_name, r.relation_type AS relation
         FROM memory_relations r
         JOIN ontology_concept_meta cm ON cm.entity_id = r.from_entity_id AND cm.facet = $1
         JOIN ontology_concept_meta pm ON pm.entity_id = r.to_entity_id   AND pm.facet = $1
         JOIN memory_entities cf ON cf.id = r.from_entity_id AND cf.valid_to IS NULL
         JOIN memory_entities pf ON pf.id = r.to_entity_id   AND pf.valid_to IS NULL
         WHERE r.relation_type IN ('is_a','part_of','broader') AND r.valid_to IS NULL
         ORDER BY r.from_entity_id, r.to_entity_id",
    );
    reveal_strlit("FROM memory_relations");
    reveal_strlit("JOIN memory_entities cf ON cf.id = r.from_entity_id AND cf.valid_to IS NULL");
    reveal_strlit("JOIN memory_entities pf ON pf.id = r.to_entity_id   AND pf.valid_to IS NULL");
    reveal_strlit("ORDER BY r.from_entity_id, r.to_entity_id");
    reveal_strlit("SELECT");
    reveal_strlit("cm.facet = ");
    let t = CONCEPT_HIERARCHY_EDGES_SQL@;
    assert(part_at(t, 0, "SELECT"@));
    assert(part_at(t, 268, "cm.facet = "@));
    assert(part_at(t, 639, "ORDER BY r.from_entity_id, r.to_entity_id"@));
    assert(part_at(t, 166, "FROM memory_relations"@));
    assert(part_at(
        t,
        383,
        "JOIN memory_entities cf ON cf.id = r.from_entity_id AND cf.valid_to IS NULL"@,
    ));
    assert(part_at(
        t,
        468,
        "JOIN memory_entities pf ON pf.id = r.to_entity_id   AND pf.valid_to IS NULL"@,
    ));
}

/// What the text of [`RESOLVE_CONCEPT_BY_ID_SQL`] says.
pub proof fn resolve_concept_by_id_text()
    ensures
        opens(RESOLVE_CONCEPT_BY_ID_SQL@, "SELECT"@),
        mentions(RESOLVE_CONCEPT_BY_ID_SQL@, "memory_entities WHERE id = "@, 1),
        says(RESOLVE_CONCEPT_BY_ID_SQL@, "FROM memory_entities"@),
{
    reveal_strlit(
        "SELECT id FROM memory_entities \
             WHERE id = $1 AND entity_type = 'concept' AND valid_to IS NULL",
    );
    reveal_strlit("FROM memory_entities");
    reveal_strlit("SELECT");
    reveal_strlit("memory_entities WHERE id = ");
    let t = RESOLVE_CONCEPT_BY_ID_SQL@;
    assert(part_at(t, 0, "SELECT"@));
    assert(part_at(t, 15, "memory_entities WHERE id = "@));
    assert(part_at(t, 10, "FROM memory_entities"@));
}

/// What the text of [`RESOLVE_CONCEPT_BY_NAME_SQL`] says.
pub proof fn resolve_concept_by_name_text()
    ensures
        opens(RESOLVE_CONCEPT_BY_NAME_SQL@, "SELECT"@),
        mentions(RESOLVE_CONCEPT_BY_NAME_SQL@, "name = "@, 1),
        says(RESOLVE_CONCEPT_BY_NAME_SQL@, "ORDER BY id LIMIT 1"@),
        says(RESOLVE_CONCEPT_BY_NAME_SQL@, "FROM memory_entities"@),
{
    reveal_strlit(
        "SELECT id FROM memory_entities \
         WHERE name = $1 AND entity_type = 'concept' AND valid_to IS NULL ORDER BY id LIMIT 1",
    );
    reveal_strlit("FROM memory_entities");
    reveal_strlit("ORDER BY id LIMIT 1");
    reveal_strlit("SELECT");
    reveal_strlit("name = ");
    let t = RESOLVE_CONCEPT_BY_NAME_SQL@;
    assert(part_at(t, 0, "SELECT"@));
    assert(part_at(t, 37, "name = "@));
    assert(part_at(t, 96, "ORDER BY id LIMIT 1"@));
    assert(part_at(t, 10, "FROM memory_entities"@));
}

/// What the text of [`SEARCH_CONCEPTS_BY_NAME_SQL`] says.
pub proof fn search_concepts_by_name_text()
    ensures
        opens(SEARCH_CONCEPTS_BY_NAME_SQL@, "SELECT"@),
        mentions(SEARCH_CONCEPTS_BY_NAME_SQL@, "e.name ILIKE '%' || "@, 1),
        mentions(SEARCH_CONCEPTS_BY_NAME_SQL@, "m.facet = "@, 2),
        mentions(SEARCH_CONCEPTS_BY_NAME_SQL@, "LIMIT "@, 3),
        says(
            SEARCH_CONCEPTS_BY_NAME_SQL@,
            "ORDER BY (m.status = 'canonical') DESC, m.confidence DESC, e.id"@,
        ),
        says(SEARCH_CONCEPTS_BY_NAME_SQL@, "FROM ontology_concept_meta"@),
        says(
            SEARCH_CONCEPTS_BY_NAME_SQL@,
            "JOIN memory_entities e ON e.id = m.entity_id AND e.valid_to IS NULL"@,
        ),
{
    reveal_strlit(
        "SELECT e.id AS entity_id, e.name, m.facet, m.status, m.confidence
         FROM ontology_concept_meta m
         JOIN memory_entities e ON e.id = m.entity_id AND e.valid_to IS NULL
         WHERE (e.name ILIKE '%' || $1 || '%' OR m.constraint_text ILIKE '%' || $1 || '%')
           AND ($2::text IS NULL OR m.facet = $2)
         ORDER BY (m.status = 'canonical') DESC, m.confidence DESC, e.id
         LIMIT $3",
    );
    reveal_strlit("FROM ontology_concept_meta");
    reveal_strlit("JOIN memory_entities e ON e.id = m.entity_id AND e.valid_to IS NULL");
    reveal_strlit("LIMIT ");
    reveal_strlit("ORDER BY (m.status = 'canonical') DESC, m.confidence DESC, e.id");
    reveal_strlit("SELECT");
    reveal_strlit("e.name ILIKE '%' || ");
    reveal_strlit("m.facet = ");
    let t = SEARCH_CONCEPTS_BY_NAME_SQL@;
    assert(part_at(t, 0, "SELECT"@));
    assert(part_at(t, 197, "e.name ILIKE '%' || "@));
    assert(part_at(t, 308, "m.facet = "@));
    assert(part_at(t, 404, "LIMIT "@));
    assert(part_at(t, 331, "ORDER BY (m.status = 'canonical') DESC, m.confidence DESC, e.id"@));
    assert(part_at(t, 75, "FROM ontology_concept_meta"@));
    assert(part_at(t, 113, "JOIN memory_entities e ON e.id = m.entity_id AND e.valid_to IS NULL"@));
}

/// What the text of [`RESOLVE_CONCEPTS_BY_NAMES_SQL`] says.
pub proof fn resolve_concepts_by_names_text()
    ensures
        opens(RESOLVE_CONCEPTS_BY_NAMES_SQL@, "SELECT"@),
        mentions(RESOLVE_CONCEPTS_BY_NAMES_SQL@, "e.name = ANY("@, 1),
        mentions(RESOLVE_CONCEPTS_BY_NAMES_SQL@, "m.facet = "@, 2),
        mentions(RESOLVE_CONCEPTS_BY_NAMES_SQL@, "LIMIT "@, 3),
        says(
            RESOLVE_CONCEPTS_BY_NAMES_SQL@,
            "ORDER BY (m.status = 'canonical') DESC, m.confidence DESC, e.id"@,
        ),
        says(RESOLVE_CONCEPTS_BY_NAMES_SQL@, "FROM ontology_concept_meta"@),
        says(
            RESOLVE_CONCEPTS_BY_NAMES_SQL@,
            "JOIN memory_entities e ON e.id = m.entity_id AND e.valid_to IS NULL"@,
        ),
{
    reveal_strlit(
        "SELECT e.id AS entity_id, e.name, m.facet, m.status, m.confidence
         FROM ontology_concept_meta m
         JOIN memory_entities e ON e.id = m.entity_id AND e.valid_to IS NULL
         WHERE e.name = ANY($1)
           AND ($2::text IS NULL OR m.facet = $2)
         ORDER BY (m.status = 'canonical') DESC, m.confidence DESC, e.id
         LIMIT $3",
    );
    reveal_strlit("FROM ontology_concept_meta");
    reveal_strlit("JOIN memory_entities e ON e.id = m.entity_id AND e.valid_to IS NULL");
    reveal_strlit("LIMIT ");
    reveal_strlit("ORDER BY (m.status = 'canonical') DESC, m.confidence DESC, e.id");
    reveal_strlit("SELECT");
    reveal_strlit("e.name = ANY(");
    reveal_strlit("m.facet = ");
    let t = RESOLVE_CONCEPTS_BY_NAMES_SQL@;
    assert(part_at(t, 0, "SELECT"@));
    assert(part_at(t, 196, "e.name = ANY("@));
    assert(part_at(t, 249, "m.facet = "@));
    assert(part_at(t, 345, "LIMIT "@));
    assert(part_at(t, 272, "ORDER BY (m.status = 'canonical') DESC, m.confidence DESC, e.id"@));
    assert(part_at(t, 75, "FROM ontology_concept_meta"@));
    assert(part_at(t, 113, "JOIN memory_entities e ON e.id = m.entity_id AND e.valid_to IS NULL"@));
}

/// What the text of [`LIST_CONCEPT_EVIDENCE_SQL`] says.
pub proof fn list_concept_evidence_text()
    ensures
        opens(LIST_CONCEPT_EVIDENCE_SQL@, "SELECT"@),
        mentions(LIST_CONCEPT_EVIDENCE_SQL@, "entity_id = "@, 1),
        says(LIST_CONCEPT_EVIDENCE_SQL@, "ORDER BY id"@),
        says(LIST_CONCEPT_EVIDENCE_SQL@, "FROM ontology_concept_evidence"@),
{
    reveal_strlit(
        "SELECT evidence_kind, commit_id, file_id, mandate_ref, detail
         FROM ontology_concept_evidence WHERE entity_id = $1 ORDER BY id",
    );
    reveal_strlit("FROM ontology_concept_evidence");
    reveal_strlit("ORDER BY id");
    reveal_strlit("SELECT");
    reveal_strlit("entity_id = ");
    let t = LIST_CONCEPT_EVIDENCE_SQL@;
    assert(part_at(t, 0, "SELECT"@));
    assert(part_at(t, 108, "entity_id = "@));
    assert(part_at(t, 123, "ORDER BY id"@));
    assert(part_at(t, 71, "FROM ontology_concept_evidence"@));
}

/// What the text of [`INVARIANT_ANCHORED_SQL`] says.
pub proof fn invariant_anchored_text()
    ensures
        opens(INVARIANT_ANCHORED_SQL@, "SELECT"@),
        mentions(INVARIANT_ANCHORED_SQL@, "entity_id = "@, 1),
        mentions(INVARIANT_ANCHORED_SQL@, "file_id = "@, 2),
        says(INVARIANT_ANCHORED_SQL@, "FROM memory_code_anchor"@),
{
    reveal_strlit(
        "SELECT EXISTS (SELECT 1 FROM memory_code_anchor \
             WHERE entity_id = $1 AND file_id = $2 AND anchor_type = 'concept_code')",
    );
    reveal_strlit("FROM memory_code_anchor");
    reveal_strlit("SELECT");
    reveal_strlit("entity_id = ");
    reveal_strlit("file_id = ");
    let t = INVARIANT_ANCHORED_SQL@;
    assert(part_at(t, 0, "SELECT"@));
    assert(part_at(t, 54, "entity_id = "@));
    assert(part_at(t, 73, "file_id = "@));
    assert(part_at(t, 24, "FROM memory_code_anchor"@));
}

/// What the text of [`FIND_SIMILAR_CONCEPT_PAIRS_SQL`] says.
#[verifier::rlimit(50)]
pub proof fn find_similar_concept_pairs_text()
    ensures
        opens(FIND_SIMILAR_CONCEPT_PAIRS_SQL@, "WITH"@),
        mentions(FIND_SIMILAR_CONCEPT_PAIRS_SQL@, "m.facet = "@, 1),
        mentions(FIND_SIMILAR_CONCEPT_PAIRS_SQL@, "b.embedding)) >= "@, 2),
        says(FIND_SIMILAR_CONCEPT_PAIRS_SQL@, "ORDER BY m.entity_id, o.id"@),
        says(FIND_SIMILAR_CONCEPT_PAIRS_SQL@, "ORDER BY a.entity_id, b.entity_id"@),
        says(FIND_SIMILAR_CONCEPT_PAIRS_SQL@, "FROM ontology_concept_meta"@),
        says(
            FIND_SIMILAR_CONCEPT_PAIRS_SQL@,
            "JOIN memory_entities e     ON e.id = m.entity_id AND e.valid_to IS NULL"@,
        ),
        says(FIND_SIMILAR_CONCEPT_PAIRS_SQL@, "JOIN ce b ON a.entity_id < b.entity_id"@),
{
    reveal_strlit(
        "WITH ce AS (
             SELECT DISTINCT ON (m.entity_id) m.entity_id, o.embedding
             FROM ontology_concept_meta m
             JOIN memory_entities e     ON e.id = m.entity_id AND e.valid_to IS NULL
             JOIN memory_observations o ON o.entity_id = m.entity_id AND o.embedding IS NOT NULL
             WHERE m.facet = $1
             ORDER BY m.entity_id, o.id
         )
         SELECT a.entity_id, b.entity_id, (1 - (a.embedding <=> b.embedding))::float8
         FROM ce a JOIN ce b ON a.entity_id < b.entity_id
         WHERE (1 - (a.embedding <=> b.embedding)) >= $2
         ORDER BY a.entity_id, b.entity_id",
    );
    reveal_strlit("FROM ontology_concept_meta");
    reveal_strlit("JOIN ce b ON a.entity_id < b.entity_id");
    reveal_strlit("JOIN memory_entities e     ON e.id = m.entity_id AND e.valid_to IS NULL");
    reveal_strlit("ORDER BY a.entity_id, b.entity_id");
    reveal_strlit("ORDER BY m.entity_id, o.id");
    reveal_strlit("WITH");
    reveal_strlit("b.embedding)) >= ");
    reveal_strlit("m.facet = ");
    let t = FIND_SIMILAR_CONCEPT_PAIRS_SQL@;
    assert(part_at(t, 0, "WITH"@));
    assert(part_at(t, 327, "m.facet = "@));
    assert(part_at(t, 572, "b.embedding)) >= "@));
    assert(part_at(t, 353, "ORDER BY m.entity_id, o.id"@));
    assert(part_at(t, 601, "ORDER BY a.entity_id, b.entity_id"@));
    assert(part_at(t, 97, "FROM ontology_concept_meta"@));
    assert(part_at(
        t,
        139,
        "JOIN memory_entities e     ON e.id = m.entity_id AND e.valid_to IS NULL"@,
    ));
    assert(part_at(t, 496, "JOIN ce b ON a.entity_id < b.entity_id"@));
}

/// What the text of [`LOAD_CONCEPT_EFFECT_ROWS_SQL`] says.
#[verifier::rlimit(50)]
pub proof fn load_concept_effect_rows_text()
    ensures
        opens(LOAD_CONCEPT_EFFECT_ROWS_SQL@, "SELECT"@),
        mentions(LOAD_CONCEPT_EFFECT_ROWS_SQL@, "m.facet = "@, 1),
        mentions(LOAD_CONCEPT_EFFECT_ROWS_SQL@, "COUNT(*) >= "@, 2),
        says(LOAD_CONCEPT_EFFECT_ROWS_SQL@, "GROUP BY m.entity_id, se.effect"@),
        says(LOAD_CONCEPT_EFFECT_ROWS_SQL@, "ORDER BY m.entity_id, se.effect"@),
        says(LOAD_CONCEPT_EFFECT_ROWS_SQL@, "FROM ontology_concept_meta"@),
        says(
            LOAD_CONCEPT_EFFECT_ROWS_SQL@,
            "JOIN file_chunks fc              ON fc.id = cta.chunk_id"@,
        ),
        says(
            LOAD_CONCEPT_EFFECT_ROWS_SQL@,
            "JOIN file_symbols fs             ON fs.file_id = fc.file_id"@,
        ),
        says(
            LOAD_CONCEPT_EFFECT_ROWS_SQL@,
            "JOIN symbol_effects se           ON se.symbol_id = fs.id"@,
        ),
{
    reveal_strlit(
        "SELECT m.entity_id, se.effect
         FROM ontology_concept_meta m
         JOIN memory_code_anchor a        ON a.entity_id = m.entity_id AND a.topic_id IS NOT NULL
         JOIN chunk_topic_assignments cta ON cta.topic_id = a.topic_id AND cta.membership_score >= 0.05
         JOIN file_chunks fc              ON fc.id = cta.chunk_id
         JOIN file_symbols fs             ON fs.file_id = fc.file_id
         JOIN symbol_effects se           ON se.symbol_id = fs.id
         WHERE m.facet = $1
         GROUP BY m.entity_id, se.effect
         HAVING COUNT(*) >= $2
         ORDER BY m.entity_id, se.effect",
    );
    reveal_strlit("COUNT(*) >= ");
    reveal_strlit("FROM ontology_concept_meta");
    reveal_strlit("GROUP BY m.entity_id, se.effect");
    reveal_strlit("JOIN file_chunks fc              ON fc.id = cta.chunk_id");
    reveal_strlit("JOIN file_symbols fs             ON fs.file_id = fc.file_id");
    reveal_strlit("JOIN symbol_effects se           ON se.symbol_id = fs.id");
    reveal_strlit("ORDER BY m.entity_id, se.effect");
    reveal_strlit("SELECT");
    reveal_strlit("m.facet = ");
    let t = LOAD_CONCEPT_EFFECT_ROWS_SQL@;
    assert(part_at(t, 0, "SELECT"@));
    assert(part_at(t, 486, "m.facet = "@));
    assert(part_at(t, 556, "COUNT(*) >= "@));
    assert(part_at(t, 508, "GROUP BY m.entity_id, se.effect"@));
    assert(part_at(t, 580, "ORDER BY m.entity_id, se.effect"@));
    assert(part_at(t, 39, "FROM ontology_concept_meta"@));
    assert(part_at(t, 279, "JOIN file_chunks fc              ON fc.id = cta.chunk_id"@));
    assert(part_at(t, 345, "JOIN file_symbols fs             ON fs.file_id = fc.file_id"@));
    assert(part_at(t, 414, "JOIN symbol_effects se           ON se.symbol_id = fs.id"@));
}

/// Each argument of [`describes_concept`] is what the text names in its place.
pub proof fn law_describes_concept_stands_for_its_values(
    entity_id: i64,
    facet: Seq<char>,
    build_method: Seq<char>,
    project_id: Option<i32>,
)
    ensures
        opens(
            describes_concept(entity_id, facet, build_method, project_id).sql,
            "INSERT INTO ontology_concept_meta"@,
        ),
        fills(
            describes_concept(entity_id, facet, build_method, project_id),
            "INSERT INTO ontology_concept_meta"@,
            "entity_id"@,
            "VALUES ("@,
            BindView::BigInt(entity_id),
        ),
        fills(
            describes_concept(entity_id, facet, build_method, project_id),
            "INSERT INTO ontology_concept_meta"@,
            "facet"@,
            "VALUES ("@,
            BindView::Text(facet),
        ),
        fills(
            describes_concept(entity_id, facet, build_method, project_id),
            "INSERT INTO ontology_concept_meta"@,
            "build_method"@,
            "VALUES ("@,
            BindView::Text(build_method),
        ),
        fills(
            describes_concept(entity_id, facet, build_method, project_id),
            "INSERT INTO ontology_concept_meta"@,
            "project_id"@,
            "VALUES ("@,
            BindView::OptInt(project_id),
        ),
        says(
            describes_concept(entity_id, facet, build_method, project_id).sql,
            "WHERE ontology_concept_meta.status = 'candidate'"@,
        ),
        says(
            describes_concept(entity_id, facet, build_method, project_id).sql,
            "ON CONFLICT (entity_id) DO UPDATE"@,
        ),
        says(
            describes_concept(entity_id, facet, build_method, project_id).sql,
            "facet = EXCLUDED.facet"@,
        ),
        says(
            describes_concept(entity_id, facet, build_method, project_id).sql,
            "build_method = EXCLUDED.build_method"@,
        ),
{
    upsert_concept_meta_text();
    assert(describes_concept(entity_id, facet, build_method, project_id).sql == UPSERT_CONCEPT_META_SQL@);
}

/// Each argument of [`describes_invariant`] is what the text names in its place.
pub proof fn law_describes_invariant_stands_for_its_values(
    entity_id: i64,
    constraint_text: Seq<char>,
    rationale: Seq<char>,
    build_method: Seq<char>,
    project_id: Option<i32>,
)
    ensures
        opens(
            describes_invariant(entity_id, constraint_text, rationale, build_method, project_id).sql,
            "INSERT INTO ontology_concept_meta"@,
        ),
        fills(
            describes_invariant(entity_id, constraint_text, rationale, build_method, project_id),
            "INSERT INTO ontology_concept_meta"@,
            "entity_id"@,
            "VALUES ("@,
            BindView::BigInt(entity_id),
        ),
        fills(
            describes_invariant(entity_id, constraint_text, rationale, build_method, project_id),
            "INSERT INTO ontology_concept_meta"@,
            "constraint_text"@,
            "VALUES ("@,
            BindView::Text(constraint_text),
        ),
        fills(
            describes_invariant(entity_id, constraint_text, rationale, build_method, project_id),
            "INSERT INTO ontology_concept_meta"@,
            "rationale"@,
            "VALUES ("@,
            BindView::Text(rationale),
        ),
        fills(
            describes_invariant(entity_id, constraint_text, rationale, build_method, project_id),
            "INSERT INTO ontology_concept_meta"@,
            "build_method"@,
            "VALUES ("@,
            BindView::Text(build_method),
        ),
        fills(
            describes_invariant(entity_id, constraint_text, rationale, build_method, project_id),
            "INSERT INTO ontology_concept_meta"@,
            "project_id"@,
            "VALUES ("@,
            BindView::OptInt(project_id),
        ),
        says(
            describes_invariant(entity_id, constraint_text, rationale, build_method, project_id).sql,
            "WHERE ontology_concept_meta.status = 'candidate'"@,
        ),
        says(
            describes_invariant(entity_id, constraint_text, rationale, build_method, project_id).sql,
            "ON CONFLICT (entity_id) DO UPDATE"@,
        ),
        says(
            describes_invariant(entity_id, constraint_text, rationale, build_method, project_id).sql,
            "constraint_text = EXCLUDED.constraint_text"@,
        ),
        says(
            describes_invariant(entity_id, constraint_text, rationale, build_method, project_id).sql,
            "rationale = EXCLUDED.rationale"@,
        ),
        says(
            describes_invariant(entity_id, constraint_text, rationale, build_method, project_id).sql,
            "build_method = EXCLUDED.build_method"@,
        ),
{
    upsert_invariant_meta_text();
    assert(describes_invariant(entity_id, constraint_text, rationale, build_method, project_id).sql == UPSERT_INVARIANT_META_SQL@);
}

/// Each argument of [`adds_evidence`] is what the text names in its place.
pub proof fn law_adds_evidence_stands_for_its_values(
    entity_id: i64,
    kind: Seq<char>,
    commit_id: Option<i64>,
    file_id: Option<i64>,
    mandate_ref: Option<Seq<char>>,
    detail: Option<Seq<char>>,
    provenance_key: Seq<char>,
)
    ensures
        opens(
            adds_evidence(entity_id, kind, commit_id, file_id, mandate_ref, detail, provenance_key).sql,
            "INSERT INTO ontology_concept_evidence"@,
        ),
        fills(
            adds_evidence(entity_id, kind, commit_id, file_id, mandate_ref, detail, provenance_key),
            "INSERT INTO ontology_concept_evidence"@,
            "entity_id"@,
            "VALUES ("@,
            BindView::BigInt(entity_id),
        ),
        fills(
            adds_evidence(entity_id, kind, commit_id, file_id, mandate_ref, detail, provenance_key),
            "INSERT INTO ontology_concept_evidence"@,
            "evidence_kind"@,
            "VALUES ("@,
            BindView::Text(kind),
        ),
        fills(
            adds_evidence(entity_id, kind, commit_id, file_id, mandate_ref, detail, provenance_key),
            "INSERT INTO ontology_concept_evidence"@,
            "commit_id"@,
            "VALUES ("@,
            BindView::OptBigInt(commit_id),
        ),
        fills(
            adds_evidence(entity_id, kind, commit_id, file_id, mandate_ref, detail, provenance_key),
            "INSERT INTO ontology_concept_evidence"@,
            "file_id"@,
            "VALUES ("@,
            BindView::OptBigInt(file_id),
        ),
        fills(
            adds_evidence(entity_id, kind, commit_id, file_id, mandate_ref, detail, provenance_key),
            "INSERT INTO ontology_concept_evidence"@,
            "mandate_ref"@,
            "VALUES ("@,
            BindView::OptText(mandate_ref),
        ),
        fills(
            adds_evidence(entity_id, kind, commit_id, file_id, mandate_ref, detail, provenance_key),
            "INSERT INTO ontology_concept_evidence"@,
            "detail"@,
            "VALUES ("@,
            BindView::OptText(detail),
        ),
        fills(
            adds_evidence(entity_id, kind, commit_id, file_id, mandate_ref, detail, provenance_key),
            "INSERT INTO ontology_concept_evidence"@,
            "provenance_key"@,
            "VALUES ("@,
            BindView::Text(provenance_key),
        ),
        says(
            adds_evidence(entity_id, kind, commit_id, file_id, mandate_ref, detail, provenance_key).sql,
            "ON CONFLICT (provenance_key) DO NOTHING"@,
        ),
{
    insert_concept_evidence_text();
    assert(adds_evidence(entity_id, kind, commit_id, file_id, mandate_ref, detail, provenance_key).sql == INSERT_CONCEPT_EVIDENCE_SQL@);
}

/// Each argument of [`finds`] is what the text names in its place.
pub proof fn law_finds_stands_for_its_values(v: ConceptCreationView)
    ensures
        opens(v.finds().sql, "SELECT"@),
        takes(v.finds(), "name = "@, BindView::Text(v.name)),
        says(v.finds().sql, "FROM memory_entities"@),
{
    find_concept_text();
    assert(v.finds().sql == FIND_CONCEPT_SQL@);
}

/// Each argument of [`finds_by_name`] is what the text names in its place.
pub proof fn law_finds_by_name_stands_for_its_values(name: Seq<char>)
    ensures
        opens(finds_by_name(name).sql, "SELECT"@),
        takes(finds_by_name(name), "name = "@, BindView::Text(name)),
        says(finds_by_name(name).sql, "ORDER BY id LIMIT 1"@),
        says(finds_by_name(name).sql, "FROM memory_entities"@),
{
    resolve_concept_by_name_text();
    assert(finds_by_name(name).sql == RESOLVE_CONCEPT_BY_NAME_SQL@);
}

/// Each argument of [`finds_by_id`] is what the text names in its place.
pub proof fn law_finds_by_id_stands_for_its_values(id: i64)
    ensures
        opens(finds_by_id(id).sql, "SELECT"@),
        takes(finds_by_id(id), "memory_entities WHERE id = "@, BindView::BigInt(id)),
        says(finds_by_id(id).sql, "FROM memory_entities"@),
{
    resolve_concept_by_id_text();
    assert(finds_by_id(id).sql == RESOLVE_CONCEPT_BY_ID_SQL@);
}

/// Each argument of [`asks_for_anchor`] is what the text names in its place.
pub proof fn law_asks_for_anchor_stands_for_its_values(entity_id: i64, file_id: i64)
    ensures
        opens(asks_for_anchor(entity_id, file_id).sql, "SELECT"@),
        takes(asks_for_anchor(entity_id, file_id), "entity_id = "@, BindView::BigInt(entity_id)),
        takes(asks_for_anchor(entity_id, file_id), "file_id = "@, BindView::BigInt(file_id)),
        says(asks_for_anchor(entity_id, file_id).sql, "FROM memory_code_anchor"@),
{
    invariant_anchored_text();
    assert(asks_for_anchor(entity_id, file_id).sql == INVARIANT_ANCHORED_SQL@);
}

/// A concept is stored under its name, and with the source of whoever created it.
pub proof fn law_concept_keeps_its_origin(o: ConceptOrigin, name: Seq<char>)
    ensures
        o is Agent ==> opens(o.creates(name).sql, "INSERT INTO memory_entities"@),
        o is Agent ==> fills(
            o.creates(name),
            "INSERT INTO memory_entities"@,
            "name"@,
            "VALUES ("@,
            BindView::Text(name),
        ),
        o is Agent ==> fills(
            o.creates(name),
            "INSERT INTO memory_entities"@,
            "source"@,
            "VALUES ("@,
            BindView::Text("agent_write"@),
        ),
        o is User ==> opens(o.creates(name).sql, "INSERT INTO memory_entities"@),
        o is User ==> fills(
            o.creates(name),
            "INSERT INTO memory_entities"@,
            "name"@,
            "VALUES ("@,
            BindView::Text(name),
        ),
        o is User ==> fills(
            o.creates(name),
            "INSERT INTO memory_entities"@,
            "source"@,
            "VALUES ("@,
            BindView::Text("user_explicit"@),
        ),
        o is Migration ==> opens(o.creates(name).sql, "INSERT INTO memory_entities"@),
        o is Migration ==> fills(
            o.creates(name),
            "INSERT INTO memory_entities"@,
            "name"@,
            "VALUES ("@,
            BindView::Text(name),
        ),
{
    if o is Agent {
        create_concept_text();
        assert(o.creates(name).sql == CREATE_CONCEPT_SQL@);
    }
    if o is User {
        create_concept_text();
        assert(o.creates(name).sql == CREATE_CONCEPT_SQL@);
    }
    if o is Migration {
        migrate_concept_text();
        assert(o.creates(name).sql == MIGRATE_CONCEPT_SQL@);
    }
}

/// A concept that is found or was just created gets the facet and the build
/// method that are asked for.
pub proof fn law_concept_gets_its_facet(v: ConceptCreationView, ids: Seq<i64>)
    requires
        v.stage is Finding || v.stage is Creating,
        ids.len() == 1,
    ensures
        v.next(ReplyView::Ids(ids)).1 matches ActionView::Run(st) && fills(
            st,
            "INSERT INTO ontology_concept_meta"@,
            "entity_id"@,
            "VALUES ("@,
            BindView::BigInt(ids[0]),
        ) && fills(
            st,
            "INSERT INTO ontology_concept_meta"@,
            "facet"@,
            "VALUES ("@,
            BindView::Text(v.facet),
        ) && fills(
            st,
            "INSERT INTO ontology_concept_meta"@,
            "build_method"@,
            "VALUES ("@,
            BindView::Text(v.build_method),
        ),
{
    law_describes_concept_stands_for_its_values(ids[0], v.facet, v.build_method, None);
}

/// An agent's invariant is stored with its text and rationale once its
/// concept is there.
pub proof fn law_invariant_is_stored_with_its_text(v: AssertionView, reply: ReplyView)
    requires
        v.stage is Concept,
        v.concept.stage is Describing,
    ensures
        v.next(reply).1 matches ActionView::Run(st) && fills(
            st,
            "INSERT INTO ontology_concept_meta"@,
            "entity_id"@,
            "VALUES ("@,
            BindView::BigInt(v.concept.stage->Describing_0),
        ) && fills(
            st,
            "INSERT INTO ontology_concept_meta"@,
            "constraint_text"@,
            "VALUES ("@,
            BindView::Text(v.constraint_text),
        ) && fills(
            st,
            "INSERT INTO ontology_concept_meta"@,
            "rationale"@,
            "VALUES ("@,
            BindView::Text(v.rationale),
        ) && fills(
            st,
            "INSERT INTO ontology_concept_meta"@,
            "build_method"@,
            "VALUES ("@,
            BindView::Text("agent"@),
        ),
{
    law_describes_invariant_stands_for_its_values(
        v.concept.stage->Describing_0,
        v.constraint_text,
        v.rationale,
        "agent"@,
        None,
    );
}

/// The evidence for an agent's invariant is its text, in the file that it is
/// about.
pub proof fn law_invariant_is_its_own_evidence(v: AssertionView, reply: ReplyView)
    requires
        v.stage is Constraining,
    ensures
        v.next(reply).1 matches ActionView::Run(st) && fills(
            st,
            "INSERT INTO ontology_concept_evidence"@,
            "entity_id"@,
            "VALUES ("@,
            BindView::BigInt(v.stage->Constraining_0),
        ) && fills(
            st,
            "INSERT INTO ontology_concept_evidence"@,
            "evidence_kind"@,
            "VALUES ("@,
            BindView::Text("agent"@),
        ) && fills(
            st,
            "INSERT INTO ontology_concept_evidence"@,
            "file_id"@,
            "VALUES ("@,
            BindView::OptBigInt(v.file_id),
        ) && fills(
            st,
            "INSERT INTO ontology_concept_evidence"@,
            "detail"@,
            "VALUES ("@,
            BindView::OptText(Some(v.constraint_text)),
        ),
{
    let id = v.stage->Constraining_0;
    law_adds_evidence_stands_for_its_values(
        id,
        "agent"@,
        None,
        v.file_id,
        None,
        Some(v.constraint_text),
        agent_provenance(id, v.concept.name),
    );
}

/// Whether the concept is anchored is asked for its own file.
pub proof fn law_anchor_is_asked_for_the_file(v: AssertionView, reply: ReplyView)
    requires
        v.stage is Evidencing,
        v.file_id is Some,
    ensures
        v.next(reply).1 matches ActionView::Ask(st) && takes(
            st,
            "entity_id = "@,
            BindView::BigInt(v.stage->Evidencing_0),
        ) && takes(st, "file_id = "@, BindView::BigInt(v.file_id->0)),
{
    law_asks_for_anchor_stands_for_its_values(v.stage->Evidencing_0, v.file_id->0);
}

/// A concept that is not anchored yet is anchored to its own file.
pub proof fn law_concept_is_anchored_to_the_file(v: AssertionView)
    requires
        v.stage is Checking,
        v.file_id is Some,
    ensures
        v.next(ReplyView::Present(false)).1 matches ActionView::Run(st) && fills(
            st,
            "INSERT INTO memory_code_anchor"@,
            "entity_id"@,
            "VALUES ("@,
            BindView::BigInt(v.stage->Checking_0),
        ) && fills(
            st,
            "INSERT INTO memory_code_anchor"@,
            "file_id"@,
            "VALUES ("@,
            BindView::OptBigInt(v.file_id),
        ),
{
    memory_anchor_entity_text();
    let st = anchors_concept(v.stage->Checking_0, v.file_id->0);
    assert(st.sql == MEMORY_ANCHOR_ENTITY_SQL@);
    assert(v.next(ReplyView::Present(false)).1 == ActionView::Run(st));
}

} // verus!
