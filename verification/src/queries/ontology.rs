//! Concepts and their hierarchy: facets, curation, invariants and evidence.
use vstd::prelude::*;

use crate::meaning::{fills, opens, says, takes};
use crate::protocol::{awaited, fits, Action, ActionView, Awaiting, Fallback, Reply, ReplyView};
use crate::queries::memory_search::{memory_anchor_entity, MEMORY_ANCHOR_ENTITY_SQL};
use crate::queries::texts::ontology::{
    concept_ancestors_text, concept_broader_links_text, concept_concurrency_findings_text,
    concept_descendants_text, concept_hierarchy_edges_text, concepts_for_file_text,
    count_concept_evidence_text, detect_is_a_cycles_text, export_concepts_text, export_edges_text,
    find_similar_concept_pairs_text, get_concept_meta_text, insert_ontology_edge_text,
    invariants_for_file_text, law_adds_evidence_stands_for_its_values,
    law_describes_concept_stands_for_its_values, law_describes_invariant_stands_for_its_values,
    list_concept_evidence_text, list_concept_ids_by_facet_text, list_concepts_by_facet_text,
    load_concept_effect_rows_text, load_isa_edge_ids_text, load_software_patterns_text,
    resolve_concepts_by_names_text, search_concepts_by_name_text, set_concept_attr_text,
    set_concept_status_text, unanchored_invariants_text,
};
use crate::search_pattern::{like_escape, like_literal};
use crate::statement::{
    executes, fetches_all, fetches_one, fetches_optional, opt_str, texts, BindView, Statement,
    StatementView,
};
use crate::text::{decimal, decimal_text, parse_i64, parsed, text_eq};

verus! {

/// An edge of the hierarchy, with the names of both concepts.
#[derive(Debug, Clone)]
pub struct ConceptEdgeRow {
    pub child_id: i64,
    pub child_name: String,
    pub parent_id: i64,
    pub parent_name: String,
    pub relation: String,
}

/// What backs a concept.
#[derive(Debug, Clone)]
pub struct ConceptEvidenceRow {
    pub evidence_kind: String,
    pub commit_id: Option<i64>,
    pub file_id: Option<i64>,
    pub mandate_ref: Option<String>,
    pub detail: Option<String>,
}

pub const UPSERT_CONCEPT_META_SQL: &'static str = "INSERT INTO ontology_concept_meta (entity_id, facet, build_method, project_id)
         VALUES ($1, $2, $3, $4)
         ON CONFLICT (entity_id) DO UPDATE
            SET facet = EXCLUDED.facet,
                build_method = EXCLUDED.build_method,
                project_id = COALESCE(ontology_concept_meta.project_id, EXCLUDED.project_id),
                updated_at = now()
          WHERE ontology_concept_meta.status = 'candidate'";

/// Setting the facet of a concept.
pub open spec fn describes_concept(
    entity_id: i64,
    facet: Seq<char>,
    build_method: Seq<char>,
    project_id: Option<i32>,
) -> StatementView {
    executes(
        UPSERT_CONCEPT_META_SQL@,
        seq![
            BindView::BigInt(entity_id),
            BindView::Text(facet),
            BindView::Text(build_method),
            BindView::OptInt(project_id),
        ],
    )
}

/// Sets the facet of a concept, unless a curator has settled it.
pub fn upsert_concept_meta(
    entity_id: i64,
    facet: &str,
    build_method: &str,
    project_id: Option<i32>,
) -> (st: Statement)
    ensures
        st@ == describes_concept(entity_id, facet@, build_method@, project_id),
        opens(st@.sql, "INSERT INTO ontology_concept_meta"@),
        fills(
            st@,
            "INSERT INTO ontology_concept_meta"@,
            "entity_id"@,
            "VALUES ("@,
            BindView::BigInt(entity_id),
        ),
        fills(
            st@,
            "INSERT INTO ontology_concept_meta"@,
            "facet"@,
            "VALUES ("@,
            BindView::Text(facet@),
        ),
        fills(
            st@,
            "INSERT INTO ontology_concept_meta"@,
            "build_method"@,
            "VALUES ("@,
            BindView::Text(build_method@),
        ),
        fills(
            st@,
            "INSERT INTO ontology_concept_meta"@,
            "project_id"@,
            "VALUES ("@,
            BindView::OptInt(project_id),
        ),
{
    proof {
        law_describes_concept_stands_for_its_values(entity_id, facet@, build_method@, project_id);
    }
    Statement::execute(UPSERT_CONCEPT_META_SQL)
        .int8(entity_id)
        .text(facet)
        .text(build_method)
        .opt_int4(project_id)
}

pub const GET_CONCEPT_META_SQL: &'static str = "SELECT entity_id, facet, status, confidence, constraint_text, rationale,
                sequence_spec, build_method, project_id
         FROM ontology_concept_meta WHERE entity_id = $1";

/// The facet and status of a concept.
pub fn get_concept_meta(entity_id: i64) -> (st: Statement)
    ensures
        st@ == fetches_optional(GET_CONCEPT_META_SQL@, seq![BindView::BigInt(entity_id)]),
        opens(st@.sql, "SELECT"@),
        takes(st@, "entity_id = "@, BindView::BigInt(entity_id)),
        says(st@.sql, "FROM ontology_concept_meta"@),
{
    proof {
        get_concept_meta_text();
    }
    let st = Statement::optional(GET_CONCEPT_META_SQL).int8(entity_id);
    assert(st@.sql == GET_CONCEPT_META_SQL@);
    st
}

/// Why a status change is refused.
#[derive(Debug, Clone, Copy, PartialEq, Eq, Structural)]
pub enum SetStatusError {
    /// An agent asked for a status that only a curator may set.
    AgentCannotCurate,
    /// There is no concept with this id.
    NotFound(i64),
}

impl SetStatusError {
    /// The message for the error.
    pub open spec fn text(self) -> Seq<char> {
        match self {
            SetStatusError::AgentCannotCurate =>
                "an agent cannot set a curator-only status (accepted/canonical)"@,
            SetStatusError::NotFound(id) => "no ontology concept metadata for entity "@
                + decimal_text(id as int),
        }
    }

    /// The message for the error.
    pub fn message(&self) -> (r: String)
        ensures
            r@ == self.text(),
    {
        match self {
            SetStatusError::AgentCannotCurate => String::from_str(
                "an agent cannot set a curator-only status (accepted/canonical)",
            ),
            SetStatusError::NotFound(id) => {
                let mut m = String::from_str("no ontology concept metadata for entity ");
                m.append(decimal(*id).as_str());
                m
            },
        }
    }
}

/// Whether only a curator may set a status.
pub open spec fn curator_only(status: Seq<char>) -> bool {
    status == "accepted"@ || status == "canonical"@
}

pub const SET_CONCEPT_STATUS_SQL: &'static str =
    "UPDATE ontology_concept_meta SET status = $2, updated_at = now() WHERE entity_id = $1";

/// Sets the status of a concept. An agent is refused every status that only a
/// curator may set.
pub fn set_concept_status(
    entity_id: i64,
    status: &str,
    actor_is_agent: bool,
) -> (r: Result<Statement, SetStatusError>)
    ensures
        r is Err <==> curator_only(status@) && actor_is_agent,
        actor_is_agent && status@ == "accepted"@ ==> r is Err,
        actor_is_agent && status@ == "canonical"@ ==> r is Err,
        actor_is_agent && status@ != "accepted"@ && status@ != "canonical"@ ==> r is Ok,
        !actor_is_agent ==> r is Ok,
        r matches Err(e) ==> e == SetStatusError::AgentCannotCurate,
        r matches Ok(st) ==> st@ == executes(
            SET_CONCEPT_STATUS_SQL@,
            seq![BindView::BigInt(entity_id), BindView::Text(status@)],
        ),
        r matches Ok(st) ==> opens(st@.sql, "UPDATE ontology_concept_meta"@),
        r matches Ok(st) ==> takes(st@, "entity_id = "@, BindView::BigInt(entity_id)),
        r matches Ok(st) ==> takes(st@, "status = "@, BindView::Text(status@)),
{
    proof {
        set_concept_status_text();
    }
    if actor_is_agent && (text_eq(status, "accepted") || text_eq(status, "canonical")) {
        return Err(SetStatusError::AgentCannotCurate);
    }
    let st = Statement::execute(SET_CONCEPT_STATUS_SQL).int8(entity_id).text(status);
    assert(st@.sql == SET_CONCEPT_STATUS_SQL@);
    Ok(st)
}

/// What a status change came to: refused where it touched no row.
pub fn status_changed(entity_id: i64, rows_affected: u64) -> (r: Result<(), SetStatusError>)
    ensures
        r is Err <==> rows_affected == 0,
        r matches Err(e) ==> e == SetStatusError::NotFound(entity_id),
{
    if rows_affected == 0 {
        Err(SetStatusError::NotFound(entity_id))
    } else {
        Ok(())
    }
}

pub const LIST_CONCEPTS_BY_FACET_SQL: &'static str = "SELECT e.id AS entity_id, e.name, m.facet, m.status, m.confidence
         FROM ontology_concept_meta m
         JOIN memory_entities e ON e.id = m.entity_id AND e.valid_to IS NULL
         WHERE m.facet = $1 AND ($2::int IS NULL OR m.project_id = $2)
         ORDER BY (m.status = 'canonical') DESC, m.confidence DESC, e.id
         LIMIT $3";

/// The concepts of a facet, optionally of one project, the settled and surest
/// first.
pub fn list_concepts_by_facet(facet: &str, project_id: Option<i32>, limit: i64) -> (st: Statement)
    ensures
        st@ == fetches_all(
            LIST_CONCEPTS_BY_FACET_SQL@,
            seq![
                BindView::Text(facet@),
                BindView::OptInt(project_id),
                BindView::BigInt(limit),
            ],
        ),
        opens(st@.sql, "SELECT"@),
        takes(st@, "m.facet = "@, BindView::Text(facet@)),
        takes(st@, "m.project_id = "@, BindView::OptInt(project_id)),
        takes(st@, "LIMIT "@, BindView::BigInt(limit)),
        says(st@.sql, "ORDER BY (m.status = 'canonical') DESC, m.confidence DESC, e.id"@),
        says(st@.sql, "FROM ontology_concept_meta"@),
{
    proof {
        list_concepts_by_facet_text();
    }
    let st = Statement::all(LIST_CONCEPTS_BY_FACET_SQL).text(facet).opt_int4(project_id).int8(limit);
    assert(st@.sql == LIST_CONCEPTS_BY_FACET_SQL@);
    st
}

pub const CONCEPTS_FOR_FILE_SQL: &'static str = "SELECT DISTINCT e.id AS entity_id, e.name, m.facet, m.status, m.confidence
         FROM ontology_concept_meta m
         JOIN memory_entities e     ON e.id = m.entity_id AND e.valid_to IS NULL
         JOIN memory_code_anchor a  ON a.entity_id = m.entity_id
         LEFT JOIN file_symbols s   ON s.id = a.symbol_id
         WHERE a.file_id = $1 OR s.file_id = $1
         ORDER BY m.confidence DESC";

/// The concepts that are anchored to a file or to a symbol in it.
pub fn concepts_for_file(file_id: i64) -> (st: Statement)
    ensures
        st@ == fetches_all(CONCEPTS_FOR_FILE_SQL@, seq![BindView::BigInt(file_id)]),
        opens(st@.sql, "SELECT DISTINCT"@),
        takes(st@, "a.file_id = "@, BindView::BigInt(file_id)),
        says(st@.sql, "ORDER BY m.confidence DESC"@),
        says(st@.sql, "FROM ontology_concept_meta"@),
{
    proof {
        concepts_for_file_text();
    }
    let st = Statement::all(CONCEPTS_FOR_FILE_SQL).int8(file_id);
    assert(st@.sql == CONCEPTS_FOR_FILE_SQL@);
    st
}

pub const INVARIANTS_FOR_FILE_SQL: &'static str = "SELECT e.id AS entity_id, e.name, m.constraint_text, m.rationale,
                m.status, m.confidence
         FROM ontology_concept_meta m
         JOIN memory_entities e     ON e.id = m.entity_id AND e.valid_to IS NULL
         WHERE m.facet = 'invariant'
           AND EXISTS (
                 SELECT 1 FROM memory_code_anchor a
                 LEFT JOIN file_symbols s ON s.id = a.symbol_id
                 WHERE a.entity_id = m.entity_id
                   AND (a.file_id = $1 OR s.file_id = $1))
         ORDER BY (m.status = 'canonical') DESC, m.confidence DESC";

/// The invariants that govern a file, the settled and surest first.
pub fn invariants_for_file(file_id: i64) -> (st: Statement)
    ensures
        st@ == fetches_all(INVARIANTS_FOR_FILE_SQL@, seq![BindView::BigInt(file_id)]),
        opens(st@.sql, "SELECT"@),
        takes(st@, "a.file_id = "@, BindView::BigInt(file_id)),
        says(st@.sql, "WHERE m.facet = 'invariant'"@),
        says(st@.sql, "AND EXISTS ("@),
        says(st@.sql, "WHERE a.entity_id = m.entity_id"@),
        says(st@.sql, "ORDER BY (m.status = 'canonical') DESC, m.confidence DESC"@),
        says(st@.sql, "FROM ontology_concept_meta"@),
{
    proof {
        invariants_for_file_text();
    }
    let st = Statement::all(INVARIANTS_FOR_FILE_SQL).int8(file_id);
    assert(st@.sql == INVARIANTS_FOR_FILE_SQL@);
    st
}

pub const UPSERT_INVARIANT_META_SQL: &'static str = "INSERT INTO ontology_concept_meta
            (entity_id, facet, constraint_text, rationale, build_method, project_id)
         VALUES ($1, 'invariant', $2, $3, $4, $5)
         ON CONFLICT (entity_id) DO UPDATE
            SET facet = 'invariant',
                constraint_text = EXCLUDED.constraint_text,
                rationale = EXCLUDED.rationale,
                build_method = EXCLUDED.build_method,
                project_id = COALESCE(ontology_concept_meta.project_id, EXCLUDED.project_id),
                updated_at = now()
          WHERE ontology_concept_meta.status = 'candidate'";

/// Setting the constraint of an invariant.
pub open spec fn describes_invariant(
    entity_id: i64,
    constraint_text: Seq<char>,
    rationale: Seq<char>,
    build_method: Seq<char>,
    project_id: Option<i32>,
) -> StatementView {
    executes(
        UPSERT_INVARIANT_META_SQL@,
        seq![
            BindView::BigInt(entity_id),
            BindView::Text(constraint_text),
            BindView::Text(rationale),
            BindView::Text(build_method),
            BindView::OptInt(project_id),
        ],
    )
}

/// Sets the constraint of an invariant, unless a curator has settled it.
pub fn upsert_invariant_meta(
    entity_id: i64,
    constraint_text: &str,
    rationale: &str,
    build_method: &str,
    project_id: Option<i32>,
) -> (st: Statement)
    ensures
        st@ == describes_invariant(
            entity_id,
            constraint_text@,
            rationale@,
            build_method@,
            project_id,
        ),
        opens(st@.sql, "INSERT INTO ontology_concept_meta"@),
        fills(
            st@,
            "INSERT INTO ontology_concept_meta"@,
            "entity_id"@,
            "VALUES ("@,
            BindView::BigInt(entity_id),
        ),
        fills(
            st@,
            "INSERT INTO ontology_concept_meta"@,
            "constraint_text"@,
            "VALUES ("@,
            BindView::Text(constraint_text@),
        ),
        fills(
            st@,
            "INSERT INTO ontology_concept_meta"@,
            "rationale"@,
            "VALUES ("@,
            BindView::Text(rationale@),
        ),
        fills(
            st@,
            "INSERT INTO ontology_concept_meta"@,
            "build_method"@,
            "VALUES ("@,
            BindView::Text(build_method@),
        ),
        fills(
            st@,
            "INSERT INTO ontology_concept_meta"@,
            "project_id"@,
            "VALUES ("@,
            BindView::OptInt(project_id),
        ),
{
    proof {
        law_describes_invariant_stands_for_its_values(
            entity_id,
            constraint_text@,
            rationale@,
            build_method@,
            project_id,
        );
    }
    Statement::execute(UPSERT_INVARIANT_META_SQL)
        .int8(entity_id)
        .text(constraint_text)
        .text(rationale)
        .text(build_method)
        .opt_int4(project_id)
}

pub const INSERT_CONCEPT_EVIDENCE_SQL: &'static str = "INSERT INTO ontology_concept_evidence
            (entity_id, evidence_kind, commit_id, file_id, mandate_ref, detail, provenance_key)
         VALUES ($1, $2, $3, $4, $5, $6, $7)
         ON CONFLICT (provenance_key) DO NOTHING
         RETURNING id";

/// Adding evidence for a concept.
pub open spec fn adds_evidence(
    entity_id: i64,
    kind: Seq<char>,
    commit_id: Option<i64>,
    file_id: Option<i64>,
    mandate_ref: Option<Seq<char>>,
    detail: Option<Seq<char>>,
    provenance_key: Seq<char>,
) -> StatementView {
    fetches_optional(
        INSERT_CONCEPT_EVIDENCE_SQL@,
        seq![
            BindView::BigInt(entity_id),
            BindView::Text(kind),
            BindView::OptBigInt(commit_id),
            BindView::OptBigInt(file_id),
            BindView::OptText(mandate_ref),
            BindView::OptText(detail),
            BindView::Text(provenance_key),
        ],
    )
}

/// Adds evidence for a concept, once per provenance: a row comes back if it is
/// new.
pub fn insert_concept_evidence(
    entity_id: i64,
    kind: &str,
    commit_id: Option<i64>,
    file_id: Option<i64>,
    mandate_ref: Option<&str>,
    detail: Option<&str>,
    provenance_key: &str,
) -> (st: Statement)
    ensures
        st@ == adds_evidence(
            entity_id,
            kind@,
            commit_id,
            file_id,
            opt_str(mandate_ref),
            opt_str(detail),
            provenance_key@,
        ),
        opens(st@.sql, "INSERT INTO ontology_concept_evidence"@),
        fills(
            st@,
            "INSERT INTO ontology_concept_evidence"@,
            "entity_id"@,
            "VALUES ("@,
            BindView::BigInt(entity_id),
        ),
        fills(
            st@,
            "INSERT INTO ontology_concept_evidence"@,
            "evidence_kind"@,
            "VALUES ("@,
            BindView::Text(kind@),
        ),
        fills(
            st@,
            "INSERT INTO ontology_concept_evidence"@,
            "commit_id"@,
            "VALUES ("@,
            BindView::OptBigInt(commit_id),
        ),
        fills(
            st@,
            "INSERT INTO ontology_concept_evidence"@,
            "file_id"@,
            "VALUES ("@,
            BindView::OptBigInt(file_id),
        ),
        fills(
            st@,
            "INSERT INTO ontology_concept_evidence"@,
            "mandate_ref"@,
            "VALUES ("@,
            BindView::OptText(opt_str(mandate_ref)),
        ),
        fills(
            st@,
            "INSERT INTO ontology_concept_evidence"@,
            "detail"@,
            "VALUES ("@,
            BindView::OptText(opt_str(detail)),
        ),
        fills(
            st@,
            "INSERT INTO ontology_concept_evidence"@,
            "provenance_key"@,
            "VALUES ("@,
            BindView::Text(provenance_key@),
        ),
{
    proof {
        law_adds_evidence_stands_for_its_values(
            entity_id,
            kind@,
            commit_id,
            file_id,
            opt_str(mandate_ref),
            opt_str(detail),
            provenance_key@,
        );
    }
    Statement::optional(INSERT_CONCEPT_EVIDENCE_SQL)
        .int8(entity_id)
        .text(kind)
        .opt_int8(commit_id)
        .opt_int8(file_id)
        .opt_text(mandate_ref)
        .opt_text(detail)
        .text(provenance_key)
}

pub const COUNT_CONCEPT_EVIDENCE_SQL: &'static str =
    "SELECT COUNT(*) FROM ontology_concept_evidence WHERE entity_id = $1";

/// How much evidence a concept has.
pub fn count_concept_evidence(entity_id: i64) -> (st: Statement)
    ensures
        st@ == fetches_one(COUNT_CONCEPT_EVIDENCE_SQL@, seq![BindView::BigInt(entity_id)]),
        opens(st@.sql, "SELECT COUNT(*) FROM ontology_concept_evidence"@),
        takes(st@, "entity_id = "@, BindView::BigInt(entity_id)),
{
    proof {
        count_concept_evidence_text();
    }
    let st = Statement::one(COUNT_CONCEPT_EVIDENCE_SQL).int8(entity_id);
    assert(st@.sql == COUNT_CONCEPT_EVIDENCE_SQL@);
    st
}

pub const INSERT_ONTOLOGY_EDGE_SQL: &'static str = "INSERT INTO memory_relations
            (from_entity_id, to_entity_id, relation_type, importance, source)
         SELECT $1, $2, $3, $4, 'auto_index'::memory_source
         WHERE NOT EXISTS (
             SELECT 1 FROM memory_relations
             WHERE from_entity_id = $1 AND to_entity_id = $2
               AND relation_type = $3 AND valid_to IS NULL
         )
         RETURNING id";

/// Adds an edge of the hierarchy, unless it is there: a row comes back if it is
/// new. An edge from a concept to itself is not sent, and is not new. The
/// caller supplies value 0, the weight.
pub fn insert_ontology_edge(from_entity_id: i64, to_entity_id: i64, relation: &str) -> (r: Option<
    Statement,
>)
    ensures
        r is None <==> from_entity_id == to_entity_id,
        r matches Some(st) ==> st@ == fetches_optional(
            INSERT_ONTOLOGY_EDGE_SQL@,
            seq![
                BindView::BigInt(from_entity_id),
                BindView::BigInt(to_entity_id),
                BindView::Text(relation@),
                BindView::Supplied(0),
            ],
        ),
        r matches Some(st) ==> opens(st@.sql, "INSERT INTO memory_relations"@),
        r matches Some(st) ==> fills(
            st@,
            "INSERT INTO memory_relations"@,
            "from_entity_id"@,
            "SELECT "@,
            BindView::BigInt(from_entity_id),
        ),
        r matches Some(st) ==> fills(
            st@,
            "INSERT INTO memory_relations"@,
            "to_entity_id"@,
            "SELECT "@,
            BindView::BigInt(to_entity_id),
        ),
        r matches Some(st) ==> fills(
            st@,
            "INSERT INTO memory_relations"@,
            "relation_type"@,
            "SELECT "@,
            BindView::Text(relation@),
        ),
        r matches Some(st) ==> fills(
            st@,
            "INSERT INTO memory_relations"@,
            "importance"@,
            "SELECT "@,
            BindView::Supplied(0),
        ),
        r matches Some(st) ==> says(st@.sql, "WHERE NOT EXISTS ("@),
        r matches Some(st) ==> says(st@.sql, "FROM memory_relations"@),
{
    proof {
        insert_ontology_edge_text();
    }
    if from_entity_id == to_entity_id {
        return None;
    }
    let st = Statement::optional(INSERT_ONTOLOGY_EDGE_SQL)
            .int8(from_entity_id)
            .int8(to_entity_id)
            .text(relation)
            .supplied(0);
    assert(st@.sql == INSERT_ONTOLOGY_EDGE_SQL@);
    Some(st)
}

pub const LIST_CONCEPT_IDS_BY_FACET_SQL: &'static str = "SELECT m.entity_id FROM ontology_concept_meta m
         JOIN memory_entities e ON e.id = m.entity_id AND e.valid_to IS NULL
         WHERE m.facet = $1
         ORDER BY m.entity_id";

/// The ids of the concepts of a facet.
pub fn list_concept_ids_by_facet(facet: &str) -> (st: Statement)
    ensures
        st@ == fetches_all(LIST_CONCEPT_IDS_BY_FACET_SQL@, seq![BindView::Text(facet@)]),
        opens(st@.sql, "SELECT"@),
        takes(st@, "m.facet = "@, BindView::Text(facet@)),
        says(st@.sql, "ORDER BY m.entity_id"@),
        says(st@.sql, "FROM ontology_concept_meta"@),
{
    proof {
        list_concept_ids_by_facet_text();
    }
    let st = Statement::all(LIST_CONCEPT_IDS_BY_FACET_SQL).text(facet);
    assert(st@.sql == LIST_CONCEPT_IDS_BY_FACET_SQL@);
    st
}

pub const CONCEPT_CONCURRENCY_FINDINGS_SQL: &'static str = "SELECT DISTINCT m.entity_id, cf.id, cf.title, cf.file_id
         FROM concurrency_findings cf
         JOIN memory_code_anchor a
           ON (cf.file_id   IS NOT NULL AND a.file_id   = cf.file_id)
           OR (cf.symbol_id IS NOT NULL AND a.symbol_id = cf.symbol_id)
         JOIN ontology_concept_meta m ON m.entity_id = a.entity_id
         ORDER BY m.entity_id, cf.id";

/// Concurrency findings in code that a concept is anchored to.
pub fn concept_concurrency_findings() -> (st: Statement)
    ensures
        st@ == fetches_all(CONCEPT_CONCURRENCY_FINDINGS_SQL@, seq![]),
        opens(st@.sql, "SELECT DISTINCT"@),
        says(st@.sql, "OR (cf.symbol_id IS NOT NULL AND a.symbol_id = cf.symbol_id)"@),
        says(st@.sql, "ORDER BY m.entity_id, cf.id"@),
        says(st@.sql, "FROM concurrency_findings"@),
{
    proof {
        concept_concurrency_findings_text();
    }
    let st = Statement::all(CONCEPT_CONCURRENCY_FINDINGS_SQL);
    assert(st@.sql == CONCEPT_CONCURRENCY_FINDINGS_SQL@);
    st
}

pub const LOAD_SOFTWARE_PATTERNS_SQL: &'static str =
    "SELECT slug, name, category, kind FROM software_patterns ORDER BY id";

/// The catalogue of software patterns.
pub fn load_software_patterns() -> (st: Statement)
    ensures
        st@ == fetches_all(LOAD_SOFTWARE_PATTERNS_SQL@, seq![]),
        opens(st@.sql, "SELECT"@),
        says(st@.sql, "ORDER BY id"@),
        says(st@.sql, "FROM software_patterns"@),
{
    proof {
        load_software_patterns_text();
    }
    let st = Statement::all(LOAD_SOFTWARE_PATTERNS_SQL);
    assert(st@.sql == LOAD_SOFTWARE_PATTERNS_SQL@);
    st
}

pub const FIND_CONCEPT_SQL: &'static str = "SELECT id FROM memory_entities \
         WHERE name = $1 AND entity_type = 'concept' AND valid_to IS NULL LIMIT 1";

pub const MIGRATE_CONCEPT_SQL: &'static str = "INSERT INTO memory_entities (name, entity_type, source) \
                 VALUES ($1, 'concept', 'migration'::memory_source) RETURNING id";

pub const CREATE_CONCEPT_SQL: &'static str = "INSERT INTO memory_entities (name, entity_type, source) \
                 VALUES ($1, 'concept', $2::memory_source) RETURNING id";

/// Where the creation of a concept stands.
#[derive(Debug, Clone, Copy, PartialEq, Eq, Structural)]
pub enum ConceptStage {
    Finding,
    Creating,
    /// The concept has this id, and was created or found; its facet is being
    /// set.
    Describing(i64, bool),
    Finished(i64, bool),
}

/// Who a concept comes from.
#[derive(Debug, Clone, Copy, PartialEq, Eq, Structural)]
pub enum ConceptOrigin {
    Agent,
    User,
    Migration,
}

impl ConceptOrigin {
    /// Creating a concept of this origin.
    pub open spec fn creates(self, name: Seq<char>) -> StatementView {
        match self {
            ConceptOrigin::Agent => fetches_one(
                CREATE_CONCEPT_SQL@,
                seq![BindView::Text(name), BindView::Text("agent_write"@)],
            ),
            ConceptOrigin::User => fetches_one(
                CREATE_CONCEPT_SQL@,
                seq![BindView::Text(name), BindView::Text("user_explicit"@)],
            ),
            ConceptOrigin::Migration => fetches_one(
                MIGRATE_CONCEPT_SQL@,
                seq![BindView::Text(name)],
            ),
        }
    }

    fn create(self, name: &str) -> (st: Statement)
        ensures
            st@ == self.creates(name@),
    {
        match self {
            ConceptOrigin::Agent => {
                let st = Statement::one(CREATE_CONCEPT_SQL).text(name).text("agent_write");
                assert(st@ =~= self.creates(name@));
                st
            },
            ConceptOrigin::User => {
                let st = Statement::one(CREATE_CONCEPT_SQL).text(name).text("user_explicit");
                assert(st@ =~= self.creates(name@));
                st
            },
            ConceptOrigin::Migration => Statement::one(MIGRATE_CONCEPT_SQL).text(name),
        }
    }
}

/// Finds a concept by its name, or creates it, and sets its facet.
#[derive(Debug)]
pub struct ConceptCreation {
    pub name: String,
    pub facet: String,
    pub build_method: String,
    pub origin: ConceptOrigin,
    pub stage: ConceptStage,
}

/// The state of a [`ConceptCreation`], as a mathematical value.
#[verifier::ext_equal]
pub struct ConceptCreationView {
    pub name: Seq<char>,
    pub facet: Seq<char>,
    pub build_method: Seq<char>,
    pub origin: ConceptOrigin,
    pub stage: ConceptStage,
}

impl View for ConceptCreation {
    type V = ConceptCreationView;

    open spec fn view(&self) -> ConceptCreationView {
        ConceptCreationView {
            name: self.name@,
            facet: self.facet@,
            build_method: self.build_method@,
            origin: self.origin,
            stage: self.stage,
        }
    }
}

/// Every field of the model stands for the field of the same name.
pub proof fn law_concept_creation_is_modelled_by_its_fields(creation: ConceptCreation)
    ensures
        creation@.name == creation.name@,
        creation@.facet == creation.facet@,
        creation@.build_method == creation.build_method@,
        creation@.origin == creation.origin,
        creation@.stage == creation.stage,
{
}

impl ConceptCreationView {
    /// Finding the concept.
    pub open spec fn finds(self) -> StatementView {
        fetches_optional(FIND_CONCEPT_SQL@, seq![BindView::Text(self.name)])
    }

    /// Sets the facet of the concept.
    pub open spec fn describing(self, id: i64, created: bool) -> (ConceptCreationView, ActionView) {
        (
            ConceptCreationView { stage: ConceptStage::Describing(id, created), ..self },
            ActionView::Run(describes_concept(id, self.facet, self.build_method, None)),
        )
    }

    /// What follows an answer.
    pub open spec fn next(self, reply: ReplyView) -> (ConceptCreationView, ActionView) {
        match (self.stage, reply) {
            (ConceptStage::Finding, ReplyView::Ids(ids)) => if ids.len() > 0 {
                self.describing(ids[0], false)
            } else {
                (
                    ConceptCreationView { stage: ConceptStage::Creating, ..self },
                    ActionView::Run(self.origin.creates(self.name)),
                )
            },
            (ConceptStage::Creating, ReplyView::Ids(ids)) => self.describing(ids[0], true),
            (ConceptStage::Describing(id, created), _) => (
                ConceptCreationView { stage: ConceptStage::Finished(id, created), ..self },
                ActionView::Done,
            ),
            _ => (self, ActionView::Done),
        }
    }

    /// The shape of answer that is awaited.
    pub open spec fn awaiting(self) -> Awaiting {
        match self.stage {
            ConceptStage::Finding => Awaiting::Optional,
            ConceptStage::Creating => Awaiting::One,
            ConceptStage::Describing(_, _) => Awaiting::Affected,
            ConceptStage::Finished(_, _) => Awaiting::Nothing,
        }
    }
}

impl ConceptCreation {
    fn begin(name: &str, facet: &str, build_method: &str, origin: ConceptOrigin) -> (r: (
        ConceptCreation,
        Action,
    ))
        ensures
            r.0@ == (ConceptCreationView {
                name: name@,
                facet: facet@,
                build_method: build_method@,
                origin,
                stage: ConceptStage::Finding,
            }),
            r.1@ == ActionView::Run(r.0@.finds()),
            awaited(r.1@) == r.0@.awaiting(),
            r.0@.name == name@,
            r.0@.facet == facet@,
            r.0@.build_method == build_method@,
            r.0@.origin == origin,
    {
        let m = ConceptCreation {
            name: String::from_str(name),
            facet: String::from_str(facet),
            build_method: String::from_str(build_method),
            origin,
            stage: ConceptStage::Finding,
        };
        let st = Statement::optional(FIND_CONCEPT_SQL).text(name);
        assert(st@ =~= m@.finds());
        (m, Action::Run(st))
    }

    fn describe(&mut self, id: i64, created: bool) -> (r: Action)
        ensures
            (final(self)@, r@) == old(self)@.describing(id, created),
            awaited(r@) == final(self)@.awaiting(),
    {
        self.stage = ConceptStage::Describing(id, created);
        Action::Run(upsert_concept_meta(id, self.facet.as_str(), self.build_method.as_str(), None))
    }

    /// Takes an answer and says what to do next.
    pub fn step(&mut self, reply: &Reply) -> (r: Action)
        requires
            fits(old(self)@.awaiting(), reply@),
        ensures
            (final(self)@, r@) == old(self)@.next(reply@),
            awaited(r@) == final(self)@.awaiting(),
    {
        match (self.stage, reply) {
            (ConceptStage::Finding, Reply::Ids(ids)) => {
                if ids.len() > 0 {
                    self.describe(ids[0], false)
                } else {
                    self.stage = ConceptStage::Creating;
                    Action::Run(self.origin.create(self.name.as_str()))
                }
            },
            (ConceptStage::Creating, Reply::Ids(ids)) => self.describe(ids[0], true),
            (ConceptStage::Describing(id, created), _) => {
                self.stage = ConceptStage::Finished(id, created);
                Action::Done
            },
            _ => Action::Done,
        }
    }

    /// The concept's id and whether it was created, at the end.
    pub fn result(&self) -> (r: Option<(i64, bool)>)
        ensures
            r == (match self@.stage {
                ConceptStage::Finished(id, created) => Some((id, created)),
                _ => None,
            }),
    {
        match self.stage {
            ConceptStage::Finished(id, created) => Some((id, created)),
            _ => None,
        }
    }
}

/// Finds or creates a concept that is taken over from another catalogue.
pub fn migrate_concept(name: &str, facet: &str, build_method: &str) -> (r: (
    ConceptCreation,
    Action,
))
    ensures
        r.0@ == (ConceptCreationView {
            name: name@,
            facet: facet@,
            build_method: build_method@,
            origin: ConceptOrigin::Migration,
            stage: ConceptStage::Finding,
        }),
        r.1@ == ActionView::Run(r.0@.finds()),
        awaited(r.1@) == r.0@.awaiting(),
        r.0@.name == name@,
        r.0@.facet == facet@,
        r.0@.build_method == build_method@,
{
    ConceptCreation::begin(name, facet, build_method, ConceptOrigin::Migration)
}

/// Finds or creates a concept for an agent, or for anyone else.
pub fn create_concept(name: &str, facet: &str, actor_is_agent: bool) -> (r: (
    ConceptCreation,
    Action,
))
    ensures
        r.0@ == (ConceptCreationView {
            name: name@,
            facet: facet@,
            build_method: if actor_is_agent {
                "agent"@
            } else {
                "user"@
            },
            origin: if actor_is_agent {
                ConceptOrigin::Agent
            } else {
                ConceptOrigin::User
            },
            stage: ConceptStage::Finding,
        }),
        r.1@ == ActionView::Run(r.0@.finds()),
        awaited(r.1@) == r.0@.awaiting(),
        r.0@.name == name@,
        r.0@.facet == facet@,
{
    if actor_is_agent {
        ConceptCreation::begin(name, facet, "agent", ConceptOrigin::Agent)
    } else {
        ConceptCreation::begin(name, facet, "user", ConceptOrigin::User)
    }
}

/// The facet is set, whether the concept was found or created, and the result
/// tells which.
pub proof fn law_concept_creation(v: ConceptCreationView, first: ReplyView, second: ReplyView)
    requires
        v.stage is Finding,
        fits(Awaiting::Optional, first),
        fits(Awaiting::One, second),
    ensures
        first->Ids_0.len() > 0 ==> v.next(first).0.stage == ConceptStage::Describing(
            first->Ids_0[0],
            false,
        ),
        first->Ids_0.len() == 0 ==> v.next(first).0.next(second).0.stage
            == ConceptStage::Describing(second->Ids_0[0], true),
{
}

pub const SET_CONCEPT_ATTR_SQL: &'static str = "INSERT INTO ontology_concept_attr (entity_id, key, value) VALUES ($1, $2, $3)
         ON CONFLICT (entity_id, key) DO UPDATE SET value = EXCLUDED.value";

/// Sets an attribute of a concept.
pub fn set_concept_attr(entity_id: i64, key: &str, value: &str) -> (st: Statement)
    ensures
        st@ == executes(
            SET_CONCEPT_ATTR_SQL@,
            seq![
                BindView::BigInt(entity_id),
                BindView::Text(key@),
                BindView::Text(value@),
            ],
        ),
        opens(st@.sql, "INSERT INTO ontology_concept_attr"@),
        fills(
            st@,
            "INSERT INTO ontology_concept_attr"@,
            "entity_id"@,
            "VALUES ("@,
            BindView::BigInt(entity_id),
        ),
        fills(st@, "INSERT INTO ontology_concept_attr"@, "key"@, "VALUES ("@, BindView::Text(key@)),
        fills(
            st@,
            "INSERT INTO ontology_concept_attr"@,
            "value"@,
            "VALUES ("@,
            BindView::Text(value@),
        ),
        says(st@.sql, "ON CONFLICT (entity_id, key) DO UPDATE SET value = EXCLUDED.value"@),
{
    proof {
        set_concept_attr_text();
    }
    let st = Statement::execute(SET_CONCEPT_ATTR_SQL).int8(entity_id).text(key).text(value);
    assert(st@.sql == SET_CONCEPT_ATTR_SQL@);
    st
}

pub const DETECT_IS_A_CYCLES_SQL: &'static str = "WITH RECURSIVE reach(start, node) AS (
             SELECT from_entity_id, to_entity_id FROM memory_relations
             WHERE relation_type = 'is_a' AND valid_to IS NULL
             UNION
             SELECT r.start, m.to_entity_id
             FROM reach r
             JOIN memory_relations m
               ON m.from_entity_id = r.node AND m.relation_type = 'is_a' AND m.valid_to IS NULL
         )
         SELECT DISTINCT start FROM reach WHERE start = node ORDER BY start";

/// The concepts that lie on a cycle of the hierarchy; none where it has no
/// cycle.
pub fn detect_is_a_cycles() -> (st: Statement)
    ensures
        st@ == fetches_all(DETECT_IS_A_CYCLES_SQL@, seq![]),
        opens(st@.sql, "WITH RECURSIVE"@),
        says(st@.sql, "WHERE relation_type = 'is_a' AND valid_to IS NULL"@),
        says(st@.sql, "ORDER BY start"@),
        says(st@.sql, "FROM memory_relations"@),
{
    proof {
        detect_is_a_cycles_text();
    }
    let st = Statement::all(DETECT_IS_A_CYCLES_SQL);
    assert(st@.sql == DETECT_IS_A_CYCLES_SQL@);
    st
}

pub const UNANCHORED_INVARIANTS_SQL: &'static str = "SELECT m.entity_id, e.name
         FROM ontology_concept_meta m
         JOIN memory_entities e ON e.id = m.entity_id AND e.valid_to IS NULL
         WHERE m.facet = 'invariant'
           AND NOT EXISTS (SELECT 1 FROM memory_code_anchor a WHERE a.entity_id = m.entity_id)
         ORDER BY m.entity_id";

/// Invariants that are anchored to no code.
pub fn unanchored_invariants() -> (st: Statement)
    ensures
        st@ == fetches_all(UNANCHORED_INVARIANTS_SQL@, seq![]),
        opens(st@.sql, "SELECT"@),
        says(st@.sql, "WHERE m.facet = 'invariant'"@),
        says(st@.sql, "ORDER BY m.entity_id"@),
        says(st@.sql, "FROM ontology_concept_meta"@),
{
    proof {
        unanchored_invariants_text();
    }
    let st = Statement::all(UNANCHORED_INVARIANTS_SQL);
    assert(st@.sql == UNANCHORED_INVARIANTS_SQL@);
    st
}

pub const CONCEPT_ANCESTORS_SQL: &'static str = "WITH RECURSIVE anc(node, depth, path) AS (
             SELECT to_entity_id, 1, ARRAY[to_entity_id] FROM memory_relations
             WHERE from_entity_id = $1 AND relation_type = 'is_a' AND valid_to IS NULL
             UNION
             SELECT r.to_entity_id, a.depth + 1, a.path || r.to_entity_id
             FROM anc a
             JOIN memory_relations r
               ON r.from_entity_id = a.node AND r.relation_type = 'is_a' AND r.valid_to IS NULL
             WHERE NOT r.to_entity_id = ANY(a.path)
         )
         SELECT a.node, e.name
         FROM anc a JOIN memory_entities e ON e.id = a.node AND e.valid_to IS NULL
         GROUP BY a.node, e.name
         ORDER BY MIN(a.depth), e.name";

/// All concepts that a concept is one of, directly or not: the nearest first,
/// those equally near by name.
pub fn concept_ancestors(entity_id: i64) -> (st: Statement)
    ensures
        st@ == fetches_all(CONCEPT_ANCESTORS_SQL@, seq![BindView::BigInt(entity_id)]),
        opens(st@.sql, "WITH RECURSIVE"@),
        takes(st@, "from_entity_id = "@, BindView::BigInt(entity_id)),
        says(st@.sql, "WHERE NOT r.to_entity_id = ANY(a.path)"@),
        says(st@.sql, "GROUP BY a.node, e.name"@),
        says(st@.sql, "ORDER BY MIN(a.depth), e.name"@),
        says(st@.sql, "FROM memory_relations"@),
{
    proof {
        concept_ancestors_text();
    }
    let st = Statement::all(CONCEPT_ANCESTORS_SQL).int8(entity_id);
    assert(st@.sql == CONCEPT_ANCESTORS_SQL@);
    st
}

pub const CONCEPT_DESCENDANTS_SQL: &'static str = "WITH RECURSIVE sub(child_id, parent_id, relation, depth) AS (
             SELECT r.from_entity_id, r.to_entity_id, r.relation_type, 1
             FROM memory_relations r
             WHERE r.to_entity_id = $1
               AND r.relation_type IN ('is_a','part_of','broader') AND r.valid_to IS NULL
             UNION
             SELECT r.from_entity_id, r.to_entity_id, r.relation_type, s.depth + 1
             FROM sub s
             JOIN memory_relations r
               ON r.to_entity_id = s.child_id
               AND r.relation_type IN ('is_a','part_of','broader') AND r.valid_to IS NULL
             WHERE s.depth < $2
         )
         SELECT s.child_id, cf.name AS child_name, s.parent_id, pf.name AS parent_name, s.relation
         FROM sub s
         JOIN memory_entities cf ON cf.id = s.child_id AND cf.valid_to IS NULL
         JOIN memory_entities pf ON pf.id = s.parent_id AND pf.valid_to IS NULL
         ORDER BY s.parent_id, s.child_id";

/// The edges under a concept, down to a depth.
pub fn concept_descendants(root_id: i64, max_depth: i32) -> (st: Statement)
    ensures
        st@ == fetches_all(
            CONCEPT_DESCENDANTS_SQL@,
            seq![
                BindView::BigInt(root_id),
                BindView::Int(max_depth),
            ],
        ),
        opens(st@.sql, "WITH RECURSIVE"@),
        takes(st@, "r.to_entity_id = "@, BindView::BigInt(root_id)),
        takes(st@, "s.depth < "@, BindView::Int(max_depth)),
        says(st@.sql, "ORDER BY s.parent_id, s.child_id"@),
        says(st@.sql, "FROM memory_relations"@),
{
    proof {
        concept_descendants_text();
    }
    let st = Statement::all(CONCEPT_DESCENDANTS_SQL).int8(root_id).int4(max_depth);
    assert(st@.sql == CONCEPT_DESCENDANTS_SQL@);
    st
}

pub const EXPORT_CONCEPTS_SQL: &'static str = "SELECT m.entity_id, e.name, m.facet, m.status
         FROM ontology_concept_meta m
         JOIN memory_entities e ON e.id = m.entity_id AND e.valid_to IS NULL
         ORDER BY m.entity_id";

/// All concepts.
pub fn export_concepts() -> (st: Statement)
    ensures
        st@ == fetches_all(EXPORT_CONCEPTS_SQL@, seq![]),
        opens(st@.sql, "SELECT"@),
        says(st@.sql, "ORDER BY m.entity_id"@),
        says(st@.sql, "FROM ontology_concept_meta"@),
{
    proof {
        export_concepts_text();
    }
    let st = Statement::all(EXPORT_CONCEPTS_SQL);
    assert(st@.sql == EXPORT_CONCEPTS_SQL@);
    st
}

pub const EXPORT_EDGES_SQL: &'static str = "SELECT r.from_entity_id, r.to_entity_id, r.relation_type
         FROM memory_relations r
         JOIN ontology_concept_meta a ON a.entity_id = r.from_entity_id
         JOIN ontology_concept_meta b ON b.entity_id = r.to_entity_id
         WHERE r.relation_type IN ('is_a','part_of','broader','narrower','member_of')
           AND r.valid_to IS NULL
         ORDER BY r.from_entity_id, r.to_entity_id";

/// All edges between concepts.
pub fn export_edges() -> (st: Statement)
    ensures
        st@ == fetches_all(EXPORT_EDGES_SQL@, seq![]),
        opens(st@.sql, "SELECT"@),
        says(st@.sql, "AND r.valid_to IS NULL"@),
        says(st@.sql, "ORDER BY r.from_entity_id, r.to_entity_id"@),
        says(st@.sql, "FROM memory_relations"@),
{
    proof {
        export_edges_text();
    }
    let st = Statement::all(EXPORT_EDGES_SQL);
    assert(st@.sql == EXPORT_EDGES_SQL@);
    st
}

pub const LOAD_ISA_EDGE_IDS_SQL: &'static str = "SELECT r.from_entity_id, r.to_entity_id
         FROM memory_relations r
         JOIN ontology_concept_meta cm ON cm.entity_id = r.from_entity_id AND cm.facet = $1
         JOIN ontology_concept_meta pm ON pm.entity_id = r.to_entity_id   AND pm.facet = $1
         WHERE r.relation_type = 'is_a' AND r.valid_to IS NULL";

/// Pairs of a concept of a facet and one of the facet that it is one of.
pub fn load_isa_edge_ids(facet: &str) -> (st: Statement)
    ensures
        st@ == fetches_all(LOAD_ISA_EDGE_IDS_SQL@, seq![BindView::Text(facet@)]),
        opens(st@.sql, "SELECT"@),
        takes(st@, "cm.facet = "@, BindView::Text(facet@)),
        says(st@.sql, "WHERE r.relation_type = 'is_a' AND r.valid_to IS NULL"@),
        says(st@.sql, "FROM memory_relations"@),
{
    proof {
        load_isa_edge_ids_text();
    }
    let st = Statement::all(LOAD_ISA_EDGE_IDS_SQL).text(facet);
    assert(st@.sql == LOAD_ISA_EDGE_IDS_SQL@);
    st
}

pub const CONCEPT_BROADER_LINKS_SQL: &'static str = "SELECT r.from_entity_id, ef.name, r.to_entity_id, et.name, r.importance::float8
         FROM memory_relations r
         JOIN memory_entities ef ON ef.id = r.from_entity_id AND ef.valid_to IS NULL
         JOIN memory_entities et ON et.id = r.to_entity_id   AND et.valid_to IS NULL
         WHERE r.relation_type = 'broader' AND r.valid_to IS NULL
           AND (r.from_entity_id = $1 OR r.to_entity_id = $1)
         ORDER BY r.importance DESC
         LIMIT $2";

/// The suggested broader and narrower concepts of a concept, the weightiest
/// first.
pub fn concept_broader_links(entity_id: i64, limit: i64) -> (st: Statement)
    ensures
        st@ == fetches_all(
            CONCEPT_BROADER_LINKS_SQL@,
            seq![
                BindView::BigInt(entity_id),
                BindView::BigInt(limit),
            ],
        ),
        opens(st@.sql, "SELECT"@),
        takes(st@, "r.from_entity_id = "@, BindView::BigInt(entity_id)),
        takes(st@, "LIMIT "@, BindView::BigInt(limit)),
        says(st@.sql, "WHERE r.relation_type = 'broader' AND r.valid_to IS NULL"@),
        says(st@.sql, "ORDER BY r.importance DESC"@),
        says(st@.sql, "FROM memory_relations"@),
{
    proof {
        concept_broader_links_text();
    }
    let st = Statement::all(CONCEPT_BROADER_LINKS_SQL).int8(entity_id).int8(limit);
    assert(st@.sql == CONCEPT_BROADER_LINKS_SQL@);
    st
}

pub const CONCEPT_HIERARCHY_EDGES_SQL: &'static str = "SELECT r.from_entity_id AS child_id, cf.name AS child_name,
                r.to_entity_id AS parent_id, pf.name AS parent_name, r.relation_type AS relation
         FROM memory_relations r
         JOIN ontology_concept_meta cm ON cm.entity_id = r.from_entity_id AND cm.facet = $1
         JOIN ontology_concept_meta pm ON pm.entity_id = r.to_entity_id   AND pm.facet = $1
         JOIN memory_entities cf ON cf.id = r.from_entity_id AND cf.valid_to IS NULL
         JOIN memory_entities pf ON pf.id = r.to_entity_id   AND pf.valid_to IS NULL
         WHERE r.relation_type IN ('is_a','part_of','broader') AND r.valid_to IS NULL
         ORDER BY r.from_entity_id, r.to_entity_id";

/// The edges between the concepts of a facet.
pub fn concept_hierarchy_edges(facet: &str) -> (st: Statement)
    ensures
        st@ == fetches_all(CONCEPT_HIERARCHY_EDGES_SQL@, seq![BindView::Text(facet@)]),
        opens(st@.sql, "SELECT"@),
        takes(st@, "cm.facet = "@, BindView::Text(facet@)),
        says(st@.sql, "ORDER BY r.from_entity_id, r.to_entity_id"@),
        says(st@.sql, "FROM memory_relations"@),
{
    proof {
        concept_hierarchy_edges_text();
    }
    let st = Statement::all(CONCEPT_HIERARCHY_EDGES_SQL).text(facet);
    assert(st@.sql == CONCEPT_HIERARCHY_EDGES_SQL@);
    st
}

pub const RESOLVE_CONCEPT_BY_ID_SQL: &'static str = "SELECT id FROM memory_entities \
             WHERE id = $1 AND entity_type = 'concept' AND valid_to IS NULL";

pub const RESOLVE_CONCEPT_BY_NAME_SQL: &'static str = "SELECT id FROM memory_entities \
         WHERE name = $1 AND entity_type = 'concept' AND valid_to IS NULL ORDER BY id LIMIT 1";

/// Finding a concept by its name.
pub open spec fn finds_by_name(name: Seq<char>) -> StatementView {
    fetches_optional(RESOLVE_CONCEPT_BY_NAME_SQL@, seq![BindView::Text(name)])
}

/// Finding a concept by its id.
pub open spec fn finds_by_id(id: i64) -> StatementView {
    fetches_optional(RESOLVE_CONCEPT_BY_ID_SQL@, seq![BindView::BigInt(id)])
}

/// Resolves a reference to a concept: a number is taken as an id first, and
/// as a name where no concept has the id; any other text is a name.
pub fn resolve_concept(name_or_id: &str) -> (r: (Fallback, Action))
    ensures
        r.0.wf(),
        !r.0.over,
        match parsed(name_or_id@) {
            Some(id) => r.1@ == ActionView::Run(finds_by_id(id)) && (r.0.second matches Some(st)
                && st@ == finds_by_name(name_or_id@)),
            None => r.1@ == ActionView::Run(finds_by_name(name_or_id@)) && r.0.second is None,
        },
{
    let by_name = Statement::optional(RESOLVE_CONCEPT_BY_NAME_SQL).text(name_or_id);
    assert(by_name@ == finds_by_name(name_or_id@));
    match parse_i64(name_or_id) {
        Some(id) => {
            let by_id = Statement::optional(RESOLVE_CONCEPT_BY_ID_SQL).int8(id);
            assert(by_id@ == finds_by_id(id));
            assert(by_id@.fetch == by_id.fetch && by_name@.fetch == by_name.fetch);
            Fallback::start(by_id, by_name)
        },
        None => {
            assert(by_name@.fetch == by_name.fetch);
            Fallback::only(by_name)
        },
    }
}

pub const SEARCH_CONCEPTS_BY_NAME_SQL: &'static str = "SELECT e.id AS entity_id, e.name, m.facet, m.status, m.confidence
         FROM ontology_concept_meta m
         JOIN memory_entities e ON e.id = m.entity_id AND e.valid_to IS NULL
         WHERE (e.name ILIKE '%' || $1 || '%' OR m.constraint_text ILIKE '%' || $1 || '%')
           AND ($2::text IS NULL OR m.facet = $2)
         ORDER BY (m.status = 'canonical') DESC, m.confidence DESC, e.id
         LIMIT $3";

/// Concepts whose name or constraint holds a text, optionally of one facet, the
/// settled and surest first.
pub fn search_concepts_by_name(query: &str, facet: Option<&str>, limit: i64) -> (st: Statement)
    ensures
        st@ == fetches_all(
            SEARCH_CONCEPTS_BY_NAME_SQL@,
            seq![
                BindView::Text(like_literal(query@)),
                BindView::OptText(opt_str(facet)),
                BindView::BigInt(limit),
            ],
        ),
        opens(st@.sql, "SELECT"@),
        takes(st@, "e.name ILIKE '%' || "@, BindView::Text(like_literal(query@))),
        takes(st@, "m.facet = "@, BindView::OptText(opt_str(facet))),
        takes(st@, "LIMIT "@, BindView::BigInt(limit)),
        says(st@.sql, "ORDER BY (m.status = 'canonical') DESC, m.confidence DESC, e.id"@),
        says(st@.sql, "FROM ontology_concept_meta"@),
{
    proof {
        search_concepts_by_name_text();
    }
    let st = Statement::all(SEARCH_CONCEPTS_BY_NAME_SQL)
        .text(like_escape(query).as_str())
        .opt_text(facet)
        .int8(limit);
    assert(st@.sql == SEARCH_CONCEPTS_BY_NAME_SQL@);
    st
}

pub const RESOLVE_CONCEPTS_BY_NAMES_SQL: &'static str = "SELECT e.id AS entity_id, e.name, m.facet, m.status, m.confidence
         FROM ontology_concept_meta m
         JOIN memory_entities e ON e.id = m.entity_id AND e.valid_to IS NULL
         WHERE e.name = ANY($1)
           AND ($2::text IS NULL OR m.facet = $2)
         ORDER BY (m.status = 'canonical') DESC, m.confidence DESC, e.id
         LIMIT $3";

/// The concepts with given names, optionally of one facet. No names: nothing to
/// send, and no concept is found.
pub fn resolve_concepts_by_names(
    names: &[String],
    facet: Option<&str>,
    limit: i64,
) -> (r: Option<Statement>)
    ensures
        r is None <==> names.len() == 0,
        r matches Some(st) ==> st@ == fetches_all(
            RESOLVE_CONCEPTS_BY_NAMES_SQL@,
            seq![
                BindView::TextArray(texts(names@)),
                BindView::OptText(opt_str(facet)),
                BindView::BigInt(limit),
            ],
        ),
        r matches Some(st) ==> opens(st@.sql, "SELECT"@),
        r matches Some(st) ==> takes(st@, "e.name = ANY("@, BindView::TextArray(texts(names@))),
        r matches Some(st) ==> takes(st@, "m.facet = "@, BindView::OptText(opt_str(facet))),
        r matches Some(st) ==> takes(st@, "LIMIT "@, BindView::BigInt(limit)),
        r matches Some(st) ==> says(
            st@.sql,
            "ORDER BY (m.status = 'canonical') DESC, m.confidence DESC, e.id"@,
        ),
        r matches Some(st) ==> says(st@.sql, "FROM ontology_concept_meta"@),
{
    proof {
        resolve_concepts_by_names_text();
    }
    if names.len() == 0 {
        return None;
    }
    let st = Statement::all(RESOLVE_CONCEPTS_BY_NAMES_SQL)
            .texts(names)
            .opt_text(facet)
            .int8(limit);
    assert(st@.sql == RESOLVE_CONCEPTS_BY_NAMES_SQL@);
    Some(st)
}

pub const LIST_CONCEPT_EVIDENCE_SQL: &'static str = "SELECT evidence_kind, commit_id, file_id, mandate_ref, detail
         FROM ontology_concept_evidence WHERE entity_id = $1 ORDER BY id";

/// What backs a concept.
pub fn list_concept_evidence(entity_id: i64) -> (st: Statement)
    ensures
        st@ == fetches_all(LIST_CONCEPT_EVIDENCE_SQL@, seq![BindView::BigInt(entity_id)]),
        opens(st@.sql, "SELECT"@),
        takes(st@, "entity_id = "@, BindView::BigInt(entity_id)),
        says(st@.sql, "ORDER BY id"@),
        says(st@.sql, "FROM ontology_concept_evidence"@),
{
    proof {
        list_concept_evidence_text();
    }
    let st = Statement::all(LIST_CONCEPT_EVIDENCE_SQL).int8(entity_id);
    assert(st@.sql == LIST_CONCEPT_EVIDENCE_SQL@);
    st
}

pub const INVARIANT_ANCHORED_SQL: &'static str = "SELECT EXISTS (SELECT 1 FROM memory_code_anchor \
             WHERE entity_id = $1 AND file_id = $2 AND anchor_type = 'concept_code')";

/// Where the assertion of an invariant stands, once the concept has an id.
#[derive(Debug, Clone, Copy, PartialEq, Eq, Structural)]
pub enum AssertionStage {
    /// The concept is being found or created.
    Concept,
    Constraining(i64),
    Evidencing(i64),
    Checking(i64),
    Anchoring(i64),
    Finished(i64),
}

/// Records an invariant that an agent asserts: the concept, its constraint,
/// the evidence and, where a file is given, an anchor to it.
#[derive(Debug)]
pub struct InvariantAssertion {
    pub concept: ConceptCreation,
    pub constraint_text: String,
    pub rationale: String,
    pub file_id: Option<i64>,
    pub stage: AssertionStage,
}

/// The state of an [`InvariantAssertion`], as a mathematical value.
#[verifier::ext_equal]
pub struct AssertionView {
    pub concept: ConceptCreationView,
    pub constraint_text: Seq<char>,
    pub rationale: Seq<char>,
    pub file_id: Option<i64>,
    pub stage: AssertionStage,
}

impl View for InvariantAssertion {
    type V = AssertionView;

    open spec fn view(&self) -> AssertionView {
        AssertionView {
            concept: self.concept@,
            constraint_text: self.constraint_text@,
            rationale: self.rationale@,
            file_id: self.file_id,
            stage: self.stage,
        }
    }
}

/// Every field of the model stands for the field of the same name.
pub proof fn law_invariant_assertion_is_modelled_by_its_fields(assertion: InvariantAssertion)
    ensures
        assertion@.concept == assertion.concept@,
        assertion@.constraint_text == assertion.constraint_text@,
        assertion@.rationale == assertion.rationale@,
        assertion@.file_id == assertion.file_id,
        assertion@.stage == assertion.stage,
{
}

/// The provenance of what an agent asserts of a concept.
pub open spec fn agent_provenance(entity_id: i64, name: Seq<char>) -> Seq<char> {
    "agent:"@ + decimal_text(entity_id as int) + ":"@ + name
}

/// Asking whether a concept is anchored to a file.
pub open spec fn asks_for_anchor(entity_id: i64, file_id: i64) -> StatementView {
    fetches_one(
        INVARIANT_ANCHORED_SQL@,
        seq![BindView::BigInt(entity_id), BindView::BigInt(file_id)],
    )
}

/// Anchoring a concept to a file.
pub open spec fn anchors_concept(entity_id: i64, file_id: i64) -> StatementView {
    fetches_one(
        MEMORY_ANCHOR_ENTITY_SQL@,
        seq![
            BindView::BigInt(entity_id),
            BindView::OptBigInt(Some(file_id)),
            BindView::OptBigInt(None),
            BindView::OptBigInt(None),
            BindView::OptBigInt(None),
            BindView::OptInt(None),
            BindView::Text("concept_code"@),
        ],
    )
}

impl AssertionView {
    /// What follows an answer.
    pub open spec fn next(self, reply: ReplyView) -> (AssertionView, ActionView) {
        match self.stage {
            AssertionStage::Concept => {
                let (c, a) = self.concept.next(reply);
                match c.stage {
                    ConceptStage::Finished(id, _) => (
                        AssertionView {
                            concept: c,
                            stage: AssertionStage::Constraining(id),
                            ..self
                        },
                        ActionView::Run(
                            describes_invariant(
                                id,
                                self.constraint_text,
                                self.rationale,
                                "agent"@,
                                None,
                            ),
                        ),
                    ),
                    _ => (AssertionView { concept: c, ..self }, a),
                }
            },
            AssertionStage::Constraining(id) => (
                AssertionView { stage: AssertionStage::Evidencing(id), ..self },
                ActionView::Run(
                    adds_evidence(
                        id,
                        "agent"@,
                        None,
                        self.file_id,
                        None,
                        Some(self.constraint_text),
                        agent_provenance(id, self.concept.name),
                    ),
                ),
            ),
            AssertionStage::Evidencing(id) => match self.file_id {
                Some(f) => (
                    AssertionView { stage: AssertionStage::Checking(id), ..self },
                    ActionView::Ask(asks_for_anchor(id, f)),
                ),
                None => (
                    AssertionView { stage: AssertionStage::Finished(id), ..self },
                    ActionView::Done,
                ),
            },
            AssertionStage::Checking(id) => match (self.file_id, reply) {
                (Some(f), ReplyView::Present(false)) => (
                    AssertionView { stage: AssertionStage::Anchoring(id), ..self },
                    ActionView::Run(anchors_concept(id, f)),
                ),
                _ => (
                    AssertionView { stage: AssertionStage::Finished(id), ..self },
                    ActionView::Done,
                ),
            },
            AssertionStage::Anchoring(id) => (
                AssertionView { stage: AssertionStage::Finished(id), ..self },
                ActionView::Done,
            ),
            AssertionStage::Finished(_) => (self, ActionView::Done),
        }
    }

    /// The shape of answer that is awaited.
    pub open spec fn awaiting(self) -> Awaiting {
        match self.stage {
            AssertionStage::Concept => self.concept.awaiting(),
            AssertionStage::Constraining(_) => Awaiting::Affected,
            AssertionStage::Evidencing(_) => Awaiting::Optional,
            AssertionStage::Checking(_) => Awaiting::Presence,
            AssertionStage::Anchoring(_) => Awaiting::One,
            AssertionStage::Finished(_) => Awaiting::Nothing,
        }
    }

    /// While the concept is being found or created, that is not over.
    pub open spec fn wf(self) -> bool {
        &&& self.stage is Concept ==> !(self.concept.stage is Finished)
        &&& self.stage is Checking ==> self.file_id is Some
    }
}

/// Starts to record an invariant that an agent asserts.
pub fn agent_assert_invariant(
    name: &str,
    constraint_text: &str,
    rationale: &str,
    file_id: Option<i64>,
) -> (r: (InvariantAssertion, Action))
    ensures
        r.0@ == (AssertionView {
            concept: ConceptCreationView {
                name: name@,
                facet: "invariant"@,
                build_method: "agent"@,
                origin: ConceptOrigin::Agent,
                stage: ConceptStage::Finding,
            },
            constraint_text: constraint_text@,
            rationale: rationale@,
            file_id,
            stage: AssertionStage::Concept,
        }),
        r.1@ == ActionView::Run(r.0@.concept.finds()),
        r.0@.wf(),
        awaited(r.1@) == r.0@.awaiting(),
        r.0@.constraint_text == constraint_text@,
        r.0@.rationale == rationale@,
        r.0@.file_id == file_id,
{
    let (concept, action) = create_concept(name, "invariant", true);
    (
        InvariantAssertion {
            concept,
            constraint_text: String::from_str(constraint_text),
            rationale: String::from_str(rationale),
            file_id,
            stage: AssertionStage::Concept,
        },
        action,
    )
}

impl InvariantAssertion {
    fn provenance(&self, id: i64) -> (r: String)
        ensures
            r@ == agent_provenance(id, self@.concept.name),
    {
        let mut m = String::from_str("agent:");
        m.append(decimal(id).as_str());
        m.append(":");
        m.append(self.concept.name.as_str());
        m
    }

    /// Takes an answer and says what to do next.
    pub fn step(&mut self, reply: &Reply) -> (r: Action)
        requires
            old(self)@.wf(),
            fits(old(self)@.awaiting(), reply@),
        ensures
            (final(self)@, r@) == old(self)@.next(reply@),
            final(self)@.wf(),
            awaited(r@) == final(self)@.awaiting(),
    {
        match self.stage {
            AssertionStage::Concept => {
                let action = self.concept.step(reply);
                match self.concept.stage {
                    ConceptStage::Finished(id, _) => {
                        self.stage = AssertionStage::Constraining(id);
                        Action::Run(
                            upsert_invariant_meta(
                                id,
                                self.constraint_text.as_str(),
                                self.rationale.as_str(),
                                "agent",
                                None,
                            ),
                        )
                    },
                    _ => action,
                }
            },
            AssertionStage::Constraining(id) => {
                let key = self.provenance(id);
                self.stage = AssertionStage::Evidencing(id);
                Action::Run(
                    insert_concept_evidence(
                        id,
                        "agent",
                        None,
                        self.file_id,
                        None,
                        Some(self.constraint_text.as_str()),
                        key.as_str(),
                    ),
                )
            },
            AssertionStage::Evidencing(id) => match self.file_id {
                Some(f) => {
                    self.stage = AssertionStage::Checking(id);
                    let st = Statement::one(INVARIANT_ANCHORED_SQL).int8(id).int8(f);
                    assert(st@ =~= asks_for_anchor(id, f));
                    Action::Ask(st)
                },
                None => {
                    self.stage = AssertionStage::Finished(id);
                    Action::Done
                },
            },
            AssertionStage::Checking(id) => match (self.file_id, reply) {
                (Some(f), Reply::Present(false)) => {
                    self.stage = AssertionStage::Anchoring(id);
                    match memory_anchor_entity(
                        id,
                        Some(f),
                        None,
                        None,
                        None,
                        None,
                        "concept_code",
                    ) {
                        Ok(st) => {
                            assert(st@ =~= anchors_concept(id, f));
                            Action::Run(st)
                        },
                        Err(_) => Action::Done,
                    }
                },
                _ => {
                    self.stage = AssertionStage::Finished(id);
                    Action::Done
                },
            },
            AssertionStage::Anchoring(id) => {
                self.stage = AssertionStage::Finished(id);
                Action::Done
            },
            AssertionStage::Finished(_) => Action::Done,
        }
    }

    /// The concept's id, at the end.
    pub fn entity_id(&self) -> (r: Option<i64>)
        ensures
            r == (match self@.stage {
                AssertionStage::Finished(id) => Some(id),
                _ => None,
            }),
    {
        match self.stage {
            AssertionStage::Finished(id) => Some(id),
            _ => None,
        }
    }
}

/// An agent's assertion never sets a status: none of the statements it sends
/// is the one that changes a status.
pub proof fn law_assertion_sets_no_status(v: AssertionView, reply: ReplyView)
    requires
        v.wf(),
        fits(v.awaiting(), reply),
    ensures
        v.next(reply).1 matches ActionView::Run(st) ==> st.sql != SET_CONCEPT_STATUS_SQL@,
        v.next(reply).1 matches ActionView::Ask(st) ==> st.sql != SET_CONCEPT_STATUS_SQL@,
{
    lemma_status_statement_is_distinct();
}

proof fn lemma_status_statement_is_distinct()
    ensures
        SET_CONCEPT_STATUS_SQL@ != UPSERT_CONCEPT_META_SQL@,
        SET_CONCEPT_STATUS_SQL@ != UPSERT_INVARIANT_META_SQL@,
        SET_CONCEPT_STATUS_SQL@ != INSERT_CONCEPT_EVIDENCE_SQL@,
        SET_CONCEPT_STATUS_SQL@ != FIND_CONCEPT_SQL@,
        SET_CONCEPT_STATUS_SQL@ != MIGRATE_CONCEPT_SQL@,
        SET_CONCEPT_STATUS_SQL@ != CREATE_CONCEPT_SQL@,
        SET_CONCEPT_STATUS_SQL@ != INVARIANT_ANCHORED_SQL@,
        SET_CONCEPT_STATUS_SQL@ != MEMORY_ANCHOR_ENTITY_SQL@,
{
    reveal_strlit("UPDATE ontology_concept_meta SET status = $2, updated_at = now() WHERE entity_id = $1");
    reveal_strlit("INSERT INTO ontology_concept_meta (entity_id, facet, build_method, project_id)
         VALUES ($1, $2, $3, $4)
         ON CONFLICT (entity_id) DO UPDATE
            SET facet = EXCLUDED.facet,
                build_method = EXCLUDED.build_method,
                project_id = COALESCE(ontology_concept_meta.project_id, EXCLUDED.project_id),
                updated_at = now()
          WHERE ontology_concept_meta.status = 'candidate'");
    reveal_strlit("INSERT INTO ontology_concept_meta
            (entity_id, facet, constraint_text, rationale, build_method, project_id)
         VALUES ($1, 'invariant', $2, $3, $4, $5)
         ON CONFLICT (entity_id) DO UPDATE
            SET facet = 'invariant',
                constraint_text = EXCLUDED.constraint_text,
                rationale = EXCLUDED.rationale,
                build_method = EXCLUDED.build_method,
                project_id = COALESCE(ontology_concept_meta.project_id, EXCLUDED.project_id),
                updated_at = now()
          WHERE ontology_concept_meta.status = 'candidate'");
    reveal_strlit("INSERT INTO ontology_concept_evidence
            (entity_id, evidence_kind, commit_id, file_id, mandate_ref, detail, provenance_key)
         VALUES ($1, $2, $3, $4, $5, $6, $7)
         ON CONFLICT (provenance_key) DO NOTHING
         RETURNING id");
    reveal_strlit("SELECT id FROM memory_entities \
         WHERE name = $1 AND entity_type = 'concept' AND valid_to IS NULL LIMIT 1");
    reveal_strlit("INSERT INTO memory_entities (name, entity_type, source) \
                 VALUES ($1, 'concept', 'migration'::memory_source) RETURNING id");
    reveal_strlit("INSERT INTO memory_entities (name, entity_type, source) \
                 VALUES ($1, 'concept', $2::memory_source) RETURNING id");
    reveal_strlit("SELECT EXISTS (SELECT 1 FROM memory_code_anchor \
             WHERE entity_id = $1 AND file_id = $2 AND anchor_type = 'concept_code')");
    reveal_strlit("INSERT INTO memory_code_anchor
            (entity_id, file_id, chunk_id, topic_id, symbol_id, project_id, anchor_type)
         VALUES ($1, $2, $3, $4, $5, $6, $7)
         RETURNING id");
    assert(SET_CONCEPT_STATUS_SQL@[0] == 'U');
    assert(UPSERT_CONCEPT_META_SQL@[0] == 'I');
    assert(UPSERT_INVARIANT_META_SQL@[0] == 'I');
    assert(INSERT_CONCEPT_EVIDENCE_SQL@[0] == 'I');
    assert(FIND_CONCEPT_SQL@[0] == 'S');
    assert(MIGRATE_CONCEPT_SQL@[0] == 'I');
    assert(CREATE_CONCEPT_SQL@[0] == 'I');
    assert(INVARIANT_ANCHORED_SQL@[0] == 'S');
    assert(MEMORY_ANCHOR_ENTITY_SQL@[0] == 'I');
}

pub const FIND_SIMILAR_CONCEPT_PAIRS_SQL: &'static str = "WITH ce AS (
             SELECT DISTINCT ON (m.entity_id) m.entity_id, o.embedding
             FROM ontology_concept_meta m
             JOIN memory_entities e     ON e.id = m.entity_id AND e.valid_to IS NULL
             JOIN memory_observations o ON o.entity_id = m.entity_id AND o.embedding IS NOT NULL
             WHERE m.facet = $1
             ORDER BY m.entity_id, o.id
         )
         SELECT a.entity_id, b.entity_id, (1 - (a.embedding <=> b.embedding))::float8
         FROM ce a JOIN ce b ON a.entity_id < b.entity_id
         WHERE (1 - (a.embedding <=> b.embedding)) >= $2
         ORDER BY a.entity_id, b.entity_id";

/// Pairs of similar concepts of a facet, the lower id first. The caller
/// supplies value 0, `tau`.
pub fn find_similar_concept_pairs(facet: &str) -> (st: Statement)
    ensures
        st@ == fetches_all(
            FIND_SIMILAR_CONCEPT_PAIRS_SQL@,
            seq![BindView::Text(facet@), BindView::Supplied(0)],
        ),
        opens(st@.sql, "WITH"@),
        takes(st@, "m.facet = "@, BindView::Text(facet@)),
        takes(st@, "b.embedding)) >= "@, BindView::Supplied(0)),
        says(st@.sql, "ORDER BY m.entity_id, o.id"@),
        says(st@.sql, "ORDER BY a.entity_id, b.entity_id"@),
        says(st@.sql, "FROM ontology_concept_meta"@),
{
    proof {
        find_similar_concept_pairs_text();
    }
    let st = Statement::all(FIND_SIMILAR_CONCEPT_PAIRS_SQL).text(facet).supplied(0);
    assert(st@.sql == FIND_SIMILAR_CONCEPT_PAIRS_SQL@);
    st
}

pub const LOAD_CONCEPT_EFFECT_ROWS_SQL: &'static str = "SELECT m.entity_id, se.effect
         FROM ontology_concept_meta m
         JOIN memory_code_anchor a        ON a.entity_id = m.entity_id AND a.topic_id IS NOT NULL
         JOIN chunk_topic_assignments cta ON cta.topic_id = a.topic_id AND cta.membership_score >= 0.05
         JOIN file_chunks fc              ON fc.id = cta.chunk_id
         JOIN file_symbols fs             ON fs.file_id = fc.file_id
         JOIN symbol_effects se           ON se.symbol_id = fs.id
         WHERE m.facet = $1
         GROUP BY m.entity_id, se.effect
         HAVING COUNT(*) >= $2
         ORDER BY m.entity_id, se.effect";

/// The effects that the code of the concepts of a facet has often enough.
pub fn load_concept_effect_rows(facet: &str, min_support: i64) -> (st: Statement)
    ensures
        st@ == fetches_all(
            LOAD_CONCEPT_EFFECT_ROWS_SQL@,
            seq![
                BindView::Text(facet@),
                BindView::BigInt(min_support),
            ],
        ),
        opens(st@.sql, "SELECT"@),
        takes(st@, "m.facet = "@, BindView::Text(facet@)),
        takes(st@, "COUNT(*) >= "@, BindView::BigInt(min_support)),
        says(st@.sql, "GROUP BY m.entity_id, se.effect"@),
        says(st@.sql, "ORDER BY m.entity_id, se.effect"@),
        says(st@.sql, "FROM ontology_concept_meta"@),
{
    proof {
        load_concept_effect_rows_text();
    }
    let st = Statement::all(LOAD_CONCEPT_EFFECT_ROWS_SQL).text(facet).int8(min_support);
    assert(st@.sql == LOAD_CONCEPT_EFFECT_ROWS_SQL@);
    st
}

} // verus!
