//! Reading the memory graph: search, snapshots, traversal, code anchors and
//! the unified graph.
use vstd::prelude::*;

use crate::embedding::{
    dimension_refusal, require_dimension, tune, tuned, TunedQuery, EMBEDDING_DIM,
};
use crate::limits::{clamp, clamped};
use crate::meaning::{fills, opens, part_at, says, takes};
use crate::protocol::{statement_views, ProtocolError};
use crate::queries::texts::memory_search::{
    facts_at_entities_text, law_dated_observations_are_of_the_moment,
    law_dated_relations_are_of_the_moment, law_ranked_paths_start_at_the_seeds,
    law_walks_start_at_the_seeds, memory_anchor_entity_text, memory_find_code_for_entity_text,
    memory_find_entities_for_code_text, memory_hybrid_search_text, memory_raptor_search_text,
    memory_search_nodes_text, memory_semantic_search_text, memory_unanchor_entity_text,
    memory_unified_search_text, neighbor_edges_text, neighbor_nodes_text,
    open_node_observations_text, open_node_relations_in_text, open_node_relations_out_text,
    open_nodes_text, read_graph_entities_text, read_graph_observations_text,
    read_graph_relations_text, traverse_edges_text, traverse_nodes_text, unified_edges_text,
    unified_nodes_by_id_text,
};
use crate::search_pattern::{holding, substring_pattern};
use crate::statement::{
    executes, fetches_all, fetches_one, fetches_optional, opt_list, opt_numbers, opt_str, texts,
    BindView, Fetch, Statement, StatementView,
};
use crate::text::{decimal, decimal_text, parse_i64, parsed, text_eq};

verus! {

pub const MEMORY_SEARCH_NODES_SQL: &'static str = "SELECT e.id, e.name, e.entity_type, e.canonical_name, e.importance,
                COUNT(DISTINCT o.id) FILTER (WHERE o.content ILIKE $1) AS matched_observations
         FROM memory_entities e
         LEFT JOIN memory_observations o
            ON o.entity_id = e.id AND o.valid_to IS NULL
         LEFT JOIN memory_entity_scope es ON es.entity_id = e.id
         WHERE e.valid_to IS NULL
           AND ($2::bigint IS NULL OR es.scope_id = $2)
           AND (
             e.name ILIKE $1
             OR e.entity_type ILIKE $1
             OR e.canonical_name ILIKE $1
             OR o.content ILIKE $1
           )
         GROUP BY e.id
         ORDER BY matched_observations DESC, e.importance DESC, e.id
         LIMIT $3";

/// Active entities whose name, type or observations hold a text, at most
/// `limit` of them, between 1 and 500.
pub fn memory_search_nodes(query: &str, scope_id: Option<i64>, limit: i32) -> (st: Statement)
    ensures
        st@ == fetches_all(
            MEMORY_SEARCH_NODES_SQL@,
            seq![
                BindView::Text(holding(query@)),
                BindView::OptBigInt(scope_id),
                BindView::Int(clamped(limit as int, 1, 500) as i32),
            ],
        ),
        opens(st@.sql, "SELECT"@),
        takes(st@, "o.content ILIKE "@, BindView::Text(holding(query@))),
        takes(st@, "es.scope_id = "@, BindView::OptBigInt(scope_id)),
        takes(st@, "LIMIT "@, BindView::Int(clamped(limit as int, 1, 500) as i32)),
        says(st@.sql, "WHERE e.valid_to IS NULL"@),
        says(st@.sql, "GROUP BY e.id"@),
        says(st@.sql, "ORDER BY matched_observations DESC, e.importance DESC, e.id"@),
        says(st@.sql, "FROM memory_entities"@),
{
    proof {
        memory_search_nodes_text();
    }
    let st = Statement::all(MEMORY_SEARCH_NODES_SQL)
        .text(substring_pattern(query).as_str())
        .opt_int8(scope_id)
        .int4(clamp(limit, 1, 500));
    assert(st@.sql == MEMORY_SEARCH_NODES_SQL@);
    st
}

pub const OPEN_NODES_SQL: &'static str = "SELECT id, name, entity_type, canonical_name, importance,
                source::text AS source, created_at, valid_from, valid_to, superseded_by
         FROM memory_entities
         WHERE name = ANY($1) AND valid_to IS NULL";

pub const OPEN_NODE_OBSERVATIONS_SQL: &'static str = "SELECT content FROM memory_observations
             WHERE entity_id = $1 AND valid_to IS NULL
             ORDER BY created_at";

pub const OPEN_NODE_RELATIONS_OUT_SQL: &'static str = "SELECT a.name AS from_name, b.name AS to_name, r.relation_type
             FROM memory_relations r
             JOIN memory_entities a ON a.id = r.from_entity_id
             JOIN memory_entities b ON b.id = r.to_entity_id
             WHERE r.from_entity_id = $1 AND r.valid_to IS NULL";

pub const OPEN_NODE_RELATIONS_IN_SQL: &'static str = "SELECT a.name AS from_name, b.name AS to_name, r.relation_type
             FROM memory_relations r
             JOIN memory_entities a ON a.id = r.from_entity_id
             JOIN memory_entities b ON b.id = r.to_entity_id
             WHERE r.to_entity_id = $1 AND r.valid_to IS NULL";

/// The active entities with the given names; no names: nothing to send, and
/// no node is opened.
pub fn memory_open_nodes(names: &[String]) -> (r: Option<Statement>)
    ensures
        r is None <==> names.len() == 0,
        r matches Some(st) ==> st@ == fetches_all(
            OPEN_NODES_SQL@,
            seq![BindView::TextArray(texts(names@))],
        ),
        r matches Some(st) ==> opens(st@.sql, "SELECT"@),
        r matches Some(st) ==> takes(st@, "name = ANY("@, BindView::TextArray(texts(names@))),
        r matches Some(st) ==> says(st@.sql, "FROM memory_entities"@),
{
    proof {
        open_nodes_text();
    }
    if names.len() == 0 {
        return None;
    }
    let st = Statement::all(OPEN_NODES_SQL).texts(names);
    assert(st@.sql == OPEN_NODES_SQL@);
    Some(st)
}

/// What belongs to an opened entity: its observations, the relations that
/// leave it and those that reach it.
pub fn open_node_details(entity_id: i64) -> (r: Vec<Statement>)
    ensures
        statement_views(r@) == seq![
            fetches_all(OPEN_NODE_OBSERVATIONS_SQL@, seq![BindView::BigInt(entity_id)]),
            fetches_all(OPEN_NODE_RELATIONS_OUT_SQL@, seq![BindView::BigInt(entity_id)]),
            fetches_all(OPEN_NODE_RELATIONS_IN_SQL@, seq![BindView::BigInt(entity_id)]),
        ],
        opens(statement_views(r@)[0].sql, "SELECT"@),
        takes(statement_views(r@)[0], "entity_id = "@, BindView::BigInt(entity_id)),
        says(statement_views(r@)[0].sql, "ORDER BY created_at"@),
        says(statement_views(r@)[0].sql, "FROM memory_observations"@),
        opens(statement_views(r@)[1].sql, "SELECT"@),
        takes(statement_views(r@)[1], "r.from_entity_id = "@, BindView::BigInt(entity_id)),
        says(statement_views(r@)[1].sql, "FROM memory_relations"@),
        opens(statement_views(r@)[2].sql, "SELECT"@),
        takes(statement_views(r@)[2], "r.to_entity_id = "@, BindView::BigInt(entity_id)),
        says(statement_views(r@)[2].sql, "FROM memory_relations"@),
{
    let r: Vec<Statement> = vec![
        Statement::all(OPEN_NODE_OBSERVATIONS_SQL).int8(entity_id),
        Statement::all(OPEN_NODE_RELATIONS_OUT_SQL).int8(entity_id),
        Statement::all(OPEN_NODE_RELATIONS_IN_SQL).int8(entity_id),
    ];
    assert(statement_views(r@) =~= seq![r@[0]@, r@[1]@, r@[2]@]);
    proof {
        open_node_observations_text();
        open_node_relations_out_text();
        open_node_relations_in_text();
        assert(statement_views(r@)[0].sql == OPEN_NODE_OBSERVATIONS_SQL@);
        assert(statement_views(r@)[1].sql == OPEN_NODE_RELATIONS_OUT_SQL@);
        assert(statement_views(r@)[2].sql == OPEN_NODE_RELATIONS_IN_SQL@);
    }
    r
}

/// A relation with the names of its endpoints.
#[derive(Debug, Clone)]
pub struct RelationDump {
    pub id: i64,
    pub from_entity_id: i64,
    pub to_entity_id: i64,
    pub from_name: String,
    pub to_name: String,
    pub relation_type: String,
}

/// A node that a traversal reached, at its distance from the nearest seed.
#[derive(Debug, Clone)]
pub struct MemoryTraversalNode {
    pub entity_id: i64,
    pub name: String,
    pub entity_type: String,
    pub depth: i32,
}

/// What a traversal reached.
#[derive(Debug, Clone)]
pub struct MemoryTraversal {
    pub seeds: Vec<i64>,
    pub nodes: Vec<MemoryTraversalNode>,
    pub edges: Vec<RelationDump>,
}

/// A node of the unified graph, at its distance from the seed.
#[derive(Debug, Clone)]
pub struct UnifiedNeighborNode {
    pub node_id: String,
    pub node_type: String,
    pub depth: i32,
}

pub const READ_GRAPH_ENTITIES_SQL: &'static str = "SELECT DISTINCT e.id, e.name, e.entity_type, e.canonical_name, e.importance,
                e.source::text AS source, e.created_at, e.valid_from,
                e.valid_to, e.superseded_by
         FROM memory_entities e
         LEFT JOIN memory_entity_scope es ON es.entity_id = e.id
         WHERE e.valid_to IS NULL
           AND ($1::bigint IS NULL OR es.scope_id = $1)
         ORDER BY e.importance DESC, e.id
         LIMIT $2";

pub const READ_GRAPH_OBSERVATIONS_SQL: &'static str = "SELECT id, entity_id, content, importance, source::text AS source,
                    created_at, valid_from, valid_to
             FROM memory_observations
             WHERE entity_id = ANY($1) AND valid_to IS NULL
             ORDER BY entity_id, created_at";

pub const READ_GRAPH_RELATIONS_SQL: &'static str = "SELECT r.id, r.from_entity_id, r.to_entity_id,
                    a.name AS from_name, b.name AS to_name, r.relation_type
             FROM memory_relations r
             JOIN memory_entities a ON a.id = r.from_entity_id
             JOIN memory_entities b ON b.id = r.to_entity_id
             WHERE r.valid_to IS NULL
               AND (r.from_entity_id = ANY($1) OR r.to_entity_id = ANY($1))";

/// The most important active entities of a scope, between 1 and 2000 of
/// them.
pub fn memory_read_graph(scope_id: Option<i64>, limit_entities: i32) -> (st: Statement)
    ensures
        st@ == fetches_all(
            READ_GRAPH_ENTITIES_SQL@,
            seq![
                BindView::OptBigInt(scope_id),
                BindView::Int(clamped(limit_entities as int, 1, 2000) as i32),
            ],
        ),
        opens(st@.sql, "SELECT DISTINCT"@),
        takes(st@, "es.scope_id = "@, BindView::OptBigInt(scope_id)),
        takes(st@, "LIMIT "@, BindView::Int(clamped(limit_entities as int, 1, 2000) as i32)),
        says(st@.sql, "WHERE e.valid_to IS NULL"@),
        says(st@.sql, "ORDER BY e.importance DESC, e.id"@),
        says(st@.sql, "FROM memory_entities"@),
{
    proof {
        read_graph_entities_text();
    }
    let st = Statement::all(READ_GRAPH_ENTITIES_SQL)
        .opt_int8(scope_id)
        .int4(clamp(limit_entities, 1, 2000));
    assert(st@.sql == READ_GRAPH_ENTITIES_SQL@);
    st
}

/// The observations and relations of the entities that were read, in this
/// order; no entities: nothing to send, and both lists are empty.
pub fn read_graph_details(entity_ids: &[i64]) -> (r: Vec<Statement>)
    ensures
        entity_ids.len() == 0 ==> r.len() == 0,
        entity_ids.len() > 0 ==> statement_views(r@) == seq![
            fetches_all(READ_GRAPH_OBSERVATIONS_SQL@, seq![BindView::BigIntArray(entity_ids@)]),
            fetches_all(READ_GRAPH_RELATIONS_SQL@, seq![BindView::BigIntArray(entity_ids@)]),
        ],
        entity_ids.len() > 0 ==> opens(statement_views(r@)[0].sql, "SELECT"@),
        entity_ids.len() > 0 ==> takes(
            statement_views(r@)[0],
            "entity_id = ANY("@,
            BindView::BigIntArray(entity_ids@),
        ),
        entity_ids.len() > 0 ==> says(
            statement_views(r@)[0].sql,
            "ORDER BY entity_id, created_at"@,
        ),
        entity_ids.len() > 0 ==> says(statement_views(r@)[0].sql, "FROM memory_observations"@),
        entity_ids.len() > 0 ==> opens(statement_views(r@)[1].sql, "SELECT"@),
        entity_ids.len() > 0 ==> takes(
            statement_views(r@)[1],
            "r.from_entity_id = ANY("@,
            BindView::BigIntArray(entity_ids@),
        ),
        entity_ids.len() > 0 ==> says(statement_views(r@)[1].sql, "WHERE r.valid_to IS NULL"@),
        entity_ids.len() > 0 ==> says(statement_views(r@)[1].sql, "FROM memory_relations"@),
{
    if entity_ids.len() == 0 {
        return Vec::new();
    }
    let r: Vec<Statement> = vec![
        Statement::all(READ_GRAPH_OBSERVATIONS_SQL).int8s(entity_ids),
        Statement::all(READ_GRAPH_RELATIONS_SQL).int8s(entity_ids),
    ];
    assert(statement_views(r@) =~= seq![r@[0]@, r@[1]@]);
    proof {
        read_graph_observations_text();
        read_graph_relations_text();
        assert(statement_views(r@)[0].sql == READ_GRAPH_OBSERVATIONS_SQL@);
        assert(statement_views(r@)[1].sql == READ_GRAPH_RELATIONS_SQL@);
    }
    r
}

pub const FACTS_AT_ENTITIES_SQL: &'static str = "SELECT DISTINCT e.id, e.name, e.entity_type, e.canonical_name, e.importance,
                e.source::text AS source, e.created_at, e.valid_from,
                e.valid_to, e.superseded_by
         FROM memory_entities e
         LEFT JOIN memory_entity_scope es ON es.entity_id = e.id
         LEFT JOIN memory_entity_tier  et ON et.entity_id = e.id
         WHERE e.valid_from <= $1
           AND (e.valid_to IS NULL OR e.valid_to > $1)
           AND ($2::bigint IS NULL OR es.scope_id = $2)
           AND ($3::text   IS NULL OR et.tier::text = $3)
         ORDER BY e.importance DESC, e.id
         LIMIT $4";

pub const FACTS_AT_OBSERVATIONS_SQL: &'static str = "SELECT id, entity_id, content, importance, source::text AS source,
                    created_at, valid_from, valid_to
             FROM memory_observations
             WHERE entity_id = ANY($1)
               AND valid_from <= $2
               AND (valid_to IS NULL OR valid_to > $2)
             ORDER BY entity_id, created_at";

pub const FACTS_AT_RELATIONS_SQL: &'static str = "SELECT r.id, r.from_entity_id, r.to_entity_id,
                    a.name AS from_name, b.name AS to_name, r.relation_type
             FROM memory_relations r
             JOIN memory_entities a ON a.id = r.from_entity_id
             JOIN memory_entities b ON b.id = r.to_entity_id
             WHERE r.valid_from <= $2
               AND (r.valid_to IS NULL OR r.valid_to > $2)
               AND (r.from_entity_id = ANY($1) OR r.to_entity_id = ANY($1))";

/// The most important entities of a scope and tier that were valid at a
/// moment, between 1 and 2000 of them. The caller supplies value 0, the
/// moment.
pub fn memory_facts_at(
    scope_id: Option<i64>,
    tier: Option<&str>,
    limit_entities: i32,
) -> (st: Statement)
    ensures
        st@ == fetches_all(
            FACTS_AT_ENTITIES_SQL@,
            seq![
                BindView::Supplied(0),
                BindView::OptBigInt(scope_id),
                BindView::OptText(opt_str(tier)),
                BindView::Int(clamped(limit_entities as int, 1, 2000) as i32),
            ],
        ),
        opens(st@.sql, "SELECT DISTINCT"@),
        takes(st@, "e.valid_from <= "@, BindView::Supplied(0)),
        takes(st@, "es.scope_id = "@, BindView::OptBigInt(scope_id)),
        takes(st@, "et.tier::text = "@, BindView::OptText(opt_str(tier))),
        takes(st@, "LIMIT "@, BindView::Int(clamped(limit_entities as int, 1, 2000) as i32)),
        says(st@.sql, "ORDER BY e.importance DESC, e.id"@),
        says(st@.sql, "FROM memory_entities"@),
{
    proof {
        facts_at_entities_text();
    }
    let st = Statement::all(FACTS_AT_ENTITIES_SQL)
        .supplied(0)
        .opt_int8(scope_id)
        .opt_text(tier)
        .int4(clamp(limit_entities, 1, 2000));
    assert(st@.sql == FACTS_AT_ENTITIES_SQL@);
    st
}

/// A query over the facts of some entities at the moment that the caller
/// supplies as value 0.
pub open spec fn dated_facts(sql: Seq<char>, ids: Seq<i64>) -> StatementView {
    fetches_all(sql, seq![BindView::BigIntArray(ids), BindView::Supplied(0)])
}

fn dated_facts_of(sql: &str, ids: &[i64]) -> (st: Statement)
    ensures
        st@ == dated_facts(sql@, ids@),
{
    Statement::all(sql).int8s(ids).supplied(0)
}

/// The observations and relations of the entities that were valid, in this
/// order; no entities: nothing to send, and both lists are empty. The caller
/// supplies value 0, the moment.
pub fn facts_at_details(entity_ids: &[i64]) -> (r: Vec<Statement>)
    ensures
        entity_ids.len() == 0 ==> r.len() == 0,
        entity_ids.len() > 0 ==> statement_views(r@) == seq![
            dated_facts(FACTS_AT_OBSERVATIONS_SQL@, entity_ids@),
            dated_facts(FACTS_AT_RELATIONS_SQL@, entity_ids@),
        ],
        entity_ids.len() > 0 ==> r.len() == 2 && takes(
            r@[0]@,
            "entity_id = ANY("@,
            BindView::BigIntArray(entity_ids@),
        ) && says(r@[0]@.sql, "FROM memory_observations"@) && takes(
            r@[1]@,
            "r.from_entity_id = ANY("@,
            BindView::BigIntArray(entity_ids@),
        ) && says(r@[1]@.sql, "FROM memory_relations"@),
{
    if entity_ids.len() == 0 {
        return Vec::new();
    }
    let r: Vec<Statement> = vec![
        dated_facts_of(FACTS_AT_OBSERVATIONS_SQL, entity_ids),
        dated_facts_of(FACTS_AT_RELATIONS_SQL, entity_ids),
    ];
    proof {
        law_dated_observations_are_of_the_moment(entity_ids@);
        law_dated_relations_are_of_the_moment(entity_ids@);
    }
    assert(statement_views(r@) =~= seq![r@[0]@, r@[1]@]);
    r
}

pub const MEMORY_SEMANTIC_SEARCH_SQL: &'static str = "SELECT o.id AS observation_id,
                e.id AS entity_id,
                e.name AS entity_name,
                e.entity_type,
                o.content,
                o.importance,
                1 - (o.embedding <=> $1) AS similarity,
                o.created_at
         FROM memory_observations o
         JOIN memory_entities e ON e.id = o.entity_id AND e.valid_to IS NULL
         WHERE o.embedding IS NOT NULL
           AND o.valid_to IS NULL
           AND ($2::bigint IS NULL OR EXISTS (
                 SELECT 1 FROM memory_entity_scope es
                 WHERE es.entity_id = e.id AND es.scope_id = $2))
           AND ($3::text   IS NULL OR EXISTS (
                 SELECT 1 FROM memory_entity_tier et
                 WHERE et.entity_id = e.id AND et.tier::text = $3))
         ORDER BY o.embedding <=> $1
         LIMIT $4";

/// Observations by similarity to a query, between 1 and 200 of them. The caller
/// supplies value 0, the embedding, of dimension `dim`.
pub fn memory_semantic_search(
    dim: usize,
    scope_id: Option<i64>,
    tier: Option<&str>,
    limit: i32,
    ef_search: i32,
) -> (r: Result<TunedQuery, ProtocolError>)
    ensures
        r is Ok <==> dim == EMBEDDING_DIM,
        r matches Err(e) ==> e@ == dimension_refusal(
            "memory_semantic_search: expected 1024d embedding, got "@,
            dim,
        ),
        r matches Ok(q) ==> q@ == tuned(
            ef_search,
            fetches_all(
                MEMORY_SEMANTIC_SEARCH_SQL@,
                seq![
                    BindView::Supplied(0),
                    BindView::OptBigInt(scope_id),
                    BindView::OptText(opt_str(tier)),
                    BindView::Int(clamped(limit as int, 1, 200) as i32),
                ],
            ),
        ),
        r matches Ok(q) ==> opens(q@.query.sql, "SELECT"@),
        r matches Ok(q) ==> takes(q@.query, "o.embedding <=> "@, BindView::Supplied(0)),
        r matches Ok(q) ==> takes(q@.query, "es.scope_id = "@, BindView::OptBigInt(scope_id)),
        r matches Ok(q) ==> takes(q@.query, "et.tier::text = "@, BindView::OptText(opt_str(tier))),
        r matches Ok(q) ==> takes(
            q@.query,
            "LIMIT "@,
            BindView::Int(clamped(limit as int, 1, 200) as i32),
        ),
        r matches Ok(q) ==> says(q@.query.sql, "WHERE o.embedding IS NOT NULL"@),
        r matches Ok(q) ==> says(q@.query.sql, "AND o.valid_to IS NULL"@),
        r matches Ok(q) ==> says(q@.query.sql, "FROM memory_observations"@),
{
    proof {
        memory_semantic_search_text();
    }
    match require_dimension(dim, "memory_semantic_search: expected 1024d embedding, got ") {
        Ok(_) => {},
        Err(e) => return Err(e),
    }
    let query = Statement::all(MEMORY_SEMANTIC_SEARCH_SQL)
        .supplied(0)
        .opt_int8(scope_id)
        .opt_text(tier)
        .int4(clamp(limit, 1, 200));
    assert(query@.sql == MEMORY_SEMANTIC_SEARCH_SQL@);
    assert(query@ =~= fetches_all(
        MEMORY_SEMANTIC_SEARCH_SQL@,
        seq![
            BindView::Supplied(0),
            BindView::OptBigInt(scope_id),
            BindView::OptText(opt_str(tier)),
            BindView::Int(clamped(limit as int, 1, 200) as i32),
        ],
    ));
    Ok(tune(ef_search, query))
}

/// How many candidates each leg of a hybrid search contributes for `k`
/// results.
pub open spec fn hybrid_pool(k: int) -> int {
    clamped(k * 3, 20, 300)
}

pub const MEMORY_HYBRID_SEARCH_SQL: &'static str = "WITH dense AS (
            SELECT o.id, o.entity_id, o.content, o.importance, o.created_at,
                   1 - (o.embedding <=> $1) AS sim,
                   ROW_NUMBER() OVER (ORDER BY o.embedding <=> $1) AS rnk
            FROM memory_observations o
            JOIN memory_entities e ON e.id = o.entity_id AND e.valid_to IS NULL
            WHERE o.embedding IS NOT NULL AND o.valid_to IS NULL
              AND ($3::bigint IS NULL OR EXISTS (
                    SELECT 1 FROM memory_entity_scope es
                    WHERE es.entity_id = e.id AND es.scope_id = $3))
              AND ($4::text   IS NULL OR EXISTS (
                    SELECT 1 FROM memory_entity_tier et
                    WHERE et.entity_id = e.id AND et.tier::text = $4))
            ORDER BY o.embedding <=> $1
            LIMIT $5
         ),
         sparse AS (
            SELECT o.id, o.entity_id, o.content, o.importance, o.created_at,
                   NULL::float8 AS sim,
                   ROW_NUMBER() OVER (
                       ORDER BY ts_rank_cd(
                          to_tsvector('english', o.content),
                          plainto_tsquery('english', $2)
                       ) DESC
                   ) AS rnk
            FROM memory_observations o
            JOIN memory_entities e ON e.id = o.entity_id AND e.valid_to IS NULL
            WHERE o.valid_to IS NULL
              AND ($3::bigint IS NULL OR EXISTS (
                    SELECT 1 FROM memory_entity_scope es
                    WHERE es.entity_id = e.id AND es.scope_id = $3))
              AND ($4::text   IS NULL OR EXISTS (
                    SELECT 1 FROM memory_entity_tier et
                    WHERE et.entity_id = e.id AND et.tier::text = $4))
              AND to_tsvector('english', o.content) @@ plainto_tsquery('english', $2)
            ORDER BY rnk
            LIMIT $5
         ),
         fused AS (
            SELECT id, entity_id, content, importance, created_at, MAX(sim) AS sim,
                   SUM(1.0 / (60.0 + rnk)) AS rrf
            FROM (
                 SELECT * FROM dense
                 UNION ALL
                 SELECT * FROM sparse
            ) u
            GROUP BY id, entity_id, content, importance, created_at
         )
         SELECT f.id AS observation_id,
                e.id AS entity_id,
                e.name AS entity_name,
                e.entity_type,
                f.content,
                f.importance,
                f.sim AS similarity,
                f.created_at
         FROM fused f
         JOIN memory_entities e ON e.id = f.entity_id
         ORDER BY rrf DESC
         LIMIT $6";

/// Observations by a fusion of similarity and full text, between 1 and 200 of
/// them, each once: what an observation scores in either leg is added up. The caller supplies value 0, the embedding, of dimension `dim`.
pub fn memory_hybrid_search(
    dim: usize,
    query_text: &str,
    scope_id: Option<i64>,
    tier: Option<&str>,
    limit: i32,
    ef_search: i32,
) -> (r: Result<TunedQuery, ProtocolError>)
    ensures
        r is Ok <==> dim == EMBEDDING_DIM,
        r matches Err(e) ==> e@ == dimension_refusal(
            "memory_hybrid_search: expected 1024d embedding, got "@,
            dim,
        ),
        r matches Ok(q) ==> q@ == tuned(
            ef_search,
            fetches_all(
                MEMORY_HYBRID_SEARCH_SQL@,
                seq![
                    BindView::Supplied(0),
                    BindView::Text(query_text@),
                    BindView::OptBigInt(scope_id),
                    BindView::OptText(opt_str(tier)),
                    BindView::Int(hybrid_pool(clamped(limit as int, 1, 200)) as i32),
                    BindView::Int(clamped(limit as int, 1, 200) as i32),
                ],
            ),
        ),
        r matches Ok(q) ==> opens(q@.query.sql, "WITH"@),
        r matches Ok(q) ==> takes(q@.query, "o.embedding <=> "@, BindView::Supplied(0)),
        r matches Ok(q) ==> takes(
            q@.query,
            "plainto_tsquery('english', "@,
            BindView::Text(query_text@),
        ),
        r matches Ok(q) ==> takes(q@.query, "es.scope_id = "@, BindView::OptBigInt(scope_id)),
        r matches Ok(q) ==> takes(q@.query, "et.tier::text = "@, BindView::OptText(opt_str(tier))),
        r matches Ok(q) ==> takes(
            q@.query,
            "LIMIT "@,
            BindView::Int(hybrid_pool(clamped(limit as int, 1, 200)) as i32),
        ),
        r matches Ok(q) ==> takes(
            q@.query,
            "LIMIT "@,
            BindView::Int(clamped(limit as int, 1, 200) as i32),
        ),
        r matches Ok(q) ==> says(
            q@.query.sql,
            "WHERE o.embedding IS NOT NULL AND o.valid_to IS NULL"@,
        ),
        r matches Ok(q) ==> says(q@.query.sql, "WHERE o.valid_to IS NULL"@),
        r matches Ok(q) ==> says(q@.query.sql, "ORDER BY ts_rank_cd("@),
        r matches Ok(q) ==> says(q@.query.sql, "ORDER BY rnk"@),
        r matches Ok(q) ==> says(
            q@.query.sql,
            "GROUP BY id, entity_id, content, importance, created_at"@,
        ),
        r matches Ok(q) ==> says(q@.query.sql, "ORDER BY rrf DESC"@),
        r matches Ok(q) ==> says(q@.query.sql, "FROM memory_observations"@),
{
    proof {
        memory_hybrid_search_text();
    }
    match require_dimension(dim, "memory_hybrid_search: expected 1024d embedding, got ") {
        Ok(_) => {},
        Err(e) => return Err(e),
    }
    let k: i32 = clamp(limit, 1, 200);
    let query = Statement::all(MEMORY_HYBRID_SEARCH_SQL)
        .supplied(0)
        .text(query_text)
        .opt_int8(scope_id)
        .opt_text(tier)
        .int4(clamp(k * 3, 20, 300))
        .int4(k);
    assert(query@.sql == MEMORY_HYBRID_SEARCH_SQL@);
    assert(query@ =~= fetches_all(
        MEMORY_HYBRID_SEARCH_SQL@,
        seq![
            BindView::Supplied(0),
            BindView::Text(query_text@),
            BindView::OptBigInt(scope_id),
            BindView::OptText(opt_str(tier)),
            BindView::Int(hybrid_pool(clamped(limit as int, 1, 200)) as i32),
            BindView::Int(clamped(limit as int, 1, 200) as i32),
        ],
    ));
    Ok(tune(ef_search, query))
}

pub const MEMORY_UNIFIED_SEARCH_SQL: &'static str = "SELECT node_id, node_type, label, importance,
                1 - (embedding <=> $1) AS similarity
         FROM memory_unified_nodes
         WHERE embedding IS NOT NULL
           AND ($2::text[] IS NULL OR node_type = ANY($2))
         ORDER BY embedding <=> $1
         LIMIT $3";

/// Nodes of the unified graph by similarity to a query, between 1 and 200 of
/// them, optionally of some types. The caller supplies value 0, the embedding,
/// of dimension `dim`.
pub fn memory_unified_search(
    dim: usize,
    node_types: Option<&[String]>,
    limit: i32,
    ef_search: i32,
) -> (r: Result<TunedQuery, ProtocolError>)
    ensures
        r is Ok <==> dim == EMBEDDING_DIM,
        r matches Err(e) ==> e@ == dimension_refusal(
            "memory_unified_search: expected 1024d embedding, got "@,
            dim,
        ),
        r matches Ok(q) ==> q@ == tuned(
            ef_search,
            fetches_all(
                MEMORY_UNIFIED_SEARCH_SQL@,
                seq![
                    BindView::Supplied(0),
                    BindView::MaybeTextArray(opt_list(node_types)),
                    BindView::Int(clamped(limit as int, 1, 200) as i32),
                ],
            ),
        ),
        r matches Ok(q) ==> opens(q@.query.sql, "SELECT"@),
        r matches Ok(q) ==> takes(q@.query, "embedding <=> "@, BindView::Supplied(0)),
        r matches Ok(q) ==> takes(
            q@.query,
            "node_type = ANY("@,
            BindView::MaybeTextArray(opt_list(node_types)),
        ),
        r matches Ok(q) ==> takes(
            q@.query,
            "LIMIT "@,
            BindView::Int(clamped(limit as int, 1, 200) as i32),
        ),
        r matches Ok(q) ==> says(q@.query.sql, "WHERE embedding IS NOT NULL"@),
        r matches Ok(q) ==> says(q@.query.sql, "FROM memory_unified_nodes"@),
{
    proof {
        memory_unified_search_text();
    }
    match require_dimension(dim, "memory_unified_search: expected 1024d embedding, got ") {
        Ok(_) => {},
        Err(e) => return Err(e),
    }
    let query = Statement::all(MEMORY_UNIFIED_SEARCH_SQL)
        .supplied(0)
        .maybe_texts(node_types)
        .int4(clamp(limit, 1, 200));
    assert(query@.sql == MEMORY_UNIFIED_SEARCH_SQL@);
    assert(query@ =~= fetches_all(
        MEMORY_UNIFIED_SEARCH_SQL@,
        seq![
            BindView::Supplied(0),
            BindView::MaybeTextArray(opt_list(node_types)),
            BindView::Int(clamped(limit as int, 1, 200) as i32),
        ],
    ));
    Ok(tune(ef_search, query))
}

pub const MEMORY_RAPTOR_SEARCH_SQL: &'static str = "SELECT node_id, level, label, similarity
         FROM (SELECT id AS node_id, level,
                      COALESCE(summary_text, '<leaf>') AS label,
                      1 - (summary_embedding <=> $1) AS similarity,
                      ROW_NUMBER() OVER (PARTITION BY level
                                         ORDER BY summary_embedding <=> $1) AS rnk
                 FROM memory_summary_tree
                WHERE summary_embedding IS NOT NULL
                  AND ($2::bigint IS NULL OR scope_id = $2)
                  AND ($3::int[] IS NULL OR level = ANY($3))) ranked
         WHERE rnk <= $4
         ORDER BY similarity DESC";

/// Summary nodes by similarity to a query, between 1 and 200 of them at each
/// level, optionally at some levels only. The caller supplies value 0, the embedding, of
/// dimension `dim`.
pub fn memory_raptor_search(
    dim: usize,
    scope_id: Option<i64>,
    levels: Option<&[i32]>,
    k: i32,
    ef_search: i32,
) -> (r: Result<TunedQuery, ProtocolError>)
    ensures
        r is Ok <==> dim == EMBEDDING_DIM,
        r matches Err(e) ==> e@ == dimension_refusal(
            "memory_raptor_search: expected 1024d embedding, got "@,
            dim,
        ),
        r matches Ok(q) ==> q@ == tuned(
            ef_search,
            fetches_all(
                MEMORY_RAPTOR_SEARCH_SQL@,
                seq![
                    BindView::Supplied(0),
                    BindView::OptBigInt(scope_id),
                    BindView::MaybeIntArray(opt_numbers(levels)),
                    BindView::Int(clamped(k as int, 1, 200) as i32),
                ],
            ),
        ),
        r matches Ok(q) ==> opens(q@.query.sql, "SELECT"@),
        r matches Ok(q) ==> takes(q@.query, "summary_embedding <=> "@, BindView::Supplied(0)),
        r matches Ok(q) ==> takes(q@.query, "scope_id = "@, BindView::OptBigInt(scope_id)),
        r matches Ok(q) ==> takes(
            q@.query,
            "level = ANY("@,
            BindView::MaybeIntArray(opt_numbers(levels)),
        ),
        r matches Ok(q) ==> takes(
            q@.query,
            "rnk <= "@,
            BindView::Int(clamped(k as int, 1, 200) as i32),
        ),
        r matches Ok(q) ==> says(q@.query.sql, "WHERE summary_embedding IS NOT NULL"@),
        r matches Ok(q) ==> says(q@.query.sql, "ORDER BY similarity DESC"@),
        r matches Ok(q) ==> says(q@.query.sql, "FROM memory_summary_tree"@),
{
    proof {
        memory_raptor_search_text();
    }
    match require_dimension(dim, "memory_raptor_search: expected 1024d embedding, got ") {
        Ok(_) => {},
        Err(e) => return Err(e),
    }
    let query = Statement::all(MEMORY_RAPTOR_SEARCH_SQL)
        .supplied(0)
        .opt_int8(scope_id)
        .maybe_ints(levels)
        .int4(clamp(k, 1, 200));
    assert(query@.sql == MEMORY_RAPTOR_SEARCH_SQL@);
    assert(query@ =~= fetches_all(
        MEMORY_RAPTOR_SEARCH_SQL@,
        seq![
            BindView::Supplied(0),
            BindView::OptBigInt(scope_id),
            BindView::MaybeIntArray(opt_numbers(levels)),
            BindView::Int(clamped(k as int, 1, 200) as i32),
        ],
    ));
    Ok(tune(ef_search, query))
}

pub const TRAVERSE_NODES_SQL: &'static str = "WITH RECURSIVE frontier(entity_id, name, entity_type, depth) AS (
             SELECT e.id, e.name, e.entity_type, 0::int
             FROM memory_entities e
             WHERE e.id = ANY($1) AND e.valid_to IS NULL
             UNION
             SELECT e2.id, e2.name, e2.entity_type, f.depth + 1
             FROM frontier f
             JOIN memory_relations r
                  ON  (r.from_entity_id = f.entity_id OR r.to_entity_id = f.entity_id)
                  AND r.valid_to IS NULL
                  AND ($2::text IS NULL OR r.relation_type = $2)
             JOIN memory_entities e2
                  ON e2.id = CASE WHEN r.from_entity_id = f.entity_id
                                  THEN r.to_entity_id
                                  ELSE r.from_entity_id
                              END
                  AND e2.valid_to IS NULL
             WHERE f.depth < $3
         )
         SELECT entity_id, name, entity_type, MIN(depth)::int AS depth
         FROM frontier
         GROUP BY entity_id, name, entity_type
         ORDER BY MIN(depth), entity_id
         LIMIT $4";

pub const TRAVERSE_EDGES_SQL: &'static str = "SELECT r.id, r.from_entity_id, r.to_entity_id,
                    a.name AS from_name, b.name AS to_name, r.relation_type
             FROM memory_relations r
             JOIN memory_entities a ON a.id = r.from_entity_id
             JOIN memory_entities b ON b.id = r.to_entity_id
             WHERE r.valid_to IS NULL
               AND r.from_entity_id = ANY($1)
               AND r.to_entity_id = ANY($1)
               AND ($2::text IS NULL OR r.relation_type = $2)";

/// The entities within `max_depth` relations of some seeds; depth between 1
/// and 6, nodes between 1 and 1000. No seeds: nothing to send, and the
/// traversal is empty.
pub fn memory_relations_traverse(
    seed_ids: &[i64],
    max_depth: i32,
    relation_filter: Option<&str>,
    max_nodes: i32,
) -> (r: Option<Statement>)
    ensures
        r is None <==> seed_ids.len() == 0,
        r matches Some(st) ==> st@ == fetches_all(
            TRAVERSE_NODES_SQL@,
            seq![
                BindView::BigIntArray(seed_ids@),
                BindView::OptText(opt_str(relation_filter)),
                BindView::Int(clamped(max_depth as int, 1, 6) as i32),
                BindView::Int(clamped(max_nodes as int, 1, 1000) as i32),
            ],
        ),
        r matches Some(st) ==> opens(st@.sql, "WITH RECURSIVE"@),
        r matches Some(st) ==> takes(st@, "e.id = ANY("@, BindView::BigIntArray(seed_ids@)),
        r matches Some(st) ==> takes(
            st@,
            "r.relation_type = "@,
            BindView::OptText(opt_str(relation_filter)),
        ),
        r matches Some(st) ==> takes(
            st@,
            "f.depth < "@,
            BindView::Int(clamped(max_depth as int, 1, 6) as i32),
        ),
        r matches Some(st) ==> takes(
            st@,
            "LIMIT "@,
            BindView::Int(clamped(max_nodes as int, 1, 1000) as i32),
        ),
        r matches Some(st) ==> says(st@.sql, "AND r.valid_to IS NULL"@),
        r matches Some(st) ==> says(st@.sql, "AND e2.valid_to IS NULL"@),
        r matches Some(st) ==> says(st@.sql, "GROUP BY entity_id, name, entity_type"@),
        r matches Some(st) ==> says(st@.sql, "ORDER BY MIN(depth), entity_id"@),
        r matches Some(st) ==> says(st@.sql, "FROM memory_entities"@),
{
    proof {
        traverse_nodes_text();
    }
    if seed_ids.len() == 0 {
        return None;
    }
    let st = Statement::all(TRAVERSE_NODES_SQL)
            .int8s(seed_ids)
            .opt_text(relation_filter)
            .int4(clamp(max_depth, 1, 6))
            .int4(clamp(max_nodes, 1, 1000));
    assert(st@.sql == TRAVERSE_NODES_SQL@);
    Some(st)
}

/// The relations among the entities that were reached; none reached: nothing
/// to send, and there is no edge.
pub fn traversal_edges(node_ids: &[i64], relation_filter: Option<&str>) -> (r: Option<Statement>)
    ensures
        r is None <==> node_ids.len() == 0,
        r matches Some(st) ==> st@ == fetches_all(
            TRAVERSE_EDGES_SQL@,
            seq![BindView::BigIntArray(node_ids@), BindView::OptText(opt_str(relation_filter))],
        ),
        r matches Some(st) ==> opens(st@.sql, "SELECT"@),
        r matches Some(st) ==> takes(
            st@,
            "r.from_entity_id = ANY("@,
            BindView::BigIntArray(node_ids@),
        ),
        r matches Some(st) ==> takes(
            st@,
            "r.relation_type = "@,
            BindView::OptText(opt_str(relation_filter)),
        ),
        r matches Some(st) ==> says(st@.sql, "WHERE r.valid_to IS NULL"@),
        r matches Some(st) ==> says(st@.sql, "FROM memory_relations"@),
{
    proof {
        traverse_edges_text();
    }
    if node_ids.len() == 0 {
        return None;
    }
    let st = Statement::all(TRAVERSE_EDGES_SQL).int8s(node_ids).opt_text(relation_filter);
    assert(st@.sql == TRAVERSE_EDGES_SQL@);
    Some(st)
}

/// The ids of the entities that a traversal reached.
pub fn traversal_node_ids(nodes: &[MemoryTraversalNode]) -> (r: Vec<i64>)
    ensures
        r@ == nodes@.map_values(|n: MemoryTraversalNode| n.entity_id),
{
    let mut out: Vec<i64> = Vec::new();
    let mut i: usize = 0;
    while i < nodes.len()
        invariant
            i <= nodes.len(),
            out.len() == i,
            forall|j: int| 0 <= j < i ==> out@[j] == nodes@[j].entity_id,
        decreases nodes.len() - i,
    {
        out.push(nodes[i].entity_id);
        i = i + 1;
    }
    assert(out@ =~= nodes@.map_values(|n: MemoryTraversalNode| n.entity_id));
    out
}

pub const NEIGHBOR_NODES_SQL: &'static str = "WITH RECURSIVE frontier(node_id, node_type, depth) AS (
             SELECT node_id, node_type, 0::int
             FROM memory_unified_nodes
             WHERE node_id = $1
             UNION
             SELECT CASE WHEN e.from_id = f.node_id THEN e.to_id ELSE e.from_id END,
                    CASE WHEN e.from_id = f.node_id THEN e.to_type ELSE e.from_type END,
                    f.depth + 1
             FROM frontier f
             JOIN memory_unified_edges e
                  ON  (e.from_id = f.node_id OR e.to_id = f.node_id)
                  AND ($2::text IS NULL OR e.edge_type = $2)
             WHERE f.depth < $3
         )
         SELECT node_id, node_type, MIN(depth)::int AS depth
         FROM frontier
         GROUP BY node_id, node_type
         ORDER BY MIN(depth), node_id
         LIMIT $4";

pub const NEIGHBOR_EDGES_SQL: &'static str = "SELECT from_id, from_type, to_id, to_type, edge_type, weight
             FROM memory_unified_edges
             WHERE from_id = ANY($1) AND to_id = ANY($1)
               AND ($2::text IS NULL OR edge_type = $2)";

/// The nodes of the unified graph within `depth` edges of a node; depth
/// between 1 and 4, nodes between 1 and 500.
pub fn memory_neighbors(
    node_id: &str,
    depth: i32,
    edge_filter: Option<&str>,
    max_nodes: i32,
) -> (st: Statement)
    ensures
        st@ == fetches_all(
            NEIGHBOR_NODES_SQL@,
            seq![
                BindView::Text(node_id@),
                BindView::OptText(opt_str(edge_filter)),
                BindView::Int(clamped(depth as int, 1, 4) as i32),
                BindView::Int(clamped(max_nodes as int, 1, 500) as i32),
            ],
        ),
        opens(st@.sql, "WITH RECURSIVE"@),
        takes(st@, "node_id = "@, BindView::Text(node_id@)),
        takes(st@, "e.edge_type = "@, BindView::OptText(opt_str(edge_filter))),
        takes(st@, "f.depth < "@, BindView::Int(clamped(depth as int, 1, 4) as i32)),
        takes(st@, "LIMIT "@, BindView::Int(clamped(max_nodes as int, 1, 500) as i32)),
        says(st@.sql, "GROUP BY node_id, node_type"@),
        says(st@.sql, "ORDER BY MIN(depth), node_id"@),
        says(st@.sql, "FROM memory_unified_nodes"@),
{
    proof {
        neighbor_nodes_text();
    }
    let st = Statement::all(NEIGHBOR_NODES_SQL)
        .text(node_id)
        .opt_text(edge_filter)
        .int4(clamp(depth, 1, 4))
        .int4(clamp(max_nodes, 1, 500));
    assert(st@.sql == NEIGHBOR_NODES_SQL@);
    st
}

/// The edges among the nodes that were reached; none reached: nothing to
/// send, and there is no edge.
pub fn neighbor_edges(node_ids: &[String], edge_filter: Option<&str>) -> (r: Option<Statement>)
    ensures
        r is None <==> node_ids.len() == 0,
        r matches Some(st) ==> st@ == fetches_all(
            NEIGHBOR_EDGES_SQL@,
            seq![BindView::TextArray(texts(node_ids@)), BindView::OptText(opt_str(edge_filter))],
        ),
        r matches Some(st) ==> opens(st@.sql, "SELECT"@),
        r matches Some(st) ==> takes(st@, "from_id = ANY("@, BindView::TextArray(texts(node_ids@))),
        r matches Some(st) ==> takes(st@, "edge_type = "@, BindView::OptText(opt_str(edge_filter))),
        r matches Some(st) ==> says(st@.sql, "FROM memory_unified_edges"@),
{
    proof {
        neighbor_edges_text();
    }
    if node_ids.len() == 0 {
        return None;
    }
    let st = Statement::all(NEIGHBOR_EDGES_SQL).texts(node_ids).opt_text(edge_filter);
    assert(st@.sql == NEIGHBOR_EDGES_SQL@);
    Some(st)
}

pub const MEMORY_ANCHOR_ENTITY_SQL: &'static str = "INSERT INTO memory_code_anchor
            (entity_id, file_id, chunk_id, topic_id, symbol_id, project_id, anchor_type)
         VALUES ($1, $2, $3, $4, $5, $6, $7)
         RETURNING id";

pub const ANCHOR_NEEDS_TARGET: &'static str = "memory_anchor_entity: at least one of file_id/chunk_id/topic_id/symbol_id/project_id \
             is required";

/// Anchors an entity to code: a file, a chunk, a topic, a symbol or a
/// project. Without any target the request is refused.
pub fn memory_anchor_entity(
    entity_id: i64,
    file_id: Option<i64>,
    chunk_id: Option<i64>,
    topic_id: Option<i64>,
    symbol_id: Option<i64>,
    project_id: Option<i32>,
    anchor_type: &str,
) -> (r: Result<Statement, ProtocolError>)
    ensures
        r is Err <==> file_id is None && chunk_id is None && topic_id is None && symbol_id is None
            && project_id is None,
        r matches Err(e) ==> e@ == ANCHOR_NEEDS_TARGET@,
        r matches Ok(st) ==> st@ == fetches_one(
            MEMORY_ANCHOR_ENTITY_SQL@,
            seq![
                BindView::BigInt(entity_id),
                BindView::OptBigInt(file_id),
                BindView::OptBigInt(chunk_id),
                BindView::OptBigInt(topic_id),
                BindView::OptBigInt(symbol_id),
                BindView::OptInt(project_id),
                BindView::Text(anchor_type@),
            ],
        ),
        r matches Ok(st) ==> opens(st@.sql, "INSERT INTO memory_code_anchor"@),
        r matches Ok(st) ==> fills(
            st@,
            "INSERT INTO memory_code_anchor"@,
            "entity_id"@,
            "VALUES ("@,
            BindView::BigInt(entity_id),
        ),
        r matches Ok(st) ==> fills(
            st@,
            "INSERT INTO memory_code_anchor"@,
            "file_id"@,
            "VALUES ("@,
            BindView::OptBigInt(file_id),
        ),
        r matches Ok(st) ==> fills(
            st@,
            "INSERT INTO memory_code_anchor"@,
            "chunk_id"@,
            "VALUES ("@,
            BindView::OptBigInt(chunk_id),
        ),
        r matches Ok(st) ==> fills(
            st@,
            "INSERT INTO memory_code_anchor"@,
            "topic_id"@,
            "VALUES ("@,
            BindView::OptBigInt(topic_id),
        ),
        r matches Ok(st) ==> fills(
            st@,
            "INSERT INTO memory_code_anchor"@,
            "symbol_id"@,
            "VALUES ("@,
            BindView::OptBigInt(symbol_id),
        ),
        r matches Ok(st) ==> fills(
            st@,
            "INSERT INTO memory_code_anchor"@,
            "project_id"@,
            "VALUES ("@,
            BindView::OptInt(project_id),
        ),
        r matches Ok(st) ==> fills(
            st@,
            "INSERT INTO memory_code_anchor"@,
            "anchor_type"@,
            "VALUES ("@,
            BindView::Text(anchor_type@),
        ),
{
    proof {
        memory_anchor_entity_text();
    }
    if file_id.is_none() && chunk_id.is_none() && topic_id.is_none() && symbol_id.is_none()
        && project_id.is_none() {
        return Err(ProtocolError { message: String::from_str(ANCHOR_NEEDS_TARGET) });
    }
    let st = Statement::one(MEMORY_ANCHOR_ENTITY_SQL)
            .int8(entity_id)
            .opt_int8(file_id)
            .opt_int8(chunk_id)
            .opt_int8(topic_id)
            .opt_int8(symbol_id)
            .opt_int4(project_id)
            .text(anchor_type);
    assert(st@.sql == MEMORY_ANCHOR_ENTITY_SQL@);
    Ok(st)
}

pub const MEMORY_UNANCHOR_ENTITY_SQL: &'static str = "DELETE FROM memory_code_anchor WHERE id = $1";

/// Removes a code anchor.
pub fn memory_unanchor_entity(anchor_id: i64) -> (st: Statement)
    ensures
        st@ == executes(MEMORY_UNANCHOR_ENTITY_SQL@, seq![BindView::BigInt(anchor_id)]),
        opens(st@.sql, "DELETE FROM memory_code_anchor"@),
        takes(st@, "memory_code_anchor WHERE id = "@, BindView::BigInt(anchor_id)),
{
    proof {
        memory_unanchor_entity_text();
    }
    let st = Statement::execute(MEMORY_UNANCHOR_ENTITY_SQL).int8(anchor_id);
    assert(st@.sql == MEMORY_UNANCHOR_ENTITY_SQL@);
    st
}

pub const MEMORY_FIND_CODE_FOR_ENTITY_SQL: &'static str = "SELECT id, entity_id, file_id, chunk_id, topic_id, symbol_id, project_id, anchor_type, created_at
         FROM memory_code_anchor
         WHERE entity_id = $1
           AND ($2::text IS NULL OR anchor_type = $2)
         ORDER BY created_at DESC";

/// The code anchors of an entity, newest first, optionally of one type.
pub fn memory_find_code_for_entity(entity_id: i64, anchor_type: Option<&str>) -> (st: Statement)
    ensures
        st@ == fetches_all(
            MEMORY_FIND_CODE_FOR_ENTITY_SQL@,
            seq![
                BindView::BigInt(entity_id),
                BindView::OptText(opt_str(anchor_type)),
            ],
        ),
        opens(st@.sql, "SELECT"@),
        takes(st@, "entity_id = "@, BindView::BigInt(entity_id)),
        takes(st@, "anchor_type = "@, BindView::OptText(opt_str(anchor_type))),
        says(st@.sql, "ORDER BY created_at DESC"@),
        says(st@.sql, "FROM memory_code_anchor"@),
{
    proof {
        memory_find_code_for_entity_text();
    }
    let st = Statement::all(MEMORY_FIND_CODE_FOR_ENTITY_SQL).int8(entity_id).opt_text(anchor_type);
    assert(st@.sql == MEMORY_FIND_CODE_FOR_ENTITY_SQL@);
    st
}

pub const MEMORY_FIND_ENTITIES_FOR_CODE_SQL: &'static str = "SELECT id, entity_id, file_id, chunk_id, topic_id, symbol_id, project_id, anchor_type, created_at
         FROM memory_code_anchor
         WHERE ($1::bigint IS NOT NULL AND file_id  = $1)
            OR ($2::bigint IS NOT NULL AND chunk_id = $2)
            OR ($3::bigint IS NOT NULL AND topic_id = $3)
            OR ($4::bigint IS NOT NULL AND symbol_id = $4)
            OR ($5::int    IS NOT NULL AND project_id = $5)
         ORDER BY created_at DESC";

pub const FIND_NEEDS_ONE_TARGET: &'static str = "memory_find_entities_for_code: pass exactly one of file_id, chunk_id, topic_id, \
             symbol_id, project_id";

/// One for a value that is present, zero for one that is not.
pub open spec fn present(b: bool) -> int {
    if b {
        1
    } else {
        0
    }
}

/// The anchors of one code object: exactly one of the five must be given.
pub fn memory_find_entities_for_code(
    file_id: Option<i64>,
    chunk_id: Option<i64>,
    topic_id: Option<i64>,
    symbol_id: Option<i64>,
    project_id: Option<i32>,
) -> (r: Result<Statement, ProtocolError>)
    ensures
        r is Ok <==> present(file_id is Some) + present(chunk_id is Some) + present(
            topic_id is Some,
        ) + present(symbol_id is Some) + present(project_id is Some) == 1,
        r matches Err(e) ==> e@ == FIND_NEEDS_ONE_TARGET@,
        r matches Ok(st) ==> st@ == fetches_all(
            MEMORY_FIND_ENTITIES_FOR_CODE_SQL@,
            seq![
                BindView::OptBigInt(file_id),
                BindView::OptBigInt(chunk_id),
                BindView::OptBigInt(topic_id),
                BindView::OptBigInt(symbol_id),
                BindView::OptInt(project_id),
            ],
        ),
        r matches Ok(st) ==> opens(st@.sql, "SELECT"@),
        r matches Ok(st) ==> takes(st@, "WHERE ("@, BindView::OptBigInt(file_id)),
        r matches Ok(st) ==> takes(st@, "chunk_id = "@, BindView::OptBigInt(chunk_id)),
        r matches Ok(st) ==> takes(st@, "topic_id = "@, BindView::OptBigInt(topic_id)),
        r matches Ok(st) ==> takes(st@, "symbol_id = "@, BindView::OptBigInt(symbol_id)),
        r matches Ok(st) ==> takes(st@, "project_id = "@, BindView::OptInt(project_id)),
        r matches Ok(st) ==> says(st@.sql, "ORDER BY created_at DESC"@),
        r matches Ok(st) ==> says(st@.sql, "FROM memory_code_anchor"@),
{
    proof {
        memory_find_entities_for_code_text();
    }
    let mut provided: u8 = 0;
    if file_id.is_some() {
        provided = provided + 1;
    }
    if chunk_id.is_some() {
        provided = provided + 1;
    }
    if topic_id.is_some() {
        provided = provided + 1;
    }
    if symbol_id.is_some() {
        provided = provided + 1;
    }
    if project_id.is_some() {
        provided = provided + 1;
    }
    if provided != 1 {
        return Err(ProtocolError { message: String::from_str(FIND_NEEDS_ONE_TARGET) });
    }
    let st = Statement::all(MEMORY_FIND_ENTITIES_FOR_CODE_SQL)
            .opt_int8(file_id)
            .opt_int8(chunk_id)
            .opt_int8(topic_id)
            .opt_int8(symbol_id)
            .opt_int4(project_id);
    assert(st@.sql == MEMORY_FIND_ENTITIES_FOR_CODE_SQL@);
    Ok(st)
}

pub const REFRESH_TIMEOUT_SQL: &'static str = "SET LOCAL statement_timeout = '600s'";

/// Refreshing a materialized view without blocking its readers: a longer
/// timeout and a recognisable name for the transaction, then the refresh.
pub open spec fn refreshes(view: Seq<char>, job_tag: Seq<char>) -> Seq<StatementView> {
    seq![
        executes(REFRESH_TIMEOUT_SQL@, seq![]),
        executes(
            "SET LOCAL application_name = 'pgmcp:heavy:"@ + job_tag + "'"@,
            seq![],
        ),
        executes("REFRESH MATERIALIZED VIEW CONCURRENTLY "@ + view, seq![]),
    ]
}

/// A refresh names the view and, within the transaction, the job.
pub proof fn law_refresh_names_view_and_job(view: Seq<char>, job_tag: Seq<char>)
    ensures
        refreshes(view, job_tag).len() == 3,
        says(refreshes(view, job_tag)[1].sql, job_tag),
        opens(refreshes(view, job_tag)[2].sql, "REFRESH MATERIALIZED VIEW CONCURRENTLY "@),
        says(refreshes(view, job_tag)[2].sql, view),
        refreshes(view, job_tag)[2].sql.len() == "REFRESH MATERIALIZED VIEW CONCURRENTLY "@.len()
            + view.len(),
{
    let name = "SET LOCAL application_name = 'pgmcp:heavy:"@;
    assert(part_at(refreshes(view, job_tag)[1].sql, name.len() as int, job_tag));
    let refresh = "REFRESH MATERIALIZED VIEW CONCURRENTLY "@;
    assert(part_at(refreshes(view, job_tag)[2].sql, 0, refresh));
    assert(part_at(refreshes(view, job_tag)[2].sql, refresh.len() as int, view));
}

/// Refreshes a materialized view without blocking its readers; to be run as
/// a batch.
pub fn refresh_matview_concurrently(view: &str, job_tag: &str) -> (r: Vec<Statement>)
    ensures
        statement_views(r@) == refreshes(view@, job_tag@),
        forall|i: int| 0 <= i < r.len() ==> (#[trigger] r@[i]).fetch == Fetch::Execute,
{
    let mut name = String::from_str("SET LOCAL application_name = 'pgmcp:heavy:");
    name.append(job_tag);
    name.append("'");
    let mut refresh = String::from_str("REFRESH MATERIALIZED VIEW CONCURRENTLY ");
    refresh.append(view);
    let r: Vec<Statement> = vec![
        Statement::execute(REFRESH_TIMEOUT_SQL),
        Statement::execute(name.as_str()),
        Statement::execute(refresh.as_str()),
    ];
    assert(statement_views(r@) =~= seq![r@[0]@, r@[1]@, r@[2]@]);
    assert forall|i: int| 0 <= i < r.len() implies (#[trigger] r@[i]).fetch == Fetch::Execute by {
        assert(r@[i]@.fetch == Fetch::Execute);
    }
    r
}

/// Refreshes the nodes of the unified graph; to be run as a batch.
pub fn refresh_memory_unified_nodes() -> (r: Vec<Statement>)
    ensures
        statement_views(r@) == refreshes("memory_unified_nodes"@, "memory-graph-refresh"@),
        forall|i: int| 0 <= i < r.len() ==> (#[trigger] r@[i]).fetch == Fetch::Execute,
{
    refresh_matview_concurrently("memory_unified_nodes", "memory-graph-refresh")
}

/// Refreshes the edges of the unified graph; to be run as a batch.
pub fn refresh_memory_unified_edges() -> (r: Vec<Statement>)
    ensures
        statement_views(r@) == refreshes("memory_unified_edges"@, "memory-graph-refresh"@),
        forall|i: int| 0 <= i < r.len() ==> (#[trigger] r@[i]).fetch == Fetch::Execute,
{
    refresh_matview_concurrently("memory_unified_edges", "memory-graph-refresh")
}

pub const RESOLVE_FILE_SQL: &'static str =
    "SELECT id FROM indexed_files WHERE relative_path = $1 OR path = $1 LIMIT 1";

pub const RESOLVE_PROJECT_SQL: &'static str =
    "SELECT id::bigint FROM projects WHERE name = $1 OR path = $1 LIMIT 1";

pub const RESOLVE_WORK_ITEM_SQL: &'static str =
    "SELECT id FROM work_items WHERE public_id = $1 LIMIT 1";

pub const RESOLVE_EXPERIMENT_SQL: &'static str =
    "SELECT id FROM experiments WHERE slug = $1 AND valid_to IS NULL LIMIT 1";

pub const RESOLVE_TOPIC_SQL: &'static str = "SELECT id FROM code_topics WHERE label = $1 LIMIT 1";

pub const RESOLVE_COMMIT_SQL: &'static str = "SELECT id FROM git_commits WHERE commit_hash = $1 OR starts_with(commit_hash, $1) \
                 ORDER BY author_date DESC LIMIT 1";

pub const RESOLVE_SYMBOL_SQL: &'static str = "SELECT id FROM file_symbols WHERE name = $1 LIMIT 1";

/// The query that finds the row of a node by its natural key; `None` for a
/// node type without one.
pub open spec fn natural_key_query(node_type: Seq<char>) -> Option<Seq<char>> {
    if node_type == "file"@ {
        Some(RESOLVE_FILE_SQL@)
    } else if node_type == "project"@ {
        Some(RESOLVE_PROJECT_SQL@)
    } else if node_type == "work_item"@ {
        Some(RESOLVE_WORK_ITEM_SQL@)
    } else if node_type == "experiment"@ {
        Some(RESOLVE_EXPERIMENT_SQL@)
    } else if node_type == "topic"@ {
        Some(RESOLVE_TOPIC_SQL@)
    } else if node_type == "commit"@ {
        Some(RESOLVE_COMMIT_SQL@)
    } else if node_type == "symbol"@ {
        Some(RESOLVE_SYMBOL_SQL@)
    } else {
        None
    }
}

/// The id of a node: its type and its key.
pub open spec fn composite_id(node_type: Seq<char>, key: Seq<char>) -> Seq<char> {
    node_type + ":"@ + key
}

/// How a node reference is resolved.
#[derive(Debug)]
pub enum NodeResolution {
    /// The id is known from the reference alone.
    Known(String),
    /// The row has to be looked up by its natural key.
    Lookup(Statement),
    /// There is no such node.
    Unknown,
}

fn composite(node_type: &str, key: &str) -> (r: String)
    ensures
        r@ == composite_id(node_type@, key@),
{
    let mut m = String::from_str(node_type);
    m.append(":");
    m.append(key);
    m
}

/// Resolves a node reference. A numeric key, and the free-text key of an
/// agent, stand for themselves; other keys are looked up.
pub fn resolve_graph_node_id(node_type: &str, key: &str) -> (r: NodeResolution)
    ensures
        node_type@ == "agent"@ || parsed(key@) is Some ==> (r matches NodeResolution::Known(id)
            && id@ == composite_id(node_type@, key@)),
        !(node_type@ == "agent"@ || parsed(key@) is Some) ==> match natural_key_query(
            node_type@,
        ) {
            Some(sql) => r matches NodeResolution::Lookup(st) && st@ == fetches_optional(
                sql,
                seq![BindView::Text(key@)],
            ),
            None => r is Unknown,
        },
{
    if text_eq(node_type, "agent") || parse_i64(key).is_some() {
        return NodeResolution::Known(composite(node_type, key));
    }
    if text_eq(node_type, "file") {
        NodeResolution::Lookup(Statement::optional(RESOLVE_FILE_SQL).text(key))
    } else if text_eq(node_type, "project") {
        NodeResolution::Lookup(Statement::optional(RESOLVE_PROJECT_SQL).text(key))
    } else if text_eq(node_type, "work_item") {
        NodeResolution::Lookup(Statement::optional(RESOLVE_WORK_ITEM_SQL).text(key))
    } else if text_eq(node_type, "experiment") {
        NodeResolution::Lookup(Statement::optional(RESOLVE_EXPERIMENT_SQL).text(key))
    } else if text_eq(node_type, "topic") {
        NodeResolution::Lookup(Statement::optional(RESOLVE_TOPIC_SQL).text(key))
    } else if text_eq(node_type, "commit") {
        NodeResolution::Lookup(Statement::optional(RESOLVE_COMMIT_SQL).text(key))
    } else if text_eq(node_type, "symbol") {
        NodeResolution::Lookup(Statement::optional(RESOLVE_SYMBOL_SQL).text(key))
    } else {
        NodeResolution::Unknown
    }
}

/// The id of a node whose row was looked up.
pub fn looked_up_node_id(node_type: &str, row: Option<i64>) -> (r: Option<String>)
    ensures
        r is Some <==> row is Some,
        r matches Some(id) ==> id@ == composite_id(node_type@, decimal_text(row->0 as int)),
{
    match row {
        Some(pk) => Some(composite(node_type, decimal(pk).as_str())),
        None => None,
    }
}

/// A node that was looked up resolves again, to itself: its id carries a
/// numeric key.
pub proof fn law_resolved_ids_are_stable(pk: i64)
    ensures
        parsed(decimal_text(pk as int)) is Some,
{
    crate::text::law_decimal_reads_back(pk);
}

pub const WALK_PATHS_SQL: &'static str = "WITH RECURSIVE walk(start_id, current_id, current_type,
                              last_edge, last_to_type, weight_product, hops,
                              path_nodes, path_edges) AS (
             SELECT s.node_id, s.node_id, s.node_type,
                    ''::text, s.node_type, 1.0::float8, 0::int,
                    ARRAY[s.node_id], ARRAY[]::text[]
             FROM memory_unified_nodes s
             WHERE s.node_id = ANY($1)
             UNION
             SELECT w.start_id,
                    CASE WHEN e.from_id = w.current_id THEN e.to_id ELSE e.from_id END,
                    CASE WHEN e.from_id = w.current_id THEN e.to_type ELSE e.from_type END,
                    e.edge_type,
                    CASE WHEN e.from_id = w.current_id THEN e.to_type ELSE e.from_type END,
                    w.weight_product * e.weight
                        * (CASE WHEN e.valid_from IS NULL THEN 1.0
                                ELSE exp(-0.6931471805599453
                                         * GREATEST(0.0, EXTRACT(EPOCH FROM (now() - e.valid_from)) / 86400.0)
                                         / GREATEST($5::float8, 0.001)) END),
                    w.hops + 1,
                    w.path_nodes || (CASE WHEN e.from_id = w.current_id THEN e.to_id ELSE e.from_id END),
                    w.path_edges || e.edge_type
             FROM walk w
             JOIN memory_unified_edges e
                  ON e.from_id = w.current_id OR e.to_id = w.current_id
             WHERE w.hops < $2
               AND NOT (
                   CASE WHEN e.from_id = w.current_id THEN e.to_id ELSE e.from_id END
                       = ANY(w.path_nodes)
               )
               AND ($4::timestamptz IS NULL OR e.valid_from IS NULL
                    OR (e.valid_from <= $4 AND (e.valid_to IS NULL OR e.valid_to > $4)))
         )
         SELECT start_id, current_id, current_type, last_edge, last_to_type,
                weight_product, hops
         FROM walk
         WHERE hops > 0
           AND ($3::text[] IS NULL OR current_type = ANY($3))
         ORDER BY hops, weight_product DESC
         LIMIT 400";

pub const RANK_PATHS_SQL: &'static str = "WITH RECURSIVE walk(start_id, current_id, weight_product, hops,
                              path_nodes, path_edges) AS (
             SELECT s.node_id, s.node_id, 1.0::float8, 0::int,
                    ARRAY[s.node_id], ARRAY[]::text[]
             FROM memory_unified_nodes s
             WHERE s.node_id = ANY($1)
             UNION
             SELECT w.start_id,
                    CASE WHEN e.from_id = w.current_id THEN e.to_id ELSE e.from_id END,
                    w.weight_product * e.weight
                        * (CASE WHEN e.valid_from IS NULL THEN 1.0
                                ELSE exp(-0.6931471805599453
                                         * GREATEST(0.0, EXTRACT(EPOCH FROM (now() - e.valid_from)) / 86400.0)
                                         / GREATEST($5::float8, 0.001)) END),
                    w.hops + 1,
                    w.path_nodes || (CASE WHEN e.from_id = w.current_id THEN e.to_id ELSE e.from_id END),
                    w.path_edges || e.edge_type
             FROM walk w
             JOIN memory_unified_edges e
                  ON e.from_id = w.current_id OR e.to_id = w.current_id
             WHERE w.hops < $2
               AND NOT (
                   CASE WHEN e.from_id = w.current_id THEN e.to_id ELSE e.from_id END
                       = ANY(w.path_nodes)
               )
               AND ($4::timestamptz IS NULL OR e.valid_from IS NULL
                    OR (e.valid_from <= $4 AND (e.valid_to IS NULL OR e.valid_to > $4)))
         ),
         filtered AS (
             SELECT path_nodes, path_edges, weight_product, hops,
                    COALESCE(1 - (n.embedding <=> $6), 0)::float8 AS similarity
             FROM walk
             JOIN memory_unified_nodes n ON n.node_id = walk.current_id
             WHERE hops > 0
               AND ($3::text[] IS NULL OR n.node_type = ANY($3))
         )
         SELECT path_nodes, path_edges, weight_product, hops, similarity
         FROM filtered
         ORDER BY weight_product DESC, hops
         LIMIT 200";

/// The query for seeds of a path search: at least 5 of them, one per path
/// that is wanted, between 1 and 100.
pub open spec fn seed_limit(k: i32) -> i32 {
    let wanted = clamped(k as int, 1, 100);
    (if wanted < 5 {
        5
    } else {
        wanted
    }) as i32
}

/// The limit for the seeds of a path search.
pub fn path_seed_limit(k: i32) -> (r: i32)
    ensures
        r == seed_limit(k),
{
    let wanted: i32 = clamp(k, 1, 100);
    if wanted < 5 {
        5
    } else {
        wanted
    }
}

/// A walk from some seeds. The caller supplies value 0, the moment at which
/// edges must be valid, and value 1, the half-life of their weight.
pub open spec fn walks(
    sql: Seq<char>,
    seed_ids: Seq<Seq<char>>,
    max_hops: i32,
    target_node_types: Option<Seq<Seq<char>>>,
) -> StatementView {
    fetches_all(
        sql,
        seq![
            BindView::TextArray(seed_ids),
            BindView::Int(clamped(max_hops as int, 1, 5) as i32),
            BindView::MaybeTextArray(target_node_types),
            BindView::Supplied(0),
            BindView::Supplied(1),
        ],
    )
}

/// The walk whose paths are ranked. The caller also supplies value 2, the
/// embedding that the last node of each path is compared with.
pub open spec fn ranks(
    seed_ids: Seq<Seq<char>>,
    max_hops: i32,
    target_node_types: Option<Seq<Seq<char>>>,
) -> StatementView {
    let walk = walks(RANK_PATHS_SQL@, seed_ids, max_hops, target_node_types);
    StatementView { binds: walk.binds.push(BindView::Supplied(2)), ..walk }
}

fn walk(
    sql: &str,
    seed_ids: &[String],
    max_hops: i32,
    target_node_types: Option<&[String]>,
) -> (st: Statement)
    ensures
        st@ == walks(sql@, texts(seed_ids@), max_hops, opt_list(target_node_types)),
{
    Statement::all(sql)
        .texts(seed_ids)
        .int4(clamp(max_hops, 1, 5))
        .maybe_texts(target_node_types)
        .supplied(0)
        .supplied(1)
}

/// The two walks of a path search: the one whose rows are counted and the
/// one whose paths are ranked, with the similarity of each path's last node to
/// the query. No seeds: nothing to send, and no path is found. The caller
/// supplies value 0, the moment at which edges must be valid, value 1, the
/// half-life of their weight, and for the second walk value 2, the embedding.
pub fn memory_path_search(
    seed_ids: &[String],
    target_node_types: Option<&[String]>,
    max_hops: i32,
) -> (r: Vec<Statement>)
    ensures
        seed_ids.len() == 0 ==> r.len() == 0,
        seed_ids.len() > 0 ==> statement_views(r@) == seq![
            walks(WALK_PATHS_SQL@, texts(seed_ids@), max_hops, opt_list(target_node_types)),
            ranks(texts(seed_ids@), max_hops, opt_list(target_node_types)),
        ],
        seed_ids.len() > 0 ==> r.len() == 2 && takes(
            r@[0]@,
            "s.node_id = ANY("@,
            BindView::TextArray(texts(seed_ids@)),
        ) && takes(
            r@[0]@,
            "current_type = ANY("@,
            BindView::MaybeTextArray(opt_list(target_node_types)),
        ) && takes(
            r@[1]@,
            "s.node_id = ANY("@,
            BindView::TextArray(texts(seed_ids@)),
        ) && takes(
            r@[1]@,
            "n.node_type = ANY("@,
            BindView::MaybeTextArray(opt_list(target_node_types)),
        ),
{
    if seed_ids.len() == 0 {
        return Vec::new();
    }
    let r: Vec<Statement> = vec![
        walk(WALK_PATHS_SQL, seed_ids, max_hops, target_node_types),
        walk(RANK_PATHS_SQL, seed_ids, max_hops, target_node_types).supplied(2),
    ];
    proof {
        law_walks_start_at_the_seeds(texts(seed_ids@), max_hops, opt_list(target_node_types));
        law_ranked_paths_start_at_the_seeds(texts(seed_ids@), max_hops, opt_list(target_node_types));
    }
    assert(statement_views(r@) =~= seq![r@[0]@, r@[1]@]);
    r
}

/// The seeds of a search by diffusion over the unified graph: the nodes most
/// similar to the query, between 1 and 100 of them. Where there are none,
/// nothing is found. The caller supplies value 0, the embedding, of dimension
/// `dim`.
pub fn memory_ppr_search(dim: usize, max_seeds: i32, ef_search: i32) -> (r: Result<
    TunedQuery,
    ProtocolError,
>)
    ensures
        r is Ok <==> dim == EMBEDDING_DIM,
        r matches Err(e) ==> e@ == dimension_refusal(
            "memory_unified_search: expected 1024d embedding, got "@,
            dim,
        ),
        r matches Ok(q) ==> q@ == tuned(
            ef_search,
            fetches_all(
                MEMORY_UNIFIED_SEARCH_SQL@,
                seq![
                    BindView::Supplied(0),
                    BindView::MaybeTextArray(None),
                    BindView::Int(clamped(max_seeds as int, 1, 100) as i32),
                ],
            ),
        ),
        r matches Ok(q) ==> opens(q@.query.sql, "SELECT"@),
        r matches Ok(q) ==> takes(q@.query, "embedding <=> "@, BindView::Supplied(0)),
        r matches Ok(q) ==> takes(q@.query, "node_type = ANY("@, BindView::MaybeTextArray(None)),
        r matches Ok(q) ==> takes(
            q@.query,
            "LIMIT "@,
            BindView::Int(clamped(max_seeds as int, 1, 100) as i32),
        ),
        r matches Ok(q) ==> says(q@.query.sql, "WHERE embedding IS NOT NULL"@),
        r matches Ok(q) ==> says(q@.query.sql, "FROM memory_unified_nodes"@),
{
    proof {
        memory_unified_search_text();
    }
    memory_unified_search(dim, None, clamp(max_seeds, 1, 100), ef_search)
}

pub const UNIFIED_EDGES_SQL: &'static str =
    "SELECT from_id, to_id, weight FROM memory_unified_edges";

pub const UNIFIED_NODES_BY_ID_SQL: &'static str = "SELECT node_id, node_type, label
             FROM memory_unified_nodes
             WHERE node_id = ANY($1)";

/// All edges of the unified graph.
pub fn load_unified_edges() -> (st: Statement)
    ensures
        st@ == fetches_all(UNIFIED_EDGES_SQL@, seq![]),
        opens(st@.sql, "SELECT"@),
        says(st@.sql, "FROM memory_unified_edges"@),
{
    proof {
        unified_edges_text();
    }
    let st = Statement::all(UNIFIED_EDGES_SQL);
    assert(st@.sql == UNIFIED_EDGES_SQL@);
    st
}

/// Types and labels of ranked nodes; none: nothing to send, and there is no
/// hit.
pub fn describe_nodes(node_ids: &[String]) -> (r: Option<Statement>)
    ensures
        r is None <==> node_ids.len() == 0,
        r matches Some(st) ==> st@ == fetches_all(
            UNIFIED_NODES_BY_ID_SQL@,
            seq![BindView::TextArray(texts(node_ids@))],
        ),
        r matches Some(st) ==> opens(st@.sql, "SELECT"@),
        r matches Some(st) ==> takes(st@, "node_id = ANY("@, BindView::TextArray(texts(node_ids@))),
        r matches Some(st) ==> says(st@.sql, "FROM memory_unified_nodes"@),
{
    proof {
        unified_nodes_by_id_text();
    }
    if node_ids.len() == 0 {
        return None;
    }
    let st = Statement::all(UNIFIED_NODES_BY_ID_SQL).texts(node_ids);
    assert(st@.sql == UNIFIED_NODES_BY_ID_SQL@);
    Some(st)
}

} // verus!
