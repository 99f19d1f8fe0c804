//! What the statements of `memory_search` say.
use vstd::prelude::*;

use crate::limits::clamped;
use crate::meaning::{
    item, lined_up_at, lines_up, mentions, opens, part_at, past, past_blanks, says, takes,
};
use crate::queries::memory_search::{
    dated_facts, natural_key_query, ranks, walks, FACTS_AT_ENTITIES_SQL, FACTS_AT_OBSERVATIONS_SQL,
    FACTS_AT_RELATIONS_SQL, MEMORY_ANCHOR_ENTITY_SQL, MEMORY_FIND_CODE_FOR_ENTITY_SQL,
    MEMORY_FIND_ENTITIES_FOR_CODE_SQL, MEMORY_HYBRID_SEARCH_SQL, MEMORY_RAPTOR_SEARCH_SQL,
    MEMORY_SEARCH_NODES_SQL, MEMORY_SEMANTIC_SEARCH_SQL, MEMORY_UNANCHOR_ENTITY_SQL,
    MEMORY_UNIFIED_SEARCH_SQL, NEIGHBOR_EDGES_SQL, NEIGHBOR_NODES_SQL, OPEN_NODES_SQL,
    OPEN_NODE_OBSERVATIONS_SQL, OPEN_NODE_RELATIONS_IN_SQL, OPEN_NODE_RELATIONS_OUT_SQL,
    RANK_PATHS_SQL, READ_GRAPH_ENTITIES_SQL, READ_GRAPH_OBSERVATIONS_SQL, READ_GRAPH_RELATIONS_SQL,
    RESOLVE_COMMIT_SQL, RESOLVE_EXPERIMENT_SQL, RESOLVE_FILE_SQL, RESOLVE_PROJECT_SQL,
    RESOLVE_SYMBOL_SQL, RESOLVE_TOPIC_SQL, RESOLVE_WORK_ITEM_SQL, TRAVERSE_EDGES_SQL,
    TRAVERSE_NODES_SQL, UNIFIED_EDGES_SQL, UNIFIED_NODES_BY_ID_SQL, WALK_PATHS_SQL,
};
use crate::statement::BindView;

verus! {

/// What the text of [`MEMORY_SEARCH_NODES_SQL`] says.
#[verifier::rlimit(50)]
pub proof fn memory_search_nodes_text()
    ensures
        opens(MEMORY_SEARCH_NODES_SQL@, "SELECT"@),
        mentions(MEMORY_SEARCH_NODES_SQL@, "o.content ILIKE "@, 1),
        mentions(MEMORY_SEARCH_NODES_SQL@, "es.scope_id = "@, 2),
        mentions(MEMORY_SEARCH_NODES_SQL@, "LIMIT "@, 3),
        says(MEMORY_SEARCH_NODES_SQL@, "WHERE e.valid_to IS NULL"@),
        says(MEMORY_SEARCH_NODES_SQL@, "GROUP BY e.id"@),
        says(
            MEMORY_SEARCH_NODES_SQL@,
            "ORDER BY matched_observations DESC, e.importance DESC, e.id"@,
        ),
        says(MEMORY_SEARCH_NODES_SQL@, "FROM memory_entities"@),
        says(MEMORY_SEARCH_NODES_SQL@, "LEFT JOIN memory_observations o"@),
        says(MEMORY_SEARCH_NODES_SQL@, "LEFT JOIN memory_entity_scope es ON es.entity_id = e.id"@),
{
    reveal_strlit(
        "SELECT e.id, e.name, e.entity_type, e.canonical_name, e.importance,
                COUNT(DISTINCT o.id) FILTER (WHERE o.content ILIKE $1) AS matched_observations
         FROM memory_entities e
         LEFT JOIN memory_observations o
            ON o.entity_id = e.id AND o.valid_to IS NULL
         LEFT JOIN memory_entity_scope es ON es.entity_id = e.id
         WHERE e.valid_to IS NULL
           AND ($2::bigint IS NULL OR es.scope_id = $2)
           AND (
             e.name ILIKE $1
             OR e.entity_type ILIKE $1
             OR e.canonical_name ILIKE $1
             OR o.content ILIKE $1
           )
         GROUP BY e.id
         ORDER BY matched_observations DESC, e.importance DESC, e.id
         LIMIT $3",
    );
    reveal_strlit("FROM memory_entities");
    reveal_strlit("GROUP BY e.id");
    reveal_strlit("LEFT JOIN memory_entity_scope es ON es.entity_id = e.id");
    reveal_strlit("LEFT JOIN memory_observations o");
    reveal_strlit("LIMIT ");
    reveal_strlit("ORDER BY matched_observations DESC, e.importance DESC, e.id");
    reveal_strlit("SELECT");
    reveal_strlit("WHERE e.valid_to IS NULL");
    reveal_strlit("es.scope_id = ");
    reveal_strlit("o.content ILIKE ");
    let t = MEMORY_SEARCH_NODES_SQL@;
    assert(part_at(t, 0, "SELECT"@));
    assert(part_at(t, 119, "o.content ILIKE "@));
    assert(part_at(t, 430, "es.scope_id = "@));
    assert(part_at(t, 724, "LIMIT "@));
    assert(part_at(t, 367, "WHERE e.valid_to IS NULL"@));
    assert(part_at(t, 632, "GROUP BY e.id"@));
    assert(part_at(t, 655, "ORDER BY matched_observations DESC, e.importance DESC, e.id"@));
    assert(part_at(t, 172, "FROM memory_entities"@));
    assert(part_at(t, 204, "LEFT JOIN memory_observations o"@));
    assert(part_at(t, 302, "LEFT JOIN memory_entity_scope es ON es.entity_id = e.id"@));
}

/// What the text of [`OPEN_NODES_SQL`] says.
pub proof fn open_nodes_text()
    ensures
        opens(OPEN_NODES_SQL@, "SELECT"@),
        mentions(OPEN_NODES_SQL@, "name = ANY("@, 1),
        says(OPEN_NODES_SQL@, "FROM memory_entities"@),
{
    reveal_strlit(
        "SELECT id, name, entity_type, canonical_name, importance,
                source::text AS source, created_at, valid_from, valid_to, superseded_by
         FROM memory_entities
         WHERE name = ANY($1) AND valid_to IS NULL",
    );
    reveal_strlit("FROM memory_entities");
    reveal_strlit("SELECT");
    reveal_strlit("name = ANY(");
    let t = OPEN_NODES_SQL@;
    assert(part_at(t, 0, "SELECT"@));
    assert(part_at(t, 191, "name = ANY("@));
    assert(part_at(t, 155, "FROM memory_entities"@));
}

/// What the text of [`READ_GRAPH_ENTITIES_SQL`] says.
pub proof fn read_graph_entities_text()
    ensures
        opens(READ_GRAPH_ENTITIES_SQL@, "SELECT DISTINCT"@),
        mentions(READ_GRAPH_ENTITIES_SQL@, "es.scope_id = "@, 1),
        mentions(READ_GRAPH_ENTITIES_SQL@, "LIMIT "@, 2),
        says(READ_GRAPH_ENTITIES_SQL@, "WHERE e.valid_to IS NULL"@),
        says(READ_GRAPH_ENTITIES_SQL@, "ORDER BY e.importance DESC, e.id"@),
        says(READ_GRAPH_ENTITIES_SQL@, "FROM memory_entities"@),
        says(READ_GRAPH_ENTITIES_SQL@, "LEFT JOIN memory_entity_scope es ON es.entity_id = e.id"@),
{
    reveal_strlit(
        "SELECT DISTINCT e.id, e.name, e.entity_type, e.canonical_name, e.importance,
                e.source::text AS source, e.created_at, e.valid_from,
                e.valid_to, e.superseded_by
         FROM memory_entities e
         LEFT JOIN memory_entity_scope es ON es.entity_id = e.id
         WHERE e.valid_to IS NULL
           AND ($1::bigint IS NULL OR es.scope_id = $1)
         ORDER BY e.importance DESC, e.id
         LIMIT $2",
    );
    reveal_strlit("FROM memory_entities");
    reveal_strlit("LEFT JOIN memory_entity_scope es ON es.entity_id = e.id");
    reveal_strlit("LIMIT ");
    reveal_strlit("ORDER BY e.importance DESC, e.id");
    reveal_strlit("SELECT DISTINCT");
    reveal_strlit("WHERE e.valid_to IS NULL");
    reveal_strlit("es.scope_id = ");
    let t = READ_GRAPH_ENTITIES_SQL@;
    assert(part_at(t, 0, "SELECT DISTINCT"@));
    assert(part_at(t, 360, "es.scope_id = "@));
    assert(part_at(t, 429, "LIMIT "@));
    assert(part_at(t, 297, "WHERE e.valid_to IS NULL"@));
    assert(part_at(t, 387, "ORDER BY e.importance DESC, e.id"@));
    assert(part_at(t, 200, "FROM memory_entities"@));
    assert(part_at(t, 232, "LEFT JOIN memory_entity_scope es ON es.entity_id = e.id"@));
}

/// What the text of [`FACTS_AT_ENTITIES_SQL`] says.
#[verifier::rlimit(50)]
pub proof fn facts_at_entities_text()
    ensures
        opens(FACTS_AT_ENTITIES_SQL@, "SELECT DISTINCT"@),
        mentions(FACTS_AT_ENTITIES_SQL@, "e.valid_from <= "@, 1),
        mentions(FACTS_AT_ENTITIES_SQL@, "es.scope_id = "@, 2),
        mentions(FACTS_AT_ENTITIES_SQL@, "et.tier::text = "@, 3),
        mentions(FACTS_AT_ENTITIES_SQL@, "LIMIT "@, 4),
        says(FACTS_AT_ENTITIES_SQL@, "ORDER BY e.importance DESC, e.id"@),
        says(FACTS_AT_ENTITIES_SQL@, "FROM memory_entities"@),
        says(FACTS_AT_ENTITIES_SQL@, "LEFT JOIN memory_entity_scope es ON es.entity_id = e.id"@),
        says(FACTS_AT_ENTITIES_SQL@, "LEFT JOIN memory_entity_tier  et ON et.entity_id = e.id"@),
{
    reveal_strlit(
        "SELECT DISTINCT e.id, e.name, e.entity_type, e.canonical_name, e.importance,
                e.source::text AS source, e.created_at, e.valid_from,
                e.valid_to, e.superseded_by
         FROM memory_entities e
         LEFT JOIN memory_entity_scope es ON es.entity_id = e.id
         LEFT JOIN memory_entity_tier  et ON et.entity_id = e.id
         WHERE e.valid_from <= $1
           AND (e.valid_to IS NULL OR e.valid_to > $1)
           AND ($2::bigint IS NULL OR es.scope_id = $2)
           AND ($3::text   IS NULL OR et.tier::text = $3)
         ORDER BY e.importance DESC, e.id
         LIMIT $4",
    );
    reveal_strlit("FROM memory_entities");
    reveal_strlit("LEFT JOIN memory_entity_scope es ON es.entity_id = e.id");
    reveal_strlit("LEFT JOIN memory_entity_tier  et ON et.entity_id = e.id");
    reveal_strlit("LIMIT ");
    reveal_strlit("ORDER BY e.importance DESC, e.id");
    reveal_strlit("SELECT DISTINCT");
    reveal_strlit("e.valid_from <= ");
    reveal_strlit("es.scope_id = ");
    reveal_strlit("et.tier::text = ");
    let t = FACTS_AT_ENTITIES_SQL@;
    assert(part_at(t, 0, "SELECT DISTINCT"@));
    assert(part_at(t, 368, "e.valid_from <= "@));
    assert(part_at(t, 480, "es.scope_id = "@));
    assert(part_at(t, 536, "et.tier::text = "@));
    assert(part_at(t, 607, "LIMIT "@));
    assert(part_at(t, 565, "ORDER BY e.importance DESC, e.id"@));
    assert(part_at(t, 200, "FROM memory_entities"@));
    assert(part_at(t, 232, "LEFT JOIN memory_entity_scope es ON es.entity_id = e.id"@));
    assert(part_at(t, 297, "LEFT JOIN memory_entity_tier  et ON et.entity_id = e.id"@));
}

/// What the text of [`MEMORY_SEMANTIC_SEARCH_SQL`] says.
#[verifier::rlimit(50)]
pub proof fn memory_semantic_search_text()
    ensures
        opens(MEMORY_SEMANTIC_SEARCH_SQL@, "SELECT"@),
        mentions(MEMORY_SEMANTIC_SEARCH_SQL@, "o.embedding <=> "@, 1),
        mentions(MEMORY_SEMANTIC_SEARCH_SQL@, "es.scope_id = "@, 2),
        mentions(MEMORY_SEMANTIC_SEARCH_SQL@, "et.tier::text = "@, 3),
        mentions(MEMORY_SEMANTIC_SEARCH_SQL@, "LIMIT "@, 4),
        says(MEMORY_SEMANTIC_SEARCH_SQL@, "WHERE o.embedding IS NOT NULL"@),
        says(MEMORY_SEMANTIC_SEARCH_SQL@, "AND o.valid_to IS NULL"@),
        says(MEMORY_SEMANTIC_SEARCH_SQL@, "FROM memory_observations"@),
        says(
            MEMORY_SEMANTIC_SEARCH_SQL@,
            "JOIN memory_entities e ON e.id = o.entity_id AND e.valid_to IS NULL"@,
        ),
{
    reveal_strlit(
        "SELECT o.id AS observation_id,
                e.id AS entity_id,
                e.name AS entity_name,
                e.entity_type,
                o.content,
                o.importance,
                1 - (o.embedding <=> $1) AS similarity,
                o.created_at
         FROM memory_observations o
         JOIN memory_entities e ON e.id = o.entity_id AND e.valid_to IS NULL
         WHERE o.embedding IS NOT NULL
           AND o.valid_to IS NULL
           AND ($2::bigint IS NULL OR EXISTS (
                 SELECT 1 FROM memory_entity_scope es
                 WHERE es.entity_id = e.id AND es.scope_id = $2))
           AND ($3::text   IS NULL OR EXISTS (
                 SELECT 1 FROM memory_entity_tier et
                 WHERE et.entity_id = e.id AND et.tier::text = $3))
         ORDER BY o.embedding <=> $1
         LIMIT $4",
    );
    reveal_strlit("AND o.valid_to IS NULL");
    reveal_strlit("FROM memory_observations");
    reveal_strlit("JOIN memory_entities e ON e.id = o.entity_id AND e.valid_to IS NULL");
    reveal_strlit("LIMIT ");
    reveal_strlit("SELECT");
    reveal_strlit("WHERE o.embedding IS NOT NULL");
    reveal_strlit("es.scope_id = ");
    reveal_strlit("et.tier::text = ");
    reveal_strlit("o.embedding <=> ");
    let t = MEMORY_SEMANTIC_SEARCH_SQL@;
    assert(part_at(t, 0, "SELECT"@));
    assert(part_at(t, 214, "o.embedding <=> "@));
    assert(part_at(t, 612, "es.scope_id = "@));
    assert(part_at(t, 778, "et.tier::text = "@));
    assert(part_at(t, 845, "LIMIT "@));
    assert(part_at(t, 400, "WHERE o.embedding IS NOT NULL"@));
    assert(part_at(t, 441, "AND o.valid_to IS NULL"@));
    assert(part_at(t, 287, "FROM memory_observations"@));
    assert(part_at(t, 323, "JOIN memory_entities e ON e.id = o.entity_id AND e.valid_to IS NULL"@));
}

/// What the text of [`MEMORY_HYBRID_SEARCH_SQL`] says.
#[verifier::rlimit(100)]
pub proof fn memory_hybrid_search_text()
    ensures
        opens(MEMORY_HYBRID_SEARCH_SQL@, "WITH"@),
        mentions(MEMORY_HYBRID_SEARCH_SQL@, "o.embedding <=> "@, 1),
        mentions(MEMORY_HYBRID_SEARCH_SQL@, "plainto_tsquery('english', "@, 2),
        mentions(MEMORY_HYBRID_SEARCH_SQL@, "es.scope_id = "@, 3),
        mentions(MEMORY_HYBRID_SEARCH_SQL@, "et.tier::text = "@, 4),
        mentions(MEMORY_HYBRID_SEARCH_SQL@, "LIMIT "@, 5),
        mentions(MEMORY_HYBRID_SEARCH_SQL@, "LIMIT "@, 6),
        says(MEMORY_HYBRID_SEARCH_SQL@, "WHERE o.embedding IS NOT NULL AND o.valid_to IS NULL"@),
        says(MEMORY_HYBRID_SEARCH_SQL@, "WHERE o.valid_to IS NULL"@),
        says(MEMORY_HYBRID_SEARCH_SQL@, "ORDER BY ts_rank_cd("@),
        says(MEMORY_HYBRID_SEARCH_SQL@, "ORDER BY rnk"@),
        says(MEMORY_HYBRID_SEARCH_SQL@, "GROUP BY id, entity_id, content, importance, created_at"@),
        says(MEMORY_HYBRID_SEARCH_SQL@, "ORDER BY rrf DESC"@),
        says(MEMORY_HYBRID_SEARCH_SQL@, "FROM memory_observations"@),
        says(
            MEMORY_HYBRID_SEARCH_SQL@,
            "JOIN memory_entities e ON e.id = o.entity_id AND e.valid_to IS NULL"@,
        ),
        says(MEMORY_HYBRID_SEARCH_SQL@, "JOIN memory_entities e ON e.id = f.entity_id"@),
{
    reveal_strlit(
        "WITH dense AS (
            SELECT o.id, o.entity_id, o.content, o.importance, o.created_at,
                   1 - (o.embedding <=> $1) AS sim,
                   ROW_NUMBER() OVER (ORDER BY o.embedding <=> $1) AS rnk
            FROM memory_observations o
            JOIN memory_entities e ON e.id = o.entity_id AND e.valid_to IS NULL
            WHERE o.embedding IS NOT NULL AND o.valid_to IS NULL
              AND ($3::bigint IS NULL OR EXISTS (
                    SELECT 1 FROM memory_entity_scope es
                    WHERE es.entity_id = e.id AND es.scope_id = $3))
              AND ($4::text   IS NULL OR EXISTS (
                    SELECT 1 FROM memory_entity_tier et
                    WHERE et.entity_id = e.id AND et.tier::text = $4))
            ORDER BY o.embedding <=> $1
            LIMIT $5
         ),
         sparse AS (
            SELECT o.id, o.entity_id, o.content, o.importance, o.created_at,
                   NULL::float8 AS sim,
                   ROW_NUMBER() OVER (
                       ORDER BY ts_rank_cd(
                          to_tsvector('english', o.content),
                          plainto_tsquery('english', $2)
                       ) DESC
                   ) AS rnk
            FROM memory_observations o
            JOIN memory_entities e ON e.id = o.entity_id AND e.valid_to IS NULL
            WHERE o.valid_to IS NULL
              AND ($3::bigint IS NULL OR EXISTS (
                    SELECT 1 FROM memory_entity_scope es
                    WHERE es.entity_id = e.id AND es.scope_id = $3))
              AND ($4::text   IS NULL OR EXISTS (
                    SELECT 1 FROM memory_entity_tier et
                    WHERE et.entity_id = e.id AND et.tier::text = $4))
              AND to_tsvector('english', o.content) @@ plainto_tsquery('english', $2)
            ORDER BY rnk
            LIMIT $5
         ),
         fused AS (
            SELECT id, entity_id, content, importance, created_at, MAX(sim) AS sim,
                   SUM(1.0 / (60.0 + rnk)) AS rrf
            FROM (
                 SELECT * FROM dense
                 UNION ALL
                 SELECT * FROM sparse
            ) u
            GROUP BY id, entity_id, content, importance, created_at
         )
         SELECT f.id AS observation_id,
                e.id AS entity_id,
                e.name AS entity_name,
                e.entity_type,
                f.content,
                f.importance,
                f.sim AS similarity,
                f.created_at
         FROM fused f
         JOIN memory_entities e ON e.id = f.entity_id
         ORDER BY rrf DESC
         LIMIT $6",
    );
    reveal_strlit("FROM memory_observations");
    reveal_strlit("GROUP BY id, entity_id, content, importance, created_at");
    reveal_strlit("JOIN memory_entities e ON e.id = f.entity_id");
    reveal_strlit("JOIN memory_entities e ON e.id = o.entity_id AND e.valid_to IS NULL");
    reveal_strlit("LIMIT ");
    reveal_strlit("ORDER BY rnk");
    reveal_strlit("ORDER BY rrf DESC");
    reveal_strlit("ORDER BY ts_rank_cd(");
    reveal_strlit("WHERE o.embedding IS NOT NULL AND o.valid_to IS NULL");
    reveal_strlit("WHERE o.valid_to IS NULL");
    reveal_strlit("WITH");
    reveal_strlit("es.scope_id = ");
    reveal_strlit("et.tier::text = ");
    reveal_strlit("o.embedding <=> ");
    reveal_strlit("plainto_tsquery('english', ");
    let t = MEMORY_HYBRID_SEARCH_SQL@;
    assert(part_at(t, 0, "WITH"@));
    assert(part_at(t, 117, "o.embedding <=> "@));
    assert(part_at(t, 1137, "plainto_tsquery('english', "@));
    assert(part_at(t, 560, "es.scope_id = "@));
    assert(part_at(t, 735, "et.tier::text = "@));
    assert(part_at(t, 808, "LIMIT "@));
    assert(part_at(t, 2629, "LIMIT "@));
    assert(part_at(t, 350, "WHERE o.embedding IS NOT NULL AND o.valid_to IS NULL"@));
    assert(part_at(t, 1357, "WHERE o.valid_to IS NULL"@));
    assert(part_at(t, 1029, "ORDER BY ts_rank_cd("@));
    assert(part_at(t, 1833, "ORDER BY rnk"@));
    assert(part_at(t, 2182, "GROUP BY id, entity_id, content, importance, created_at"@));
    assert(part_at(t, 2602, "ORDER BY rrf DESC"@));
    assert(part_at(t, 231, "FROM memory_observations"@));
    assert(part_at(t, 270, "JOIN memory_entities e ON e.id = o.entity_id AND e.valid_to IS NULL"@));
    assert(part_at(t, 2548, "JOIN memory_entities e ON e.id = f.entity_id"@));
}

/// What the text of [`MEMORY_UNIFIED_SEARCH_SQL`] says.
pub proof fn memory_unified_search_text()
    ensures
        opens(MEMORY_UNIFIED_SEARCH_SQL@, "SELECT"@),
        mentions(MEMORY_UNIFIED_SEARCH_SQL@, "embedding <=> "@, 1),
        mentions(MEMORY_UNIFIED_SEARCH_SQL@, "node_type = ANY("@, 2),
        mentions(MEMORY_UNIFIED_SEARCH_SQL@, "LIMIT "@, 3),
        says(MEMORY_UNIFIED_SEARCH_SQL@, "WHERE embedding IS NOT NULL"@),
        says(MEMORY_UNIFIED_SEARCH_SQL@, "FROM memory_unified_nodes"@),
{
    reveal_strlit(
        "SELECT node_id, node_type, label, importance,
                1 - (embedding <=> $1) AS similarity
         FROM memory_unified_nodes
         WHERE embedding IS NOT NULL
           AND ($2::text[] IS NULL OR node_type = ANY($2))
         ORDER BY embedding <=> $1
         LIMIT $3",
    );
    reveal_strlit("FROM memory_unified_nodes");
    reveal_strlit("LIMIT ");
    reveal_strlit("SELECT");
    reveal_strlit("WHERE embedding IS NOT NULL");
    reveal_strlit("embedding <=> ");
    reveal_strlit("node_type = ANY(");
    let t = MEMORY_UNIFIED_SEARCH_SQL@;
    assert(part_at(t, 0, "SELECT"@));
    assert(part_at(t, 67, "embedding <=> "@));
    assert(part_at(t, 209, "node_type = ANY("@));
    assert(part_at(t, 274, "LIMIT "@));
    assert(part_at(t, 143, "WHERE embedding IS NOT NULL"@));
    assert(part_at(t, 108, "FROM memory_unified_nodes"@));
}

/// What the text of [`MEMORY_RAPTOR_SEARCH_SQL`] says.
#[verifier::rlimit(50)]
pub proof fn memory_raptor_search_text()
    ensures
        opens(MEMORY_RAPTOR_SEARCH_SQL@, "SELECT"@),
        mentions(MEMORY_RAPTOR_SEARCH_SQL@, "summary_embedding <=> "@, 1),
        mentions(MEMORY_RAPTOR_SEARCH_SQL@, "scope_id = "@, 2),
        mentions(MEMORY_RAPTOR_SEARCH_SQL@, "level = ANY("@, 3),
        mentions(MEMORY_RAPTOR_SEARCH_SQL@, "rnk <= "@, 4),
        says(MEMORY_RAPTOR_SEARCH_SQL@, "WHERE summary_embedding IS NOT NULL"@),
        says(MEMORY_RAPTOR_SEARCH_SQL@, "ORDER BY similarity DESC"@),
        says(MEMORY_RAPTOR_SEARCH_SQL@, "FROM memory_summary_tree"@),
{
    reveal_strlit(
        "SELECT node_id, level, label, similarity
         FROM (SELECT id AS node_id, level,
                      COALESCE(summary_text, '<leaf>') AS label,
                      1 - (summary_embedding <=> $1) AS similarity,
                      ROW_NUMBER() OVER (PARTITION BY level
                                         ORDER BY summary_embedding <=> $1) AS rnk
                 FROM memory_summary_tree
                WHERE summary_embedding IS NOT NULL
                  AND ($2::bigint IS NULL OR scope_id = $2)
                  AND ($3::int[] IS NULL OR level = ANY($3))) ranked
         WHERE rnk <= $4
         ORDER BY similarity DESC",
    );
    reveal_strlit("FROM memory_summary_tree");
    reveal_strlit("ORDER BY similarity DESC");
    reveal_strlit("SELECT");
    reveal_strlit("WHERE summary_embedding IS NOT NULL");
    reveal_strlit("level = ANY(");
    reveal_strlit("rnk <= ");
    reveal_strlit("scope_id = ");
    reveal_strlit("summary_embedding <=> ");
    let t = MEMORY_RAPTOR_SEARCH_SQL@;
    assert(part_at(t, 0, "SELECT"@));
    assert(part_at(t, 177, "summary_embedding <=> "@));
    assert(part_at(t, 500, "scope_id = "@));
    assert(part_at(t, 559, "level = ANY("@));
    assert(part_at(t, 599, "rnk <= "@));
    assert(part_at(t, 419, "WHERE summary_embedding IS NOT NULL"@));
    assert(part_at(t, 618, "ORDER BY similarity DESC"@));
    assert(part_at(t, 378, "FROM memory_summary_tree"@));
}

/// What the text of [`TRAVERSE_NODES_SQL`] says.
#[verifier::rlimit(50)]
pub proof fn traverse_nodes_text()
    ensures
        opens(TRAVERSE_NODES_SQL@, "WITH RECURSIVE"@),
        mentions(TRAVERSE_NODES_SQL@, "e.id = ANY("@, 1),
        mentions(TRAVERSE_NODES_SQL@, "r.relation_type = "@, 2),
        mentions(TRAVERSE_NODES_SQL@, "f.depth < "@, 3),
        mentions(TRAVERSE_NODES_SQL@, "LIMIT "@, 4),
        says(TRAVERSE_NODES_SQL@, "AND r.valid_to IS NULL"@),
        says(TRAVERSE_NODES_SQL@, "AND e2.valid_to IS NULL"@),
        says(TRAVERSE_NODES_SQL@, "GROUP BY entity_id, name, entity_type"@),
        says(TRAVERSE_NODES_SQL@, "ORDER BY MIN(depth), entity_id"@),
        says(TRAVERSE_NODES_SQL@, "FROM memory_entities"@),
        says(TRAVERSE_NODES_SQL@, "JOIN memory_relations r"@),
        says(TRAVERSE_NODES_SQL@, "JOIN memory_entities e2"@),
{
    reveal_strlit(
        "WITH RECURSIVE frontier(entity_id, name, entity_type, depth) AS (
             SELECT e.id, e.name, e.entity_type, 0::int
             FROM memory_entities e
             WHERE e.id = ANY($1) AND e.valid_to IS NULL
             UNION
             SELECT e2.id, e2.name, e2.entity_type, f.depth + 1
             FROM frontier f
             JOIN memory_relations r
                  ON  (r.from_entity_id = f.entity_id OR r.to_entity_id = f.entity_id)
                  AND r.valid_to IS NULL
                  AND ($2::text IS NULL OR r.relation_type = $2)
             JOIN memory_entities e2
                  ON e2.id = CASE WHEN r.from_entity_id = f.entity_id
                                  THEN r.to_entity_id
                                  ELSE r.from_entity_id
                              END
                  AND e2.valid_to IS NULL
             WHERE f.depth < $3
         )
         SELECT entity_id, name, entity_type, MIN(depth)::int AS depth
         FROM frontier
         GROUP BY entity_id, name, entity_type
         ORDER BY MIN(depth), entity_id
         LIMIT $4",
    );
    reveal_strlit("AND e2.valid_to IS NULL");
    reveal_strlit("AND r.valid_to IS NULL");
    reveal_strlit("FROM memory_entities");
    reveal_strlit("GROUP BY entity_id, name, entity_type");
    reveal_strlit("JOIN memory_entities e2");
    reveal_strlit("JOIN memory_relations r");
    reveal_strlit("LIMIT ");
    reveal_strlit("ORDER BY MIN(depth), entity_id");
    reveal_strlit("WITH RECURSIVE");
    reveal_strlit("e.id = ANY(");
    reveal_strlit("f.depth < ");
    reveal_strlit("r.relation_type = ");
    let t = TRAVERSE_NODES_SQL@;
    assert(part_at(t, 0, "WITH RECURSIVE"@));
    assert(part_at(t, 177, "e.id = ANY("@));
    assert(part_at(t, 535, "r.relation_type = "@));
    assert(part_at(t, 869, "f.depth < "@));
    assert(part_at(t, 1083, "LIMIT "@));
    assert(part_at(t, 469, "AND r.valid_to IS NULL"@));
    assert(part_at(t, 826, "AND e2.valid_to IS NULL"@));
    assert(part_at(t, 996, "GROUP BY entity_id, name, entity_type"@));
    assert(part_at(t, 1043, "ORDER BY MIN(depth), entity_id"@));
    assert(part_at(t, 135, "FROM memory_entities"@));
    assert(part_at(t, 340, "JOIN memory_relations r"@));
    assert(part_at(t, 570, "JOIN memory_entities e2"@));
}

/// What the text of [`TRAVERSE_EDGES_SQL`] says.
pub proof fn traverse_edges_text()
    ensures
        opens(TRAVERSE_EDGES_SQL@, "SELECT"@),
        mentions(TRAVERSE_EDGES_SQL@, "r.from_entity_id = ANY("@, 1),
        mentions(TRAVERSE_EDGES_SQL@, "r.relation_type = "@, 2),
        says(TRAVERSE_EDGES_SQL@, "WHERE r.valid_to IS NULL"@),
        says(TRAVERSE_EDGES_SQL@, "FROM memory_relations"@),
        says(TRAVERSE_EDGES_SQL@, "JOIN memory_entities a ON a.id = r.from_entity_id"@),
        says(TRAVERSE_EDGES_SQL@, "JOIN memory_entities b ON b.id = r.to_entity_id"@),
{
    reveal_strlit(
        "SELECT r.id, r.from_entity_id, r.to_entity_id,
                    a.name AS from_name, b.name AS to_name, r.relation_type
             FROM memory_relations r
             JOIN memory_entities a ON a.id = r.from_entity_id
             JOIN memory_entities b ON b.id = r.to_entity_id
             WHERE r.valid_to IS NULL
               AND r.from_entity_id = ANY($1)
               AND r.to_entity_id = ANY($1)
               AND ($2::text IS NULL OR r.relation_type = $2)",
    );
    reveal_strlit("FROM memory_relations");
    reveal_strlit("JOIN memory_entities a ON a.id = r.from_entity_id");
    reveal_strlit("JOIN memory_entities b ON b.id = r.to_entity_id");
    reveal_strlit("SELECT");
    reveal_strlit("WHERE r.valid_to IS NULL");
    reveal_strlit("r.from_entity_id = ANY(");
    reveal_strlit("r.relation_type = ");
    let t = TRAVERSE_EDGES_SQL@;
    assert(part_at(t, 0, "SELECT"@));
    assert(part_at(t, 341, "r.from_entity_id = ANY("@));
    assert(part_at(t, 452, "r.relation_type = "@));
    assert(part_at(t, 297, "WHERE r.valid_to IS NULL"@));
    assert(part_at(t, 136, "FROM memory_relations"@));
    assert(part_at(t, 173, "JOIN memory_entities a ON a.id = r.from_entity_id"@));
    assert(part_at(t, 236, "JOIN memory_entities b ON b.id = r.to_entity_id"@));
}

/// What the text of [`NEIGHBOR_NODES_SQL`] says.
#[verifier::rlimit(50)]
pub proof fn neighbor_nodes_text()
    ensures
        opens(NEIGHBOR_NODES_SQL@, "WITH RECURSIVE"@),
        mentions(NEIGHBOR_NODES_SQL@, "node_id = "@, 1),
        mentions(NEIGHBOR_NODES_SQL@, "e.edge_type = "@, 2),
        mentions(NEIGHBOR_NODES_SQL@, "f.depth < "@, 3),
        mentions(NEIGHBOR_NODES_SQL@, "LIMIT "@, 4),
        says(NEIGHBOR_NODES_SQL@, "GROUP BY node_id, node_type"@),
        says(NEIGHBOR_NODES_SQL@, "ORDER BY MIN(depth), node_id"@),
        says(NEIGHBOR_NODES_SQL@, "FROM memory_unified_nodes"@),
        says(NEIGHBOR_NODES_SQL@, "JOIN memory_unified_edges e"@),
{
    reveal_strlit(
        "WITH RECURSIVE frontier(node_id, node_type, depth) AS (
             SELECT node_id, node_type, 0::int
             FROM memory_unified_nodes
             WHERE node_id = $1
             UNION
             SELECT CASE WHEN e.from_id = f.node_id THEN e.to_id ELSE e.from_id END,
                    CASE WHEN e.from_id = f.node_id THEN e.to_type ELSE e.from_type END,
                    f.depth + 1
             FROM frontier f
             JOIN memory_unified_edges e
                  ON  (e.from_id = f.node_id OR e.to_id = f.node_id)
                  AND ($2::text IS NULL OR e.edge_type = $2)
             WHERE f.depth < $3
         )
         SELECT node_id, node_type, MIN(depth)::int AS depth
         FROM frontier
         GROUP BY node_id, node_type
         ORDER BY MIN(depth), node_id
         LIMIT $4",
    );
    reveal_strlit("FROM memory_unified_nodes");
    reveal_strlit("GROUP BY node_id, node_type");
    reveal_strlit("JOIN memory_unified_edges e");
    reveal_strlit("LIMIT ");
    reveal_strlit("ORDER BY MIN(depth), node_id");
    reveal_strlit("WITH RECURSIVE");
    reveal_strlit("e.edge_type = ");
    reveal_strlit("f.depth < ");
    reveal_strlit("node_id = ");
    let t = NEIGHBOR_NODES_SQL@;
    assert(part_at(t, 0, "WITH RECURSIVE"@));
    assert(part_at(t, 161, "node_id = "@));
    assert(part_at(t, 581, "e.edge_type = "@));
    assert(part_at(t, 618, "f.depth < "@));
    assert(part_at(t, 810, "LIMIT "@));
    assert(part_at(t, 735, "GROUP BY node_id, node_type"@));
    assert(part_at(t, 772, "ORDER BY MIN(depth), node_id"@));
    assert(part_at(t, 116, "FROM memory_unified_nodes"@));
    assert(part_at(t, 441, "JOIN memory_unified_edges e"@));
}

/// What the text of [`NEIGHBOR_EDGES_SQL`] says.
pub proof fn neighbor_edges_text()
    ensures
        opens(NEIGHBOR_EDGES_SQL@, "SELECT"@),
        mentions(NEIGHBOR_EDGES_SQL@, "from_id = ANY("@, 1),
        mentions(NEIGHBOR_EDGES_SQL@, "edge_type = "@, 2),
        says(NEIGHBOR_EDGES_SQL@, "FROM memory_unified_edges"@),
{
    reveal_strlit(
        "SELECT from_id, from_type, to_id, to_type, edge_type, weight
             FROM memory_unified_edges
             WHERE from_id = ANY($1) AND to_id = ANY($1)
               AND ($2::text IS NULL OR edge_type = $2)",
    );
    reveal_strlit("FROM memory_unified_edges");
    reveal_strlit("SELECT");
    reveal_strlit("edge_type = ");
    reveal_strlit("from_id = ANY(");
    let t = NEIGHBOR_EDGES_SQL@;
    assert(part_at(t, 0, "SELECT"@));
    assert(part_at(t, 119, "from_id = ANY("@));
    assert(part_at(t, 197, "edge_type = "@));
    assert(part_at(t, 74, "FROM memory_unified_edges"@));
}

/// What the text of [`MEMORY_ANCHOR_ENTITY_SQL`] says.
pub proof fn memory_anchor_entity_text()
    ensures
        opens(MEMORY_ANCHOR_ENTITY_SQL@, "INSERT INTO memory_code_anchor"@),
        lines_up(
            MEMORY_ANCHOR_ENTITY_SQL@,
            "INSERT INTO memory_code_anchor"@,
            "entity_id"@,
            "VALUES ("@,
            1,
        ),
        lines_up(
            MEMORY_ANCHOR_ENTITY_SQL@,
            "INSERT INTO memory_code_anchor"@,
            "file_id"@,
            "VALUES ("@,
            2,
        ),
        lines_up(
            MEMORY_ANCHOR_ENTITY_SQL@,
            "INSERT INTO memory_code_anchor"@,
            "chunk_id"@,
            "VALUES ("@,
            3,
        ),
        lines_up(
            MEMORY_ANCHOR_ENTITY_SQL@,
            "INSERT INTO memory_code_anchor"@,
            "topic_id"@,
            "VALUES ("@,
            4,
        ),
        lines_up(
            MEMORY_ANCHOR_ENTITY_SQL@,
            "INSERT INTO memory_code_anchor"@,
            "symbol_id"@,
            "VALUES ("@,
            5,
        ),
        lines_up(
            MEMORY_ANCHOR_ENTITY_SQL@,
            "INSERT INTO memory_code_anchor"@,
            "project_id"@,
            "VALUES ("@,
            6,
        ),
        lines_up(
            MEMORY_ANCHOR_ENTITY_SQL@,
            "INSERT INTO memory_code_anchor"@,
            "anchor_type"@,
            "VALUES ("@,
            7,
        ),
{
    reveal_strlit(
        "INSERT INTO memory_code_anchor
            (entity_id, file_id, chunk_id, topic_id, symbol_id, project_id, anchor_type)
         VALUES ($1, $2, $3, $4, $5, $6, $7)
         RETURNING id",
    );
    reveal_strlit("INSERT INTO memory_code_anchor");
    reveal_strlit("VALUES (");
    reveal_strlit("anchor_type");
    reveal_strlit("chunk_id");
    reveal_strlit("entity_id");
    reveal_strlit("file_id");
    reveal_strlit("project_id");
    reveal_strlit("symbol_id");
    reveal_strlit("topic_id");
    let t = MEMORY_ANCHOR_ENTITY_SQL@;
    assert(part_at(t, 0, "INSERT INTO memory_code_anchor"@));
    reveal_with_fuel(past, 15);
    reveal_with_fuel(past_blanks, 2);
    assert(past(t, 30, '(') == 44);
    assert(item(t, 44, 0) == 44);
    assert(item(t, 44, 1) == 55);
    assert(item(t, 44, 2) == 64);
    assert(item(t, 44, 3) == 74);
    assert(item(t, 44, 4) == 84);
    assert(item(t, 44, 5) == 95);
    assert(item(t, 44, 6) == 107);
    assert(item(t, 137, 0) == 137);
    assert(item(t, 137, 1) == 141);
    assert(item(t, 137, 2) == 145);
    assert(item(t, 137, 3) == 149);
    assert(item(t, 137, 4) == 153);
    assert(item(t, 137, 5) == 157);
    assert(item(t, 137, 6) == 161);
    assert(lined_up_at(
        t,
        "INSERT INTO memory_code_anchor"@,
        "entity_id"@,
        "VALUES ("@,
        1,
        0,
        129,
        0,
    ));
    assert(lined_up_at(
        t,
        "INSERT INTO memory_code_anchor"@,
        "file_id"@,
        "VALUES ("@,
        2,
        0,
        129,
        1,
    ));
    assert(lined_up_at(
        t,
        "INSERT INTO memory_code_anchor"@,
        "chunk_id"@,
        "VALUES ("@,
        3,
        0,
        129,
        2,
    ));
    assert(lined_up_at(
        t,
        "INSERT INTO memory_code_anchor"@,
        "topic_id"@,
        "VALUES ("@,
        4,
        0,
        129,
        3,
    ));
    assert(lined_up_at(
        t,
        "INSERT INTO memory_code_anchor"@,
        "symbol_id"@,
        "VALUES ("@,
        5,
        0,
        129,
        4,
    ));
    assert(lined_up_at(
        t,
        "INSERT INTO memory_code_anchor"@,
        "project_id"@,
        "VALUES ("@,
        6,
        0,
        129,
        5,
    ));
    assert(lined_up_at(
        t,
        "INSERT INTO memory_code_anchor"@,
        "anchor_type"@,
        "VALUES ("@,
        7,
        0,
        129,
        6,
    ));
}

/// What the text of [`MEMORY_UNANCHOR_ENTITY_SQL`] says.
pub proof fn memory_unanchor_entity_text()
    ensures
        opens(MEMORY_UNANCHOR_ENTITY_SQL@, "DELETE FROM memory_code_anchor"@),
        mentions(MEMORY_UNANCHOR_ENTITY_SQL@, "memory_code_anchor WHERE id = "@, 1),
{
    reveal_strlit(
        "DELETE FROM memory_code_anchor WHERE id = $1",
    );
    reveal_strlit("DELETE FROM memory_code_anchor");
    reveal_strlit("memory_code_anchor WHERE id = ");
    let t = MEMORY_UNANCHOR_ENTITY_SQL@;
    assert(part_at(t, 0, "DELETE FROM memory_code_anchor"@));
    assert(part_at(t, 12, "memory_code_anchor WHERE id = "@));
}

/// What the text of [`MEMORY_FIND_CODE_FOR_ENTITY_SQL`] says.
pub proof fn memory_find_code_for_entity_text()
    ensures
        opens(MEMORY_FIND_CODE_FOR_ENTITY_SQL@, "SELECT"@),
        mentions(MEMORY_FIND_CODE_FOR_ENTITY_SQL@, "entity_id = "@, 1),
        mentions(MEMORY_FIND_CODE_FOR_ENTITY_SQL@, "anchor_type = "@, 2),
        says(MEMORY_FIND_CODE_FOR_ENTITY_SQL@, "ORDER BY created_at DESC"@),
        says(MEMORY_FIND_CODE_FOR_ENTITY_SQL@, "FROM memory_code_anchor"@),
{
    reveal_strlit(
        "SELECT id, entity_id, file_id, chunk_id, topic_id, symbol_id, project_id, anchor_type, created_at
         FROM memory_code_anchor
         WHERE entity_id = $1
           AND ($2::text IS NULL OR anchor_type = $2)
         ORDER BY created_at DESC",
    );
    reveal_strlit("FROM memory_code_anchor");
    reveal_strlit("ORDER BY created_at DESC");
    reveal_strlit("SELECT");
    reveal_strlit("anchor_type = ");
    reveal_strlit("entity_id = ");
    let t = MEMORY_FIND_CODE_FOR_ENTITY_SQL@;
    assert(part_at(t, 0, "SELECT"@));
    assert(part_at(t, 146, "entity_id = "@));
    assert(part_at(t, 197, "anchor_type = "@));
    assert(part_at(t, 224, "ORDER BY created_at DESC"@));
    assert(part_at(t, 107, "FROM memory_code_anchor"@));
}

/// What the text of [`MEMORY_FIND_ENTITIES_FOR_CODE_SQL`] says.
pub proof fn memory_find_entities_for_code_text()
    ensures
        opens(MEMORY_FIND_ENTITIES_FOR_CODE_SQL@, "SELECT"@),
        mentions(MEMORY_FIND_ENTITIES_FOR_CODE_SQL@, "WHERE ("@, 1),
        mentions(MEMORY_FIND_ENTITIES_FOR_CODE_SQL@, "chunk_id = "@, 2),
        mentions(MEMORY_FIND_ENTITIES_FOR_CODE_SQL@, "topic_id = "@, 3),
        mentions(MEMORY_FIND_ENTITIES_FOR_CODE_SQL@, "symbol_id = "@, 4),
        mentions(MEMORY_FIND_ENTITIES_FOR_CODE_SQL@, "project_id = "@, 5),
        says(MEMORY_FIND_ENTITIES_FOR_CODE_SQL@, "ORDER BY created_at DESC"@),
        says(MEMORY_FIND_ENTITIES_FOR_CODE_SQL@, "FROM memory_code_anchor"@),
{
    reveal_strlit(
        "SELECT id, entity_id, file_id, chunk_id, topic_id, symbol_id, project_id, anchor_type, created_at
         FROM memory_code_anchor
         WHERE ($1::bigint IS NOT NULL AND file_id  = $1)
            OR ($2::bigint IS NOT NULL AND chunk_id = $2)
            OR ($3::bigint IS NOT NULL AND topic_id = $3)
            OR ($4::bigint IS NOT NULL AND symbol_id = $4)
            OR ($5::int    IS NOT NULL AND project_id = $5)
         ORDER BY created_at DESC",
    );
    reveal_strlit("FROM memory_code_anchor");
    reveal_strlit("ORDER BY created_at DESC");
    reveal_strlit("SELECT");
    reveal_strlit("WHERE (");
    reveal_strlit("chunk_id = ");
    reveal_strlit("project_id = ");
    reveal_strlit("symbol_id = ");
    reveal_strlit("topic_id = ");
    let t = MEMORY_FIND_ENTITIES_FOR_CODE_SQL@;
    assert(part_at(t, 0, "SELECT"@));
    assert(part_at(t, 140, "WHERE ("@));
    assert(part_at(t, 232, "chunk_id = "@));
    assert(part_at(t, 290, "topic_id = "@));
    assert(part_at(t, 348, "symbol_id = "@));
    assert(part_at(t, 407, "project_id = "@));
    assert(part_at(t, 433, "ORDER BY created_at DESC"@));
    assert(part_at(t, 107, "FROM memory_code_anchor"@));
}

/// What the text of [`UNIFIED_EDGES_SQL`] says.
pub proof fn unified_edges_text()
    ensures
        opens(UNIFIED_EDGES_SQL@, "SELECT"@),
        says(UNIFIED_EDGES_SQL@, "FROM memory_unified_edges"@),
{
    reveal_strlit(
        "SELECT from_id, to_id, weight FROM memory_unified_edges",
    );
    reveal_strlit("FROM memory_unified_edges");
    reveal_strlit("SELECT");
    let t = UNIFIED_EDGES_SQL@;
    assert(part_at(t, 0, "SELECT"@));
    assert(part_at(t, 30, "FROM memory_unified_edges"@));
}

/// What the text of [`UNIFIED_NODES_BY_ID_SQL`] says.
pub proof fn unified_nodes_by_id_text()
    ensures
        opens(UNIFIED_NODES_BY_ID_SQL@, "SELECT"@),
        mentions(UNIFIED_NODES_BY_ID_SQL@, "node_id = ANY("@, 1),
        says(UNIFIED_NODES_BY_ID_SQL@, "FROM memory_unified_nodes"@),
{
    reveal_strlit(
        "SELECT node_id, node_type, label
             FROM memory_unified_nodes
             WHERE node_id = ANY($1)",
    );
    reveal_strlit("FROM memory_unified_nodes");
    reveal_strlit("SELECT");
    reveal_strlit("node_id = ANY(");
    let t = UNIFIED_NODES_BY_ID_SQL@;
    assert(part_at(t, 0, "SELECT"@));
    assert(part_at(t, 91, "node_id = ANY("@));
    assert(part_at(t, 46, "FROM memory_unified_nodes"@));
}

/// What the text of [`OPEN_NODE_OBSERVATIONS_SQL`] says.
pub proof fn open_node_observations_text()
    ensures
        opens(OPEN_NODE_OBSERVATIONS_SQL@, "SELECT"@),
        mentions(OPEN_NODE_OBSERVATIONS_SQL@, "entity_id = "@, 1),
        says(OPEN_NODE_OBSERVATIONS_SQL@, "ORDER BY created_at"@),
        says(OPEN_NODE_OBSERVATIONS_SQL@, "FROM memory_observations"@),
{
    reveal_strlit(
        "SELECT content FROM memory_observations
             WHERE entity_id = $1 AND valid_to IS NULL
             ORDER BY created_at",
    );
    reveal_strlit("FROM memory_observations");
    reveal_strlit("ORDER BY created_at");
    reveal_strlit("SELECT");
    reveal_strlit("entity_id = ");
    let t = OPEN_NODE_OBSERVATIONS_SQL@;
    assert(part_at(t, 0, "SELECT"@));
    assert(part_at(t, 59, "entity_id = "@));
    assert(part_at(t, 108, "ORDER BY created_at"@));
    assert(part_at(t, 15, "FROM memory_observations"@));
}

/// What the text of [`OPEN_NODE_RELATIONS_OUT_SQL`] says.
pub proof fn open_node_relations_out_text()
    ensures
        opens(OPEN_NODE_RELATIONS_OUT_SQL@, "SELECT"@),
        mentions(OPEN_NODE_RELATIONS_OUT_SQL@, "r.from_entity_id = "@, 1),
        says(OPEN_NODE_RELATIONS_OUT_SQL@, "FROM memory_relations"@),
        says(OPEN_NODE_RELATIONS_OUT_SQL@, "JOIN memory_entities a ON a.id = r.from_entity_id"@),
        says(OPEN_NODE_RELATIONS_OUT_SQL@, "JOIN memory_entities b ON b.id = r.to_entity_id"@),
{
    reveal_strlit(
        "SELECT a.name AS from_name, b.name AS to_name, r.relation_type
             FROM memory_relations r
             JOIN memory_entities a ON a.id = r.from_entity_id
             JOIN memory_entities b ON b.id = r.to_entity_id
             WHERE r.from_entity_id = $1 AND r.valid_to IS NULL",
    );
    reveal_strlit("FROM memory_relations");
    reveal_strlit("JOIN memory_entities a ON a.id = r.from_entity_id");
    reveal_strlit("JOIN memory_entities b ON b.id = r.to_entity_id");
    reveal_strlit("SELECT");
    reveal_strlit("r.from_entity_id = ");
    let t = OPEN_NODE_RELATIONS_OUT_SQL@;
    assert(part_at(t, 0, "SELECT"@));
    assert(part_at(t, 243, "r.from_entity_id = "@));
    assert(part_at(t, 76, "FROM memory_relations"@));
    assert(part_at(t, 113, "JOIN memory_entities a ON a.id = r.from_entity_id"@));
    assert(part_at(t, 176, "JOIN memory_entities b ON b.id = r.to_entity_id"@));
}

/// What the text of [`OPEN_NODE_RELATIONS_IN_SQL`] says.
pub proof fn open_node_relations_in_text()
    ensures
        opens(OPEN_NODE_RELATIONS_IN_SQL@, "SELECT"@),
        mentions(OPEN_NODE_RELATIONS_IN_SQL@, "r.to_entity_id = "@, 1),
        says(OPEN_NODE_RELATIONS_IN_SQL@, "FROM memory_relations"@),
        says(OPEN_NODE_RELATIONS_IN_SQL@, "JOIN memory_entities a ON a.id = r.from_entity_id"@),
        says(OPEN_NODE_RELATIONS_IN_SQL@, "JOIN memory_entities b ON b.id = r.to_entity_id"@),
{
    reveal_strlit(
        "SELECT a.name AS from_name, b.name AS to_name, r.relation_type
             FROM memory_relations r
             JOIN memory_entities a ON a.id = r.from_entity_id
             JOIN memory_entities b ON b.id = r.to_entity_id
             WHERE r.to_entity_id = $1 AND r.valid_to IS NULL",
    );
    reveal_strlit("FROM memory_relations");
    reveal_strlit("JOIN memory_entities a ON a.id = r.from_entity_id");
    reveal_strlit("JOIN memory_entities b ON b.id = r.to_entity_id");
    reveal_strlit("SELECT");
    reveal_strlit("r.to_entity_id = ");
    let t = OPEN_NODE_RELATIONS_IN_SQL@;
    assert(part_at(t, 0, "SELECT"@));
    assert(part_at(t, 243, "r.to_entity_id = "@));
    assert(part_at(t, 76, "FROM memory_relations"@));
    assert(part_at(t, 113, "JOIN memory_entities a ON a.id = r.from_entity_id"@));
    assert(part_at(t, 176, "JOIN memory_entities b ON b.id = r.to_entity_id"@));
}

/// What the text of [`READ_GRAPH_OBSERVATIONS_SQL`] says.
pub proof fn read_graph_observations_text()
    ensures
        opens(READ_GRAPH_OBSERVATIONS_SQL@, "SELECT"@),
        mentions(READ_GRAPH_OBSERVATIONS_SQL@, "entity_id = ANY("@, 1),
        says(READ_GRAPH_OBSERVATIONS_SQL@, "ORDER BY entity_id, created_at"@),
        says(READ_GRAPH_OBSERVATIONS_SQL@, "FROM memory_observations"@),
{
    reveal_strlit(
        "SELECT id, entity_id, content, importance, source::text AS source,
                    created_at, valid_from, valid_to
             FROM memory_observations
             WHERE entity_id = ANY($1) AND valid_to IS NULL
             ORDER BY entity_id, created_at",
    );
    reveal_strlit("FROM memory_observations");
    reveal_strlit("ORDER BY entity_id, created_at");
    reveal_strlit("SELECT");
    reveal_strlit("entity_id = ANY(");
    let t = READ_GRAPH_OBSERVATIONS_SQL@;
    assert(part_at(t, 0, "SELECT"@));
    assert(part_at(t, 177, "entity_id = ANY("@));
    assert(part_at(t, 231, "ORDER BY entity_id, created_at"@));
    assert(part_at(t, 133, "FROM memory_observations"@));
}

/// What the text of [`READ_GRAPH_RELATIONS_SQL`] says.
pub proof fn read_graph_relations_text()
    ensures
        opens(READ_GRAPH_RELATIONS_SQL@, "SELECT"@),
        mentions(READ_GRAPH_RELATIONS_SQL@, "r.from_entity_id = ANY("@, 1),
        says(READ_GRAPH_RELATIONS_SQL@, "WHERE r.valid_to IS NULL"@),
        says(READ_GRAPH_RELATIONS_SQL@, "FROM memory_relations"@),
        says(READ_GRAPH_RELATIONS_SQL@, "JOIN memory_entities a ON a.id = r.from_entity_id"@),
        says(READ_GRAPH_RELATIONS_SQL@, "JOIN memory_entities b ON b.id = r.to_entity_id"@),
{
    reveal_strlit(
        "SELECT r.id, r.from_entity_id, r.to_entity_id,
                    a.name AS from_name, b.name AS to_name, r.relation_type
             FROM memory_relations r
             JOIN memory_entities a ON a.id = r.from_entity_id
             JOIN memory_entities b ON b.id = r.to_entity_id
             WHERE r.valid_to IS NULL
               AND (r.from_entity_id = ANY($1) OR r.to_entity_id = ANY($1))",
    );
    reveal_strlit("FROM memory_relations");
    reveal_strlit("JOIN memory_entities a ON a.id = r.from_entity_id");
    reveal_strlit("JOIN memory_entities b ON b.id = r.to_entity_id");
    reveal_strlit("SELECT");
    reveal_strlit("WHERE r.valid_to IS NULL");
    reveal_strlit("r.from_entity_id = ANY(");
    let t = READ_GRAPH_RELATIONS_SQL@;
    assert(part_at(t, 0, "SELECT"@));
    assert(part_at(t, 342, "r.from_entity_id = ANY("@));
    assert(part_at(t, 297, "WHERE r.valid_to IS NULL"@));
    assert(part_at(t, 136, "FROM memory_relations"@));
    assert(part_at(t, 173, "JOIN memory_entities a ON a.id = r.from_entity_id"@));
    assert(part_at(t, 236, "JOIN memory_entities b ON b.id = r.to_entity_id"@));
}

/// What the text of [`FACTS_AT_OBSERVATIONS_SQL`] says.
pub proof fn facts_at_observations_text()
    ensures
        opens(FACTS_AT_OBSERVATIONS_SQL@, "SELECT"@),
        mentions(FACTS_AT_OBSERVATIONS_SQL@, "entity_id = ANY("@, 1),
        mentions(FACTS_AT_OBSERVATIONS_SQL@, "valid_from <= "@, 2),
        says(FACTS_AT_OBSERVATIONS_SQL@, "ORDER BY entity_id, created_at"@),
        says(FACTS_AT_OBSERVATIONS_SQL@, "FROM memory_observations"@),
{
    reveal_strlit(
        "SELECT id, entity_id, content, importance, source::text AS source,
                    created_at, valid_from, valid_to
             FROM memory_observations
             WHERE entity_id = ANY($1)
               AND valid_from <= $2
               AND (valid_to IS NULL OR valid_to > $2)
             ORDER BY entity_id, created_at",
    );
    reveal_strlit("FROM memory_observations");
    reveal_strlit("ORDER BY entity_id, created_at");
    reveal_strlit("SELECT");
    reveal_strlit("entity_id = ANY(");
    reveal_strlit("valid_from <= ");
    let t = FACTS_AT_OBSERVATIONS_SQL@;
    assert(part_at(t, 0, "SELECT"@));
    assert(part_at(t, 177, "entity_id = ANY("@));
    assert(part_at(t, 216, "valid_from <= "@));
    assert(part_at(t, 301, "ORDER BY entity_id, created_at"@));
    assert(part_at(t, 133, "FROM memory_observations"@));
}

/// What the text of [`FACTS_AT_RELATIONS_SQL`] says.
pub proof fn facts_at_relations_text()
    ensures
        opens(FACTS_AT_RELATIONS_SQL@, "SELECT"@),
        mentions(FACTS_AT_RELATIONS_SQL@, "r.from_entity_id = ANY("@, 1),
        mentions(FACTS_AT_RELATIONS_SQL@, "r.valid_from <= "@, 2),
        says(FACTS_AT_RELATIONS_SQL@, "FROM memory_relations"@),
        says(FACTS_AT_RELATIONS_SQL@, "JOIN memory_entities a ON a.id = r.from_entity_id"@),
        says(FACTS_AT_RELATIONS_SQL@, "JOIN memory_entities b ON b.id = r.to_entity_id"@),
{
    reveal_strlit(
        "SELECT r.id, r.from_entity_id, r.to_entity_id,
                    a.name AS from_name, b.name AS to_name, r.relation_type
             FROM memory_relations r
             JOIN memory_entities a ON a.id = r.from_entity_id
             JOIN memory_entities b ON b.id = r.to_entity_id
             WHERE r.valid_from <= $2
               AND (r.valid_to IS NULL OR r.valid_to > $2)
               AND (r.from_entity_id = ANY($1) OR r.to_entity_id = ANY($1))",
    );
    reveal_strlit("FROM memory_relations");
    reveal_strlit("JOIN memory_entities a ON a.id = r.from_entity_id");
    reveal_strlit("JOIN memory_entities b ON b.id = r.to_entity_id");
    reveal_strlit("SELECT");
    reveal_strlit("r.from_entity_id = ANY(");
    reveal_strlit("r.valid_from <= ");
    let t = FACTS_AT_RELATIONS_SQL@;
    assert(part_at(t, 0, "SELECT"@));
    assert(part_at(t, 401, "r.from_entity_id = ANY("@));
    assert(part_at(t, 303, "r.valid_from <= "@));
    assert(part_at(t, 136, "FROM memory_relations"@));
    assert(part_at(t, 173, "JOIN memory_entities a ON a.id = r.from_entity_id"@));
    assert(part_at(t, 236, "JOIN memory_entities b ON b.id = r.to_entity_id"@));
}

/// What the text of [`RESOLVE_FILE_SQL`] says.
pub proof fn resolve_file_text()
    ensures
        opens(RESOLVE_FILE_SQL@, "SELECT"@),
        mentions(RESOLVE_FILE_SQL@, "relative_path = "@, 1),
        says(RESOLVE_FILE_SQL@, "FROM indexed_files"@),
{
    reveal_strlit(
        "SELECT id FROM indexed_files WHERE relative_path = $1 OR path = $1 LIMIT 1",
    );
    reveal_strlit("FROM indexed_files");
    reveal_strlit("SELECT");
    reveal_strlit("relative_path = ");
    let t = RESOLVE_FILE_SQL@;
    assert(part_at(t, 0, "SELECT"@));
    assert(part_at(t, 35, "relative_path = "@));
    assert(part_at(t, 10, "FROM indexed_files"@));
}

/// What the text of [`RESOLVE_PROJECT_SQL`] says.
pub proof fn resolve_project_text()
    ensures
        opens(RESOLVE_PROJECT_SQL@, "SELECT"@),
        mentions(RESOLVE_PROJECT_SQL@, "name = "@, 1),
        says(RESOLVE_PROJECT_SQL@, "FROM projects"@),
{
    reveal_strlit(
        "SELECT id::bigint FROM projects WHERE name = $1 OR path = $1 LIMIT 1",
    );
    reveal_strlit("FROM projects");
    reveal_strlit("SELECT");
    reveal_strlit("name = ");
    let t = RESOLVE_PROJECT_SQL@;
    assert(part_at(t, 0, "SELECT"@));
    assert(part_at(t, 38, "name = "@));
    assert(part_at(t, 18, "FROM projects"@));
}

/// What the text of [`RESOLVE_WORK_ITEM_SQL`] says.
pub proof fn resolve_work_item_text()
    ensures
        opens(RESOLVE_WORK_ITEM_SQL@, "SELECT"@),
        mentions(RESOLVE_WORK_ITEM_SQL@, "public_id = "@, 1),
        says(RESOLVE_WORK_ITEM_SQL@, "FROM work_items"@),
{
    reveal_strlit(
        "SELECT id FROM work_items WHERE public_id = $1 LIMIT 1",
    );
    reveal_strlit("FROM work_items");
    reveal_strlit("SELECT");
    reveal_strlit("public_id = ");
    let t = RESOLVE_WORK_ITEM_SQL@;
    assert(part_at(t, 0, "SELECT"@));
    assert(part_at(t, 32, "public_id = "@));
    assert(part_at(t, 10, "FROM work_items"@));
}

/// What the text of [`RESOLVE_EXPERIMENT_SQL`] says.
pub proof fn resolve_experiment_text()
    ensures
        opens(RESOLVE_EXPERIMENT_SQL@, "SELECT"@),
        mentions(RESOLVE_EXPERIMENT_SQL@, "slug = "@, 1),
        says(RESOLVE_EXPERIMENT_SQL@, "FROM experiments"@),
{
    reveal_strlit(
        "SELECT id FROM experiments WHERE slug = $1 AND valid_to IS NULL LIMIT 1",
    );
    reveal_strlit("FROM experiments");
    reveal_strlit("SELECT");
    reveal_strlit("slug = ");
    let t = RESOLVE_EXPERIMENT_SQL@;
    assert(part_at(t, 0, "SELECT"@));
    assert(part_at(t, 33, "slug = "@));
    assert(part_at(t, 10, "FROM experiments"@));
}

/// What the text of [`RESOLVE_TOPIC_SQL`] says.
pub proof fn resolve_topic_text()
    ensures
        opens(RESOLVE_TOPIC_SQL@, "SELECT"@),
        mentions(RESOLVE_TOPIC_SQL@, "label = "@, 1),
        says(RESOLVE_TOPIC_SQL@, "FROM code_topics"@),
{
    reveal_strlit(
        "SELECT id FROM code_topics WHERE label = $1 LIMIT 1",
    );
    reveal_strlit("FROM code_topics");
    reveal_strlit("SELECT");
    reveal_strlit("label = ");
    let t = RESOLVE_TOPIC_SQL@;
    assert(part_at(t, 0, "SELECT"@));
    assert(part_at(t, 33, "label = "@));
    assert(part_at(t, 10, "FROM code_topics"@));
}

/// What the text of [`RESOLVE_COMMIT_SQL`] says.
pub proof fn resolve_commit_text()
    ensures
        opens(RESOLVE_COMMIT_SQL@, "SELECT"@),
        mentions(RESOLVE_COMMIT_SQL@, "commit_hash = "@, 1),
        says(RESOLVE_COMMIT_SQL@, "ORDER BY author_date DESC LIMIT 1"@),
        says(RESOLVE_COMMIT_SQL@, "FROM git_commits"@),
{
    reveal_strlit(
        "SELECT id FROM git_commits WHERE commit_hash = $1 OR starts_with(commit_hash, $1) \
                 ORDER BY author_date DESC LIMIT 1",
    );
    reveal_strlit("FROM git_commits");
    reveal_strlit("ORDER BY author_date DESC LIMIT 1");
    reveal_strlit("SELECT");
    reveal_strlit("commit_hash = ");
    let t = RESOLVE_COMMIT_SQL@;
    assert(part_at(t, 0, "SELECT"@));
    assert(part_at(t, 33, "commit_hash = "@));
    assert(part_at(t, 82, "ORDER BY author_date DESC LIMIT 1"@));
    assert(part_at(t, 10, "FROM git_commits"@));
}

/// What the text of [`RESOLVE_SYMBOL_SQL`] says.
pub proof fn resolve_symbol_text()
    ensures
        opens(RESOLVE_SYMBOL_SQL@, "SELECT"@),
        mentions(RESOLVE_SYMBOL_SQL@, "name = "@, 1),
        says(RESOLVE_SYMBOL_SQL@, "FROM file_symbols"@),
{
    reveal_strlit(
        "SELECT id FROM file_symbols WHERE name = $1 LIMIT 1",
    );
    reveal_strlit("FROM file_symbols");
    reveal_strlit("SELECT");
    reveal_strlit("name = ");
    let t = RESOLVE_SYMBOL_SQL@;
    assert(part_at(t, 0, "SELECT"@));
    assert(part_at(t, 34, "name = "@));
    assert(part_at(t, 10, "FROM file_symbols"@));
}

/// What the text of [`WALK_PATHS_SQL`] says.
#[verifier::rlimit(100)]
pub proof fn walk_paths_text()
    ensures
        opens(WALK_PATHS_SQL@, "WITH RECURSIVE"@),
        mentions(WALK_PATHS_SQL@, "s.node_id = ANY("@, 1),
        mentions(WALK_PATHS_SQL@, "w.hops < "@, 2),
        mentions(WALK_PATHS_SQL@, "current_type = ANY("@, 3),
        mentions(WALK_PATHS_SQL@, "e.valid_from <= "@, 4),
        mentions(WALK_PATHS_SQL@, "GREATEST("@, 5),
        says(WALK_PATHS_SQL@, "WHERE hops > 0"@),
        says(WALK_PATHS_SQL@, "ORDER BY hops, weight_product DESC"@),
        says(WALK_PATHS_SQL@, "FROM memory_unified_nodes"@),
        says(WALK_PATHS_SQL@, "JOIN memory_unified_edges e"@),
{
    reveal_strlit(
        "WITH RECURSIVE walk(start_id, current_id, current_type,
                              last_edge, last_to_type, weight_product, hops,
                              path_nodes, path_edges) AS (
             SELECT s.node_id, s.node_id, s.node_type,
                    ''::text, s.node_type, 1.0::float8, 0::int,
                    ARRAY[s.node_id], ARRAY[]::text[]
             FROM memory_unified_nodes s
             WHERE s.node_id = ANY($1)
             UNION
             SELECT w.start_id,
                    CASE WHEN e.from_id = w.current_id THEN e.to_id ELSE e.from_id END,
                    CASE WHEN e.from_id = w.current_id THEN e.to_type ELSE e.from_type END,
                    e.edge_type,
                    CASE WHEN e.from_id = w.current_id THEN e.to_type ELSE e.from_type END,
                    w.weight_product * e.weight
                        * (CASE WHEN e.valid_from IS NULL THEN 1.0
                                ELSE exp(-0.6931471805599453
                                         * GREATEST(0.0, EXTRACT(EPOCH FROM (now() - e.valid_from)) / 86400.0)
                                         / GREATEST($5::float8, 0.001)) END),
                    w.hops + 1,
                    w.path_nodes || (CASE WHEN e.from_id = w.current_id THEN e.to_id ELSE e.from_id END),
                    w.path_edges || e.edge_type
             FROM walk w
             JOIN memory_unified_edges e
                  ON e.from_id = w.current_id OR e.to_id = w.current_id
             WHERE w.hops < $2
               AND NOT (
                   CASE WHEN e.from_id = w.current_id THEN e.to_id ELSE e.from_id END
                       = ANY(w.path_nodes)
               )
               AND ($4::timestamptz IS NULL OR e.valid_from IS NULL
                    OR (e.valid_from <= $4 AND (e.valid_to IS NULL OR e.valid_to > $4)))
         )
         SELECT start_id, current_id, current_type, last_edge, last_to_type,
                weight_product, hops
         FROM walk
         WHERE hops > 0
           AND ($3::text[] IS NULL OR current_type = ANY($3))
         ORDER BY hops, weight_product DESC
         LIMIT 400",
    );
    reveal_strlit("FROM memory_unified_nodes");
    reveal_strlit("GREATEST(");
    reveal_strlit("JOIN memory_unified_edges e");
    reveal_strlit("ORDER BY hops, weight_product DESC");
    reveal_strlit("WHERE hops > 0");
    reveal_strlit("WITH RECURSIVE");
    reveal_strlit("current_type = ANY(");
    reveal_strlit("e.valid_from <= ");
    reveal_strlit("s.node_id = ANY(");
    reveal_strlit("w.hops < ");
    let t = WALK_PATHS_SQL@;
    assert(part_at(t, 0, "WITH RECURSIVE"@));
    assert(part_at(t, 425, "s.node_id = ANY("@));
    assert(part_at(t, 1509, "w.hops < "@));
    assert(part_at(t, 2055, "current_type = ANY("@));
    assert(part_at(t, 1784, "e.valid_from <= "@));
    assert(part_at(t, 1131, "GREATEST("@));
    assert(part_at(t, 2002, "WHERE hops > 0"@));
    assert(part_at(t, 2088, "ORDER BY hops, weight_product DESC"@));
    assert(part_at(t, 378, "FROM memory_unified_nodes"@));
    assert(part_at(t, 1390, "JOIN memory_unified_edges e"@));
}

/// What the text of [`RANK_PATHS_SQL`] says.
#[verifier::rlimit(100)]
pub proof fn rank_paths_text()
    ensures
        opens(RANK_PATHS_SQL@, "WITH RECURSIVE"@),
        mentions(RANK_PATHS_SQL@, "s.node_id = ANY("@, 1),
        mentions(RANK_PATHS_SQL@, "w.hops < "@, 2),
        mentions(RANK_PATHS_SQL@, "n.node_type = ANY("@, 3),
        mentions(RANK_PATHS_SQL@, "e.valid_from <= "@, 4),
        mentions(RANK_PATHS_SQL@, "GREATEST("@, 5),
        mentions(RANK_PATHS_SQL@, "n.embedding <=> "@, 6),
        says(RANK_PATHS_SQL@, "WHERE hops > 0"@),
        says(RANK_PATHS_SQL@, "ORDER BY weight_product DESC, hops"@),
        says(RANK_PATHS_SQL@, "FROM memory_unified_nodes"@),
        says(RANK_PATHS_SQL@, "JOIN memory_unified_edges e"@),
        says(RANK_PATHS_SQL@, "JOIN memory_unified_nodes n ON n.node_id = walk.current_id"@),
{
    reveal_strlit(
        "WITH RECURSIVE walk(start_id, current_id, weight_product, hops,
                              path_nodes, path_edges) AS (
             SELECT s.node_id, s.node_id, 1.0::float8, 0::int,
                    ARRAY[s.node_id], ARRAY[]::text[]
             FROM memory_unified_nodes s
             WHERE s.node_id = ANY($1)
             UNION
             SELECT w.start_id,
                    CASE WHEN e.from_id = w.current_id THEN e.to_id ELSE e.from_id END,
                    w.weight_product * e.weight
                        * (CASE WHEN e.valid_from IS NULL THEN 1.0
                                ELSE exp(-0.6931471805599453
                                         * GREATEST(0.0, EXTRACT(EPOCH FROM (now() - e.valid_from)) / 86400.0)
                                         / GREATEST($5::float8, 0.001)) END),
                    w.hops + 1,
                    w.path_nodes || (CASE WHEN e.from_id = w.current_id THEN e.to_id ELSE e.from_id END),
                    w.path_edges || e.edge_type
             FROM walk w
             JOIN memory_unified_edges e
                  ON e.from_id = w.current_id OR e.to_id = w.current_id
             WHERE w.hops < $2
               AND NOT (
                   CASE WHEN e.from_id = w.current_id THEN e.to_id ELSE e.from_id END
                       = ANY(w.path_nodes)
               )
               AND ($4::timestamptz IS NULL OR e.valid_from IS NULL
                    OR (e.valid_from <= $4 AND (e.valid_to IS NULL OR e.valid_to > $4)))
         ),
         filtered AS (
             SELECT path_nodes, path_edges, weight_product, hops,
                    COALESCE(1 - (n.embedding <=> $6), 0)::float8 AS similarity
             FROM walk
             JOIN memory_unified_nodes n ON n.node_id = walk.current_id
             WHERE hops > 0
               AND ($3::text[] IS NULL OR n.node_type = ANY($3))
         )
         SELECT path_nodes, path_edges, weight_product, hops, similarity
         FROM filtered
         ORDER BY weight_product DESC, hops
         LIMIT 200",
    );
    reveal_strlit("FROM memory_unified_nodes");
    reveal_strlit("GREATEST(");
    reveal_strlit("JOIN memory_unified_edges e");
    reveal_strlit("JOIN memory_unified_nodes n ON n.node_id = walk.current_id");
    reveal_strlit("ORDER BY weight_product DESC, hops");
    reveal_strlit("WHERE hops > 0");
    reveal_strlit("WITH RECURSIVE");
    reveal_strlit("e.valid_from <= ");
    reveal_strlit("n.embedding <=> ");
    reveal_strlit("n.node_type = ANY(");
    reveal_strlit("s.node_id = ANY(");
    reveal_strlit("w.hops < ");
    let t = RANK_PATHS_SQL@;
    assert(part_at(t, 0, "WITH RECURSIVE"@));
    assert(part_at(t, 300, "s.node_id = ANY("@));
    assert(part_at(t, 1167, "w.hops < "@));
    assert(part_at(t, 1853, "n.node_type = ANY("@));
    assert(part_at(t, 1442, "e.valid_from <= "@));
    assert(part_at(t, 789, "GREATEST("@));
    assert(part_at(t, 1642, "n.embedding <=> "@));
    assert(part_at(t, 1796, "WHERE hops > 0"@));
    assert(part_at(t, 1992, "ORDER BY weight_product DESC, hops"@));
    assert(part_at(t, 253, "FROM memory_unified_nodes"@));
    assert(part_at(t, 1048, "JOIN memory_unified_edges e"@));
    assert(part_at(t, 1724, "JOIN memory_unified_nodes n ON n.node_id = walk.current_id"@));
}

/// Each kind of node is looked up in its own table, by its natural key.
pub proof fn law_nodes_are_looked_up_by_their_natural_key()
    ensures
        natural_key_query("file"@) is Some,
        mentions(natural_key_query("file"@)->0, "relative_path = "@, 1),
        says(natural_key_query("file"@)->0, "FROM indexed_files"@),
        natural_key_query("project"@) is Some,
        mentions(natural_key_query("project"@)->0, "name = "@, 1),
        says(natural_key_query("project"@)->0, "FROM projects"@),
        natural_key_query("work_item"@) is Some,
        mentions(natural_key_query("work_item"@)->0, "public_id = "@, 1),
        says(natural_key_query("work_item"@)->0, "FROM work_items"@),
        natural_key_query("experiment"@) is Some,
        mentions(natural_key_query("experiment"@)->0, "slug = "@, 1),
        says(natural_key_query("experiment"@)->0, "FROM experiments"@),
        natural_key_query("topic"@) is Some,
        mentions(natural_key_query("topic"@)->0, "label = "@, 1),
        says(natural_key_query("topic"@)->0, "FROM code_topics"@),
        natural_key_query("commit"@) is Some,
        mentions(natural_key_query("commit"@)->0, "commit_hash = "@, 1),
        says(natural_key_query("commit"@)->0, "ORDER BY author_date DESC LIMIT 1"@),
        says(natural_key_query("commit"@)->0, "FROM git_commits"@),
        natural_key_query("symbol"@) is Some,
        mentions(natural_key_query("symbol"@)->0, "name = "@, 1),
        says(natural_key_query("symbol"@)->0, "FROM file_symbols"@),
{
    resolve_file_text();
    resolve_project_text();
    resolve_work_item_text();
    resolve_experiment_text();
    resolve_topic_text();
    resolve_commit_text();
    resolve_symbol_text();
    reveal_strlit("file");
    reveal_strlit("project");
    reveal_strlit("work_item");
    reveal_strlit("experiment");
    reveal_strlit("topic");
    reveal_strlit("commit");
    reveal_strlit("symbol");
    assert("file"@.len() != "project"@.len());
    assert("file"@.len() != "work_item"@.len());
    assert("file"@.len() != "experiment"@.len());
    assert("file"@.len() != "topic"@.len());
    assert("file"@.len() != "commit"@.len());
    assert("file"@.len() != "symbol"@.len());
    assert("project"@.len() != "work_item"@.len());
    assert("project"@.len() != "experiment"@.len());
    assert("project"@.len() != "topic"@.len());
    assert("project"@.len() != "commit"@.len());
    assert("project"@.len() != "symbol"@.len());
    assert("work_item"@.len() != "experiment"@.len());
    assert("work_item"@.len() != "topic"@.len());
    assert("work_item"@.len() != "commit"@.len());
    assert("work_item"@.len() != "symbol"@.len());
    assert("experiment"@.len() != "topic"@.len());
    assert("experiment"@.len() != "commit"@.len());
    assert("experiment"@.len() != "symbol"@.len());
    assert("topic"@.len() != "commit"@.len());
    assert("topic"@.len() != "symbol"@.len());
    assert("commit"@[0] != "symbol"@[0]);
}

/// The observations of a moment are those that held at it.
pub proof fn law_dated_observations_are_of_the_moment(ids: Seq<i64>)
    ensures
        opens(dated_facts(FACTS_AT_OBSERVATIONS_SQL@, ids).sql, "SELECT"@),
        takes(
            dated_facts(FACTS_AT_OBSERVATIONS_SQL@, ids),
            "entity_id = ANY("@,
            BindView::BigIntArray(ids),
        ),
        takes(
            dated_facts(FACTS_AT_OBSERVATIONS_SQL@, ids),
            "valid_from <= "@,
            BindView::Supplied(0),
        ),
        says(dated_facts(FACTS_AT_OBSERVATIONS_SQL@, ids).sql, "ORDER BY entity_id, created_at"@),
        says(dated_facts(FACTS_AT_OBSERVATIONS_SQL@, ids).sql, "FROM memory_observations"@),
{
    facts_at_observations_text();
    assert(dated_facts(FACTS_AT_OBSERVATIONS_SQL@, ids).sql == FACTS_AT_OBSERVATIONS_SQL@);
}

/// The relations of a moment are those that held at it.
pub proof fn law_dated_relations_are_of_the_moment(ids: Seq<i64>)
    ensures
        opens(dated_facts(FACTS_AT_RELATIONS_SQL@, ids).sql, "SELECT"@),
        takes(
            dated_facts(FACTS_AT_RELATIONS_SQL@, ids),
            "r.from_entity_id = ANY("@,
            BindView::BigIntArray(ids),
        ),
        takes(
            dated_facts(FACTS_AT_RELATIONS_SQL@, ids),
            "r.valid_from <= "@,
            BindView::Supplied(0),
        ),
        says(dated_facts(FACTS_AT_RELATIONS_SQL@, ids).sql, "FROM memory_relations"@),
        says(
            dated_facts(FACTS_AT_RELATIONS_SQL@, ids).sql,
            "JOIN memory_entities a ON a.id = r.from_entity_id"@,
        ),
        says(
            dated_facts(FACTS_AT_RELATIONS_SQL@, ids).sql,
            "JOIN memory_entities b ON b.id = r.to_entity_id"@,
        ),
{
    facts_at_relations_text();
    assert(dated_facts(FACTS_AT_RELATIONS_SQL@, ids).sql == FACTS_AT_RELATIONS_SQL@);
}

/// Paths start at the seeds, have at most the hops that are asked for, and end at
/// the kinds of nodes that are asked for.
pub proof fn law_walks_start_at_the_seeds(
    seed_ids: Seq<Seq<char>>,
    max_hops: i32,
    target_node_types: Option<Seq<Seq<char>>>,
)
    ensures
        opens(walks(WALK_PATHS_SQL@, seed_ids, max_hops, target_node_types).sql, "WITH RECURSIVE"@),
        takes(
            walks(WALK_PATHS_SQL@, seed_ids, max_hops, target_node_types),
            "s.node_id = ANY("@,
            BindView::TextArray(seed_ids),
        ),
        takes(
            walks(WALK_PATHS_SQL@, seed_ids, max_hops, target_node_types),
            "w.hops < "@,
            BindView::Int(clamped(max_hops as int, 1, 5) as i32),
        ),
        takes(
            walks(WALK_PATHS_SQL@, seed_ids, max_hops, target_node_types),
            "current_type = ANY("@,
            BindView::MaybeTextArray(target_node_types),
        ),
        takes(
            walks(WALK_PATHS_SQL@, seed_ids, max_hops, target_node_types),
            "e.valid_from <= "@,
            BindView::Supplied(0),
        ),
        takes(
            walks(WALK_PATHS_SQL@, seed_ids, max_hops, target_node_types),
            "GREATEST("@,
            BindView::Supplied(1),
        ),
        says(walks(WALK_PATHS_SQL@, seed_ids, max_hops, target_node_types).sql, "WHERE hops > 0"@),
        says(
            walks(WALK_PATHS_SQL@, seed_ids, max_hops, target_node_types).sql,
            "ORDER BY hops, weight_product DESC"@,
        ),
        says(
            walks(WALK_PATHS_SQL@, seed_ids, max_hops, target_node_types).sql,
            "FROM memory_unified_nodes"@,
        ),
        says(
            walks(WALK_PATHS_SQL@, seed_ids, max_hops, target_node_types).sql,
            "JOIN memory_unified_edges e"@,
        ),
{
    walk_paths_text();
    assert(walks(WALK_PATHS_SQL@, seed_ids, max_hops, target_node_types).sql == WALK_PATHS_SQL@);
}

/// Paths to be ranked are those that walks from the seeds find.
pub proof fn law_ranked_paths_start_at_the_seeds(
    seed_ids: Seq<Seq<char>>,
    max_hops: i32,
    target_node_types: Option<Seq<Seq<char>>>,
)
    ensures
        opens(ranks(seed_ids, max_hops, target_node_types).sql, "WITH RECURSIVE"@),
        takes(
            ranks(seed_ids, max_hops, target_node_types),
            "s.node_id = ANY("@,
            BindView::TextArray(seed_ids),
        ),
        takes(
            ranks(seed_ids, max_hops, target_node_types),
            "w.hops < "@,
            BindView::Int(clamped(max_hops as int, 1, 5) as i32),
        ),
        takes(
            ranks(seed_ids, max_hops, target_node_types),
            "n.node_type = ANY("@,
            BindView::MaybeTextArray(target_node_types),
        ),
        takes(
            ranks(seed_ids, max_hops, target_node_types),
            "e.valid_from <= "@,
            BindView::Supplied(0),
        ),
        takes(ranks(seed_ids, max_hops, target_node_types), "GREATEST("@, BindView::Supplied(1)),
        takes(
            ranks(seed_ids, max_hops, target_node_types),
            "n.embedding <=> "@,
            BindView::Supplied(2),
        ),
        says(ranks(seed_ids, max_hops, target_node_types).sql, "WHERE hops > 0"@),
        says(
            ranks(seed_ids, max_hops, target_node_types).sql,
            "ORDER BY weight_product DESC, hops"@,
        ),
        says(ranks(seed_ids, max_hops, target_node_types).sql, "FROM memory_unified_nodes"@),
        says(ranks(seed_ids, max_hops, target_node_types).sql, "JOIN memory_unified_edges e"@),
        says(
            ranks(seed_ids, max_hops, target_node_types).sql,
            "JOIN memory_unified_nodes n ON n.node_id = walk.current_id"@,
        ),
{
    rank_paths_text();
    assert(ranks(seed_ids, max_hops, target_node_types).sql == RANK_PATHS_SQL@);
}

} // verus!
