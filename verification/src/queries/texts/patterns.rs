//! What the statements of `patterns` say.
use vstd::prelude::*;

use crate::meaning::{
    ends_plainly, fills, item, lined_up_at, lines_up, mentions, opens, part_at, past, past_blanks,
    says, takes,
};
use crate::patterns::{
    catalog_queries, finds_source, inserts_source, opt_hash, updates_source, SourceUpsert,
    CATALOG_ANTI_PATTERNS_SQL, CATALOG_CHUNKS_MISSING_EMBEDDINGS_SQL, CATALOG_CHUNKS_SQL,
    CATALOG_CODE_SMELLS_SQL, CATALOG_PARADIGMS_SQL, CATALOG_PATTERNS_SQL, CATALOG_PRINCIPLES_SQL,
    CATALOG_SOURCES_SQL, CATALOG_SOURCE_FAMILIES_SQL, COUNT_PATTERNS_SQL, DELETE_SOURCE_CHUNKS_SQL,
    FIND_PATTERN_ID_BY_SLUG_SQL, FIND_SOURCE_SQL, FIND_SOURCE_STATE_SQL, FINISH_IMPORT_RUN_SQL,
    GET_PATTERN_SOURCES_SQL, GET_PATTERN_SQL, GET_SOURCE_EXCERPTS_SQL,
    INSERT_SMALL_SOURCE_CHUNK_SQL, INSERT_SOURCE_CHUNK_SQL, INSERT_SOURCE_SQL,
    LINK_PATTERN_PARADIGM_SQL, LINK_SOURCE_PATTERN_SQL, LIST_PATTERNS_SQL, SEARCH_PATTERNS_1,
    SEARCH_PATTERNS_2, SEARCH_PATTERNS_3, SEARCH_PATTERNS_4, START_IMPORT_RUN_SQL,
    UPDATE_SOURCE_SQL, UPDATE_SOURCE_STATUS_SQL, UPSERT_PARADIGM_SQL, UPSERT_PATTERN_SQL,
};
use crate::statement::{opt_str, BindView};

verus! {

/// What the text of [`UPSERT_PARADIGM_SQL`] says.
pub proof fn upsert_paradigm_text()
    ensures
        opens(UPSERT_PARADIGM_SQL@, "INSERT INTO programming_paradigms"@),
        lines_up(
            UPSERT_PARADIGM_SQL@,
            "INSERT INTO programming_paradigms"@,
            "slug"@,
            "VALUES ("@,
            1,
        ),
        lines_up(
            UPSERT_PARADIGM_SQL@,
            "INSERT INTO programming_paradigms"@,
            "name"@,
            "VALUES ("@,
            2,
        ),
        lines_up(
            UPSERT_PARADIGM_SQL@,
            "INSERT INTO programming_paradigms"@,
            "description"@,
            "VALUES ("@,
            3,
        ),
        lines_up(
            UPSERT_PARADIGM_SQL@,
            "INSERT INTO programming_paradigms"@,
            "wikipedia_url"@,
            "VALUES ("@,
            4,
        ),
        says(UPSERT_PARADIGM_SQL@, "ON CONFLICT (slug) DO UPDATE SET"@),
        says(UPSERT_PARADIGM_SQL@, "name = EXCLUDED.name"@),
        says(UPSERT_PARADIGM_SQL@, "description = EXCLUDED.description"@),
        says(UPSERT_PARADIGM_SQL@, "wikipedia_url = EXCLUDED.wikipedia_url"@),
{
    reveal_strlit(
        "INSERT INTO programming_paradigms (slug, name, description, wikipedia_url)
         VALUES ($1, $2, $3, $4)
         ON CONFLICT (slug) DO UPDATE SET
            name = EXCLUDED.name,
            description = EXCLUDED.description,
            wikipedia_url = EXCLUDED.wikipedia_url
         RETURNING id",
    );
    reveal_strlit("INSERT INTO programming_paradigms");
    reveal_strlit("ON CONFLICT (slug) DO UPDATE SET");
    reveal_strlit("VALUES (");
    reveal_strlit("description");
    reveal_strlit("description = EXCLUDED.description");
    reveal_strlit("name");
    reveal_strlit("name = EXCLUDED.name");
    reveal_strlit("slug");
    reveal_strlit("wikipedia_url");
    reveal_strlit("wikipedia_url = EXCLUDED.wikipedia_url");
    let t = UPSERT_PARADIGM_SQL@;
    assert(part_at(t, 0, "INSERT INTO programming_paradigms"@));
    reveal_with_fuel(past, 13);
    reveal_with_fuel(past_blanks, 2);
    assert(past(t, 33, '(') == 35);
    assert(item(t, 35, 0) == 35);
    assert(item(t, 35, 1) == 41);
    assert(item(t, 35, 2) == 47);
    assert(item(t, 35, 3) == 60);
    assert(item(t, 92, 0) == 92);
    assert(item(t, 92, 1) == 96);
    assert(item(t, 92, 2) == 100);
    assert(item(t, 92, 3) == 104);
    assert(lined_up_at(t, "INSERT INTO programming_paradigms"@, "slug"@, "VALUES ("@, 1, 0, 84, 0));
    assert(lined_up_at(t, "INSERT INTO programming_paradigms"@, "name"@, "VALUES ("@, 2, 0, 84, 1));
    assert(lined_up_at(
        t,
        "INSERT INTO programming_paradigms"@,
        "description"@,
        "VALUES ("@,
        3,
        0,
        84,
        2,
    ));
    assert(lined_up_at(
        t,
        "INSERT INTO programming_paradigms"@,
        "wikipedia_url"@,
        "VALUES ("@,
        4,
        0,
        84,
        3,
    ));
    assert(part_at(t, 117, "ON CONFLICT (slug) DO UPDATE SET"@));
    assert(part_at(t, 162, "name = EXCLUDED.name"@));
    assert(part_at(t, 196, "description = EXCLUDED.description"@));
    assert(part_at(t, 244, "wikipedia_url = EXCLUDED.wikipedia_url"@));
}

/// What the text of [`UPSERT_PATTERN_SQL`] says.
#[verifier::rlimit(50)]
pub proof fn upsert_pattern_text()
    ensures
        opens(UPSERT_PATTERN_SQL@, "INSERT INTO software_patterns"@),
        lines_up(UPSERT_PATTERN_SQL@, "INSERT INTO software_patterns"@, "slug"@, "VALUES ("@, 1),
        lines_up(UPSERT_PATTERN_SQL@, "INSERT INTO software_patterns"@, "name"@, "VALUES ("@, 2),
        lines_up(UPSERT_PATTERN_SQL@, "INSERT INTO software_patterns"@, "kind"@, "VALUES ("@, 3),
        lines_up(
            UPSERT_PATTERN_SQL@,
            "INSERT INTO software_patterns"@,
            "category"@,
            "VALUES ("@,
            4,
        ),
        lines_up(UPSERT_PATTERN_SQL@, "INSERT INTO software_patterns"@, "summary"@, "VALUES ("@, 5),
        lines_up(UPSERT_PATTERN_SQL@, "INSERT INTO software_patterns"@, "intent"@, "VALUES ("@, 6),
        lines_up(UPSERT_PATTERN_SQL@, "INSERT INTO software_patterns"@, "problem"@, "VALUES ("@, 7),
        lines_up(
            UPSERT_PATTERN_SQL@,
            "INSERT INTO software_patterns"@,
            "solution"@,
            "VALUES ("@,
            8,
        ),
        lines_up(
            UPSERT_PATTERN_SQL@,
            "INSERT INTO software_patterns"@,
            "consequences"@,
            "VALUES ("@,
            9,
        ),
        lines_up(UPSERT_PATTERN_SQL@, "INSERT INTO software_patterns"@, "tags"@, "VALUES ("@, 10),
        lines_up(
            UPSERT_PATTERN_SQL@,
            "INSERT INTO software_patterns"@,
            "canonical_url"@,
            "VALUES ("@,
            11,
        ),
        says(UPSERT_PATTERN_SQL@, "ON CONFLICT (slug) DO UPDATE SET"@),
        says(UPSERT_PATTERN_SQL@, "name = EXCLUDED.name"@),
        says(UPSERT_PATTERN_SQL@, "kind = EXCLUDED.kind"@),
        says(UPSERT_PATTERN_SQL@, "category = EXCLUDED.category"@),
        says(UPSERT_PATTERN_SQL@, "summary = EXCLUDED.summary"@),
        says(UPSERT_PATTERN_SQL@, "intent = EXCLUDED.intent"@),
        says(UPSERT_PATTERN_SQL@, "problem = EXCLUDED.problem"@),
        says(UPSERT_PATTERN_SQL@, "solution = EXCLUDED.solution"@),
        says(UPSERT_PATTERN_SQL@, "consequences = EXCLUDED.consequences"@),
        says(UPSERT_PATTERN_SQL@, "tags = EXCLUDED.tags"@),
        says(UPSERT_PATTERN_SQL@, "canonical_url = EXCLUDED.canonical_url"@),
{
    reveal_strlit(
        "INSERT INTO software_patterns (
            slug, name, kind, category, summary, intent, problem, solution,
            consequences, tags, canonical_url, updated_at
         )
         VALUES ($1, $2, $3, $4, $5, $6, $7, $8, $9, $10, $11, NOW())
         ON CONFLICT (slug) DO UPDATE SET
            name = EXCLUDED.name,
            kind = EXCLUDED.kind,
            category = EXCLUDED.category,
            summary = EXCLUDED.summary,
            intent = EXCLUDED.intent,
            problem = EXCLUDED.problem,
            solution = EXCLUDED.solution,
            consequences = EXCLUDED.consequences,
            tags = EXCLUDED.tags,
            canonical_url = EXCLUDED.canonical_url,
            updated_at = NOW()
         RETURNING id",
    );
    reveal_strlit("INSERT INTO software_patterns");
    reveal_strlit("ON CONFLICT (slug) DO UPDATE SET");
    reveal_strlit("VALUES (");
    reveal_strlit("canonical_url");
    reveal_strlit("canonical_url = EXCLUDED.canonical_url");
    reveal_strlit("category");
    reveal_strlit("category = EXCLUDED.category");
    reveal_strlit("consequences");
    reveal_strlit("consequences = EXCLUDED.consequences");
    reveal_strlit("intent");
    reveal_strlit("intent = EXCLUDED.intent");
    reveal_strlit("kind");
    reveal_strlit("kind = EXCLUDED.kind");
    reveal_strlit("name");
    reveal_strlit("name = EXCLUDED.name");
    reveal_strlit("problem");
    reveal_strlit("problem = EXCLUDED.problem");
    reveal_strlit("slug");
    reveal_strlit("solution");
    reveal_strlit("solution = EXCLUDED.solution");
    reveal_strlit("summary");
    reveal_strlit("summary = EXCLUDED.summary");
    reveal_strlit("tags");
    reveal_strlit("tags = EXCLUDED.tags");
    let t = UPSERT_PATTERN_SQL@;
    assert(part_at(t, 0, "INSERT INTO software_patterns"@));
    reveal_with_fuel(past, 14);
    reveal_with_fuel(past_blanks, 14);
    assert(past(t, 29, '(') == 31);
    assert(item(t, 31, 0) == 44);
    assert(item(t, 31, 1) == 50);
    assert(item(t, 31, 2) == 56);
    assert(item(t, 31, 3) == 62);
    assert(item(t, 31, 4) == 72);
    assert(item(t, 31, 5) == 81);
    assert(item(t, 31, 6) == 89);
    assert(item(t, 31, 7) == 98);
    assert(item(t, 31, 8) == 120);
    assert(item(t, 31, 9) == 134);
    assert(item(t, 31, 10) == 140);
    assert(item(t, 194, 0) == 194);
    assert(item(t, 194, 1) == 198);
    assert(item(t, 194, 2) == 202);
    assert(item(t, 194, 3) == 206);
    assert(item(t, 194, 4) == 210);
    assert(item(t, 194, 5) == 214);
    assert(item(t, 194, 6) == 218);
    assert(item(t, 194, 7) == 222);
    assert(item(t, 194, 8) == 226);
    assert(item(t, 194, 9) == 230);
    assert(item(t, 194, 10) == 235);
    assert(lined_up_at(t, "INSERT INTO software_patterns"@, "slug"@, "VALUES ("@, 1, 0, 186, 0));
    assert(lined_up_at(t, "INSERT INTO software_patterns"@, "name"@, "VALUES ("@, 2, 0, 186, 1));
    assert(lined_up_at(t, "INSERT INTO software_patterns"@, "kind"@, "VALUES ("@, 3, 0, 186, 2));
    assert(lined_up_at(
        t,
        "INSERT INTO software_patterns"@,
        "category"@,
        "VALUES ("@,
        4,
        0,
        186,
        3,
    ));
    assert(lined_up_at(t, "INSERT INTO software_patterns"@, "summary"@, "VALUES ("@, 5, 0, 186, 4));
    assert(lined_up_at(t, "INSERT INTO software_patterns"@, "intent"@, "VALUES ("@, 6, 0, 186, 5));
    assert(lined_up_at(t, "INSERT INTO software_patterns"@, "problem"@, "VALUES ("@, 7, 0, 186, 6));
    assert(lined_up_at(
        t,
        "INSERT INTO software_patterns"@,
        "solution"@,
        "VALUES ("@,
        8,
        0,
        186,
        7,
    ));
    assert(lined_up_at(
        t,
        "INSERT INTO software_patterns"@,
        "consequences"@,
        "VALUES ("@,
        9,
        0,
        186,
        8,
    ));
    assert(lined_up_at(t, "INSERT INTO software_patterns"@, "tags"@, "VALUES ("@, 10, 0, 186, 9));
    assert(lined_up_at(
        t,
        "INSERT INTO software_patterns"@,
        "canonical_url"@,
        "VALUES ("@,
        11,
        0,
        186,
        10,
    ));
    assert(part_at(t, 256, "ON CONFLICT (slug) DO UPDATE SET"@));
    assert(part_at(t, 301, "name = EXCLUDED.name"@));
    assert(part_at(t, 335, "kind = EXCLUDED.kind"@));
    assert(part_at(t, 369, "category = EXCLUDED.category"@));
    assert(part_at(t, 411, "summary = EXCLUDED.summary"@));
    assert(part_at(t, 451, "intent = EXCLUDED.intent"@));
    assert(part_at(t, 489, "problem = EXCLUDED.problem"@));
    assert(part_at(t, 529, "solution = EXCLUDED.solution"@));
    assert(part_at(t, 571, "consequences = EXCLUDED.consequences"@));
    assert(part_at(t, 621, "tags = EXCLUDED.tags"@));
    assert(part_at(t, 655, "canonical_url = EXCLUDED.canonical_url"@));
}

/// What the text of [`LINK_PATTERN_PARADIGM_SQL`] says.
pub proof fn link_pattern_paradigm_text()
    ensures
        opens(LINK_PATTERN_PARADIGM_SQL@, "INSERT INTO software_pattern_paradigms"@),
        lines_up(
            LINK_PATTERN_PARADIGM_SQL@,
            "INSERT INTO software_pattern_paradigms"@,
            "pattern_id"@,
            "SELECT "@,
            1,
        ),
        mentions(LINK_PATTERN_PARADIGM_SQL@, "slug = "@, 2),
        says(LINK_PATTERN_PARADIGM_SQL@, "ON CONFLICT (pattern_id, paradigm_id) DO NOTHING"@),
        says(LINK_PATTERN_PARADIGM_SQL@, "FROM programming_paradigms"@),
{
    reveal_strlit(
        "INSERT INTO software_pattern_paradigms (pattern_id, paradigm_id)
         SELECT $1, id FROM programming_paradigms WHERE slug = $2
         ON CONFLICT (pattern_id, paradigm_id) DO NOTHING",
    );
    reveal_strlit("FROM programming_paradigms");
    reveal_strlit("INSERT INTO software_pattern_paradigms");
    reveal_strlit("ON CONFLICT (pattern_id, paradigm_id) DO NOTHING");
    reveal_strlit("SELECT ");
    reveal_strlit("pattern_id");
    reveal_strlit("slug = ");
    let t = LINK_PATTERN_PARADIGM_SQL@;
    assert(part_at(t, 0, "INSERT INTO software_pattern_paradigms"@));
    reveal_with_fuel(past, 3);
    reveal_with_fuel(past_blanks, 1);
    assert(past(t, 38, '(') == 40);
    assert(item(t, 40, 0) == 40);
    assert(item(t, 81, 0) == 81);
    assert(lined_up_at(
        t,
        "INSERT INTO software_pattern_paradigms"@,
        "pattern_id"@,
        "SELECT "@,
        1,
        0,
        74,
        0,
    ));
    assert(part_at(t, 121, "slug = "@));
    assert(part_at(t, 140, "ON CONFLICT (pattern_id, paradigm_id) DO NOTHING"@));
    assert(part_at(t, 88, "FROM programming_paradigms"@));
}

/// What the text of [`FIND_PATTERN_ID_BY_SLUG_SQL`] says.
pub proof fn find_pattern_id_by_slug_text()
    ensures
        opens(FIND_PATTERN_ID_BY_SLUG_SQL@, "SELECT"@),
        mentions(FIND_PATTERN_ID_BY_SLUG_SQL@, "slug = "@, 1),
        says(FIND_PATTERN_ID_BY_SLUG_SQL@, "FROM software_patterns"@),
{
    reveal_strlit(
        "SELECT id FROM software_patterns WHERE slug = $1",
    );
    reveal_strlit("FROM software_patterns");
    reveal_strlit("SELECT");
    reveal_strlit("slug = ");
    let t = FIND_PATTERN_ID_BY_SLUG_SQL@;
    assert(part_at(t, 0, "SELECT"@));
    assert(part_at(t, 39, "slug = "@));
    assert(part_at(t, 10, "FROM software_patterns"@));
}

/// What the text of [`FIND_SOURCE_SQL`] says.
pub proof fn find_source_text()
    ensures
        opens(FIND_SOURCE_SQL@, "SELECT"@),
        mentions(FIND_SOURCE_SQL@, "source_family = "@, 1),
        mentions(FIND_SOURCE_SQL@, "title = "@, 2),
        mentions(FIND_SOURCE_SQL@, "COALESCE("@, 3),
        says(FIND_SOURCE_SQL@, "FROM software_pattern_sources"@),
{
    reveal_strlit(
        "SELECT id FROM software_pattern_sources
         WHERE source_family = $1
           AND title = $2
           AND COALESCE(url, '') = COALESCE($3, '')
         LIMIT 1",
    );
    reveal_strlit("COALESCE(");
    reveal_strlit("FROM software_pattern_sources");
    reveal_strlit("SELECT");
    reveal_strlit("source_family = ");
    reveal_strlit("title = ");
    let t = FIND_SOURCE_SQL@;
    assert(part_at(t, 0, "SELECT"@));
    assert(part_at(t, 55, "source_family = "@));
    assert(part_at(t, 89, "title = "@));
    assert(part_at(t, 135, "COALESCE("@));
    assert(part_at(t, 10, "FROM software_pattern_sources"@));
}

/// What the text of [`UPDATE_SOURCE_SQL`] says.
pub proof fn update_source_text()
    ensures
        opens(UPDATE_SOURCE_SQL@, "UPDATE software_pattern_sources"@),
        mentions(UPDATE_SOURCE_SQL@, "WHERE id = "@, 1),
        mentions(UPDATE_SOURCE_SQL@, "license_label = "@, 2),
        mentions(UPDATE_SOURCE_SQL@, "source_type = "@, 3),
        mentions(UPDATE_SOURCE_SQL@, "ingest_policy = "@, 4),
        mentions(UPDATE_SOURCE_SQL@, "COALESCE("@, 5),
        mentions(UPDATE_SOURCE_SQL@, "COALESCE("@, 6),
        mentions(UPDATE_SOURCE_SQL@, "COALESCE("@, 7),
        mentions(UPDATE_SOURCE_SQL@, "status = "@, 8),
        mentions(UPDATE_SOURCE_SQL@, "error = "@, 9),
        mentions(UPDATE_SOURCE_SQL@, "metadata = "@, 10),
{
    reveal_strlit(
        "UPDATE software_pattern_sources SET
                license_label = $2,
                source_type = $3,
                ingest_policy = $4,
                content = COALESCE($5, content),
                content_hash = COALESCE($6, content_hash),
                fetched_at = COALESCE($7, fetched_at),
                imported_at = NOW(),
                status = $8,
                error = $9,
                metadata = $10
             WHERE id = $1",
    );
    reveal_strlit("COALESCE(");
    reveal_strlit("UPDATE software_pattern_sources");
    reveal_strlit("WHERE id = ");
    reveal_strlit("error = ");
    reveal_strlit("ingest_policy = ");
    reveal_strlit("license_label = ");
    reveal_strlit("metadata = ");
    reveal_strlit("source_type = ");
    reveal_strlit("status = ");
    let t = UPDATE_SOURCE_SQL@;
    assert(part_at(t, 0, "UPDATE software_pattern_sources"@));
    assert(part_at(t, 443, "WHERE id = "@));
    assert(part_at(t, 52, "license_label = "@));
    assert(part_at(t, 88, "source_type = "@));
    assert(part_at(t, 122, "ingest_policy = "@));
    assert(part_at(t, 168, "COALESCE("@));
    assert(part_at(t, 222, "COALESCE("@));
    assert(part_at(t, 279, "COALESCE("@));
    assert(part_at(t, 358, "status = "@));
    assert(part_at(t, 387, "error = "@));
    assert(part_at(t, 415, "metadata = "@));
}

/// What the text of [`INSERT_SOURCE_SQL`] says.
pub proof fn insert_source_text()
    ensures
        opens(INSERT_SOURCE_SQL@, "INSERT INTO software_pattern_sources"@),
        lines_up(
            INSERT_SOURCE_SQL@,
            "INSERT INTO software_pattern_sources"@,
            "source_family"@,
            "VALUES ("@,
            1,
        ),
        lines_up(
            INSERT_SOURCE_SQL@,
            "INSERT INTO software_pattern_sources"@,
            "title"@,
            "VALUES ("@,
            2,
        ),
        lines_up(
            INSERT_SOURCE_SQL@,
            "INSERT INTO software_pattern_sources"@,
            "url"@,
            "VALUES ("@,
            3,
        ),
        lines_up(
            INSERT_SOURCE_SQL@,
            "INSERT INTO software_pattern_sources"@,
            "license_label"@,
            "VALUES ("@,
            4,
        ),
        lines_up(
            INSERT_SOURCE_SQL@,
            "INSERT INTO software_pattern_sources"@,
            "source_type"@,
            "VALUES ("@,
            5,
        ),
        lines_up(
            INSERT_SOURCE_SQL@,
            "INSERT INTO software_pattern_sources"@,
            "ingest_policy"@,
            "VALUES ("@,
            6,
        ),
        lines_up(
            INSERT_SOURCE_SQL@,
            "INSERT INTO software_pattern_sources"@,
            "content"@,
            "VALUES ("@,
            7,
        ),
        lines_up(
            INSERT_SOURCE_SQL@,
            "INSERT INTO software_pattern_sources"@,
            "content_hash"@,
            "VALUES ("@,
            8,
        ),
        lines_up(
            INSERT_SOURCE_SQL@,
            "INSERT INTO software_pattern_sources"@,
            "fetched_at"@,
            "VALUES ("@,
            9,
        ),
        lines_up(
            INSERT_SOURCE_SQL@,
            "INSERT INTO software_pattern_sources"@,
            "status"@,
            "VALUES ("@,
            10,
        ),
        lines_up(
            INSERT_SOURCE_SQL@,
            "INSERT INTO software_pattern_sources"@,
            "error"@,
            "VALUES ("@,
            11,
        ),
        lines_up(
            INSERT_SOURCE_SQL@,
            "INSERT INTO software_pattern_sources"@,
            "metadata"@,
            "VALUES ("@,
            12,
        ),
{
    reveal_strlit(
        "INSERT INTO software_pattern_sources (
                source_family, title, url, license_label, source_type, ingest_policy,
                content, content_hash, fetched_at, status, error, metadata
             )
             VALUES ($1, $2, $3, $4, $5, $6, $7, $8, $9, $10, $11, $12)
             RETURNING id",
    );
    reveal_strlit("INSERT INTO software_pattern_sources");
    reveal_strlit("VALUES (");
    reveal_strlit("content");
    reveal_strlit("content_hash");
    reveal_strlit("error");
    reveal_strlit("fetched_at");
    reveal_strlit("ingest_policy");
    reveal_strlit("license_label");
    reveal_strlit("metadata");
    reveal_strlit("source_family");
    reveal_strlit("source_type");
    reveal_strlit("status");
    reveal_strlit("title");
    reveal_strlit("url");
    let t = INSERT_SOURCE_SQL@;
    assert(part_at(t, 0, "INSERT INTO software_pattern_sources"@));
    reveal_with_fuel(past, 15);
    reveal_with_fuel(past_blanks, 18);
    assert(past(t, 36, '(') == 38);
    assert(item(t, 38, 0) == 55);
    assert(item(t, 38, 1) == 70);
    assert(item(t, 38, 2) == 77);
    assert(item(t, 38, 3) == 82);
    assert(item(t, 38, 4) == 97);
    assert(item(t, 38, 5) == 110);
    assert(item(t, 38, 6) == 141);
    assert(item(t, 38, 7) == 150);
    assert(item(t, 38, 8) == 164);
    assert(item(t, 38, 9) == 176);
    assert(item(t, 38, 10) == 184);
    assert(item(t, 38, 11) == 191);
    assert(item(t, 236, 0) == 236);
    assert(item(t, 236, 1) == 240);
    assert(item(t, 236, 2) == 244);
    assert(item(t, 236, 3) == 248);
    assert(item(t, 236, 4) == 252);
    assert(item(t, 236, 5) == 256);
    assert(item(t, 236, 6) == 260);
    assert(item(t, 236, 7) == 264);
    assert(item(t, 236, 8) == 268);
    assert(item(t, 236, 9) == 272);
    assert(item(t, 236, 10) == 277);
    assert(item(t, 236, 11) == 282);
    assert(lined_up_at(
        t,
        "INSERT INTO software_pattern_sources"@,
        "source_family"@,
        "VALUES ("@,
        1,
        0,
        228,
        0,
    ));
    assert(lined_up_at(
        t,
        "INSERT INTO software_pattern_sources"@,
        "title"@,
        "VALUES ("@,
        2,
        0,
        228,
        1,
    ));
    assert(lined_up_at(
        t,
        "INSERT INTO software_pattern_sources"@,
        "url"@,
        "VALUES ("@,
        3,
        0,
        228,
        2,
    ));
    assert(lined_up_at(
        t,
        "INSERT INTO software_pattern_sources"@,
        "license_label"@,
        "VALUES ("@,
        4,
        0,
        228,
        3,
    ));
    assert(lined_up_at(
        t,
        "INSERT INTO software_pattern_sources"@,
        "source_type"@,
        "VALUES ("@,
        5,
        0,
        228,
        4,
    ));
    assert(lined_up_at(
        t,
        "INSERT INTO software_pattern_sources"@,
        "ingest_policy"@,
        "VALUES ("@,
        6,
        0,
        228,
        5,
    ));
    assert(lined_up_at(
        t,
        "INSERT INTO software_pattern_sources"@,
        "content"@,
        "VALUES ("@,
        7,
        0,
        228,
        6,
    ));
    assert(lined_up_at(
        t,
        "INSERT INTO software_pattern_sources"@,
        "content_hash"@,
        "VALUES ("@,
        8,
        0,
        228,
        7,
    ));
    assert(lined_up_at(
        t,
        "INSERT INTO software_pattern_sources"@,
        "fetched_at"@,
        "VALUES ("@,
        9,
        0,
        228,
        8,
    ));
    assert(lined_up_at(
        t,
        "INSERT INTO software_pattern_sources"@,
        "status"@,
        "VALUES ("@,
        10,
        0,
        228,
        9,
    ));
    assert(lined_up_at(
        t,
        "INSERT INTO software_pattern_sources"@,
        "error"@,
        "VALUES ("@,
        11,
        0,
        228,
        10,
    ));
    assert(lined_up_at(
        t,
        "INSERT INTO software_pattern_sources"@,
        "metadata"@,
        "VALUES ("@,
        12,
        0,
        228,
        11,
    ));
}

/// What the text of [`FIND_SOURCE_STATE_SQL`] says.
pub proof fn find_source_state_text()
    ensures
        opens(FIND_SOURCE_STATE_SQL@, "SELECT"@),
        mentions(FIND_SOURCE_STATE_SQL@, "s.source_family = "@, 1),
        mentions(FIND_SOURCE_STATE_SQL@, "s.title = "@, 2),
        mentions(FIND_SOURCE_STATE_SQL@, "COALESCE("@, 3),
        says(FIND_SOURCE_STATE_SQL@, "GROUP BY s.id"@),
        says(FIND_SOURCE_STATE_SQL@, "FROM software_pattern_sources"@),
        says(FIND_SOURCE_STATE_SQL@, "LEFT JOIN software_pattern_chunks c ON c.source_id = s.id"@),
{
    reveal_strlit(
        "SELECT
            s.id,
            s.content,
            s.content_hash,
            s.metadata,
            COUNT(c.id)::BIGINT AS chunk_count
         FROM software_pattern_sources s
         LEFT JOIN software_pattern_chunks c ON c.source_id = s.id
         WHERE s.source_family = $1
           AND s.title = $2
           AND COALESCE(s.url, '') = COALESCE($3, '')
         GROUP BY s.id
         LIMIT 1",
    );
    reveal_strlit("COALESCE(");
    reveal_strlit("FROM software_pattern_sources");
    reveal_strlit("GROUP BY s.id");
    reveal_strlit("LEFT JOIN software_pattern_chunks c ON c.source_id = s.id");
    reveal_strlit("SELECT");
    reveal_strlit("s.source_family = ");
    reveal_strlit("s.title = ");
    let t = FIND_SOURCE_STATE_SQL@;
    assert(part_at(t, 0, "SELECT"@));
    assert(part_at(t, 270, "s.source_family = "@));
    assert(part_at(t, 306, "s.title = "@));
    assert(part_at(t, 356, "COALESCE("@));
    assert(part_at(t, 382, "GROUP BY s.id"@));
    assert(part_at(t, 156, "FROM software_pattern_sources"@));
    assert(part_at(t, 197, "LEFT JOIN software_pattern_chunks c ON c.source_id = s.id"@));
}

/// What the text of [`UPDATE_SOURCE_STATUS_SQL`] says.
pub proof fn update_source_status_text()
    ensures
        opens(UPDATE_SOURCE_STATUS_SQL@, "UPDATE software_pattern_sources"@),
        mentions(UPDATE_SOURCE_STATUS_SQL@, "WHERE id = "@, 1),
        mentions(UPDATE_SOURCE_STATUS_SQL@, "COALESCE("@, 2),
        mentions(UPDATE_SOURCE_STATUS_SQL@, "status = "@, 3),
        mentions(UPDATE_SOURCE_STATUS_SQL@, "error = "@, 4),
        mentions(UPDATE_SOURCE_STATUS_SQL@, "metadata = "@, 5),
{
    reveal_strlit(
        "UPDATE software_pattern_sources SET
            fetched_at = COALESCE($2, fetched_at),
            imported_at = NOW(),
            status = $3,
            error = $4,
            metadata = $5
         WHERE id = $1",
    );
    reveal_strlit("COALESCE(");
    reveal_strlit("UPDATE software_pattern_sources");
    reveal_strlit("WHERE id = ");
    reveal_strlit("error = ");
    reveal_strlit("metadata = ");
    reveal_strlit("status = ");
    let t = UPDATE_SOURCE_STATUS_SQL@;
    assert(part_at(t, 0, "UPDATE software_pattern_sources"@));
    assert(part_at(t, 204, "WHERE id = "@));
    assert(part_at(t, 61, "COALESCE("@));
    assert(part_at(t, 132, "status = "@));
    assert(part_at(t, 157, "error = "@));
    assert(part_at(t, 181, "metadata = "@));
}

/// What the text of [`LINK_SOURCE_PATTERN_SQL`] says.
pub proof fn link_source_pattern_text()
    ensures
        opens(LINK_SOURCE_PATTERN_SQL@, "INSERT INTO software_pattern_source_patterns"@),
        lines_up(
            LINK_SOURCE_PATTERN_SQL@,
            "INSERT INTO software_pattern_source_patterns"@,
            "source_id"@,
            "VALUES ("@,
            1,
        ),
        lines_up(
            LINK_SOURCE_PATTERN_SQL@,
            "INSERT INTO software_pattern_source_patterns"@,
            "pattern_id"@,
            "VALUES ("@,
            2,
        ),
        lines_up(
            LINK_SOURCE_PATTERN_SQL@,
            "INSERT INTO software_pattern_source_patterns"@,
            "relation"@,
            "VALUES ("@,
            3,
        ),
        says(
            LINK_SOURCE_PATTERN_SQL@,
            "ON CONFLICT (source_id, pattern_id) DO UPDATE SET relation = EXCLUDED.relation"@,
        ),
        says(LINK_SOURCE_PATTERN_SQL@, "relation = EXCLUDED.relation"@),
{
    reveal_strlit(
        "INSERT INTO software_pattern_source_patterns (source_id, pattern_id, relation)
         VALUES ($1, $2, $3)
         ON CONFLICT (source_id, pattern_id) DO UPDATE SET relation = EXCLUDED.relation",
    );
    reveal_strlit("INSERT INTO software_pattern_source_patterns");
    reveal_strlit("ON CONFLICT (source_id, pattern_id) DO UPDATE SET relation = EXCLUDED.relation");
    reveal_strlit("VALUES (");
    reveal_strlit("pattern_id");
    reveal_strlit("relation");
    reveal_strlit("relation = EXCLUDED.relation");
    reveal_strlit("source_id");
    let t = LINK_SOURCE_PATTERN_SQL@;
    assert(part_at(t, 0, "INSERT INTO software_pattern_source_patterns"@));
    reveal_with_fuel(past, 12);
    reveal_with_fuel(past_blanks, 2);
    assert(past(t, 44, '(') == 46);
    assert(item(t, 46, 0) == 46);
    assert(item(t, 46, 1) == 57);
    assert(item(t, 46, 2) == 69);
    assert(item(t, 96, 0) == 96);
    assert(item(t, 96, 1) == 100);
    assert(item(t, 96, 2) == 104);
    assert(lined_up_at(
        t,
        "INSERT INTO software_pattern_source_patterns"@,
        "source_id"@,
        "VALUES ("@,
        1,
        0,
        88,
        0,
    ));
    assert(lined_up_at(
        t,
        "INSERT INTO software_pattern_source_patterns"@,
        "pattern_id"@,
        "VALUES ("@,
        2,
        0,
        88,
        1,
    ));
    assert(lined_up_at(
        t,
        "INSERT INTO software_pattern_source_patterns"@,
        "relation"@,
        "VALUES ("@,
        3,
        0,
        88,
        2,
    ));
    assert(part_at(
        t,
        117,
        "ON CONFLICT (source_id, pattern_id) DO UPDATE SET relation = EXCLUDED.relation"@,
    ));
    assert(part_at(t, 167, "relation = EXCLUDED.relation"@));
}

/// What the text of [`DELETE_SOURCE_CHUNKS_SQL`] says.
pub proof fn delete_source_chunks_text()
    ensures
        opens(DELETE_SOURCE_CHUNKS_SQL@, "DELETE FROM software_pattern_chunks"@),
        mentions(DELETE_SOURCE_CHUNKS_SQL@, "source_id = "@, 1),
{
    reveal_strlit(
        "DELETE FROM software_pattern_chunks WHERE source_id = $1",
    );
    reveal_strlit("DELETE FROM software_pattern_chunks");
    reveal_strlit("source_id = ");
    let t = DELETE_SOURCE_CHUNKS_SQL@;
    assert(part_at(t, 0, "DELETE FROM software_pattern_chunks"@));
    assert(part_at(t, 42, "source_id = "@));
}

/// What the text of [`LIST_PATTERNS_SQL`] says.
#[verifier::rlimit(50)]
pub proof fn list_patterns_text()
    ensures
        opens(LIST_PATTERNS_SQL@, "SELECT"@),
        mentions(LIST_PATTERNS_SQL@, "p.kind = "@, 1),
        mentions(LIST_PATTERNS_SQL@, "p.category = "@, 2),
        mentions(LIST_PATTERNS_SQL@, "pg2.slug = "@, 3),
        mentions(LIST_PATTERNS_SQL@, "s.source_family = "@, 4),
        mentions(LIST_PATTERNS_SQL@, "LIMIT "@, 5),
        mentions(LIST_PATTERNS_SQL@, "OFFSET "@, 6),
        says(LIST_PATTERNS_SQL@, "GROUP BY p.id"@),
        says(LIST_PATTERNS_SQL@, "ORDER BY p.kind, p.category, p.name"@),
        says(LIST_PATTERNS_SQL@, "FROM software_patterns"@),
        says(
            LIST_PATTERNS_SQL@,
            "LEFT JOIN software_pattern_paradigms pp ON pp.pattern_id = p.id"@,
        ),
        says(LIST_PATTERNS_SQL@, "LEFT JOIN programming_paradigms pg ON pg.id = pp.paradigm_id"@),
        says(LIST_PATTERNS_SQL@, "JOIN programming_paradigms pg2 ON pg2.id = pp2.paradigm_id"@),
        says(LIST_PATTERNS_SQL@, "JOIN software_pattern_sources s ON s.id = sp.source_id"@),
{
    reveal_strlit(
        "SELECT p.id, p.slug, p.name, p.kind, p.category, p.summary, p.canonical_url,
                COALESCE(array_remove(array_agg(DISTINCT pg.slug), NULL), ARRAY[]::text[]) AS paradigms,
                p.tags
         FROM software_patterns p
         LEFT JOIN software_pattern_paradigms pp ON pp.pattern_id = p.id
         LEFT JOIN programming_paradigms pg ON pg.id = pp.paradigm_id
         WHERE ($1::text IS NULL OR p.kind = $1)
           AND ($2::text IS NULL OR p.category = $2)
           AND ($3::text IS NULL OR EXISTS (
                SELECT 1
                FROM software_pattern_paradigms pp2
                JOIN programming_paradigms pg2 ON pg2.id = pp2.paradigm_id
                WHERE pp2.pattern_id = p.id AND (pg2.slug = $3 OR pg2.name = $3)
           ))
           AND ($4::text IS NULL OR EXISTS (
                SELECT 1
                FROM software_pattern_source_patterns sp
                JOIN software_pattern_sources s ON s.id = sp.source_id
                WHERE sp.pattern_id = p.id AND s.source_family = $4
           ))
         GROUP BY p.id
         ORDER BY p.kind, p.category, p.name
         LIMIT $5 OFFSET $6",
    );
    reveal_strlit("FROM software_patterns");
    reveal_strlit("GROUP BY p.id");
    reveal_strlit("JOIN programming_paradigms pg2 ON pg2.id = pp2.paradigm_id");
    reveal_strlit("JOIN software_pattern_sources s ON s.id = sp.source_id");
    reveal_strlit("LEFT JOIN programming_paradigms pg ON pg.id = pp.paradigm_id");
    reveal_strlit("LEFT JOIN software_pattern_paradigms pp ON pp.pattern_id = p.id");
    reveal_strlit("LIMIT ");
    reveal_strlit("OFFSET ");
    reveal_strlit("ORDER BY p.kind, p.category, p.name");
    reveal_strlit("SELECT");
    reveal_strlit("p.category = ");
    reveal_strlit("p.kind = ");
    reveal_strlit("pg2.slug = ");
    reveal_strlit("s.source_family = ");
    let t = LIST_PATTERNS_SQL@;
    assert(part_at(t, 0, "SELECT"@));
    assert(part_at(t, 418, "p.kind = "@));
    assert(part_at(t, 467, "p.category = "@));
    assert(part_at(t, 730, "pg2.slug = "@));
    assert(part_at(t, 1021, "s.source_family = "@));
    assert(part_at(t, 1133, "LIMIT "@));
    assert(part_at(t, 1142, "OFFSET "@));
    assert(part_at(t, 1065, "GROUP BY p.id"@));
    assert(part_at(t, 1088, "ORDER BY p.kind, p.category, p.name"@));
    assert(part_at(t, 214, "FROM software_patterns"@));
    assert(part_at(t, 248, "LEFT JOIN software_pattern_paradigms pp ON pp.pattern_id = p.id"@));
    assert(part_at(t, 321, "LEFT JOIN programming_paradigms pg ON pg.id = pp.paradigm_id"@));
    assert(part_at(t, 622, "JOIN programming_paradigms pg2 ON pg2.id = pp2.paradigm_id"@));
    assert(part_at(t, 919, "JOIN software_pattern_sources s ON s.id = sp.source_id"@));
}

/// What the text of [`GET_PATTERN_SQL`] says.
#[verifier::rlimit(50)]
pub proof fn get_pattern_text()
    ensures
        opens(GET_PATTERN_SQL@, "SELECT"@),
        mentions(GET_PATTERN_SQL@, "p.id = "@, 1),
        mentions(GET_PATTERN_SQL@, "p.slug = "@, 2),
        says(GET_PATTERN_SQL@, "GROUP BY p.id"@),
        says(GET_PATTERN_SQL@, "FROM software_patterns"@),
        says(GET_PATTERN_SQL@, "LEFT JOIN software_pattern_paradigms pp ON pp.pattern_id = p.id"@),
        says(GET_PATTERN_SQL@, "LEFT JOIN programming_paradigms pg ON pg.id = pp.paradigm_id"@),
{
    reveal_strlit(
        "SELECT p.id, p.slug, p.name, p.kind, p.category, p.summary, p.intent,
                p.problem, p.solution, p.consequences, p.canonical_url, p.tags,
                COALESCE(array_remove(array_agg(DISTINCT pg.slug), NULL), ARRAY[]::text[]) AS paradigms
         FROM software_patterns p
         LEFT JOIN software_pattern_paradigms pp ON pp.pattern_id = p.id
         LEFT JOIN programming_paradigms pg ON pg.id = pp.paradigm_id
         WHERE (($1::bigint IS NOT NULL AND p.id = $1) OR ($2::text IS NOT NULL AND p.slug = $2))
         GROUP BY p.id",
    );
    reveal_strlit("FROM software_patterns");
    reveal_strlit("GROUP BY p.id");
    reveal_strlit("LEFT JOIN programming_paradigms pg ON pg.id = pp.paradigm_id");
    reveal_strlit("LEFT JOIN software_pattern_paradigms pp ON pp.pattern_id = p.id");
    reveal_strlit("SELECT");
    reveal_strlit("p.id = ");
    reveal_strlit("p.slug = ");
    let t = GET_PATTERN_SQL@;
    assert(part_at(t, 0, "SELECT"@));
    assert(part_at(t, 475, "p.id = "@));
    assert(part_at(t, 515, "p.slug = "@));
    assert(part_at(t, 538, "GROUP BY p.id"@));
    assert(part_at(t, 263, "FROM software_patterns"@));
    assert(part_at(t, 297, "LEFT JOIN software_pattern_paradigms pp ON pp.pattern_id = p.id"@));
    assert(part_at(t, 370, "LEFT JOIN programming_paradigms pg ON pg.id = pp.paradigm_id"@));
}

/// What the text of [`GET_PATTERN_SOURCES_SQL`] says.
#[verifier::rlimit(50)]
pub proof fn get_pattern_sources_text()
    ensures
        opens(GET_PATTERN_SOURCES_SQL@, "SELECT"@),
        mentions(GET_PATTERN_SOURCES_SQL@, "sp.pattern_id = "@, 1),
        says(GET_PATTERN_SOURCES_SQL@, "GROUP BY s.id"@),
        says(GET_PATTERN_SOURCES_SQL@, "ORDER BY s.source_family, s.title"@),
        says(GET_PATTERN_SOURCES_SQL@, "FROM software_pattern_sources"@),
        says(
            GET_PATTERN_SOURCES_SQL@,
            "JOIN software_pattern_source_patterns sp ON sp.source_id = s.id"@,
        ),
        says(
            GET_PATTERN_SOURCES_SQL@,
            "LEFT JOIN software_pattern_chunks c ON c.source_id = s.id"@,
        ),
{
    reveal_strlit(
        "SELECT s.id, s.source_family, s.title, s.url, s.license_label,
                s.source_type, s.ingest_policy, s.status, s.fetched_at, s.imported_at,
                s.content_hash,
                COUNT(c.id)::bigint AS chunk_count
         FROM software_pattern_sources s
         JOIN software_pattern_source_patterns sp ON sp.source_id = s.id
         LEFT JOIN software_pattern_chunks c ON c.source_id = s.id
         WHERE sp.pattern_id = $1
         GROUP BY s.id
         ORDER BY s.source_family, s.title",
    );
    reveal_strlit("FROM software_pattern_sources");
    reveal_strlit("GROUP BY s.id");
    reveal_strlit("JOIN software_pattern_source_patterns sp ON sp.source_id = s.id");
    reveal_strlit("LEFT JOIN software_pattern_chunks c ON c.source_id = s.id");
    reveal_strlit("ORDER BY s.source_family, s.title");
    reveal_strlit("SELECT");
    reveal_strlit("sp.pattern_id = ");
    let t = GET_PATTERN_SOURCES_SQL@;
    assert(part_at(t, 0, "SELECT"@));
    assert(part_at(t, 429, "sp.pattern_id = "@));
    assert(part_at(t, 457, "GROUP BY s.id"@));
    assert(part_at(t, 480, "ORDER BY s.source_family, s.title"@));
    assert(part_at(t, 242, "FROM software_pattern_sources"@));
    assert(part_at(t, 283, "JOIN software_pattern_source_patterns sp ON sp.source_id = s.id"@));
    assert(part_at(t, 356, "LEFT JOIN software_pattern_chunks c ON c.source_id = s.id"@));
}

/// What the text of [`GET_SOURCE_EXCERPTS_SQL`] says.
pub proof fn get_source_excerpts_text()
    ensures
        opens(GET_SOURCE_EXCERPTS_SQL@, "SELECT"@),
        mentions(GET_SOURCE_EXCERPTS_SQL@, "source_id = "@, 1),
        mentions(GET_SOURCE_EXCERPTS_SQL@, "LIMIT "@, 2),
        says(GET_SOURCE_EXCERPTS_SQL@, "ORDER BY chunk_index"@),
        says(GET_SOURCE_EXCERPTS_SQL@, "FROM software_pattern_chunks"@),
{
    reveal_strlit(
        "SELECT content FROM software_pattern_chunks
         WHERE source_id = $1
         ORDER BY chunk_index
         LIMIT $2",
    );
    reveal_strlit("FROM software_pattern_chunks");
    reveal_strlit("LIMIT ");
    reveal_strlit("ORDER BY chunk_index");
    reveal_strlit("SELECT");
    reveal_strlit("source_id = ");
    let t = GET_SOURCE_EXCERPTS_SQL@;
    assert(part_at(t, 0, "SELECT"@));
    assert(part_at(t, 59, "source_id = "@));
    assert(part_at(t, 113, "LIMIT "@));
    assert(part_at(t, 83, "ORDER BY chunk_index"@));
    assert(part_at(t, 15, "FROM software_pattern_chunks"@));
}

/// What the text of [`CATALOG_PARADIGMS_SQL`] says.
pub proof fn catalog_paradigms_text()
    ensures
        opens(CATALOG_PARADIGMS_SQL@, "SELECT COUNT(*) FROM programming_paradigms"@),
{
    reveal_strlit(
        "SELECT COUNT(*) FROM programming_paradigms",
    );
    reveal_strlit("SELECT COUNT(*) FROM programming_paradigms");
    let t = CATALOG_PARADIGMS_SQL@;
    assert(part_at(t, 0, "SELECT COUNT(*) FROM programming_paradigms"@));
}

/// What the text of [`CATALOG_PATTERNS_SQL`] says.
pub proof fn catalog_patterns_text()
    ensures
        opens(CATALOG_PATTERNS_SQL@, "SELECT COUNT(*) FROM software_patterns"@),
{
    reveal_strlit(
        "SELECT COUNT(*) FROM software_patterns WHERE kind = 'pattern'",
    );
    reveal_strlit("SELECT COUNT(*) FROM software_patterns");
    let t = CATALOG_PATTERNS_SQL@;
    assert(part_at(t, 0, "SELECT COUNT(*) FROM software_patterns"@));
}

/// What the text of [`CATALOG_ANTI_PATTERNS_SQL`] says.
pub proof fn catalog_anti_patterns_text()
    ensures
        opens(CATALOG_ANTI_PATTERNS_SQL@, "SELECT COUNT(*) FROM software_patterns"@),
{
    reveal_strlit(
        "SELECT COUNT(*) FROM software_patterns WHERE kind = 'anti_pattern'",
    );
    reveal_strlit("SELECT COUNT(*) FROM software_patterns");
    let t = CATALOG_ANTI_PATTERNS_SQL@;
    assert(part_at(t, 0, "SELECT COUNT(*) FROM software_patterns"@));
}

/// What the text of [`CATALOG_PRINCIPLES_SQL`] says.
pub proof fn catalog_principles_text()
    ensures
        opens(CATALOG_PRINCIPLES_SQL@, "SELECT COUNT(*) FROM software_patterns"@),
{
    reveal_strlit(
        "SELECT COUNT(*) FROM software_patterns WHERE kind = 'principle'",
    );
    reveal_strlit("SELECT COUNT(*) FROM software_patterns");
    let t = CATALOG_PRINCIPLES_SQL@;
    assert(part_at(t, 0, "SELECT COUNT(*) FROM software_patterns"@));
}

/// What the text of [`CATALOG_CODE_SMELLS_SQL`] says.
pub proof fn catalog_code_smells_text()
    ensures
        opens(CATALOG_CODE_SMELLS_SQL@, "SELECT COUNT(*) FROM software_patterns"@),
{
    reveal_strlit(
        "SELECT COUNT(*) FROM software_patterns WHERE kind = 'code_smell'",
    );
    reveal_strlit("SELECT COUNT(*) FROM software_patterns");
    let t = CATALOG_CODE_SMELLS_SQL@;
    assert(part_at(t, 0, "SELECT COUNT(*) FROM software_patterns"@));
}

/// What the text of [`CATALOG_SOURCES_SQL`] says.
pub proof fn catalog_sources_text()
    ensures
        opens(CATALOG_SOURCES_SQL@, "SELECT COUNT(*) FROM software_pattern_sources"@),
{
    reveal_strlit(
        "SELECT COUNT(*) FROM software_pattern_sources",
    );
    reveal_strlit("SELECT COUNT(*) FROM software_pattern_sources");
    let t = CATALOG_SOURCES_SQL@;
    assert(part_at(t, 0, "SELECT COUNT(*) FROM software_pattern_sources"@));
}

/// What the text of [`CATALOG_CHUNKS_SQL`] says.
pub proof fn catalog_chunks_text()
    ensures
        opens(CATALOG_CHUNKS_SQL@, "SELECT COUNT(*) FROM software_pattern_chunks"@),
{
    reveal_strlit(
        "SELECT COUNT(*) FROM software_pattern_chunks",
    );
    reveal_strlit("SELECT COUNT(*) FROM software_pattern_chunks");
    let t = CATALOG_CHUNKS_SQL@;
    assert(part_at(t, 0, "SELECT COUNT(*) FROM software_pattern_chunks"@));
}

/// What the text of [`CATALOG_CHUNKS_MISSING_EMBEDDINGS_SQL`] says.
pub proof fn catalog_chunks_missing_embeddings_text()
    ensures
        opens(
            CATALOG_CHUNKS_MISSING_EMBEDDINGS_SQL@,
            "SELECT COUNT(*) FROM software_pattern_chunks"@,
        ),
{
    reveal_strlit(
        "SELECT COUNT(*) FROM software_pattern_chunks WHERE embedding IS NULL",
    );
    reveal_strlit("SELECT COUNT(*) FROM software_pattern_chunks");
    let t = CATALOG_CHUNKS_MISSING_EMBEDDINGS_SQL@;
    assert(part_at(t, 0, "SELECT COUNT(*) FROM software_pattern_chunks"@));
}

/// What the text of [`CATALOG_SOURCE_FAMILIES_SQL`] says.
pub proof fn catalog_source_families_text()
    ensures
        opens(CATALOG_SOURCE_FAMILIES_SQL@, "SELECT"@),
        says(CATALOG_SOURCE_FAMILIES_SQL@, "GROUP BY s.source_family"@),
        says(CATALOG_SOURCE_FAMILIES_SQL@, "ORDER BY s.source_family"@),
        says(CATALOG_SOURCE_FAMILIES_SQL@, "FROM software_pattern_sources"@),
        says(
            CATALOG_SOURCE_FAMILIES_SQL@,
            "LEFT JOIN software_pattern_chunks c ON c.source_id = s.id"@,
        ),
{
    reveal_strlit(
        "SELECT s.source_family,
                COUNT(DISTINCT s.id)::bigint AS source_count,
                COUNT(c.id)::bigint AS chunk_count
         FROM software_pattern_sources s
         LEFT JOIN software_pattern_chunks c ON c.source_id = s.id
         GROUP BY s.source_family
         ORDER BY s.source_family",
    );
    reveal_strlit("FROM software_pattern_sources");
    reveal_strlit("GROUP BY s.source_family");
    reveal_strlit("LEFT JOIN software_pattern_chunks c ON c.source_id = s.id");
    reveal_strlit("ORDER BY s.source_family");
    reveal_strlit("SELECT");
    let t = CATALOG_SOURCE_FAMILIES_SQL@;
    assert(part_at(t, 0, "SELECT"@));
    assert(part_at(t, 254, "GROUP BY s.source_family"@));
    assert(part_at(t, 288, "ORDER BY s.source_family"@));
    assert(part_at(t, 146, "FROM software_pattern_sources"@));
    assert(part_at(t, 187, "LEFT JOIN software_pattern_chunks c ON c.source_id = s.id"@));
}

/// What the text of [`COUNT_PATTERNS_SQL`] says.
pub proof fn count_patterns_text()
    ensures
        opens(COUNT_PATTERNS_SQL@, "SELECT COUNT(*) FROM software_patterns"@),
{
    reveal_strlit(
        "SELECT COUNT(*) FROM software_patterns",
    );
    reveal_strlit("SELECT COUNT(*) FROM software_patterns");
    let t = COUNT_PATTERNS_SQL@;
    assert(part_at(t, 0, "SELECT COUNT(*) FROM software_patterns"@));
}

/// What the text of [`START_IMPORT_RUN_SQL`] says.
pub proof fn start_import_run_text()
    ensures
        opens(START_IMPORT_RUN_SQL@, "INSERT INTO software_pattern_import_runs"@),
        lines_up(
            START_IMPORT_RUN_SQL@,
            "INSERT INTO software_pattern_import_runs"@,
            "mode"@,
            "VALUES ("@,
            1,
        ),
        lines_up(
            START_IMPORT_RUN_SQL@,
            "INSERT INTO software_pattern_import_runs"@,
            "source_family"@,
            "VALUES ("@,
            2,
        ),
{
    reveal_strlit(
        "INSERT INTO software_pattern_import_runs (mode, source_family, status)
         VALUES ($1, $2, 'running')
         RETURNING id",
    );
    reveal_strlit("INSERT INTO software_pattern_import_runs");
    reveal_strlit("VALUES (");
    reveal_strlit("mode");
    reveal_strlit("source_family");
    let t = START_IMPORT_RUN_SQL@;
    assert(part_at(t, 0, "INSERT INTO software_pattern_import_runs"@));
    reveal_with_fuel(past, 6);
    reveal_with_fuel(past_blanks, 2);
    assert(past(t, 40, '(') == 42);
    assert(item(t, 42, 0) == 42);
    assert(item(t, 42, 1) == 48);
    assert(item(t, 88, 0) == 88);
    assert(item(t, 88, 1) == 92);
    assert(lined_up_at(
        t,
        "INSERT INTO software_pattern_import_runs"@,
        "mode"@,
        "VALUES ("@,
        1,
        0,
        80,
        0,
    ));
    assert(lined_up_at(
        t,
        "INSERT INTO software_pattern_import_runs"@,
        "source_family"@,
        "VALUES ("@,
        2,
        0,
        80,
        1,
    ));
}

/// What the text of [`FINISH_IMPORT_RUN_SQL`] says.
pub proof fn finish_import_run_text()
    ensures
        opens(FINISH_IMPORT_RUN_SQL@, "UPDATE software_pattern_import_runs"@),
        mentions(FINISH_IMPORT_RUN_SQL@, "WHERE id = "@, 1),
        mentions(FINISH_IMPORT_RUN_SQL@, "status = "@, 2),
        mentions(FINISH_IMPORT_RUN_SQL@, "sources_seen = "@, 3),
        mentions(FINISH_IMPORT_RUN_SQL@, "sources_imported = "@, 4),
        mentions(FINISH_IMPORT_RUN_SQL@, "chunks_embedded = "@, 5),
        mentions(FINISH_IMPORT_RUN_SQL@, "error = "@, 6),
{
    reveal_strlit(
        "UPDATE software_pattern_import_runs SET
            finished_at = NOW(),
            status = $2,
            sources_seen = $3,
            sources_imported = $4,
            chunks_embedded = $5,
            error = $6
         WHERE id = $1",
    );
    reveal_strlit("UPDATE software_pattern_import_runs");
    reveal_strlit("WHERE id = ");
    reveal_strlit("chunks_embedded = ");
    reveal_strlit("error = ");
    reveal_strlit("sources_imported = ");
    reveal_strlit("sources_seen = ");
    reveal_strlit("status = ");
    let t = FINISH_IMPORT_RUN_SQL@;
    assert(part_at(t, 0, "UPDATE software_pattern_import_runs"@));
    assert(part_at(t, 230, "WHERE id = "@));
    assert(part_at(t, 85, "status = "@));
    assert(part_at(t, 110, "sources_seen = "@));
    assert(part_at(t, 141, "sources_imported = "@));
    assert(part_at(t, 176, "chunks_embedded = "@));
    assert(part_at(t, 210, "error = "@));
}

/// What the text of [`INSERT_SMALL_SOURCE_CHUNK_SQL`] says.
#[verifier::rlimit(50)]
pub proof fn insert_small_source_chunk_text()
    ensures
        opens(INSERT_SMALL_SOURCE_CHUNK_SQL@, "INSERT INTO software_pattern_chunks"@),
        lines_up(
            INSERT_SMALL_SOURCE_CHUNK_SQL@,
            "INSERT INTO software_pattern_chunks"@,
            "source_id"@,
            "VALUES ("@,
            1,
        ),
        lines_up(
            INSERT_SMALL_SOURCE_CHUNK_SQL@,
            "INSERT INTO software_pattern_chunks"@,
            "chunk_index"@,
            "VALUES ("@,
            2,
        ),
        lines_up(
            INSERT_SMALL_SOURCE_CHUNK_SQL@,
            "INSERT INTO software_pattern_chunks"@,
            "content"@,
            "VALUES ("@,
            3,
        ),
        lines_up(
            INSERT_SMALL_SOURCE_CHUNK_SQL@,
            "INSERT INTO software_pattern_chunks"@,
            "start_line"@,
            "VALUES ("@,
            4,
        ),
        lines_up(
            INSERT_SMALL_SOURCE_CHUNK_SQL@,
            "INSERT INTO software_pattern_chunks"@,
            "end_line"@,
            "VALUES ("@,
            5,
        ),
        lines_up(
            INSERT_SMALL_SOURCE_CHUNK_SQL@,
            "INSERT INTO software_pattern_chunks"@,
            "embedding"@,
            "VALUES ("@,
            6,
        ),
        says(INSERT_SMALL_SOURCE_CHUNK_SQL@, "ON CONFLICT (source_id, chunk_index) DO UPDATE SET"@),
        says(INSERT_SMALL_SOURCE_CHUNK_SQL@, "content = EXCLUDED.content"@),
        says(INSERT_SMALL_SOURCE_CHUNK_SQL@, "start_line = EXCLUDED.start_line"@),
        says(INSERT_SMALL_SOURCE_CHUNK_SQL@, "end_line = EXCLUDED.end_line"@),
        says(INSERT_SMALL_SOURCE_CHUNK_SQL@, "embedding = EXCLUDED.embedding"@),
        says(INSERT_SMALL_SOURCE_CHUNK_SQL@, "embedding_signature = EXCLUDED.embedding_signature"@),
{
    reveal_strlit(
        "INSERT INTO software_pattern_chunks
                    (source_id, chunk_index, content, start_line, end_line,
                     embedding, embedding_signature)
                 VALUES ($1, $2, $3, $4, $5, $6, 'minilm-l6-v2')
                 ON CONFLICT (source_id, chunk_index) DO UPDATE SET
                    content = EXCLUDED.content,
                    start_line = EXCLUDED.start_line,
                    end_line = EXCLUDED.end_line,
                    embedding = EXCLUDED.embedding,
                    embedding_signature = EXCLUDED.embedding_signature",
    );
    reveal_strlit("INSERT INTO software_pattern_chunks");
    reveal_strlit("ON CONFLICT (source_id, chunk_index) DO UPDATE SET");
    reveal_strlit("VALUES (");
    reveal_strlit("chunk_index");
    reveal_strlit("content");
    reveal_strlit("content = EXCLUDED.content");
    reveal_strlit("embedding");
    reveal_strlit("embedding = EXCLUDED.embedding");
    reveal_strlit("embedding_signature = EXCLUDED.embedding_signature");
    reveal_strlit("end_line");
    reveal_strlit("end_line = EXCLUDED.end_line");
    reveal_strlit("source_id");
    reveal_strlit("start_line");
    reveal_strlit("start_line = EXCLUDED.start_line");
    let t = INSERT_SMALL_SOURCE_CHUNK_SQL@;
    assert(part_at(t, 0, "INSERT INTO software_pattern_chunks"@));
    reveal_with_fuel(past, 23);
    reveal_with_fuel(past_blanks, 23);
    assert(past(t, 35, '(') == 57);
    assert(item(t, 57, 0) == 57);
    assert(item(t, 57, 1) == 68);
    assert(item(t, 57, 2) == 81);
    assert(item(t, 57, 3) == 90);
    assert(item(t, 57, 4) == 102);
    assert(item(t, 57, 5) == 133);
    assert(item(t, 190, 0) == 190);
    assert(item(t, 190, 1) == 194);
    assert(item(t, 190, 2) == 198);
    assert(item(t, 190, 3) == 202);
    assert(item(t, 190, 4) == 206);
    assert(item(t, 190, 5) == 210);
    assert(lined_up_at(
        t,
        "INSERT INTO software_pattern_chunks"@,
        "source_id"@,
        "VALUES ("@,
        1,
        0,
        182,
        0,
    ));
    assert(lined_up_at(
        t,
        "INSERT INTO software_pattern_chunks"@,
        "chunk_index"@,
        "VALUES ("@,
        2,
        0,
        182,
        1,
    ));
    assert(lined_up_at(
        t,
        "INSERT INTO software_pattern_chunks"@,
        "content"@,
        "VALUES ("@,
        3,
        0,
        182,
        2,
    ));
    assert(lined_up_at(
        t,
        "INSERT INTO software_pattern_chunks"@,
        "start_line"@,
        "VALUES ("@,
        4,
        0,
        182,
        3,
    ));
    assert(lined_up_at(
        t,
        "INSERT INTO software_pattern_chunks"@,
        "end_line"@,
        "VALUES ("@,
        5,
        0,
        182,
        4,
    ));
    assert(lined_up_at(
        t,
        "INSERT INTO software_pattern_chunks"@,
        "embedding"@,
        "VALUES ("@,
        6,
        0,
        182,
        5,
    ));
    assert(part_at(t, 247, "ON CONFLICT (source_id, chunk_index) DO UPDATE SET"@));
    assert(part_at(t, 318, "content = EXCLUDED.content"@));
    assert(part_at(t, 366, "start_line = EXCLUDED.start_line"@));
    assert(part_at(t, 420, "end_line = EXCLUDED.end_line"@));
    assert(part_at(t, 470, "embedding = EXCLUDED.embedding"@));
    assert(part_at(t, 522, "embedding_signature = EXCLUDED.embedding_signature"@));
}

/// What the text of [`INSERT_SOURCE_CHUNK_SQL`] says.
#[verifier::rlimit(50)]
pub proof fn insert_source_chunk_text()
    ensures
        opens(INSERT_SOURCE_CHUNK_SQL@, "INSERT INTO software_pattern_chunks"@),
        lines_up(
            INSERT_SOURCE_CHUNK_SQL@,
            "INSERT INTO software_pattern_chunks"@,
            "source_id"@,
            "VALUES ("@,
            1,
        ),
        lines_up(
            INSERT_SOURCE_CHUNK_SQL@,
            "INSERT INTO software_pattern_chunks"@,
            "chunk_index"@,
            "VALUES ("@,
            2,
        ),
        lines_up(
            INSERT_SOURCE_CHUNK_SQL@,
            "INSERT INTO software_pattern_chunks"@,
            "content"@,
            "VALUES ("@,
            3,
        ),
        lines_up(
            INSERT_SOURCE_CHUNK_SQL@,
            "INSERT INTO software_pattern_chunks"@,
            "start_line"@,
            "VALUES ("@,
            4,
        ),
        lines_up(
            INSERT_SOURCE_CHUNK_SQL@,
            "INSERT INTO software_pattern_chunks"@,
            "end_line"@,
            "VALUES ("@,
            5,
        ),
        lines_up(
            INSERT_SOURCE_CHUNK_SQL@,
            "INSERT INTO software_pattern_chunks"@,
            "embedding_v2"@,
            "VALUES ("@,
            6,
        ),
        says(INSERT_SOURCE_CHUNK_SQL@, "ON CONFLICT (source_id, chunk_index) DO UPDATE SET"@),
        says(INSERT_SOURCE_CHUNK_SQL@, "content = EXCLUDED.content"@),
        says(INSERT_SOURCE_CHUNK_SQL@, "start_line = EXCLUDED.start_line"@),
        says(INSERT_SOURCE_CHUNK_SQL@, "end_line = EXCLUDED.end_line"@),
        says(INSERT_SOURCE_CHUNK_SQL@, "embedding_v2 = EXCLUDED.embedding_v2"@),
        says(INSERT_SOURCE_CHUNK_SQL@, "embedding_signature = EXCLUDED.embedding_signature"@),
{
    reveal_strlit(
        "INSERT INTO software_pattern_chunks
                    (source_id, chunk_index, content, start_line, end_line,
                     embedding_v2, embedding_signature)
                 VALUES ($1, $2, $3, $4, $5, $6, 'bge-m3-v1')
                 ON CONFLICT (source_id, chunk_index) DO UPDATE SET
                    content = EXCLUDED.content,
                    start_line = EXCLUDED.start_line,
                    end_line = EXCLUDED.end_line,
                    embedding_v2 = EXCLUDED.embedding_v2,
                    embedding_signature = EXCLUDED.embedding_signature",
    );
    reveal_strlit("INSERT INTO software_pattern_chunks");
    reveal_strlit("ON CONFLICT (source_id, chunk_index) DO UPDATE SET");
    reveal_strlit("VALUES (");
    reveal_strlit("chunk_index");
    reveal_strlit("content");
    reveal_strlit("content = EXCLUDED.content");
    reveal_strlit("embedding_signature = EXCLUDED.embedding_signature");
    reveal_strlit("embedding_v2");
    reveal_strlit("embedding_v2 = EXCLUDED.embedding_v2");
    reveal_strlit("end_line");
    reveal_strlit("end_line = EXCLUDED.end_line");
    reveal_strlit("source_id");
    reveal_strlit("start_line");
    reveal_strlit("start_line = EXCLUDED.start_line");
    let t = INSERT_SOURCE_CHUNK_SQL@;
    assert(part_at(t, 0, "INSERT INTO software_pattern_chunks"@));
    reveal_with_fuel(past, 23);
    reveal_with_fuel(past_blanks, 23);
    assert(past(t, 35, '(') == 57);
    assert(item(t, 57, 0) == 57);
    assert(item(t, 57, 1) == 68);
    assert(item(t, 57, 2) == 81);
    assert(item(t, 57, 3) == 90);
    assert(item(t, 57, 4) == 102);
    assert(item(t, 57, 5) == 133);
    assert(item(t, 193, 0) == 193);
    assert(item(t, 193, 1) == 197);
    assert(item(t, 193, 2) == 201);
    assert(item(t, 193, 3) == 205);
    assert(item(t, 193, 4) == 209);
    assert(item(t, 193, 5) == 213);
    assert(lined_up_at(
        t,
        "INSERT INTO software_pattern_chunks"@,
        "source_id"@,
        "VALUES ("@,
        1,
        0,
        185,
        0,
    ));
    assert(lined_up_at(
        t,
        "INSERT INTO software_pattern_chunks"@,
        "chunk_index"@,
        "VALUES ("@,
        2,
        0,
        185,
        1,
    ));
    assert(lined_up_at(
        t,
        "INSERT INTO software_pattern_chunks"@,
        "content"@,
        "VALUES ("@,
        3,
        0,
        185,
        2,
    ));
    assert(lined_up_at(
        t,
        "INSERT INTO software_pattern_chunks"@,
        "start_line"@,
        "VALUES ("@,
        4,
        0,
        185,
        3,
    ));
    assert(lined_up_at(
        t,
        "INSERT INTO software_pattern_chunks"@,
        "end_line"@,
        "VALUES ("@,
        5,
        0,
        185,
        4,
    ));
    assert(lined_up_at(
        t,
        "INSERT INTO software_pattern_chunks"@,
        "embedding_v2"@,
        "VALUES ("@,
        6,
        0,
        185,
        5,
    ));
    assert(part_at(t, 247, "ON CONFLICT (source_id, chunk_index) DO UPDATE SET"@));
    assert(part_at(t, 318, "content = EXCLUDED.content"@));
    assert(part_at(t, 366, "start_line = EXCLUDED.start_line"@));
    assert(part_at(t, 420, "end_line = EXCLUDED.end_line"@));
    assert(part_at(t, 470, "embedding_v2 = EXCLUDED.embedding_v2"@));
    assert(part_at(t, 528, "embedding_signature = EXCLUDED.embedding_signature"@));
}

/// What the text of [`SEARCH_PATTERNS_1`] says.
pub proof fn search_patterns_1_text()
    ensures
        opens(SEARCH_PATTERNS_1@, "SELECT"@),
        ends_plainly(SEARCH_PATTERNS_1@),
{
    reveal_strlit(
        "SELECT p.id AS pattern_id,
                p.slug, p.name, p.kind, p.category, p.summary, p.intent, p.canonical_url,
                s.id AS source_id, s.source_family, s.title AS source_title,
                s.url AS source_url, s.license_label,
                c.content AS chunk_content,
                1 - (c.",
    );
    reveal_strlit("SELECT");
    let t = SEARCH_PATTERNS_1@;
    assert(part_at(t, 0, "SELECT"@));
}

/// What the text of [`SEARCH_PATTERNS_2`] says.
#[verifier::rlimit(50)]
pub proof fn search_patterns_2_text()
    ensures
        mentions(SEARCH_PATTERNS_2@, "<=> "@, 1),
        mentions(SEARCH_PATTERNS_2@, "p.kind = "@, 3),
        mentions(SEARCH_PATTERNS_2@, "pg.slug = ANY("@, 4),
        mentions(SEARCH_PATTERNS_2@, "p.category = "@, 5),
        mentions(SEARCH_PATTERNS_2@, "s.source_family = "@, 6),
        mentions(SEARCH_PATTERNS_2@, "s.source_type = "@, 7),
        says(SEARCH_PATTERNS_2@, "WHERE pp.pattern_id = p.id"@),
        says(SEARCH_PATTERNS_2@, "AND c."@),
        says(SEARCH_PATTERNS_2@, "FROM software_pattern_chunks"@),
        says(SEARCH_PATTERNS_2@, "JOIN software_pattern_sources s ON s.id = c.source_id"@),
        says(
            SEARCH_PATTERNS_2@,
            "JOIN software_pattern_source_patterns sp ON sp.source_id = s.id"@,
        ),
        says(SEARCH_PATTERNS_2@, "JOIN software_patterns p ON p.id = sp.pattern_id"@),
        says(SEARCH_PATTERNS_2@, "JOIN programming_paradigms pg ON pg.id = pp.paradigm_id"@),
        ends_plainly(SEARCH_PATTERNS_2@),
{
    reveal_strlit(
        " <=> $1) AS score
         FROM software_pattern_chunks c
         JOIN software_pattern_sources s ON s.id = c.source_id
         JOIN software_pattern_source_patterns sp ON sp.source_id = s.id
         JOIN software_patterns p ON p.id = sp.pattern_id
         WHERE ($3::text IS NULL OR p.kind = $3)
           AND ($4::text[] IS NULL OR EXISTS (
                SELECT 1
                FROM software_pattern_paradigms pp
                JOIN programming_paradigms pg ON pg.id = pp.paradigm_id
                WHERE pp.pattern_id = p.id
                  AND (pg.slug = ANY($4) OR pg.name = ANY($4))
           ))
           AND ($5::text IS NULL OR p.category = $5)
           AND ($6::text IS NULL OR s.source_family = $6)
           AND ($7::text IS NULL OR s.source_type = $7)
           AND c.",
    );
    reveal_strlit("<=> ");
    reveal_strlit("AND c.");
    reveal_strlit("FROM software_pattern_chunks");
    reveal_strlit("JOIN programming_paradigms pg ON pg.id = pp.paradigm_id");
    reveal_strlit("JOIN software_pattern_source_patterns sp ON sp.source_id = s.id");
    reveal_strlit("JOIN software_pattern_sources s ON s.id = c.source_id");
    reveal_strlit("JOIN software_patterns p ON p.id = sp.pattern_id");
    reveal_strlit("WHERE pp.pattern_id = p.id");
    reveal_strlit("p.category = ");
    reveal_strlit("p.kind = ");
    reveal_strlit("pg.slug = ANY(");
    reveal_strlit("s.source_family = ");
    reveal_strlit("s.source_type = ");
    let t = SEARCH_PATTERNS_2@;
    assert(part_at(t, 1, "<=> "@));
    assert(part_at(t, 288, "p.kind = "@));
    assert(part_at(t, 562, "pg.slug = ANY("@));
    assert(part_at(t, 652, "p.category = "@));
    assert(part_at(t, 705, "s.source_family = "@));
    assert(part_at(t, 763, "s.source_type = "@));
    assert(part_at(t, 512, "WHERE pp.pattern_id = p.id"@));
    assert(part_at(t, 794, "AND c."@));
    assert(part_at(t, 27, "FROM software_pattern_chunks"@));
    assert(part_at(t, 67, "JOIN software_pattern_sources s ON s.id = c.source_id"@));
    assert(part_at(t, 130, "JOIN software_pattern_source_patterns sp ON sp.source_id = s.id"@));
    assert(part_at(t, 203, "JOIN software_patterns p ON p.id = sp.pattern_id"@));
    assert(part_at(t, 440, "JOIN programming_paradigms pg ON pg.id = pp.paradigm_id"@));
}

/// What the text of [`SEARCH_PATTERNS_3`] says.
pub proof fn search_patterns_3_text()
    ensures
        says(SEARCH_PATTERNS_3@, "ORDER BY c."@),
        ends_plainly(SEARCH_PATTERNS_3@),
{
    reveal_strlit(
        " IS NOT NULL
         ORDER BY c.",
    );
    reveal_strlit("ORDER BY c.");
    let t = SEARCH_PATTERNS_3@;
    assert(part_at(t, 22, "ORDER BY c."@));
}

/// What the text of [`SEARCH_PATTERNS_4`] says.
pub proof fn search_patterns_4_text()
    ensures
        mentions(SEARCH_PATTERNS_4@, "<=> "@, 1),
        mentions(SEARCH_PATTERNS_4@, "LIMIT "@, 2),
{
    reveal_strlit(
        " <=> $1
         LIMIT $2",
    );
    reveal_strlit("<=> ");
    reveal_strlit("LIMIT ");
    let t = SEARCH_PATTERNS_4@;
    assert(part_at(t, 1, "<=> "@));
    assert(part_at(t, 17, "LIMIT "@));
}

/// Each argument of [`finds_source`] is what the text names in its place.
pub proof fn law_finds_source_stands_for_its_values(s: SourceUpsert<'_>)
    ensures
        opens(finds_source(s).sql, "SELECT"@),
        takes(finds_source(s), "source_family = "@, BindView::Text(s.source_family@)),
        takes(finds_source(s), "title = "@, BindView::Text(s.title@)),
        takes(finds_source(s), "COALESCE("@, BindView::OptText(opt_str(s.url))),
        says(finds_source(s).sql, "FROM software_pattern_sources"@),
{
    find_source_text();
    assert(finds_source(s).sql == FIND_SOURCE_SQL@);
}

/// Each argument of [`updates_source`] is what the text names in its place.
pub proof fn law_updates_source_stands_for_its_values(s: SourceUpsert<'_>, id: i64)
    ensures
        opens(updates_source(s, id).sql, "UPDATE software_pattern_sources"@),
        takes(updates_source(s, id), "WHERE id = "@, BindView::BigInt(id)),
        takes(
            updates_source(s, id),
            "license_label = "@,
            BindView::OptText(opt_str(s.license_label)),
        ),
        takes(updates_source(s, id), "source_type = "@, BindView::Text(s.source_type@)),
        takes(updates_source(s, id), "ingest_policy = "@, BindView::Text(s.ingest_policy@)),
        takes(updates_source(s, id), "COALESCE("@, BindView::OptText(opt_str(s.content))),
        takes(updates_source(s, id), "COALESCE("@, BindView::OptBigInt(opt_hash(s.content))),
        takes(updates_source(s, id), "COALESCE("@, BindView::Supplied(0)),
        takes(updates_source(s, id), "status = "@, BindView::Text(s.status@)),
        takes(updates_source(s, id), "error = "@, BindView::OptText(opt_str(s.error))),
        takes(updates_source(s, id), "metadata = "@, BindView::Supplied(1)),
{
    update_source_text();
    assert(updates_source(s, id).sql == UPDATE_SOURCE_SQL@);
}

/// Each argument of [`inserts_source`] is what the text names in its place.
pub proof fn law_inserts_source_stands_for_its_values(s: SourceUpsert<'_>)
    ensures
        opens(inserts_source(s).sql, "INSERT INTO software_pattern_sources"@),
        fills(
            inserts_source(s),
            "INSERT INTO software_pattern_sources"@,
            "source_family"@,
            "VALUES ("@,
            BindView::Text(s.source_family@),
        ),
        fills(
            inserts_source(s),
            "INSERT INTO software_pattern_sources"@,
            "title"@,
            "VALUES ("@,
            BindView::Text(s.title@),
        ),
        fills(
            inserts_source(s),
            "INSERT INTO software_pattern_sources"@,
            "url"@,
            "VALUES ("@,
            BindView::OptText(opt_str(s.url)),
        ),
        fills(
            inserts_source(s),
            "INSERT INTO software_pattern_sources"@,
            "license_label"@,
            "VALUES ("@,
            BindView::OptText(opt_str(s.license_label)),
        ),
        fills(
            inserts_source(s),
            "INSERT INTO software_pattern_sources"@,
            "source_type"@,
            "VALUES ("@,
            BindView::Text(s.source_type@),
        ),
        fills(
            inserts_source(s),
            "INSERT INTO software_pattern_sources"@,
            "ingest_policy"@,
            "VALUES ("@,
            BindView::Text(s.ingest_policy@),
        ),
        fills(
            inserts_source(s),
            "INSERT INTO software_pattern_sources"@,
            "content"@,
            "VALUES ("@,
            BindView::OptText(opt_str(s.content)),
        ),
        fills(
            inserts_source(s),
            "INSERT INTO software_pattern_sources"@,
            "content_hash"@,
            "VALUES ("@,
            BindView::OptBigInt(opt_hash(s.content)),
        ),
        fills(
            inserts_source(s),
            "INSERT INTO software_pattern_sources"@,
            "fetched_at"@,
            "VALUES ("@,
            BindView::Supplied(0),
        ),
        fills(
            inserts_source(s),
            "INSERT INTO software_pattern_sources"@,
            "status"@,
            "VALUES ("@,
            BindView::Text(s.status@),
        ),
        fills(
            inserts_source(s),
            "INSERT INTO software_pattern_sources"@,
            "error"@,
            "VALUES ("@,
            BindView::OptText(opt_str(s.error)),
        ),
        fills(
            inserts_source(s),
            "INSERT INTO software_pattern_sources"@,
            "metadata"@,
            "VALUES ("@,
            BindView::Supplied(1),
        ),
{
    insert_source_text();
    assert(inserts_source(s).sql == INSERT_SOURCE_SQL@);
}

/// The counts of the catalog are asked for in the order in which they are read.
pub proof fn law_catalog_counts_in_order()
    ensures
        opens(catalog_queries()[0].sql, "SELECT COUNT(*) FROM programming_paradigms"@),
        opens(catalog_queries()[1].sql, "SELECT COUNT(*) FROM software_patterns"@),
        opens(catalog_queries()[2].sql, "SELECT COUNT(*) FROM software_patterns"@),
        opens(catalog_queries()[3].sql, "SELECT COUNT(*) FROM software_patterns"@),
        opens(catalog_queries()[4].sql, "SELECT COUNT(*) FROM software_patterns"@),
        opens(catalog_queries()[5].sql, "SELECT COUNT(*) FROM software_pattern_sources"@),
        opens(catalog_queries()[6].sql, "SELECT COUNT(*) FROM software_pattern_chunks"@),
        opens(catalog_queries()[7].sql, "SELECT COUNT(*) FROM software_pattern_chunks"@),
        opens(catalog_queries()[8].sql, "SELECT"@),
        says(catalog_queries()[8].sql, "GROUP BY s.source_family"@),
        says(catalog_queries()[8].sql, "ORDER BY s.source_family"@),
        says(catalog_queries()[8].sql, "FROM software_pattern_sources"@),
        says(
            catalog_queries()[8].sql,
            "LEFT JOIN software_pattern_chunks c ON c.source_id = s.id"@,
        ),
{
    catalog_paradigms_text();
    assert(catalog_queries()[0].sql == CATALOG_PARADIGMS_SQL@);
    catalog_patterns_text();
    assert(catalog_queries()[1].sql == CATALOG_PATTERNS_SQL@);
    catalog_anti_patterns_text();
    assert(catalog_queries()[2].sql == CATALOG_ANTI_PATTERNS_SQL@);
    catalog_principles_text();
    assert(catalog_queries()[3].sql == CATALOG_PRINCIPLES_SQL@);
    catalog_code_smells_text();
    assert(catalog_queries()[4].sql == CATALOG_CODE_SMELLS_SQL@);
    catalog_sources_text();
    assert(catalog_queries()[5].sql == CATALOG_SOURCES_SQL@);
    catalog_chunks_text();
    assert(catalog_queries()[6].sql == CATALOG_CHUNKS_SQL@);
    catalog_chunks_missing_embeddings_text();
    assert(catalog_queries()[7].sql == CATALOG_CHUNKS_MISSING_EMBEDDINGS_SQL@);
    catalog_source_families_text();
    assert(catalog_queries()[8].sql == CATALOG_SOURCE_FAMILIES_SQL@);
}

} // verus!
