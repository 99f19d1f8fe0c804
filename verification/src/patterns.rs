//! The catalogue of software patterns and the sources it is drawn from.
use vstd::prelude::*;
use vstd::utf8::encode_utf8;

use crate::digest::{hex_digit, sha256_hex, text_sha256, text_xxh3, xxh3_value};
use crate::embedding::{tune, tuned, TunedQuery, EMBEDDING_COLUMN, EMBEDDING_DIM};
use crate::meaning::{fills, lemma_within, opens, says, takes};
use crate::protocol::{
    awaited, fits, statement_views, Action, ActionView, Awaiting, ProtocolError, Reply, ReplyView,
};
use crate::queries::texts::patterns::{
    count_patterns_text, delete_source_chunks_text, find_pattern_id_by_slug_text,
    find_source_state_text, finish_import_run_text, get_pattern_sources_text, get_pattern_text,
    get_source_excerpts_text, insert_small_source_chunk_text, insert_source_chunk_text,
    law_inserts_source_stands_for_its_values, law_updates_source_stands_for_its_values,
    link_pattern_paradigm_text, link_source_pattern_text, list_patterns_text,
    search_patterns_1_text, search_patterns_2_text, search_patterns_3_text, search_patterns_4_text,
    start_import_run_text, update_source_status_text, upsert_paradigm_text, upsert_pattern_text,
};
use crate::statement::{
    copy_strs, executes, fetches_all, fetches_one, fetches_optional, opt_as_str, opt_str, opt_text,
    str_texts, texts, Bind, BindView, Statement, StatementView,
};
use crate::text::{decimal_text, parse_i64, parsed, unsigned_decimal};

verus! {

/// A pattern in a list.
#[derive(Debug, Clone)]
pub struct PatternListRow {
    pub id: i64,
    pub slug: String,
    pub name: String,
    pub kind: String,
    pub category: String,
    pub summary: String,
    pub canonical_url: Option<String>,
    pub paradigms: Vec<String>,
    pub tags: Vec<String>,
}

/// A pattern with all its texts.
#[derive(Debug, Clone)]
pub struct PatternDetailRow {
    pub id: i64,
    pub slug: String,
    pub name: String,
    pub kind: String,
    pub category: String,
    pub summary: String,
    pub intent: String,
    pub problem: String,
    pub solution: String,
    pub consequences: String,
    pub canonical_url: Option<String>,
    pub paradigms: Vec<String>,
    pub tags: Vec<String>,
}

/// How large the catalogue is.
#[derive(Debug, Clone)]
pub struct PatternCatalogStats {
    pub paradigms: i64,
    pub patterns: i64,
    pub anti_patterns: i64,
    pub principles: i64,
    pub code_smells: i64,
    pub sources: i64,
    pub chunks: i64,
    pub chunks_missing_embeddings: i64,
    pub source_families: Vec<SourceFamilyStats>,
}

/// How much one family of sources holds.
#[derive(Debug, Clone)]
pub struct SourceFamilyStats {
    pub source_family: String,
    pub source_count: i64,
    pub chunk_count: i64,
}

/// Filters of a search; one that is not given matches all.
#[derive(Debug, Clone)]
pub struct PatternSearchOptions {
    pub kind: Option<String>,
    pub paradigms: Option<Vec<String>>,
    pub category: Option<String>,
    pub source_family: Option<String>,
    pub source_type: Option<String>,
}

/// Filters of a list, and which part of it is wanted.
#[derive(Debug, Clone)]
pub struct PatternListOptions {
    pub kind: Option<String>,
    pub paradigm: Option<String>,
    pub category: Option<String>,
    pub source_family: Option<String>,
    pub limit: i32,
    pub offset: i32,
}

/// A programming paradigm to be stored.
#[derive(Debug)]
pub struct ParadigmSeed<'a> {
    pub slug: &'a str,
    pub name: &'a str,
    pub description: &'a str,
    pub wikipedia_url: Option<&'a str>,
}

/// A pattern to be stored.
#[derive(Debug)]
pub struct PatternSeed<'a> {
    pub slug: &'a str,
    pub name: &'a str,
    pub kind: &'a str,
    pub category: &'a str,
    pub summary: &'a str,
    pub intent: &'a str,
    pub problem: &'a str,
    pub solution: &'a str,
    pub consequences: &'a str,
    pub tags: &'a [&'a str],
    pub canonical_url: Option<&'a str>,
}

/// The hash by which a changed content is noticed.
pub fn content_hash(content: &str) -> (r: i64)
    ensures
        r == xxh3_value(encode_utf8(content@)) as i64,
{
    text_xxh3(content)
}

/// The digest by which a content is identified: 64 hexadecimal digits.
pub fn content_sha256(content: &str) -> (r: String)
    ensures
        r@ == sha256_hex(encode_utf8(content@)),
        r@.len() == 64,
        forall|i: int| 0 <= i < r@.len() ==> hex_digit(#[trigger] r@[i]),
{
    text_sha256(content)
}

pub const UPSERT_PARADIGM_SQL: &'static str = "INSERT INTO programming_paradigms (slug, name, description, wikipedia_url)
         VALUES ($1, $2, $3, $4)
         ON CONFLICT (slug) DO UPDATE SET
            name = EXCLUDED.name,
            description = EXCLUDED.description,
            wikipedia_url = EXCLUDED.wikipedia_url
         RETURNING id";

/// Stores a paradigm, or replaces the one with its short name.
pub fn upsert_paradigm(seed: &ParadigmSeed<'_>) -> (st: Statement)
    ensures
        st@ == fetches_one(
            UPSERT_PARADIGM_SQL@,
            seq![
                BindView::Text(seed.slug@),
                BindView::Text(seed.name@),
                BindView::Text(seed.description@),
                BindView::OptText(opt_str(seed.wikipedia_url)),
            ],
        ),
        opens(st@.sql, "INSERT INTO programming_paradigms"@),
        fills(
            st@,
            "INSERT INTO programming_paradigms"@,
            "slug"@,
            "VALUES ("@,
            BindView::Text(seed.slug@),
        ),
        fills(
            st@,
            "INSERT INTO programming_paradigms"@,
            "name"@,
            "VALUES ("@,
            BindView::Text(seed.name@),
        ),
        fills(
            st@,
            "INSERT INTO programming_paradigms"@,
            "description"@,
            "VALUES ("@,
            BindView::Text(seed.description@),
        ),
        fills(
            st@,
            "INSERT INTO programming_paradigms"@,
            "wikipedia_url"@,
            "VALUES ("@,
            BindView::OptText(opt_str(seed.wikipedia_url)),
        ),
        says(st@.sql, "ON CONFLICT (slug) DO UPDATE SET"@),
{
    proof {
        upsert_paradigm_text();
    }
    let st = Statement::one(UPSERT_PARADIGM_SQL)
        .text(seed.slug)
        .text(seed.name)
        .text(seed.description)
        .opt_text(seed.wikipedia_url);
    assert(st@.sql == UPSERT_PARADIGM_SQL@);
    st
}

pub const UPSERT_PATTERN_SQL: &'static str = "INSERT INTO software_patterns (
            slug, name, kind, category, summary, intent, problem, solution,
            consequences, tags, canonical_url, updated_at
         )
         VALUES ($1, $2, $3, $4, $5, $6, $7, $8, $9, $10, $11, NOW())
         ON CONFLICT (slug) DO UPDATE SET
            name = EXCLUDED.name,
            kind = EXCLUDED.kind,
            category = EXCLUDED.category,
            summary = EXCLUDED.summary,
            intent = EXCLUDED.intent,
            problem = EXCLUDED.problem,
            solution = EXCLUDED.solution,
            consequences = EXCLUDED.consequences,
            tags = EXCLUDED.tags,
            canonical_url = EXCLUDED.canonical_url,
            updated_at = NOW()
         RETURNING id";

/// Stores a pattern, or replaces the one with its short name.
pub fn upsert_pattern(seed: &PatternSeed<'_>) -> (st: Statement)
    ensures
        st@ == fetches_one(
            UPSERT_PATTERN_SQL@,
            seq![
                BindView::Text(seed.slug@),
                BindView::Text(seed.name@),
                BindView::Text(seed.kind@),
                BindView::Text(seed.category@),
                BindView::Text(seed.summary@),
                BindView::Text(seed.intent@),
                BindView::Text(seed.problem@),
                BindView::Text(seed.solution@),
                BindView::Text(seed.consequences@),
                BindView::TextArray(str_texts(seed.tags@)),
                BindView::OptText(opt_str(seed.canonical_url)),
            ],
        ),
        opens(st@.sql, "INSERT INTO software_patterns"@),
        fills(
            st@,
            "INSERT INTO software_patterns"@,
            "slug"@,
            "VALUES ("@,
            BindView::Text(seed.slug@),
        ),
        fills(
            st@,
            "INSERT INTO software_patterns"@,
            "name"@,
            "VALUES ("@,
            BindView::Text(seed.name@),
        ),
        fills(
            st@,
            "INSERT INTO software_patterns"@,
            "kind"@,
            "VALUES ("@,
            BindView::Text(seed.kind@),
        ),
        fills(
            st@,
            "INSERT INTO software_patterns"@,
            "category"@,
            "VALUES ("@,
            BindView::Text(seed.category@),
        ),
        fills(
            st@,
            "INSERT INTO software_patterns"@,
            "summary"@,
            "VALUES ("@,
            BindView::Text(seed.summary@),
        ),
        fills(
            st@,
            "INSERT INTO software_patterns"@,
            "intent"@,
            "VALUES ("@,
            BindView::Text(seed.intent@),
        ),
        fills(
            st@,
            "INSERT INTO software_patterns"@,
            "problem"@,
            "VALUES ("@,
            BindView::Text(seed.problem@),
        ),
        fills(
            st@,
            "INSERT INTO software_patterns"@,
            "solution"@,
            "VALUES ("@,
            BindView::Text(seed.solution@),
        ),
        fills(
            st@,
            "INSERT INTO software_patterns"@,
            "consequences"@,
            "VALUES ("@,
            BindView::Text(seed.consequences@),
        ),
        fills(
            st@,
            "INSERT INTO software_patterns"@,
            "tags"@,
            "VALUES ("@,
            BindView::TextArray(str_texts(seed.tags@)),
        ),
        fills(
            st@,
            "INSERT INTO software_patterns"@,
            "canonical_url"@,
            "VALUES ("@,
            BindView::OptText(opt_str(seed.canonical_url)),
        ),
        says(st@.sql, "ON CONFLICT (slug) DO UPDATE SET"@),
{
    proof {
        upsert_pattern_text();
    }
    let st = Statement::one(UPSERT_PATTERN_SQL)
        .text(seed.slug)
        .text(seed.name)
        .text(seed.kind)
        .text(seed.category)
        .text(seed.summary)
        .text(seed.intent)
        .text(seed.problem)
        .text(seed.solution)
        .text(seed.consequences)
        .bind(Bind::TextArray(copy_strs(seed.tags)))
        .opt_text(seed.canonical_url);
    assert(st@.sql == UPSERT_PATTERN_SQL@);
    st
}

pub const LINK_PATTERN_PARADIGM_SQL: &'static str = "INSERT INTO software_pattern_paradigms (pattern_id, paradigm_id)
         SELECT $1, id FROM programming_paradigms WHERE slug = $2
         ON CONFLICT (pattern_id, paradigm_id) DO NOTHING";

/// Links a pattern to a paradigm.
pub fn link_pattern_paradigm(pattern_id: i64, paradigm_slug: &str) -> (st: Statement)
    ensures
        st@ == executes(
            LINK_PATTERN_PARADIGM_SQL@,
            seq![
                BindView::BigInt(pattern_id),
                BindView::Text(paradigm_slug@),
            ],
        ),
        opens(st@.sql, "INSERT INTO software_pattern_paradigms"@),
        fills(
            st@,
            "INSERT INTO software_pattern_paradigms"@,
            "pattern_id"@,
            "SELECT "@,
            BindView::BigInt(pattern_id),
        ),
        takes(st@, "slug = "@, BindView::Text(paradigm_slug@)),
        says(st@.sql, "ON CONFLICT (pattern_id, paradigm_id) DO NOTHING"@),
        says(st@.sql, "FROM programming_paradigms"@),
{
    proof {
        link_pattern_paradigm_text();
    }
    let st = Statement::execute(LINK_PATTERN_PARADIGM_SQL).int8(pattern_id).text(paradigm_slug);
    assert(st@.sql == LINK_PATTERN_PARADIGM_SQL@);
    st
}

pub const FIND_PATTERN_ID_BY_SLUG_SQL: &'static str =
    "SELECT id FROM software_patterns WHERE slug = $1";

/// The id of a pattern, by its short name.
pub fn find_pattern_id_by_slug(slug: &str) -> (st: Statement)
    ensures
        st@ == fetches_optional(FIND_PATTERN_ID_BY_SLUG_SQL@, seq![BindView::Text(slug@)]),
        opens(st@.sql, "SELECT"@),
        takes(st@, "slug = "@, BindView::Text(slug@)),
        says(st@.sql, "FROM software_patterns"@),
{
    proof {
        find_pattern_id_by_slug_text();
    }
    let st = Statement::optional(FIND_PATTERN_ID_BY_SLUG_SQL).text(slug);
    assert(st@.sql == FIND_PATTERN_ID_BY_SLUG_SQL@);
    st
}

/// A source of patterns to be stored. Its metadata and the time at which it
/// was fetched stay with the caller.
#[derive(Debug, Clone)]
pub struct SourceUpsert<'a> {
    pub source_family: &'a str,
    pub title: &'a str,
    pub url: Option<&'a str>,
    pub license_label: Option<&'a str>,
    pub source_type: &'a str,
    pub ingest_policy: &'a str,
    pub content: Option<&'a str>,
    pub status: &'a str,
    pub error: Option<&'a str>,
}

pub const FIND_SOURCE_SQL: &'static str = "SELECT id FROM software_pattern_sources
         WHERE source_family = $1
           AND title = $2
           AND COALESCE(url, '') = COALESCE($3, '')
         LIMIT 1";

pub const UPDATE_SOURCE_SQL: &'static str = "UPDATE software_pattern_sources SET
                license_label = $2,
                source_type = $3,
                ingest_policy = $4,
                content = COALESCE($5, content),
                content_hash = COALESCE($6, content_hash),
                fetched_at = COALESCE($7, fetched_at),
                imported_at = NOW(),
                status = $8,
                error = $9,
                metadata = $10
             WHERE id = $1";

pub const INSERT_SOURCE_SQL: &'static str = "INSERT INTO software_pattern_sources (
                source_family, title, url, license_label, source_type, ingest_policy,
                content, content_hash, fetched_at, status, error, metadata
             )
             VALUES ($1, $2, $3, $4, $5, $6, $7, $8, $9, $10, $11, $12)
             RETURNING id";

/// The hash of a content, where there is one.
pub open spec fn opt_hash(content: Option<&str>) -> Option<i64> {
    match content {
        Some(c) => Some(xxh3_value(encode_utf8(c@)) as i64),
        None => None,
    }
}

/// Finding a source by its family, title and address.
pub open spec fn finds_source(s: SourceUpsert<'_>) -> StatementView {
    fetches_optional(
        FIND_SOURCE_SQL@,
        seq![
            BindView::Text(s.source_family@),
            BindView::Text(s.title@),
            BindView::OptText(opt_str(s.url)),
        ],
    )
}

/// Changing a source that is there. The caller supplies value 0, the time at
/// which it was fetched, and value 1, its metadata.
pub open spec fn updates_source(s: SourceUpsert<'_>, id: i64) -> StatementView {
    executes(
        UPDATE_SOURCE_SQL@,
        seq![
            BindView::BigInt(id),
            BindView::OptText(opt_str(s.license_label)),
            BindView::Text(s.source_type@),
            BindView::Text(s.ingest_policy@),
            BindView::OptText(opt_str(s.content)),
            BindView::OptBigInt(opt_hash(s.content)),
            BindView::Supplied(0),
            BindView::Text(s.status@),
            BindView::OptText(opt_str(s.error)),
            BindView::Supplied(1),
        ],
    )
}

/// Storing a new source. The caller supplies value 0, the time at which it was
/// fetched, and value 1, its metadata.
pub open spec fn inserts_source(s: SourceUpsert<'_>) -> StatementView {
    fetches_one(
        INSERT_SOURCE_SQL@,
        seq![
            BindView::Text(s.source_family@),
            BindView::Text(s.title@),
            BindView::OptText(opt_str(s.url)),
            BindView::OptText(opt_str(s.license_label)),
            BindView::Text(s.source_type@),
            BindView::Text(s.ingest_policy@),
            BindView::OptText(opt_str(s.content)),
            BindView::OptBigInt(opt_hash(s.content)),
            BindView::Supplied(0),
            BindView::Text(s.status@),
            BindView::OptText(opt_str(s.error)),
            BindView::Supplied(1),
        ],
    )
}

/// Where the storing of a source stands.
#[derive(Debug, Clone, Copy, PartialEq, Eq, Structural)]
pub enum SourceStage {
    Finding,
    Updating(i64),
    Inserting,
    Finished(i64),
}

/// Finds a source and changes it, or stores it where it is new.
#[derive(Debug)]
pub struct SourceStorage<'a> {
    pub source: SourceUpsert<'a>,
    pub stage: SourceStage,
}

/// Starts to store a source.
pub fn upsert_source<'a>(source: SourceUpsert<'a>) -> (r: (SourceStorage<'a>, Action))
    ensures
        r.0.source == source,
        r.0.stage is Finding,
        r.1@ == ActionView::Run(finds_source(source)),
        awaited(r.1@) == r.0.awaiting(),
{
    let st = Statement::optional(FIND_SOURCE_SQL)
        .text(source.source_family)
        .text(source.title)
        .opt_text(source.url);
    assert(st@ =~= finds_source(source));
    (SourceStorage { source, stage: SourceStage::Finding }, Action::Run(st))
}

impl<'a> SourceStorage<'a> {
    /// What follows an answer: the next stage and request.
    pub open spec fn next(self, reply: ReplyView) -> (SourceStage, ActionView) {
        match (self.stage, reply) {
            (SourceStage::Finding, ReplyView::Ids(ids)) => if ids.len() > 0 {
                (
                    SourceStage::Updating(ids[0]),
                    ActionView::Run(updates_source(self.source, ids[0])),
                )
            } else {
                (SourceStage::Inserting, ActionView::Run(inserts_source(self.source)))
            },
            (SourceStage::Updating(id), _) => (SourceStage::Finished(id), ActionView::Done),
            (SourceStage::Inserting, ReplyView::Ids(ids)) => (
                SourceStage::Finished(ids[0]),
                ActionView::Done,
            ),
            _ => (self.stage, ActionView::Done),
        }
    }

    /// The shape of answer that is awaited.
    pub open spec fn awaiting(self) -> Awaiting {
        match self.stage {
            SourceStage::Finding => Awaiting::Optional,
            SourceStage::Updating(_) => Awaiting::Affected,
            SourceStage::Inserting => Awaiting::One,
            SourceStage::Finished(_) => Awaiting::Nothing,
        }
    }

    fn hash(&self) -> (r: Option<i64>)
        ensures
            r == opt_hash(self.source.content),
    {
        match self.source.content {
            Some(c) => Some(content_hash(c)),
            None => None,
        }
    }

    /// Takes an answer and says what to do next.
    pub fn step(&mut self, reply: &Reply) -> (r: Action)
        requires
            fits(old(self).awaiting(), reply@),
        ensures
            final(self).source == old(self).source,
            (final(self).stage, r@) == old(self).next(reply@),
            awaited(r@) == final(self).awaiting(),
    {
        let hash: Option<i64> = self.hash();
        match (self.stage, reply) {
            (SourceStage::Finding, Reply::Ids(ids)) => {
                let s = &self.source;
                if ids.len() > 0 {
                    let id: i64 = ids[0];
                    let st = Statement::execute(UPDATE_SOURCE_SQL)
                        .int8(id)
                        .opt_text(s.license_label)
                        .text(s.source_type)
                        .text(s.ingest_policy)
                        .opt_text(s.content)
                        .opt_int8(hash)
                        .supplied(0)
                        .text(s.status)
                        .opt_text(s.error)
                        .supplied(1);
                    assert(st@ =~= updates_source(self.source, id));
                    self.stage = SourceStage::Updating(id);
                    Action::Run(st)
                } else {
                    let st = Statement::one(INSERT_SOURCE_SQL)
                        .text(s.source_family)
                        .text(s.title)
                        .opt_text(s.url)
                        .opt_text(s.license_label)
                        .text(s.source_type)
                        .text(s.ingest_policy)
                        .opt_text(s.content)
                        .opt_int8(hash)
                        .supplied(0)
                        .text(s.status)
                        .opt_text(s.error)
                        .supplied(1);
                    assert(st@ =~= inserts_source(self.source));
                    self.stage = SourceStage::Inserting;
                    Action::Run(st)
                }
            },
            (SourceStage::Updating(id), _) => {
                self.stage = SourceStage::Finished(id);
                Action::Done
            },
            (SourceStage::Inserting, Reply::Ids(ids)) => {
                self.stage = SourceStage::Finished(ids[0]);
                Action::Done
            },
            _ => Action::Done,
        }
    }

    /// The id of the source, at the end.
    pub fn source_id(&self) -> (r: Option<i64>)
        ensures
            r == (match self.stage {
                SourceStage::Finished(id) => Some(id),
                _ => None,
            }),
    {
        match self.stage {
            SourceStage::Finished(id) => Some(id),
            _ => None,
        }
    }
}

pub const FIND_SOURCE_STATE_SQL: &'static str = "SELECT
            s.id,
            s.content,
            s.content_hash,
            s.metadata,
            COUNT(c.id)::BIGINT AS chunk_count
         FROM software_pattern_sources s
         LEFT JOIN software_pattern_chunks c ON c.source_id = s.id
         WHERE s.source_family = $1
           AND s.title = $2
           AND COALESCE(s.url, '') = COALESCE($3, '')
         GROUP BY s.id
         LIMIT 1";

/// What is stored of a source.
pub fn find_source_state(source_family: &str, title: &str, url: Option<&str>) -> (st: Statement)
    ensures
        st@ == fetches_optional(
            FIND_SOURCE_STATE_SQL@,
            seq![
                BindView::Text(source_family@),
                BindView::Text(title@),
                BindView::OptText(opt_str(url)),
            ],
        ),
        opens(st@.sql, "SELECT"@),
        takes(st@, "s.source_family = "@, BindView::Text(source_family@)),
        takes(st@, "s.title = "@, BindView::Text(title@)),
        takes(st@, "COALESCE("@, BindView::OptText(opt_str(url))),
        says(st@.sql, "GROUP BY s.id"@),
        says(st@.sql, "FROM software_pattern_sources"@),
{
    proof {
        find_source_state_text();
    }
    let st = Statement::optional(FIND_SOURCE_STATE_SQL).text(source_family).text(title).opt_text(url);
    assert(st@.sql == FIND_SOURCE_STATE_SQL@);
    st
}

pub const UPDATE_SOURCE_STATUS_SQL: &'static str = "UPDATE software_pattern_sources SET
            fetched_at = COALESCE($2, fetched_at),
            imported_at = NOW(),
            status = $3,
            error = $4,
            metadata = $5
         WHERE id = $1";

/// Sets the status of a source. The caller supplies value 0, `fetched_at`,
/// value 1, `metadata`.
pub fn update_source_status(source_id: i64, status: &str, error: Option<&str>) -> (st: Statement)
    ensures
        st@ == executes(
            UPDATE_SOURCE_STATUS_SQL@,
            seq![
                BindView::BigInt(source_id),
                BindView::Supplied(0),
                BindView::Text(status@),
                BindView::OptText(opt_str(error)),
                BindView::Supplied(1),
            ],
        ),
        opens(st@.sql, "UPDATE software_pattern_sources"@),
        takes(st@, "WHERE id = "@, BindView::BigInt(source_id)),
        takes(st@, "COALESCE("@, BindView::Supplied(0)),
        takes(st@, "status = "@, BindView::Text(status@)),
        takes(st@, "error = "@, BindView::OptText(opt_str(error))),
        takes(st@, "metadata = "@, BindView::Supplied(1)),
{
    proof {
        update_source_status_text();
    }
    let st = Statement::execute(UPDATE_SOURCE_STATUS_SQL)
        .int8(source_id)
        .supplied(0)
        .text(status)
        .opt_text(error)
        .supplied(1);
    assert(st@.sql == UPDATE_SOURCE_STATUS_SQL@);
    st
}

pub const LINK_SOURCE_PATTERN_SQL: &'static str = "INSERT INTO software_pattern_source_patterns (source_id, pattern_id, relation)
         VALUES ($1, $2, $3)
         ON CONFLICT (source_id, pattern_id) DO UPDATE SET relation = EXCLUDED.relation";

/// Links a source to a pattern, or changes the relation of the link.
pub fn link_source_pattern(source_id: i64, pattern_id: i64, relation: &str) -> (st: Statement)
    ensures
        st@ == executes(
            LINK_SOURCE_PATTERN_SQL@,
            seq![
                BindView::BigInt(source_id),
                BindView::BigInt(pattern_id),
                BindView::Text(relation@),
            ],
        ),
        opens(st@.sql, "INSERT INTO software_pattern_source_patterns"@),
        fills(
            st@,
            "INSERT INTO software_pattern_source_patterns"@,
            "source_id"@,
            "VALUES ("@,
            BindView::BigInt(source_id),
        ),
        fills(
            st@,
            "INSERT INTO software_pattern_source_patterns"@,
            "pattern_id"@,
            "VALUES ("@,
            BindView::BigInt(pattern_id),
        ),
        fills(
            st@,
            "INSERT INTO software_pattern_source_patterns"@,
            "relation"@,
            "VALUES ("@,
            BindView::Text(relation@),
        ),
        says(
            st@.sql,
            "ON CONFLICT (source_id, pattern_id) DO UPDATE SET relation = EXCLUDED.relation"@,
        ),
{
    proof {
        link_source_pattern_text();
    }
    let st = Statement::execute(LINK_SOURCE_PATTERN_SQL)
        .int8(source_id)
        .int8(pattern_id)
        .text(relation);
    assert(st@.sql == LINK_SOURCE_PATTERN_SQL@);
    st
}

pub const DELETE_SOURCE_CHUNKS_SQL: &'static str =
    "DELETE FROM software_pattern_chunks WHERE source_id = $1";

/// Deletes the chunks of a source.
pub fn delete_source_chunks(source_id: i64) -> (st: Statement)
    ensures
        st@ == executes(DELETE_SOURCE_CHUNKS_SQL@, seq![BindView::BigInt(source_id)]),
        opens(st@.sql, "DELETE FROM software_pattern_chunks"@),
        takes(st@, "source_id = "@, BindView::BigInt(source_id)),
{
    proof {
        delete_source_chunks_text();
    }
    let st = Statement::execute(DELETE_SOURCE_CHUNKS_SQL).int8(source_id);
    assert(st@.sql == DELETE_SOURCE_CHUNKS_SQL@);
    st
}

pub const INSERT_SMALL_SOURCE_CHUNK_SQL: &'static str = "INSERT INTO software_pattern_chunks
                    (source_id, chunk_index, content, start_line, end_line,
                     embedding, embedding_signature)
                 VALUES ($1, $2, $3, $4, $5, $6, 'minilm-l6-v2')
                 ON CONFLICT (source_id, chunk_index) DO UPDATE SET
                    content = EXCLUDED.content,
                    start_line = EXCLUDED.start_line,
                    end_line = EXCLUDED.end_line,
                    embedding = EXCLUDED.embedding,
                    embedding_signature = EXCLUDED.embedding_signature";

pub const INSERT_SOURCE_CHUNK_SQL: &'static str = "INSERT INTO software_pattern_chunks
                    (source_id, chunk_index, content, start_line, end_line,
                     embedding_v2, embedding_signature)
                 VALUES ($1, $2, $3, $4, $5, $6, 'bge-m3-v1')
                 ON CONFLICT (source_id, chunk_index) DO UPDATE SET
                    content = EXCLUDED.content,
                    start_line = EXCLUDED.start_line,
                    end_line = EXCLUDED.end_line,
                    embedding_v2 = EXCLUDED.embedding_v2,
                    embedding_signature = EXCLUDED.embedding_signature";

/// The dimension of the smaller of the two embeddings that sources can have.
pub const SMALL_EMBEDDING_DIM: usize = 384;

/// The message that refuses to store a chunk with a dimension.
pub open spec fn source_chunk_refusal(dim: usize) -> Seq<char> {
    "insert_source_chunk: unsupported embedding dim "@ + decimal_text(dim as int)
        + " (expected 384 for MiniLM-L6-v2 or 1024 for BGE-M3); run `pgmcp embed-cutover --check`"@
}

/// Stores a chunk of a source, replacing the one with its source and index.
/// The caller supplies value 0, the embedding, of dimension `dim`.
pub fn insert_source_chunk(
    source_id: i64,
    chunk_index: i32,
    content: &str,
    start_line: i32,
    end_line: i32,
    dim: usize,
) -> (r: Result<Statement, ProtocolError>)
    ensures
        r is Ok <==> dim == SMALL_EMBEDDING_DIM || dim == EMBEDDING_DIM,
        r matches Err(e) ==> e@ == source_chunk_refusal(dim),
        r matches Ok(st) ==> st@ == executes(
            if dim == SMALL_EMBEDDING_DIM {
                INSERT_SMALL_SOURCE_CHUNK_SQL@
            } else {
                INSERT_SOURCE_CHUNK_SQL@
            },
            seq![
                BindView::BigInt(source_id),
                BindView::Int(chunk_index),
                BindView::Text(content@),
                BindView::Int(start_line),
                BindView::Int(end_line),
                BindView::Supplied(0),
            ],
        ),
        dim == SMALL_EMBEDDING_DIM ==> opens(r->Ok_0@.sql, "INSERT INTO software_pattern_chunks"@),
        dim == SMALL_EMBEDDING_DIM ==> fills(
            r->Ok_0@,
            "INSERT INTO software_pattern_chunks"@,
            "source_id"@,
            "VALUES ("@,
            BindView::BigInt(source_id),
        ),
        dim == SMALL_EMBEDDING_DIM ==> fills(
            r->Ok_0@,
            "INSERT INTO software_pattern_chunks"@,
            "chunk_index"@,
            "VALUES ("@,
            BindView::Int(chunk_index),
        ),
        dim == SMALL_EMBEDDING_DIM ==> fills(
            r->Ok_0@,
            "INSERT INTO software_pattern_chunks"@,
            "content"@,
            "VALUES ("@,
            BindView::Text(content@),
        ),
        dim == SMALL_EMBEDDING_DIM ==> fills(
            r->Ok_0@,
            "INSERT INTO software_pattern_chunks"@,
            "start_line"@,
            "VALUES ("@,
            BindView::Int(start_line),
        ),
        dim == SMALL_EMBEDDING_DIM ==> fills(
            r->Ok_0@,
            "INSERT INTO software_pattern_chunks"@,
            "end_line"@,
            "VALUES ("@,
            BindView::Int(end_line),
        ),
        dim == SMALL_EMBEDDING_DIM ==> fills(
            r->Ok_0@,
            "INSERT INTO software_pattern_chunks"@,
            "embedding"@,
            "VALUES ("@,
            BindView::Supplied(0),
        ),
        dim == SMALL_EMBEDDING_DIM ==> says(
            r->Ok_0@.sql,
            "ON CONFLICT (source_id, chunk_index) DO UPDATE SET"@,
        ),
        dim == EMBEDDING_DIM ==> opens(r->Ok_0@.sql, "INSERT INTO software_pattern_chunks"@),
        dim == EMBEDDING_DIM ==> fills(
            r->Ok_0@,
            "INSERT INTO software_pattern_chunks"@,
            "source_id"@,
            "VALUES ("@,
            BindView::BigInt(source_id),
        ),
        dim == EMBEDDING_DIM ==> fills(
            r->Ok_0@,
            "INSERT INTO software_pattern_chunks"@,
            "chunk_index"@,
            "VALUES ("@,
            BindView::Int(chunk_index),
        ),
        dim == EMBEDDING_DIM ==> fills(
            r->Ok_0@,
            "INSERT INTO software_pattern_chunks"@,
            "content"@,
            "VALUES ("@,
            BindView::Text(content@),
        ),
        dim == EMBEDDING_DIM ==> fills(
            r->Ok_0@,
            "INSERT INTO software_pattern_chunks"@,
            "start_line"@,
            "VALUES ("@,
            BindView::Int(start_line),
        ),
        dim == EMBEDDING_DIM ==> fills(
            r->Ok_0@,
            "INSERT INTO software_pattern_chunks"@,
            "end_line"@,
            "VALUES ("@,
            BindView::Int(end_line),
        ),
        dim == EMBEDDING_DIM ==> fills(
            r->Ok_0@,
            "INSERT INTO software_pattern_chunks"@,
            "embedding_v2"@,
            "VALUES ("@,
            BindView::Supplied(0),
        ),
        dim == EMBEDDING_DIM ==> says(
            r->Ok_0@.sql,
            "ON CONFLICT (source_id, chunk_index) DO UPDATE SET"@,
        ),
{
    let sql: &str = if dim == SMALL_EMBEDDING_DIM {
        INSERT_SMALL_SOURCE_CHUNK_SQL
    } else if dim == EMBEDDING_DIM {
        INSERT_SOURCE_CHUNK_SQL
    } else {
        let mut m = String::from_str("insert_source_chunk: unsupported embedding dim ");
        m.append(unsigned_decimal(dim as u128).as_str());
        m.append(
            " (expected 384 for MiniLM-L6-v2 or 1024 for BGE-M3); run `pgmcp embed-cutover --check`",
        );
        return Err(ProtocolError { message: m });
    };
    let st = Statement::execute(sql)
        .int8(source_id)
        .int4(chunk_index)
        .text(content)
        .int4(start_line)
        .int4(end_line)
        .supplied(0);
    proof {
        insert_small_source_chunk_text();
        insert_source_chunk_text();
        if dim == SMALL_EMBEDDING_DIM {
            assert(st@.sql == INSERT_SMALL_SOURCE_CHUNK_SQL@);
        } else {
            assert(st@.sql == INSERT_SOURCE_CHUNK_SQL@);
        }
    }
    Ok(st)
}

pub const SEARCH_PATTERNS_1: &'static str = "SELECT p.id AS pattern_id,
                p.slug, p.name, p.kind, p.category, p.summary, p.intent, p.canonical_url,
                s.id AS source_id, s.source_family, s.title AS source_title,
                s.url AS source_url, s.license_label,
                c.content AS chunk_content,
                1 - (c.";

pub const SEARCH_PATTERNS_2: &'static str = " <=> $1) AS score
         FROM software_pattern_chunks c
         JOIN software_pattern_sources s ON s.id = c.source_id
         JOIN software_pattern_source_patterns sp ON sp.source_id = s.id
         JOIN software_patterns p ON p.id = sp.pattern_id
         WHERE ($3::text IS NULL OR p.kind = $3)
           AND ($4::text[] IS NULL OR EXISTS (
                SELECT 1
                FROM software_pattern_paradigms pp
                JOIN programming_paradigms pg ON pg.id = pp.paradigm_id
                WHERE pp.pattern_id = p.id
                  AND (pg.slug = ANY($4) OR pg.name = ANY($4))
           ))
           AND ($5::text IS NULL OR p.category = $5)
           AND ($6::text IS NULL OR s.source_family = $6)
           AND ($7::text IS NULL OR s.source_type = $7)
           AND c.";

pub const SEARCH_PATTERNS_3: &'static str = " IS NOT NULL
         ORDER BY c.";

pub const SEARCH_PATTERNS_4: &'static str = " <=> $1
         LIMIT $2";

/// The query for the chunks of sources closest to an embedding, by the
/// embeddings in column `col`.
pub open spec fn search_patterns_sql(col: Seq<char>) -> Seq<char> {
    SEARCH_PATTERNS_1@ + col + SEARCH_PATTERNS_2@ + col + SEARCH_PATTERNS_3@ + col
        + SEARCH_PATTERNS_4@
}

fn write_search_patterns_sql(col: &str) -> (r: String)
    ensures
        r@ == search_patterns_sql(col@),
{
    let mut m = String::from_str(SEARCH_PATTERNS_1);
    m.append(col);
    m.append(SEARCH_PATTERNS_2);
    m.append(col);
    m.append(SEARCH_PATTERNS_3);
    m.append(col);
    m.append(SEARCH_PATTERNS_4);
    m
}

/// The message that refuses to search with a dimension.
pub open spec fn search_patterns_refusal(dim: usize) -> Seq<char> {
    "semantic_search_patterns: unsupported query-embedding dim "@ + decimal_text(dim as int)
        + " (expected 384 for MiniLM or 1024 for BGE-M3). Run `pgmcp embed-cutover --check` to inspect."@
}

/// The column with embeddings of a dimension that sources can have.
pub open spec fn source_column(dim: usize) -> Seq<char> {
    if dim == SMALL_EMBEDDING_DIM {
        "embedding"@
    } else {
        EMBEDDING_COLUMN@
    }
}

/// The texts of an optional list.
pub open spec fn opt_vec(v: Option<Vec<String>>) -> Option<Seq<Seq<char>>> {
    match v {
        Some(w) => Some(texts(w@)),
        None => None,
    }
}

/// Patterns by the similarity of their sources to a query. The caller supplies
/// value 0, the embedding, of dimension `dim`.
#[verifier::rlimit(100)]
pub fn semantic_search_patterns(
    dim: usize,
    limit: i32,
    ef_search: i32,
    options: PatternSearchOptions,
) -> (r: Result<TunedQuery, ProtocolError>)
    ensures
        r is Ok <==> dim == SMALL_EMBEDDING_DIM || dim == EMBEDDING_DIM,
        r matches Err(e) ==> e@ == search_patterns_refusal(dim),
        r matches Ok(q) ==> q@ == tuned(
            ef_search,
            fetches_all(
                search_patterns_sql(source_column(dim)),
                seq![
                    BindView::Supplied(0),
                    BindView::Int(limit),
                    BindView::OptText(opt_text(options.kind)),
                    BindView::MaybeTextArray(opt_vec(options.paradigms)),
                    BindView::OptText(opt_text(options.category)),
                    BindView::OptText(opt_text(options.source_family)),
                    BindView::OptText(opt_text(options.source_type)),
                ],
            ),
        ),
        r matches Ok(q) ==> opens(q@.query.sql, "SELECT"@),
        r matches Ok(q) ==> takes(q@.query, "<=> "@, BindView::Supplied(0)),
        r matches Ok(q) ==> takes(
            q@.query,
            "p.kind = "@,
            BindView::OptText(opt_text(options.kind)),
        ),
        r matches Ok(q) ==> takes(
            q@.query,
            "pg.slug = ANY("@,
            BindView::MaybeTextArray(opt_vec(options.paradigms)),
        ),
        r matches Ok(q) ==> takes(
            q@.query,
            "p.category = "@,
            BindView::OptText(opt_text(options.category)),
        ),
        r matches Ok(q) ==> takes(
            q@.query,
            "s.source_family = "@,
            BindView::OptText(opt_text(options.source_family)),
        ),
        r matches Ok(q) ==> takes(
            q@.query,
            "s.source_type = "@,
            BindView::OptText(opt_text(options.source_type)),
        ),
        r matches Ok(q) ==> says(q@.query.sql, "WHERE pp.pattern_id = p.id"@),
        r matches Ok(q) ==> says(q@.query.sql, "AND c."@),
        r matches Ok(q) ==> says(q@.query.sql, "FROM software_pattern_chunks"@),
        r matches Ok(q) ==> says(q@.query.sql, "ORDER BY c."@),
        r matches Ok(q) ==> takes(q@.query, "LIMIT "@, BindView::Int(limit)),
{
    let col: &str = if dim == SMALL_EMBEDDING_DIM {
        "embedding"
    } else if dim == EMBEDDING_DIM {
        EMBEDDING_COLUMN
    } else {
        let mut m = String::from_str(
            "semantic_search_patterns: unsupported query-embedding dim ",
        );
        m.append(unsigned_decimal(dim as u128).as_str());
        m.append(
            " (expected 384 for MiniLM or 1024 for BGE-M3). Run `pgmcp embed-cutover --check` to inspect.",
        );
        return Err(ProtocolError { message: m });
    };
    let ghost paradigms = opt_vec(options.paradigms);
    let query = Statement::all(write_search_patterns_sql(col).as_str())
        .supplied(0)
        .int4(limit)
        .opt_text(opt_as_str(&options.kind))
        .bind(Bind::MaybeTextArray(options.paradigms))
        .opt_text(opt_as_str(&options.category))
        .opt_text(opt_as_str(&options.source_family))
        .opt_text(opt_as_str(&options.source_type));
    assert(query@ =~= fetches_all(
        search_patterns_sql(source_column(dim)),
        seq![
            BindView::Supplied(0),
            BindView::Int(limit),
            BindView::OptText(opt_text(options.kind)),
            BindView::MaybeTextArray(paradigms),
            BindView::OptText(opt_text(options.category)),
            BindView::OptText(opt_text(options.source_family)),
            BindView::OptText(opt_text(options.source_type)),
        ],
    ));
    proof {
        search_patterns_1_text();
        search_patterns_2_text();
        search_patterns_3_text();
        search_patterns_4_text();
        assert(query@.sql =~= SEARCH_PATTERNS_1@ + (source_column(dim) + SEARCH_PATTERNS_2@ + source_column(dim) + SEARCH_PATTERNS_3@ + source_column(dim) + SEARCH_PATTERNS_4@));
        lemma_within(
            query@.sql,
            seq![],
            SEARCH_PATTERNS_1@,
            source_column(dim) + SEARCH_PATTERNS_2@ + source_column(dim) + SEARCH_PATTERNS_3@ + source_column(dim) + SEARCH_PATTERNS_4@,
        );
        assert(query@.sql =~= (SEARCH_PATTERNS_1@ + source_column(dim)) + SEARCH_PATTERNS_2@ + (source_column(dim) + SEARCH_PATTERNS_3@ + source_column(dim) + SEARCH_PATTERNS_4@));
        lemma_within(
            query@.sql,
            SEARCH_PATTERNS_1@ + source_column(dim),
            SEARCH_PATTERNS_2@,
            source_column(dim) + SEARCH_PATTERNS_3@ + source_column(dim) + SEARCH_PATTERNS_4@,
        );
        assert(query@.sql =~= (SEARCH_PATTERNS_1@ + source_column(dim) + SEARCH_PATTERNS_2@ + source_column(dim)) + SEARCH_PATTERNS_3@ + (source_column(dim) + SEARCH_PATTERNS_4@));
        lemma_within(
            query@.sql,
            SEARCH_PATTERNS_1@ + source_column(dim) + SEARCH_PATTERNS_2@ + source_column(dim),
            SEARCH_PATTERNS_3@,
            source_column(dim) + SEARCH_PATTERNS_4@,
        );
        assert(query@.sql =~= (SEARCH_PATTERNS_1@ + source_column(dim) + SEARCH_PATTERNS_2@ + source_column(dim) + SEARCH_PATTERNS_3@ + source_column(dim)) + SEARCH_PATTERNS_4@);
        lemma_within(
            query@.sql,
            SEARCH_PATTERNS_1@ + source_column(dim) + SEARCH_PATTERNS_2@ + source_column(dim) + SEARCH_PATTERNS_3@ + source_column(dim),
            SEARCH_PATTERNS_4@,
            seq![],
        );
    }
    Ok(tune(ef_search, query))
}

pub const LIST_PATTERNS_SQL: &'static str = "SELECT p.id, p.slug, p.name, p.kind, p.category, p.summary, p.canonical_url,
                COALESCE(array_remove(array_agg(DISTINCT pg.slug), NULL), ARRAY[]::text[]) AS paradigms,
                p.tags
         FROM software_patterns p
         LEFT JOIN software_pattern_paradigms pp ON pp.pattern_id = p.id
         LEFT JOIN programming_paradigms pg ON pg.id = pp.paradigm_id
         WHERE ($1::text IS NULL OR p.kind = $1)
           AND ($2::text IS NULL OR p.category = $2)
           AND ($3::text IS NULL OR EXISTS (
                SELECT 1
                FROM software_pattern_paradigms pp2
                JOIN programming_paradigms pg2 ON pg2.id = pp2.paradigm_id
                WHERE pp2.pattern_id = p.id AND (pg2.slug = $3 OR pg2.name = $3)
           ))
           AND ($4::text IS NULL OR EXISTS (
                SELECT 1
                FROM software_pattern_source_patterns sp
                JOIN software_pattern_sources s ON s.id = sp.source_id
                WHERE sp.pattern_id = p.id AND s.source_family = $4
           ))
         GROUP BY p.id
         ORDER BY p.kind, p.category, p.name
         LIMIT $5 OFFSET $6";

/// A part of the list of patterns.
pub fn list_patterns(options: PatternListOptions) -> (st: Statement)
    ensures
        st@ == fetches_all(
            LIST_PATTERNS_SQL@,
            seq![
                BindView::OptText(opt_text(options.kind)),
                BindView::OptText(opt_text(options.category)),
                BindView::OptText(opt_text(options.paradigm)),
                BindView::OptText(opt_text(options.source_family)),
                BindView::Int(options.limit),
                BindView::Int(options.offset),
            ],
        ),
        opens(st@.sql, "SELECT"@),
        takes(st@, "p.kind = "@, BindView::OptText(opt_text(options.kind))),
        takes(st@, "p.category = "@, BindView::OptText(opt_text(options.category))),
        takes(st@, "pg2.slug = "@, BindView::OptText(opt_text(options.paradigm))),
        takes(st@, "s.source_family = "@, BindView::OptText(opt_text(options.source_family))),
        takes(st@, "LIMIT "@, BindView::Int(options.limit)),
        takes(st@, "OFFSET "@, BindView::Int(options.offset)),
        says(st@.sql, "GROUP BY p.id"@),
        says(st@.sql, "ORDER BY p.kind, p.category, p.name"@),
        says(st@.sql, "FROM software_patterns"@),
{
    proof {
        list_patterns_text();
    }
    let st = Statement::all(LIST_PATTERNS_SQL)
        .opt_text(opt_as_str(&options.kind))
        .opt_text(opt_as_str(&options.category))
        .opt_text(opt_as_str(&options.paradigm))
        .opt_text(opt_as_str(&options.source_family))
        .int4(options.limit)
        .int4(options.offset);
    assert(st@.sql == LIST_PATTERNS_SQL@);
    st
}

pub const GET_PATTERN_SQL: &'static str = "SELECT p.id, p.slug, p.name, p.kind, p.category, p.summary, p.intent,
                p.problem, p.solution, p.consequences, p.canonical_url, p.tags,
                COALESCE(array_remove(array_agg(DISTINCT pg.slug), NULL), ARRAY[]::text[]) AS paradigms
         FROM software_patterns p
         LEFT JOIN software_pattern_paradigms pp ON pp.pattern_id = p.id
         LEFT JOIN programming_paradigms pg ON pg.id = pp.paradigm_id
         WHERE (($1::bigint IS NOT NULL AND p.id = $1) OR ($2::text IS NOT NULL AND p.slug = $2))
         GROUP BY p.id";

/// A pattern, by its id where the text is a number, else by its short name.
pub fn get_pattern(slug_or_id: &str) -> (st: Statement)
    ensures
        st@ == fetches_optional(
            GET_PATTERN_SQL@,
            seq![
                BindView::OptBigInt(parsed(slug_or_id@)),
                BindView::OptText(
                    if parsed(slug_or_id@) is None {
                        Some(slug_or_id@)
                    } else {
                        None
                    },
                ),
            ],
        ),
        opens(st@.sql, "SELECT"@),
        takes(st@, "p.id = "@, BindView::OptBigInt(parsed(slug_or_id@))),
        takes(
            st@,
            "p.slug = "@,
            BindView::OptText(if parsed(slug_or_id@) is None { Some(slug_or_id@) } else { None }),
        ),
        says(st@.sql, "GROUP BY p.id"@),
        says(st@.sql, "FROM software_patterns"@),
{
    proof {
        get_pattern_text();
    }
    let by_id: Option<i64> = parse_i64(slug_or_id);
    let slug: Option<&str> = if by_id.is_none() {
        Some(slug_or_id)
    } else {
        None
    };
    let st = Statement::optional(GET_PATTERN_SQL).opt_int8(by_id).opt_text(slug);
    assert(st@.sql == GET_PATTERN_SQL@);
    st
}

pub const GET_PATTERN_SOURCES_SQL: &'static str = "SELECT s.id, s.source_family, s.title, s.url, s.license_label,
                s.source_type, s.ingest_policy, s.status, s.fetched_at, s.imported_at,
                s.content_hash,
                COUNT(c.id)::bigint AS chunk_count
         FROM software_pattern_sources s
         JOIN software_pattern_source_patterns sp ON sp.source_id = s.id
         LEFT JOIN software_pattern_chunks c ON c.source_id = s.id
         WHERE sp.pattern_id = $1
         GROUP BY s.id
         ORDER BY s.source_family, s.title";

/// The sources of a pattern.
pub fn get_pattern_sources(pattern_id: i64) -> (st: Statement)
    ensures
        st@ == fetches_all(GET_PATTERN_SOURCES_SQL@, seq![BindView::BigInt(pattern_id)]),
        opens(st@.sql, "SELECT"@),
        takes(st@, "sp.pattern_id = "@, BindView::BigInt(pattern_id)),
        says(st@.sql, "GROUP BY s.id"@),
        says(st@.sql, "ORDER BY s.source_family, s.title"@),
        says(st@.sql, "FROM software_pattern_sources"@),
{
    proof {
        get_pattern_sources_text();
    }
    let st = Statement::all(GET_PATTERN_SOURCES_SQL).int8(pattern_id);
    assert(st@.sql == GET_PATTERN_SOURCES_SQL@);
    st
}

pub const GET_SOURCE_EXCERPTS_SQL: &'static str = "SELECT content FROM software_pattern_chunks
         WHERE source_id = $1
         ORDER BY chunk_index
         LIMIT $2";

/// The first chunks of a source.
pub fn get_source_excerpts(source_id: i64, limit: i32) -> (st: Statement)
    ensures
        st@ == fetches_all(
            GET_SOURCE_EXCERPTS_SQL@,
            seq![BindView::BigInt(source_id), BindView::Int(limit)],
        ),
        opens(st@.sql, "SELECT"@),
        takes(st@, "source_id = "@, BindView::BigInt(source_id)),
        takes(st@, "LIMIT "@, BindView::Int(limit)),
        says(st@.sql, "ORDER BY chunk_index"@),
        says(st@.sql, "FROM software_pattern_chunks"@),
{
    proof {
        get_source_excerpts_text();
    }
    let st = Statement::all(GET_SOURCE_EXCERPTS_SQL).int8(source_id).int4(limit);
    assert(st@.sql == GET_SOURCE_EXCERPTS_SQL@);
    st
}

pub const CATALOG_PARADIGMS_SQL: &'static str = "SELECT COUNT(*) FROM programming_paradigms";

pub const CATALOG_PATTERNS_SQL: &'static str =
    "SELECT COUNT(*) FROM software_patterns WHERE kind = 'pattern'";

pub const CATALOG_ANTI_PATTERNS_SQL: &'static str =
    "SELECT COUNT(*) FROM software_patterns WHERE kind = 'anti_pattern'";

pub const CATALOG_PRINCIPLES_SQL: &'static str =
    "SELECT COUNT(*) FROM software_patterns WHERE kind = 'principle'";

pub const CATALOG_CODE_SMELLS_SQL: &'static str =
    "SELECT COUNT(*) FROM software_patterns WHERE kind = 'code_smell'";

pub const CATALOG_SOURCES_SQL: &'static str = "SELECT COUNT(*) FROM software_pattern_sources";

pub const CATALOG_CHUNKS_SQL: &'static str = "SELECT COUNT(*) FROM software_pattern_chunks";

pub const CATALOG_CHUNKS_MISSING_EMBEDDINGS_SQL: &'static str =
    "SELECT COUNT(*) FROM software_pattern_chunks WHERE embedding IS NULL";

pub const CATALOG_SOURCE_FAMILIES_SQL: &'static str = "SELECT s.source_family,
                COUNT(DISTINCT s.id)::bigint AS source_count,
                COUNT(c.id)::bigint AS chunk_count
         FROM software_pattern_sources s
         LEFT JOIN software_pattern_chunks c ON c.source_id = s.id
         GROUP BY s.source_family
         ORDER BY s.source_family";

/// The queries that measure the catalogue, in order.
pub open spec fn catalog_queries() -> Seq<StatementView> {
    seq![
        fetches_one(CATALOG_PARADIGMS_SQL@, seq![]),
        fetches_one(CATALOG_PATTERNS_SQL@, seq![]),
        fetches_one(CATALOG_ANTI_PATTERNS_SQL@, seq![]),
        fetches_one(CATALOG_PRINCIPLES_SQL@, seq![]),
        fetches_one(CATALOG_CODE_SMELLS_SQL@, seq![]),
        fetches_one(CATALOG_SOURCES_SQL@, seq![]),
        fetches_one(CATALOG_CHUNKS_SQL@, seq![]),
        fetches_one(CATALOG_CHUNKS_MISSING_EMBEDDINGS_SQL@, seq![]),
        fetches_all(CATALOG_SOURCE_FAMILIES_SQL@, seq![]),
    ]
}

/// The queries that measure the catalogue: eight counts, then the families of
/// sources.
pub fn catalog_stats() -> (r: Vec<Statement>)
    ensures
        statement_views(r@) == catalog_queries(),
{
    let r: Vec<Statement> = vec![
        Statement::one(CATALOG_PARADIGMS_SQL),
        Statement::one(CATALOG_PATTERNS_SQL),
        Statement::one(CATALOG_ANTI_PATTERNS_SQL),
        Statement::one(CATALOG_PRINCIPLES_SQL),
        Statement::one(CATALOG_CODE_SMELLS_SQL),
        Statement::one(CATALOG_SOURCES_SQL),
        Statement::one(CATALOG_CHUNKS_SQL),
        Statement::one(CATALOG_CHUNKS_MISSING_EMBEDDINGS_SQL),
        Statement::all(CATALOG_SOURCE_FAMILIES_SQL),
    ];
    assert(statement_views(r@) =~= catalog_queries());
    r
}

/// Puts the measures of the catalogue together, from the eight counts in order
/// and the families.
pub fn catalog_stats_of(counts: &Vec<i64>, source_families: Vec<SourceFamilyStats>) -> (r:
    PatternCatalogStats)
    requires
        counts.len() == 8,
    ensures
        r == (PatternCatalogStats {
            paradigms: counts@[0],
            patterns: counts@[1],
            anti_patterns: counts@[2],
            principles: counts@[3],
            code_smells: counts@[4],
            sources: counts@[5],
            chunks: counts@[6],
            chunks_missing_embeddings: counts@[7],
            source_families,
        }),
{
    PatternCatalogStats {
        paradigms: counts[0],
        patterns: counts[1],
        anti_patterns: counts[2],
        principles: counts[3],
        code_smells: counts[4],
        sources: counts[5],
        chunks: counts[6],
        chunks_missing_embeddings: counts[7],
        source_families,
    }
}

pub const COUNT_PATTERNS_SQL: &'static str = "SELECT COUNT(*) FROM software_patterns";

/// How many patterns there are.
pub fn count_patterns() -> (st: Statement)
    ensures
        st@ == fetches_one(COUNT_PATTERNS_SQL@, seq![]),
        opens(st@.sql, "SELECT COUNT(*) FROM software_patterns"@),
{
    proof {
        count_patterns_text();
    }
    let st = Statement::one(COUNT_PATTERNS_SQL);
    assert(st@.sql == COUNT_PATTERNS_SQL@);
    st
}

pub const START_IMPORT_RUN_SQL: &'static str = "INSERT INTO software_pattern_import_runs (mode, source_family, status)
         VALUES ($1, $2, 'running')
         RETURNING id";

/// Records that an import has started.
pub fn start_import_run(mode: &str, source_family: Option<&str>) -> (st: Statement)
    ensures
        st@ == fetches_one(
            START_IMPORT_RUN_SQL@,
            seq![
                BindView::Text(mode@),
                BindView::OptText(opt_str(source_family)),
            ],
        ),
        opens(st@.sql, "INSERT INTO software_pattern_import_runs"@),
        fills(
            st@,
            "INSERT INTO software_pattern_import_runs"@,
            "mode"@,
            "VALUES ("@,
            BindView::Text(mode@),
        ),
        fills(
            st@,
            "INSERT INTO software_pattern_import_runs"@,
            "source_family"@,
            "VALUES ("@,
            BindView::OptText(opt_str(source_family)),
        ),
{
    proof {
        start_import_run_text();
    }
    let st = Statement::one(START_IMPORT_RUN_SQL).text(mode).opt_text(source_family);
    assert(st@.sql == START_IMPORT_RUN_SQL@);
    st
}

pub const FINISH_IMPORT_RUN_SQL: &'static str = "UPDATE software_pattern_import_runs SET
            finished_at = NOW(),
            status = $2,
            sources_seen = $3,
            sources_imported = $4,
            chunks_embedded = $5,
            error = $6
         WHERE id = $1";

/// Records how an import ended.
pub fn finish_import_run(
    run_id: i64,
    status: &str,
    sources_seen: i32,
    sources_imported: i32,
    chunks_embedded: i32,
    error: Option<&str>,
) -> (st: Statement)
    ensures
        st@ == executes(
            FINISH_IMPORT_RUN_SQL@,
            seq![
                BindView::BigInt(run_id),
                BindView::Text(status@),
                BindView::Int(sources_seen),
                BindView::Int(sources_imported),
                BindView::Int(chunks_embedded),
                BindView::OptText(opt_str(error)),
            ],
        ),
        opens(st@.sql, "UPDATE software_pattern_import_runs"@),
        takes(st@, "WHERE id = "@, BindView::BigInt(run_id)),
        takes(st@, "status = "@, BindView::Text(status@)),
        takes(st@, "sources_seen = "@, BindView::Int(sources_seen)),
        takes(st@, "sources_imported = "@, BindView::Int(sources_imported)),
        takes(st@, "chunks_embedded = "@, BindView::Int(chunks_embedded)),
        takes(st@, "error = "@, BindView::OptText(opt_str(error))),
{
    proof {
        finish_import_run_text();
    }
    let st = Statement::execute(FINISH_IMPORT_RUN_SQL)
        .int8(run_id)
        .text(status)
        .int4(sources_seen)
        .int4(sources_imported)
        .int4(chunks_embedded)
        .opt_text(error);
    assert(st@.sql == FINISH_IMPORT_RUN_SQL@);
    st
}

/// A source that is there is updated under its id and one that is not is
/// inserted, never both.
pub proof fn law_source_is_updated_or_inserted(u: SourceStorage<'_>, ids: Seq<i64>)
    requires
        u.stage is Finding,
    ensures
        ids.len() > 0 ==> ({
            let (stage, a) = u.next(ReplyView::Ids(ids));
            &&& stage == SourceStage::Updating(ids[0])
            &&& a matches ActionView::Run(st) && opens(st.sql, "UPDATE software_pattern_sources"@)
                && takes(st, "WHERE id = "@, BindView::BigInt(ids[0]))
        }),
        ids.len() == 0 ==> ({
            let (stage, a) = u.next(ReplyView::Ids(ids));
            &&& stage is Inserting
            &&& a matches ActionView::Run(st) && opens(
                st.sql,
                "INSERT INTO software_pattern_sources"@,
            )
        }),
{
    let id = if ids.len() > 0 {
        ids[0]
    } else {
        0
    };
    law_updates_source_stands_for_its_values(u.source, id);
    law_inserts_source_stands_for_its_values(u.source);
}

} // verus!
