//! Chunks of indexed files: storing them, alone or with their file, and
//! reading them back.
use vstd::prelude::*;

use crate::embedding::{
    column_for, dimension_refusal, embedding_column_for_dim, require_dimension, EMBEDDING_DIM,
};
use crate::meaning::{fills, opens, says, takes};
use crate::protocol::{awaited, fits, Action, ActionView, Awaiting, ProtocolError, Reply, ReplyView};
use crate::queries::index_failures::{clear_index_failure, clears_failure_of};
use crate::queries::texts::chunks::{
    file_chunk_summary_text, get_chunk_content_rows_text, get_chunk_topic_summaries_text,
    get_chunks_in_index_range_text, get_chunks_needing_context_text, get_file_region_by_lines_text,
    insert_chunk_text, law_best_chunks_are_of_the_files, law_embeddings_are_of_the_language,
    law_embeddings_come_once, law_features_are_of_the_chunks,
    law_project_embeddings_are_of_the_language, law_project_embeddings_are_of_the_project,
};
use crate::statement::{
    executes, fetches_all, fetches_one, opt_str, BindView, Statement, StatementView,
};
use crate::text::text_eq;

verus! {

pub const INSERT_CHUNK_SQL: &'static str = "INSERT INTO file_chunks
            (file_id, chunk_index, content, start_line, end_line,
             embedding_v2, embedding_signature)
         VALUES ($1, $2, $3, $4, $5, $6, 'bge-m3-v1')
         ON CONFLICT (file_id, chunk_index) DO UPDATE SET
            content = EXCLUDED.content,
            start_line = EXCLUDED.start_line,
            end_line = EXCLUDED.end_line,
            embedding_v2 = EXCLUDED.embedding_v2,
            embedding_signature = EXCLUDED.embedding_signature";

pub const INSERT_CHUNK_REFUSAL: &'static str =
    "insert_chunk: expected a 1024-dimension BGE-M3 embedding, got ";

/// The argument list of a statement that stores a chunk. The caller supplies
/// value 0, the embedding.
pub open spec fn chunk_binds(
    file_id: i64,
    chunk_index: i32,
    content: Seq<char>,
    start_line: i32,
    end_line: i32,
) -> Seq<BindView> {
    seq![
        BindView::BigInt(file_id),
        BindView::Int(chunk_index),
        BindView::Text(content),
        BindView::Int(start_line),
        BindView::Int(end_line),
        BindView::Supplied(0),
    ]
}

/// Stores a chunk, replacing the one with its file and index. The caller
/// supplies value 0, the embedding, of dimension `dim`.
pub fn insert_chunk(
    file_id: i64,
    chunk_index: i32,
    content: &str,
    start_line: i32,
    end_line: i32,
    dim: usize,
) -> (r: Result<Statement, ProtocolError>)
    ensures
        r is Ok <==> dim == EMBEDDING_DIM,
        r matches Err(e) ==> e@ == dimension_refusal(INSERT_CHUNK_REFUSAL@, dim),
        r matches Ok(st) ==> st@ == executes(
            INSERT_CHUNK_SQL@,
            chunk_binds(file_id, chunk_index, content@, start_line, end_line),
        ),
        r matches Ok(st) ==> opens(st@.sql, "INSERT INTO file_chunks"@),
        r matches Ok(st) ==> fills(
            st@,
            "INSERT INTO file_chunks"@,
            "file_id"@,
            "VALUES ("@,
            BindView::BigInt(file_id),
        ),
        r matches Ok(st) ==> fills(
            st@,
            "INSERT INTO file_chunks"@,
            "chunk_index"@,
            "VALUES ("@,
            BindView::Int(chunk_index),
        ),
        r matches Ok(st) ==> fills(
            st@,
            "INSERT INTO file_chunks"@,
            "content"@,
            "VALUES ("@,
            BindView::Text(content@),
        ),
        r matches Ok(st) ==> fills(
            st@,
            "INSERT INTO file_chunks"@,
            "start_line"@,
            "VALUES ("@,
            BindView::Int(start_line),
        ),
        r matches Ok(st) ==> fills(
            st@,
            "INSERT INTO file_chunks"@,
            "end_line"@,
            "VALUES ("@,
            BindView::Int(end_line),
        ),
        r matches Ok(st) ==> fills(
            st@,
            "INSERT INTO file_chunks"@,
            "embedding_v2"@,
            "VALUES ("@,
            BindView::Supplied(0),
        ),
        r matches Ok(st) ==> says(st@.sql, "ON CONFLICT (file_id, chunk_index) DO UPDATE SET"@),
{
    match require_dimension(dim, INSERT_CHUNK_REFUSAL) {
        Ok(_) => {},
        Err(e) => return Err(e),
    }
    let st = Statement::execute(INSERT_CHUNK_SQL)
        .int8(file_id)
        .int4(chunk_index)
        .text(content)
        .int4(start_line)
        .int4(end_line)
        .supplied(0);
    proof {
        insert_chunk_text();
        assert(st@.sql == INSERT_CHUNK_SQL@);
    }
    Ok(st)
}

/// A chunk to be stored. Its embedding stays with the caller; `dim` is the
/// dimension that it has.
#[derive(Debug)]
pub struct ChunkInsert<'a> {
    pub chunk_index: i32,
    pub content: &'a str,
    pub start_line: i32,
    pub end_line: i32,
    pub dim: usize,
}

/// A chunk to be stored, as a mathematical value.
pub struct ChunkView {
    pub chunk_index: i32,
    pub content: Seq<char>,
    pub start_line: i32,
    pub end_line: i32,
    pub dim: usize,
}

impl<'a> View for ChunkInsert<'a> {
    type V = ChunkView;

    open spec fn view(&self) -> ChunkView {
        ChunkView {
            chunk_index: self.chunk_index,
            content: self.content@,
            start_line: self.start_line,
            end_line: self.end_line,
            dim: self.dim,
        }
    }
}

/// Every field of the model stands for the field of the same name.
pub proof fn law_chunk_insert_is_modelled_by_its_fields(insert: ChunkInsert<'_>)
    ensures
        insert@.chunk_index == insert.chunk_index,
        insert@.content == insert.content@,
        insert@.start_line == insert.start_line,
        insert@.end_line == insert.end_line,
        insert@.dim == insert.dim,
{
}

/// The chunks of a list.
pub open spec fn chunk_views(chunks: Seq<ChunkInsert<'_>>) -> Seq<ChunkView> {
    chunks.map_values(|c: ChunkInsert<'_>| c@)
}

/// Storing a chunk by some statement.
pub open spec fn stores_chunk(sql: Seq<char>, file_id: i64, c: ChunkView) -> StatementView {
    executes(
        sql,
        chunk_binds(file_id, c.chunk_index, c.content, c.start_line, c.end_line),
    )
}

fn store_chunk(sql: &str, file_id: i64, c: &ChunkInsert<'_>) -> (st: Statement)
    ensures
        st@ == stores_chunk(sql@, file_id, c@),
{
    Statement::execute(sql)
        .int8(file_id)
        .int4(c.chunk_index)
        .text(c.content)
        .int4(c.start_line)
        .int4(c.end_line)
        .supplied(0)
}

/// The first chunk whose embedding has the wrong dimension.
pub open spec fn first_misfit(chunks: Seq<ChunkView>) -> Option<int>
    decreases chunks.len(),
{
    if chunks.len() == 0 {
        None
    } else {
        match first_misfit(chunks.drop_last()) {
            Some(i) => Some(i),
            None => if chunks.last().dim != EMBEDDING_DIM {
                Some(chunks.len() - 1)
            } else {
                None
            },
        }
    }
}

proof fn lemma_first_misfit(chunks: Seq<ChunkView>, n: int)
    requires
        0 <= n <= chunks.len(),
    ensures
        first_misfit(chunks.take(n)) is Some ==> first_misfit(chunks) == first_misfit(
            chunks.take(n),
        ),
    decreases chunks.len() - n,
{
    if n < chunks.len() {
        lemma_first_misfit(chunks, n + 1);
        assert(chunks.take(n + 1).drop_last() =~= chunks.take(n));
    } else {
        assert(chunks.take(n) =~= chunks);
    }
}

pub const REPLACE_FILE_SQL: &'static str = "INSERT INTO indexed_files
                (project_id, path, relative_path, language, size_bytes, content,
                 content_hash, line_count, truncated, content_recoverable_from_disk,
                 modified_at)
             VALUES ($1, $2, $3, $4, $5, $6, $7, $8, $9, $10, $11)
             ON CONFLICT (path) DO UPDATE SET
                project_id = EXCLUDED.project_id,
                relative_path = EXCLUDED.relative_path,
                language = EXCLUDED.language,
                size_bytes = EXCLUDED.size_bytes,
                content = EXCLUDED.content,
                content_hash = EXCLUDED.content_hash,
                line_count = EXCLUDED.line_count,
                truncated = EXCLUDED.truncated,
                content_recoverable_from_disk = EXCLUDED.content_recoverable_from_disk,
                modified_at = EXCLUDED.modified_at,
                indexed_at = NOW()
             RETURNING id";

pub const REPLACE_DELETE_CHUNKS_SQL: &'static str = "DELETE FROM file_chunks WHERE file_id = $1";

pub const REPLACE_INSERT_CHUNK_SQL: &'static str = "INSERT INTO file_chunks
                    (file_id, chunk_index, content, start_line, end_line,
                     embedding_v2, embedding_signature)
                 VALUES ($1, $2, $3, $4, $5, $6, 'bge-m3-v1')
                 ON CONFLICT (file_id, chunk_index) DO UPDATE SET
                    content = EXCLUDED.content,
                    start_line = EXCLUDED.start_line,
                    end_line = EXCLUDED.end_line,
                    embedding_v2 = EXCLUDED.embedding_v2,
                    embedding_signature = EXCLUDED.embedding_signature";

pub const REPLACE_FINALIZE_SQL: &'static str =
    "UPDATE indexed_files SET content_hash = $1 WHERE id = $2";

pub const REPLACE_FILE_REFUSAL: &'static str =
    "replace_indexed_file: expected a 1024-dimension BGE-M3 embedding, got ";

/// All that replaces an indexed file: its data, the hash of its content and
/// its chunks.
#[derive(Debug, Clone)]
pub struct IndexedFileReplacement<'a> {
    pub project_id: i32,
    pub path: &'a str,
    pub relative_path: &'a str,
    pub language: &'a str,
    pub size_bytes: i64,
    pub content: Option<&'a str>,
    pub content_hash: i64,
    pub line_count: i32,
    pub truncated: bool,
    pub content_recoverable_from_disk: bool,
    pub chunks: &'a [ChunkInsert<'a>],
}

/// A replacement as a mathematical value.
pub struct ReplacementView {
    pub project_id: i32,
    pub path: Seq<char>,
    pub relative_path: Seq<char>,
    pub language: Seq<char>,
    pub size_bytes: i64,
    pub content: Option<Seq<char>>,
    pub content_hash: i64,
    pub line_count: i32,
    pub truncated: bool,
    pub content_recoverable_from_disk: bool,
    pub chunks: Seq<ChunkView>,
}

impl<'a> View for IndexedFileReplacement<'a> {
    type V = ReplacementView;

    open spec fn view(&self) -> ReplacementView {
        ReplacementView {
            project_id: self.project_id,
            path: self.path@,
            relative_path: self.relative_path@,
            language: self.language@,
            size_bytes: self.size_bytes,
            content: opt_str(self.content),
            content_hash: self.content_hash,
            line_count: self.line_count,
            truncated: self.truncated,
            content_recoverable_from_disk: self.content_recoverable_from_disk,
            chunks: chunk_views(self.chunks@),
        }
    }
}

/// Every field of the model stands for the field of the same name.
pub proof fn law_indexed_file_replacement_is_modelled_by_its_fields(replacement: IndexedFileReplacement<'_>)
    ensures
        replacement@.project_id == replacement.project_id,
        replacement@.path == replacement.path@,
        replacement@.relative_path == replacement.relative_path@,
        replacement@.language == replacement.language@,
        replacement@.size_bytes == replacement.size_bytes,
        replacement@.content == opt_str(replacement.content),
        replacement@.content_hash == replacement.content_hash,
        replacement@.line_count == replacement.line_count,
        replacement@.truncated == replacement.truncated,
        replacement@.content_recoverable_from_disk == replacement.content_recoverable_from_disk,
        replacement@.chunks == chunk_views(replacement.chunks@),
{
}

impl ReplacementView {
    /// Writing the file's data, without the hash of its content: a file
    /// without it counts as unfinished. The caller supplies value 0, the time
    /// of its last change.
    pub open spec fn upserts(self) -> StatementView {
        fetches_one(
            REPLACE_FILE_SQL@,
            seq![
                BindView::Int(self.project_id),
                BindView::Text(self.path),
                BindView::Text(self.relative_path),
                BindView::Text(self.language),
                BindView::BigInt(self.size_bytes),
                BindView::OptText(self.content),
                BindView::OptBigInt(None),
                BindView::Int(self.line_count),
                BindView::Bool(self.truncated),
                BindView::Bool(self.content_recoverable_from_disk),
                BindView::Supplied(0),
            ],
        )
    }

    /// Removing the chunks that the file had.
    pub open spec fn deletes(self, file_id: i64) -> StatementView {
        executes(REPLACE_DELETE_CHUNKS_SQL@, seq![BindView::BigInt(file_id)])
    }

    /// Storing chunk `i`.
    pub open spec fn inserts(self, file_id: i64, i: int) -> StatementView {
        stores_chunk(REPLACE_INSERT_CHUNK_SQL@, file_id, self.chunks[i])
    }

    /// Forgetting that the file could not be indexed before.
    pub open spec fn clears_failure(self) -> StatementView {
        clears_failure_of(self.path)
    }

    /// Setting the hash of the content, which marks the file as finished.
    pub open spec fn finalizes(self, file_id: i64) -> StatementView {
        executes(
            REPLACE_FINALIZE_SQL@,
            seq![BindView::BigInt(self.content_hash), BindView::BigInt(file_id)],
        )
    }
}

/// Where a replacement stands; from the second statement on with the file's
/// id.
#[derive(Debug, Clone, Copy, PartialEq, Eq, Structural)]
pub enum ReplacementStage {
    Opening,
    Upserting,
    Deleting(i64),
    /// The chunk with this number was sent.
    Inserting(i64, usize),
    Finalizing(i64),
    Clearing(i64),
    Committing(i64),
    Finished(i64),
}

/// Replaces an indexed file in one transaction: its data, its chunks, then
/// the hash that marks it as finished; and forgets earlier failures to index
/// it.
#[derive(Debug)]
pub struct FileReplacement<'a> {
    pub replacement: IndexedFileReplacement<'a>,
    pub stage: ReplacementStage,
}

/// The state of a [`FileReplacement`], as a mathematical value.
pub struct FileReplacementView {
    pub replacement: ReplacementView,
    pub stage: ReplacementStage,
}

impl<'a> View for FileReplacement<'a> {
    type V = FileReplacementView;

    open spec fn view(&self) -> FileReplacementView {
        FileReplacementView { replacement: self.replacement@, stage: self.stage }
    }
}

/// Every field of the model stands for the field of the same name.
pub proof fn law_file_replacement_is_modelled_by_its_fields(replacement: FileReplacement<'_>)
    ensures
        replacement@.replacement == replacement.replacement@,
        replacement@.stage == replacement.stage,
{
}

impl FileReplacementView {
    /// Sends chunk `i`, or what follows the last.
    pub open spec fn sending(self, file_id: i64, i: int) -> (FileReplacementView, ActionView) {
        let r = self.replacement;
        if i < r.chunks.len() {
            (
                FileReplacementView {
                    stage: ReplacementStage::Inserting(file_id, i as usize),
                    ..self
                },
                ActionView::Run(r.inserts(file_id, i)),
            )
        } else {
            (
                FileReplacementView { stage: ReplacementStage::Finalizing(file_id), ..self },
                ActionView::Run(r.finalizes(file_id)),
            )
        }
    }

    /// What follows an answer.
    pub open spec fn next(self, reply: ReplyView) -> (FileReplacementView, ActionView) {
        match (self.stage, reply) {
            (ReplacementStage::Opening, _) => (
                FileReplacementView { stage: ReplacementStage::Upserting, ..self },
                ActionView::Run(self.replacement.upserts()),
            ),
            (ReplacementStage::Upserting, ReplyView::Ids(ids)) => (
                FileReplacementView { stage: ReplacementStage::Deleting(ids[0]), ..self },
                ActionView::Run(self.replacement.deletes(ids[0])),
            ),
            (ReplacementStage::Deleting(id), _) => self.sending(id, 0),
            (ReplacementStage::Inserting(id, i), _) => self.sending(id, i + 1),
            (ReplacementStage::Finalizing(id), _) => (
                FileReplacementView { stage: ReplacementStage::Clearing(id), ..self },
                ActionView::Run(self.replacement.clears_failure()),
            ),
            (ReplacementStage::Clearing(id), _) => (
                FileReplacementView { stage: ReplacementStage::Committing(id), ..self },
                ActionView::Commit,
            ),
            (ReplacementStage::Committing(id), _) => (
                FileReplacementView { stage: ReplacementStage::Finished(id), ..self },
                ActionView::Done,
            ),
            _ => (self, ActionView::Done),
        }
    }

    /// The shape of answer that is awaited.
    pub open spec fn awaiting(self) -> Awaiting {
        match self.stage {
            ReplacementStage::Opening => Awaiting::Ready,
            ReplacementStage::Upserting => Awaiting::One,
            ReplacementStage::Deleting(_) => Awaiting::Affected,
            ReplacementStage::Inserting(_, _) => Awaiting::Affected,
            ReplacementStage::Finalizing(_) => Awaiting::Affected,
            ReplacementStage::Clearing(_) => Awaiting::Affected,
            ReplacementStage::Committing(_) => Awaiting::Ready,
            ReplacementStage::Finished(_) => Awaiting::Nothing,
        }
    }

    /// All embeddings have the right dimension, and a chunk that was sent is
    /// one of the chunks.
    pub open spec fn wf(self) -> bool {
        &&& first_misfit(self.replacement.chunks) is None
        &&& self.stage matches ReplacementStage::Inserting(_, i) ==> i
            < self.replacement.chunks.len()
    }
}

/// Starts to replace an indexed file; refused where an embedding has the
/// wrong dimension, before anything is written.
pub fn replace_indexed_file<'a>(replacement: IndexedFileReplacement<'a>) -> (r: Result<
    (FileReplacement<'a>, Action),
    ProtocolError,
>)
    ensures
        r is Err <==> first_misfit(replacement@.chunks) is Some,
        r matches Err(e) ==> e@ == dimension_refusal(
            REPLACE_FILE_REFUSAL@,
            replacement@.chunks[first_misfit(replacement@.chunks)->0].dim,
        ),
        r matches Ok((m, a)) ==> m@ == (FileReplacementView {
            replacement: replacement@,
            stage: ReplacementStage::Opening,
        }) && a@ == ActionView::Begin && m@.wf() && m@.awaiting() == awaited(a@),
{
    let ghost all = chunk_views(replacement.chunks@);
    let mut i: usize = 0;
    assert(all.take(0) =~= Seq::<ChunkView>::empty());
    while i < replacement.chunks.len()
        invariant
            i <= replacement.chunks.len(),
            all == chunk_views(replacement.chunks@),
            all == replacement@.chunks,
            first_misfit(all.take(i as int)) is None,
        decreases replacement.chunks.len() - i,
    {
        assert(all.take(i + 1).drop_last() =~= all.take(i as int));
        assert(all.take(i + 1).last() == replacement.chunks@[i as int]@);
        proof {
            lemma_first_misfit(all, i + 1);
        }
        match require_dimension(replacement.chunks[i].dim, REPLACE_FILE_REFUSAL) {
            Ok(_) => {},
            Err(e) => {
                assert(first_misfit(all) == Some(i as int));
                return Err(e);
            },
        }
        i = i + 1;
    }
    assert(all.take(i as int) =~= all);
    Ok((FileReplacement { replacement, stage: ReplacementStage::Opening }, Action::Begin))
}

impl<'a> FileReplacement<'a> {
    fn send(&mut self, file_id: i64, i: usize) -> (r: Action)
        requires
            old(self)@.wf(),
            i <= old(self).replacement.chunks.len(),
        ensures
            (final(self)@, r@) == old(self)@.sending(file_id, i as int),
            final(self)@.wf(),
            awaited(r@) == final(self)@.awaiting(),
    {
        if i < self.replacement.chunks.len() {
            self.stage = ReplacementStage::Inserting(file_id, i);
            let st = store_chunk(REPLACE_INSERT_CHUNK_SQL, file_id, &self.replacement.chunks[i]);
            assert(self@.replacement.chunks[i as int] == self.replacement.chunks@[i as int]@);
            Action::Run(st)
        } else {
            self.stage = ReplacementStage::Finalizing(file_id);
            let st = Statement::execute(REPLACE_FINALIZE_SQL)
                .int8(self.replacement.content_hash)
                .int8(file_id);
            assert(st@ =~= self@.replacement.finalizes(file_id));
            Action::Run(st)
        }
    }

    /// The number of the chunk whose statement was sent last; its embedding
    /// is the value to supply.
    pub fn chunk_sent(&self) -> (r: Option<usize>)
        ensures
            r == (match self@.stage {
                ReplacementStage::Inserting(_, i) => Some(i),
                _ => None,
            }),
    {
        match self.stage {
            ReplacementStage::Inserting(_, i) => Some(i),
            _ => None,
        }
    }

    /// The id of the file, once it is replaced.
    pub fn file_id(&self) -> (r: Option<i64>)
        ensures
            r == (match self@.stage {
                ReplacementStage::Finished(id) => Some(id),
                _ => None,
            }),
    {
        match self.stage {
            ReplacementStage::Finished(id) => Some(id),
            _ => None,
        }
    }

    /// Takes an answer and says what to do next.
    pub fn step(&mut self, reply: &Reply) -> (r: Action)
        requires
            old(self)@.wf(),
            fits(old(self)@.awaiting(), reply@),
        ensures
            (final(self)@, r@) == old(self)@.next(reply@),
            final(self)@.wf(),
            awaited(r@) == final(self)@.awaiting(),
    {
        match self.stage {
            ReplacementStage::Opening => {
                self.stage = ReplacementStage::Upserting;
                let r = &self.replacement;
                let st = Statement::one(REPLACE_FILE_SQL)
                    .int4(r.project_id)
                    .text(r.path)
                    .text(r.relative_path)
                    .text(r.language)
                    .int8(r.size_bytes)
                    .opt_text(r.content)
                    .opt_int8(None)
                    .int4(r.line_count)
                    .flag(r.truncated)
                    .flag(r.content_recoverable_from_disk)
                    .supplied(0);
                assert(st@ =~= self@.replacement.upserts());
                Action::Run(st)
            },
            ReplacementStage::Upserting => {
                let id: i64 = match reply {
                    Reply::Ids(ids) => ids[0],
                    _ => 0,
                };
                self.stage = ReplacementStage::Deleting(id);
                let st = Statement::execute(REPLACE_DELETE_CHUNKS_SQL).int8(id);
                assert(st@ =~= self@.replacement.deletes(id));
                Action::Run(st)
            },
            ReplacementStage::Deleting(id) => self.send(id, 0),
            ReplacementStage::Inserting(id, i) => {
                assert(i < self.replacement.chunks.len());
                self.send(id, i + 1)
            },
            ReplacementStage::Finalizing(id) => {
                self.stage = ReplacementStage::Clearing(id);
                Action::Run(clear_index_failure(self.replacement.path))
            },
            ReplacementStage::Clearing(id) => {
                self.stage = ReplacementStage::Committing(id);
                Action::Commit
            },
            ReplacementStage::Committing(id) => {
                self.stage = ReplacementStage::Finished(id);
                Action::Done
            },
            ReplacementStage::Finished(_) => Action::Done,
        }
    }
}

/// The statements that are still to be sent, once the file's id is known.
pub open spec fn still_to_send(v: FileReplacementView) -> Seq<StatementView> {
    let r = v.replacement;
    let after = |id: i64, i: int|
        Seq::new((r.chunks.len() - i) as nat, |j: int| r.inserts(id, i + j)).push(
            r.finalizes(id),
        ).push(r.clears_failure());
    match v.stage {
        ReplacementStage::Deleting(id) => after(id, 0),
        ReplacementStage::Inserting(id, i) => after(id, i + 1),
        ReplacementStage::Finalizing(_) => Seq::empty().push(r.clears_failure()),
        _ => Seq::empty(),
    }
}

/// A file is written as a whole: after each step the statement that is sent
/// is the next of those that were to be sent, so all chunks go out in order,
/// the hash that marks the file as finished follows the last of them, earlier
/// failures are forgotten, and the commit comes only when nothing is left.
pub proof fn law_file_is_replaced_as_a_whole(v: FileReplacementView, reply: ReplyView)
    requires
        v.wf(),
        fits(v.awaiting(), reply),
        v.replacement.chunks.len() <= usize::MAX,
    ensures
        ({
            let (w, a) = v.next(reply);
            &&& w.wf()
            &&& still_to_send(v).len() > 0 ==> a == ActionView::Run(still_to_send(v)[0])
                && still_to_send(w) == still_to_send(v).skip(1)
            &&& a is Commit ==> still_to_send(v).len() == 0 && v.stage is Clearing
            &&& v.stage is Upserting ==> ({
                let n = v.replacement.chunks.len();
                &&& still_to_send(w).len() == n + 2
                &&& still_to_send(w)[n as int] == v.replacement.finalizes(reply->Ids_0[0])
                &&& still_to_send(w)[n as int + 1] == v.replacement.clears_failure()
            })
        }),
{
    let (w, a) = v.next(reply);
    match v.stage {
        ReplacementStage::Deleting(id) => {
            assert(still_to_send(w) =~= still_to_send(v).skip(1));
        },
        ReplacementStage::Inserting(id, i) => {
            assert(still_to_send(w) =~= still_to_send(v).skip(1));
        },
        ReplacementStage::Finalizing(id) => {
            assert(still_to_send(w) =~= still_to_send(v).skip(1));
        },
        _ => {},
    }
}

/// While a file is being replaced it has no content hash: the first write
/// stores none, and the hash is the one of the new content when it is set.
pub proof fn law_hash_is_cleared_first(r: ReplacementView)
    ensures
        r.upserts().binds[6] == BindView::OptBigInt(None),
        forall|id: i64| (#[trigger] r.finalizes(id)).binds[0] == BindView::BigInt(r.content_hash),
{
}

pub const BATCH_INSERT_CHUNK_SQL: &'static str = "INSERT INTO file_chunks
                    (file_id, chunk_index, content, start_line, end_line,
                     embedding_v2, embedding_signature)
                 VALUES ($1, $2, $3, $4, $5, $6, 'bge-m3-v1')
                 ON CONFLICT (file_id, chunk_index) DO UPDATE SET
                    content = EXCLUDED.content,
                    start_line = EXCLUDED.start_line,
                    end_line = EXCLUDED.end_line,
                    embedding_v2 = EXCLUDED.embedding_v2,
                    embedding_signature = EXCLUDED.embedding_signature";

pub const BATCH_INSERT_REFUSAL: &'static str =
    "insert_chunks_batch: expected a 1024-dimension BGE-M3 embedding, got ";

/// The code by which the database reports that a row's parent is gone.
pub const FOREIGN_KEY_VIOLATION: &'static str = "23503";

/// What went wrong with a batch of chunks.
#[derive(Debug)]
pub enum BatchError {
    /// A chunk was refused before it was sent.
    Refused(ProtocolError),
    /// The database reported an error, which the caller has.
    Database,
}

/// How a batch of chunks ended. Without a violation and an error all chunks
/// are stored; otherwise none is.
#[derive(Debug)]
pub struct ChunkBatchOutcome {
    pub fk_violation: bool,
    pub error: Option<BatchError>,
}

/// What went wrong with a batch, as a mathematical value.
#[verifier::ext_equal]
pub enum BatchErrorView {
    Refused(Seq<char>),
    Database,
}

impl View for BatchError {
    type V = BatchErrorView;

    open spec fn view(&self) -> BatchErrorView {
        match *self {
            BatchError::Refused(e) => BatchErrorView::Refused(e@),
            BatchError::Database => BatchErrorView::Database,
        }
    }
}

/// The outcome of a batch, as a mathematical value.
#[verifier::ext_equal]
pub struct OutcomeView {
    pub fk_violation: bool,
    pub error: Option<BatchErrorView>,
}

impl OutcomeView {
    /// All chunks are stored.
    pub open spec fn stored() -> OutcomeView {
        OutcomeView { fk_violation: false, error: None }
    }

    /// The file is gone.
    pub open spec fn parent_gone() -> OutcomeView {
        OutcomeView { fk_violation: true, error: None }
    }

    /// A chunk was refused.
    pub open spec fn refused(message: Seq<char>) -> OutcomeView {
        OutcomeView { fk_violation: false, error: Some(BatchErrorView::Refused(message)) }
    }

    /// The database reported another error.
    pub open spec fn database_error() -> OutcomeView {
        OutcomeView { fk_violation: false, error: Some(BatchErrorView::Database) }
    }

    /// A violation is not reported as an error too.
    pub open spec fn wf(self) -> bool {
        self.fk_violation ==> self.error is None
    }
}

impl View for ChunkBatchOutcome {
    type V = OutcomeView;

    open spec fn view(&self) -> OutcomeView {
        OutcomeView {
            fk_violation: self.fk_violation,
            error: match self.error {
                Some(e) => Some(e@),
                None => None,
            },
        }
    }
}

/// Every field of the model stands for the field of the same name.
pub proof fn law_chunk_batch_outcome_is_modelled_by_its_fields(outcome: ChunkBatchOutcome)
    ensures
        outcome@.fk_violation == outcome.fk_violation,
        outcome@.error == (match outcome.error { Some(e) => Some(e@), None => None, }),
{
}

/// The next request of a batch of chunks.
#[derive(Debug)]
pub enum BatchAction {
    /// Open a transaction.
    Begin,
    /// Store the chunk with this number; its embedding is the value to
    /// supply.
    Insert(usize, Statement),
    /// Commit the transaction.
    Commit,
    /// Give the transaction up.
    RollBack(ChunkBatchOutcome),
    /// The batch is over, and no transaction is open.
    Finish(ChunkBatchOutcome),
}

/// A request as a mathematical value.
#[verifier::ext_equal]
pub enum BatchActionView {
    Begin,
    Insert(int, StatementView),
    Commit,
    RollBack(OutcomeView),
    Finish(OutcomeView),
}

impl BatchActionView {
    /// An outcome does not report a violation as an error too.
    pub open spec fn wf(self) -> bool {
        match self {
            BatchActionView::RollBack(o) => o.wf(),
            BatchActionView::Finish(o) => o.wf(),
            _ => true,
        }
    }
}

impl View for BatchAction {
    type V = BatchActionView;

    open spec fn view(&self) -> BatchActionView {
        match *self {
            BatchAction::Begin => BatchActionView::Begin,
            BatchAction::Insert(i, st) => BatchActionView::Insert(i as int, st@),
            BatchAction::Commit => BatchActionView::Commit,
            BatchAction::RollBack(o) => BatchActionView::RollBack(o@),
            BatchAction::Finish(o) => BatchActionView::Finish(o@),
        }
    }
}

fn stored() -> (r: ChunkBatchOutcome)
    ensures
        r@ == OutcomeView::stored(),
{
    ChunkBatchOutcome { fk_violation: false, error: None }
}

/// How a batch of chunks starts: with no chunk it is over at once.
pub fn insert_chunks_batch(chunks: &[ChunkInsert<'_>]) -> (r: BatchAction)
    ensures
        r@ == (if chunks.len() == 0 {
            BatchActionView::Finish(OutcomeView::stored())
        } else {
            BatchActionView::Begin
        }),
        r@.wf(),
{
    if chunks.len() == 0 {
        BatchAction::Finish(stored())
    } else {
        BatchAction::Begin
    }
}

/// What follows when the first `done` chunks are stored: the next chunk, or
/// the end where its embedding has the wrong dimension, or the commit.
pub open spec fn after_chunks(file_id: i64, chunks: Seq<ChunkView>, done: int) -> BatchActionView {
    if done >= chunks.len() {
        BatchActionView::Commit
    } else if chunks[done].dim != EMBEDDING_DIM {
        BatchActionView::RollBack(
            OutcomeView::refused(dimension_refusal(BATCH_INSERT_REFUSAL@, chunks[done].dim)),
        )
    } else {
        BatchActionView::Insert(done, stores_chunk(BATCH_INSERT_CHUNK_SQL@, file_id, chunks[done]))
    }
}

/// Says what follows when the first `done` chunks are stored.
pub fn next_chunk(file_id: i64, chunks: &[ChunkInsert<'_>], done: usize) -> (r: BatchAction)
    ensures
        r@ == after_chunks(file_id, chunk_views(chunks@), done as int),
        r@.wf(),
{
    if done >= chunks.len() {
        return BatchAction::Commit;
    }
    assert(chunk_views(chunks@)[done as int] == chunks@[done as int]@);
    match require_dimension(chunks[done].dim, BATCH_INSERT_REFUSAL) {
        Ok(_) => {},
        Err(e) => {
            return BatchAction::RollBack(
                ChunkBatchOutcome { fk_violation: false, error: Some(BatchError::Refused(e)) },
            );
        },
    }
    BatchAction::Insert(done, store_chunk(BATCH_INSERT_CHUNK_SQL, file_id, &chunks[done]))
}

/// What follows when the database reports an error for a chunk, with its
/// code if it has one: the transaction is given up. That the file is gone is
/// no error.
pub fn chunk_failed(code: Option<&str>) -> (r: BatchAction)
    ensures
        r@ == BatchActionView::RollBack(
            if opt_str(code) == Some(FOREIGN_KEY_VIOLATION@) {
                OutcomeView::parent_gone()
            } else {
                OutcomeView::database_error()
            },
        ),
        r@.wf(),
{
    let gone: bool = match code {
        Some(c) => text_eq(c, FOREIGN_KEY_VIOLATION),
        None => false,
    };
    if gone {
        BatchAction::RollBack(ChunkBatchOutcome { fk_violation: true, error: None })
    } else {
        BatchAction::RollBack(
            ChunkBatchOutcome { fk_violation: false, error: Some(BatchError::Database) },
        )
    }
}

/// What follows the commit of a batch.
pub fn batch_committed() -> (r: BatchAction)
    ensures
        r@ == BatchActionView::Finish(OutcomeView::stored()),
        r@.wf(),
{
    BatchAction::Finish(stored())
}

/// A batch is committed only when every chunk was sent, and none with the
/// wrong dimension is ever sent.
pub proof fn law_batch_stores_all_or_nothing(file_id: i64, chunks: Seq<ChunkView>, done: int)
    requires
        0 <= done <= chunks.len(),
    ensures
        after_chunks(file_id, chunks, done) is Commit <==> done == chunks.len(),
        after_chunks(file_id, chunks, done) matches BatchActionView::Insert(i, st) ==> i == done
            && chunks[i].dim == EMBEDDING_DIM,
{
}

/// A chunk with what its context is made of.
#[derive(Debug, Clone)]
pub struct ChunkContextRow {
    pub id: i64,
    pub content: String,
    pub relative_path: String,
    pub language: String,
    pub symbol_kind: Option<String>,
    pub symbol_name: Option<String>,
    pub symbol_signature: Option<String>,
    pub importer_count: i64,
}

/// A chunk's text and lines.
#[derive(Debug, Clone)]
pub struct ChunkContentRow {
    pub chunk_id: i64,
    pub file_id: i64,
    pub start_line: i32,
    pub end_line: i32,
    pub content: String,
}

/// A chunk of a file that is being read.
#[derive(Debug, Clone)]
pub struct FileChunkRow {
    pub chunk_index: i32,
    pub start_line: i32,
    pub end_line: i32,
    pub content: String,
}

/// How many chunks a file has, and which lines they span.
#[derive(Debug, Clone)]
pub struct FileChunkSummary {
    pub chunk_count: i32,
    pub first_chunk_line: Option<i32>,
    pub last_chunk_line: Option<i32>,
}

pub const GET_CHUNKS_NEEDING_CONTEXT_SQL: &'static str = "SELECT c.id, c.content, f.relative_path, f.language,
                sym.kind AS symbol_kind, sym.name AS symbol_name,
                sym.signature AS symbol_signature,
                COALESCE(imp.cnt, 0) AS importer_count
         FROM file_chunks c
         JOIN indexed_files f ON f.id = c.file_id
         LEFT JOIN LATERAL (
             SELECT fs.kind, fs.name, fs.signature
             FROM file_symbols fs
             WHERE fs.file_id = c.file_id
               AND fs.start_line <= c.start_line
               AND fs.end_line >= c.end_line
               AND fs.kind IN ('function','method','class','struct','impl','trait','interface','enum','module')
             ORDER BY fs.start_line DESC, fs.end_line ASC
             LIMIT 1
         ) sym ON true
         LEFT JOIN LATERAL (
             SELECT COUNT(*) AS cnt
             FROM code_graph_edges e
             WHERE e.target_file_id = c.file_id AND e.edge_type = 'import'
         ) imp ON true
         WHERE c.contextual_text IS NULL AND c.embedding_v2 IS NOT NULL
         ORDER BY c.id
         LIMIT $1
         FOR UPDATE OF c SKIP LOCKED";

/// Chunks that have an embedding but no context yet, locked against other
/// workers.
pub fn get_chunks_needing_context(batch_size: i32) -> (st: Statement)
    ensures
        st@ == fetches_all(
            GET_CHUNKS_NEEDING_CONTEXT_SQL@,
            seq![BindView::BigInt(batch_size as i64)],
        ),
        opens(st@.sql, "SELECT"@),
        takes(st@, "LIMIT "@, BindView::BigInt(batch_size as i64)),
        says(st@.sql, "WHERE fs.file_id = c.file_id"@),
        says(st@.sql, "AND fs.start_line <= c.start_line"@),
        says(st@.sql, "AND fs.end_line >= c.end_line"@),
        says(st@.sql, "WHERE e.target_file_id = c.file_id AND e.edge_type = 'import'"@),
        says(st@.sql, "WHERE c.contextual_text IS NULL AND c.embedding_v2 IS NOT NULL"@),
        says(st@.sql, "ORDER BY fs.start_line DESC, fs.end_line ASC"@),
        says(st@.sql, "ORDER BY c.id"@),
        says(st@.sql, "FROM file_chunks"@),
{
    proof {
        get_chunks_needing_context_text();
    }
    let st = Statement::all(GET_CHUNKS_NEEDING_CONTEXT_SQL).int8(batch_size as i64);
    assert(st@.sql == GET_CHUNKS_NEEDING_CONTEXT_SQL@);
    st
}

pub const GET_CHUNK_CONTENT_ROWS_SQL: &'static str = "SELECT id AS chunk_id, file_id, start_line, end_line, content
         FROM file_chunks
         WHERE id = ANY($1)";

/// Texts and lines of chunks. No ids: nothing to send, and no chunk is found.
pub fn get_chunk_content_rows(chunk_ids: &[i64]) -> (r: Option<Statement>)
    ensures
        r is None <==> chunk_ids.len() == 0,
        r matches Some(st) ==> st@ == fetches_all(
            GET_CHUNK_CONTENT_ROWS_SQL@,
            seq![
                BindView::BigIntArray(chunk_ids@),
            ],
        ),
        r matches Some(st) ==> opens(st@.sql, "SELECT"@),
        r matches Some(st) ==> takes(st@, "id = ANY("@, BindView::BigIntArray(chunk_ids@)),
        r matches Some(st) ==> says(st@.sql, "FROM file_chunks"@),
{
    proof {
        get_chunk_content_rows_text();
    }
    if chunk_ids.len() == 0 {
        return None;
    }
    let st = Statement::all(GET_CHUNK_CONTENT_ROWS_SQL).int8s(chunk_ids);
    assert(st@.sql == GET_CHUNK_CONTENT_ROWS_SQL@);
    Some(st)
}

pub const GET_FILE_REGION_BY_LINES_SQL: &'static str = "SELECT c.chunk_index, c.start_line, c.end_line, c.content
         FROM file_chunks c
         JOIN indexed_files f ON c.file_id = COALESCE(f.duplicate_of_file_id, f.id)
         WHERE f.path = $1
           AND c.start_line <= $3
           AND c.end_line   >= $2
         ORDER BY c.chunk_index";

/// The chunks of a file that overlap some lines, in order; a duplicate has the
/// chunks of the file that it duplicates.
pub fn get_file_region_by_lines(path: &str, start_line: i32, end_line: i32) -> (st: Statement)
    ensures
        st@ == fetches_all(
            GET_FILE_REGION_BY_LINES_SQL@,
            seq![
                BindView::Text(path@),
                BindView::Int(start_line),
                BindView::Int(end_line),
            ],
        ),
        opens(st@.sql, "SELECT"@),
        takes(st@, "f.path = "@, BindView::Text(path@)),
        takes(st@, "AND c.end_line   >= "@, BindView::Int(start_line)),
        takes(st@, "c.start_line <= "@, BindView::Int(end_line)),
        says(st@.sql, "ORDER BY c.chunk_index"@),
        says(st@.sql, "FROM file_chunks"@),
{
    proof {
        get_file_region_by_lines_text();
    }
    let st = Statement::all(GET_FILE_REGION_BY_LINES_SQL).text(path).int4(start_line).int4(end_line);
    assert(st@.sql == GET_FILE_REGION_BY_LINES_SQL@);
    st
}

pub const GET_CHUNKS_IN_INDEX_RANGE_SQL: &'static str = "SELECT c.chunk_index, c.start_line, c.end_line, c.content
         FROM file_chunks c
         JOIN indexed_files f ON c.file_id = COALESCE(f.duplicate_of_file_id, f.id)
         WHERE f.path = $1
           AND c.chunk_index >= $2
           AND c.chunk_index <= $3
         ORDER BY c.chunk_index";

/// The chunks of a file with some indices, both ends included, in order; a
/// duplicate has the chunks of the file that it duplicates.
pub fn get_chunks_in_index_range(path: &str, idx_start: i32, idx_end: i32) -> (st: Statement)
    ensures
        st@ == fetches_all(
            GET_CHUNKS_IN_INDEX_RANGE_SQL@,
            seq![
                BindView::Text(path@),
                BindView::Int(idx_start),
                BindView::Int(idx_end),
            ],
        ),
        opens(st@.sql, "SELECT"@),
        takes(st@, "f.path = "@, BindView::Text(path@)),
        takes(st@, "c.chunk_index >= "@, BindView::Int(idx_start)),
        takes(st@, "c.chunk_index <= "@, BindView::Int(idx_end)),
        says(st@.sql, "ORDER BY c.chunk_index"@),
        says(st@.sql, "FROM file_chunks"@),
{
    proof {
        get_chunks_in_index_range_text();
    }
    let st = Statement::all(GET_CHUNKS_IN_INDEX_RANGE_SQL).text(path).int4(idx_start).int4(idx_end);
    assert(st@.sql == GET_CHUNKS_IN_INDEX_RANGE_SQL@);
    st
}

pub const FILE_CHUNK_SUMMARY_SQL: &'static str = "SELECT
            COUNT(*)::int AS chunk_count,
            MIN(c.start_line) AS first_chunk_line,
            MAX(c.end_line) AS last_chunk_line
         FROM file_chunks c
         JOIN indexed_files f ON c.file_id = COALESCE(f.duplicate_of_file_id, f.id)
         WHERE f.path = $1";

/// How many chunks a file has, and which lines they span.
pub fn file_chunk_summary(path: &str) -> (st: Statement)
    ensures
        st@ == fetches_one(FILE_CHUNK_SUMMARY_SQL@, seq![BindView::Text(path@)]),
        opens(st@.sql, "SELECT"@),
        takes(st@, "f.path = "@, BindView::Text(path@)),
        says(st@.sql, "FROM file_chunks"@),
{
    proof {
        file_chunk_summary_text();
    }
    let st = Statement::one(FILE_CHUNK_SUMMARY_SQL).text(path);
    assert(st@.sql == FILE_CHUNK_SUMMARY_SQL@);
    st
}

pub const GET_CHUNK_TOPIC_SUMMARIES_SQL: &'static str = "SELECT cta.chunk_id, ct.id::bigint AS topic_id, ct.label, ct.keywords, cta.membership_score
         FROM chunk_topic_assignments cta
         JOIN code_topics ct ON ct.id = cta.topic_id
         WHERE cta.chunk_id = ANY($1)
           AND cta.membership_score >= 0.05
         ORDER BY cta.chunk_id, cta.membership_score DESC";

/// The topics of chunks. No ids: nothing to send, and there is no topic.
pub fn get_chunk_topic_summaries(chunk_ids: &[i64]) -> (r: Option<Statement>)
    ensures
        r is None <==> chunk_ids.len() == 0,
        r matches Some(st) ==> st@ == fetches_all(
            GET_CHUNK_TOPIC_SUMMARIES_SQL@,
            seq![
                BindView::BigIntArray(chunk_ids@),
            ],
        ),
        r matches Some(st) ==> opens(st@.sql, "SELECT"@),
        r matches Some(st) ==> takes(
            st@,
            "cta.chunk_id = ANY("@,
            BindView::BigIntArray(chunk_ids@),
        ),
        r matches Some(st) ==> says(st@.sql, "AND cta.membership_score >= 0.05"@),
        r matches Some(st) ==> says(st@.sql, "ORDER BY cta.chunk_id, cta.membership_score DESC"@),
        r matches Some(st) ==> says(st@.sql, "FROM chunk_topic_assignments"@),
{
    proof {
        get_chunk_topic_summaries_text();
    }
    if chunk_ids.len() == 0 {
        return None;
    }
    let st = Statement::all(GET_CHUNK_TOPIC_SUMMARIES_SQL).int8s(chunk_ids);
    assert(st@.sql == GET_CHUNK_TOPIC_SUMMARIES_SQL@);
    Some(st)
}

pub const EMBEDDINGS_OF_LANGUAGE_1: &'static str = "SELECT c.id as chunk_id, c.file_id, f.project_id, p.name as project_name,
                    f.path, f.language, c.content, c.";

pub const EMBEDDINGS_OF_LANGUAGE_2: &'static str = "::real[] as embedding
             FROM file_chunks c
             JOIN indexed_files f ON f.id = c.file_id
             JOIN projects p ON p.id = f.project_id
             WHERE f.language = $1
               AND c.";

pub const EMBEDDINGS_OF_LANGUAGE_3: &'static str = " IS NOT NULL
               AND NOT EXISTS (
        SELECT 1 FROM projects p_dup
        WHERE p_dup.id < p.id
          AND (
              (p_dup.git_common_dir IS NOT NULL
               AND p.git_common_dir IS NOT NULL
               AND p_dup.git_common_dir = p.git_common_dir)
              OR
              (p_dup.git_root_commits IS NOT NULL
               AND p.git_root_commits IS NOT NULL
               AND p_dup.git_root_commits = p.git_root_commits)
          )
    )
             ORDER BY c.id";

/// The query for the embeddings in column `col` of all chunks in one language,
/// of one worktree per repository.
pub open spec fn embeddings_of_language_sql(col: Seq<char>) -> Seq<char> {
    EMBEDDINGS_OF_LANGUAGE_1@ + col + EMBEDDINGS_OF_LANGUAGE_2@ + col
        + EMBEDDINGS_OF_LANGUAGE_3@
}

fn write_embeddings_of_language_sql(col: &str) -> (r: String)
    ensures
        r@ == embeddings_of_language_sql(col@),
{
    let mut m = String::from_str(EMBEDDINGS_OF_LANGUAGE_1);
    m.append(col);
    m.append(EMBEDDINGS_OF_LANGUAGE_2);
    m.append(col);
    m.append(EMBEDDINGS_OF_LANGUAGE_3);
    m
}

pub const ALL_EMBEDDINGS_1: &'static str = "SELECT c.id as chunk_id, c.file_id, f.project_id, p.name as project_name,
                    f.path, f.language, c.content, c.";

pub const ALL_EMBEDDINGS_2: &'static str = "::real[] as embedding
             FROM file_chunks c
             JOIN indexed_files f ON f.id = c.file_id
             JOIN projects p ON p.id = f.project_id
             WHERE c.";

pub const ALL_EMBEDDINGS_3: &'static str = " IS NOT NULL
               AND NOT EXISTS (
        SELECT 1 FROM projects p_dup
        WHERE p_dup.id < p.id
          AND (
              (p_dup.git_common_dir IS NOT NULL
               AND p.git_common_dir IS NOT NULL
               AND p_dup.git_common_dir = p.git_common_dir)
              OR
              (p_dup.git_root_commits IS NOT NULL
               AND p.git_root_commits IS NOT NULL
               AND p_dup.git_root_commits = p.git_root_commits)
          )
    )
             ORDER BY c.id";

/// The query for the embeddings in column `col` of all chunks, of one worktree
/// per repository.
pub open spec fn all_embeddings_sql(col: Seq<char>) -> Seq<char> {
    ALL_EMBEDDINGS_1@ + col + ALL_EMBEDDINGS_2@ + col + ALL_EMBEDDINGS_3@
}

fn write_all_embeddings_sql(col: &str) -> (r: String)
    ensures
        r@ == all_embeddings_sql(col@),
{
    let mut m = String::from_str(ALL_EMBEDDINGS_1);
    m.append(col);
    m.append(ALL_EMBEDDINGS_2);
    m.append(col);
    m.append(ALL_EMBEDDINGS_3);
    m
}

pub const PROJECT_LANGUAGE_EMBEDDINGS_1: &'static str = "SELECT c.id as chunk_id, c.file_id, f.project_id, p.name as project_name,
                    f.path, f.language, c.content, c.";

pub const PROJECT_LANGUAGE_EMBEDDINGS_2: &'static str = "::real[] as embedding
             FROM file_chunks c
             JOIN indexed_files f ON f.id = c.file_id
             JOIN projects p ON p.id = f.project_id
             WHERE p.name = $1 AND f.language = $2
               AND c.";

pub const PROJECT_LANGUAGE_EMBEDDINGS_3: &'static str = " IS NOT NULL
             ORDER BY c.id";

/// The query for the embeddings in column `col` of the chunks of a project in
/// one language.
pub open spec fn project_language_embeddings_sql(col: Seq<char>) -> Seq<char> {
    PROJECT_LANGUAGE_EMBEDDINGS_1@ + col + PROJECT_LANGUAGE_EMBEDDINGS_2@ + col
        + PROJECT_LANGUAGE_EMBEDDINGS_3@
}

fn write_project_language_embeddings_sql(col: &str) -> (r: String)
    ensures
        r@ == project_language_embeddings_sql(col@),
{
    let mut m = String::from_str(PROJECT_LANGUAGE_EMBEDDINGS_1);
    m.append(col);
    m.append(PROJECT_LANGUAGE_EMBEDDINGS_2);
    m.append(col);
    m.append(PROJECT_LANGUAGE_EMBEDDINGS_3);
    m
}

pub const PROJECT_EMBEDDINGS_1: &'static str = "SELECT c.id as chunk_id, c.file_id, f.project_id, p.name as project_name,
                    f.path, f.language, c.content, c.";

pub const PROJECT_EMBEDDINGS_2: &'static str = "::real[] as embedding
             FROM file_chunks c
             JOIN indexed_files f ON f.id = c.file_id
             JOIN projects p ON p.id = f.project_id
             WHERE p.name = $1
               AND c.";

pub const PROJECT_EMBEDDINGS_3: &'static str = " IS NOT NULL
             ORDER BY c.id";

/// The query for the embeddings in column `col` of the chunks of a project.
pub open spec fn project_embeddings_sql(col: Seq<char>) -> Seq<char> {
    PROJECT_EMBEDDINGS_1@ + col + PROJECT_EMBEDDINGS_2@ + col + PROJECT_EMBEDDINGS_3@
}

fn write_project_embeddings_sql(col: &str) -> (r: String)
    ensures
        r@ == project_embeddings_sql(col@),
{
    let mut m = String::from_str(PROJECT_EMBEDDINGS_1);
    m.append(col);
    m.append(PROJECT_EMBEDDINGS_2);
    m.append(col);
    m.append(PROJECT_EMBEDDINGS_3);
    m
}

/// The embeddings in column `col` of all chunks, optionally in one language,
/// of one worktree per repository.
pub fn bulk_extract_embeddings(col: &str, language: Option<&str>) -> (st: Statement)
    ensures
        st@ == (match opt_str(language) {
            Some(l) => fetches_all(embeddings_of_language_sql(col@), seq![BindView::Text(l)]),
            None => fetches_all(all_embeddings_sql(col@), seq![]),
        }),
        language matches Some(l) ==> takes(st@, "f.language = "@, BindView::Text(l@)),
        says(st@.sql, "AND NOT EXISTS ("@),
        says(st@.sql, "WHERE p_dup.id < p.id"@),
        says(st@.sql, "AND p_dup.git_common_dir = p.git_common_dir)"@),
        says(st@.sql, "AND p_dup.git_root_commits = p.git_root_commits)"@),
        says(st@.sql, "ORDER BY c.id"@),
{
    match language {
        Some(l) => {
            let st = Statement::all(write_embeddings_of_language_sql(col).as_str()).text(l);
            proof {
                law_embeddings_are_of_the_language(col@, l@, st@);
            }
            st
        },
        None => {
            let st = Statement::all(write_all_embeddings_sql(col).as_str());
            proof {
                law_embeddings_come_once(col@, st@);
            }
            st
        },
    }
}

/// The embeddings in column `col` of the chunks of a project, optionally in
/// one language.
pub fn bulk_extract_project_embeddings(
    col: &str,
    project_name: &str,
    language: Option<&str>,
) -> (st: Statement)
    ensures
        st@ == (match opt_str(language) {
            Some(l) => fetches_all(
                project_language_embeddings_sql(col@),
                seq![BindView::Text(project_name@), BindView::Text(l)],
            ),
            None => fetches_all(
                project_embeddings_sql(col@),
                seq![BindView::Text(project_name@)],
            ),
        }),
        takes(st@, "p.name = "@, BindView::Text(project_name@)),
        language matches Some(l) ==> takes(st@, "f.language = "@, BindView::Text(l@)),
        says(st@.sql, "ORDER BY c.id"@),
{
    match language {
        Some(l) => {
            let st = Statement::all(write_project_language_embeddings_sql(col).as_str())
                .text(project_name)
                .text(l);
            assert(st@ =~= fetches_all(
                project_language_embeddings_sql(col@),
                seq![BindView::Text(project_name@), BindView::Text(l@)],
            ));
            proof {
                law_project_embeddings_are_of_the_language(col@, project_name@, l@, st@);
            }
            st
        },
        None => {
            let st = Statement::all(write_project_embeddings_sql(col).as_str()).text(project_name);
            proof {
                law_project_embeddings_are_of_the_project(col@, project_name@, st@);
            }
            st
        },
    }
}

pub const BEST_CHUNK_1: &'static str = "SELECT DISTINCT ON (c.file_id)
                c.file_id, f.relative_path, f.language, c.content,
                c.start_line, c.end_line, (1.0 - (c.";

pub const BEST_CHUNK_2: &'static str = " <=> $1))::float8 AS similarity
         FROM file_chunks c
         JOIN indexed_files f ON f.id = c.file_id
         WHERE c.file_id = ANY($2) AND c.";

pub const BEST_CHUNK_3: &'static str = " IS NOT NULL
         ORDER BY c.file_id, c.";

pub const BEST_CHUNK_4: &'static str = " <=> $1";

/// The query for the chunk of each file that is closest to an embedding, by the
/// embeddings in column `col`.
pub open spec fn best_chunk_sql(col: Seq<char>) -> Seq<char> {
    BEST_CHUNK_1@ + col + BEST_CHUNK_2@ + col + BEST_CHUNK_3@ + col + BEST_CHUNK_4@
}

fn write_best_chunk_sql(col: &str) -> (r: String)
    ensures
        r@ == best_chunk_sql(col@),
{
    let mut m = String::from_str(BEST_CHUNK_1);
    m.append(col);
    m.append(BEST_CHUNK_2);
    m.append(col);
    m.append(BEST_CHUNK_3);
    m.append(col);
    m.append(BEST_CHUNK_4);
    m
}

/// The chunk of each file that is closest to an embedding. No files: nothing
/// to send, whatever the dimension. The caller supplies value 0, the
/// embedding, of dimension `dim`.
pub fn best_chunk_per_file(dim: usize, file_ids: &[i64]) -> (r: Result<
    Option<Statement>,
    ProtocolError,
>)
    ensures
        r matches Ok(None) <==> file_ids.len() == 0,
        file_ids.len() > 0 ==> match (r, column_for(dim)) {
            (Ok(Some(st)), Ok(col)) => st@ == fetches_all(
                best_chunk_sql(col),
                seq![BindView::Supplied(0), BindView::BigIntArray(file_ids@)],
            ),
            (Err(e), Err(message)) => e@ == message,
            _ => false,
        },
        r matches Ok(Some(st)) ==> takes(st@, "<=> "@, BindView::Supplied(0)),
        r matches Ok(Some(st)) ==> takes(
            st@,
            "c.file_id = ANY("@,
            BindView::BigIntArray(file_ids@),
        ),
{
    if file_ids.len() == 0 {
        return Ok(None);
    }
    match embedding_column_for_dim(dim) {
        Ok(col) => {
            let st = Statement::all(write_best_chunk_sql(col).as_str())
                .supplied(0)
                .int8s(file_ids);
            assert(st@ =~= fetches_all(
                best_chunk_sql(col@),
                seq![BindView::Supplied(0), BindView::BigIntArray(file_ids@)],
            ));
            proof {
                law_best_chunks_are_of_the_files(col@, file_ids@, st@);
            }
            Ok(Some(st))
        },
        Err(e) => Err(e),
    }
}

pub const RERANK_1: &'static str = "SELECT id AS chunk_id, ";

pub const RERANK_2: &'static str = " AS embedding, blame_date
         FROM file_chunks WHERE id = ANY($1)";

/// The query for embedding, in column `col`, and last change of chunks.
pub open spec fn rerank_sql(col: Seq<char>) -> Seq<char> {
    RERANK_1@ + col + RERANK_2@
}

fn write_rerank_sql(col: &str) -> (r: String)
    ensures
        r@ == rerank_sql(col@),
{
    let mut m = String::from_str(RERANK_1);
    m.append(col);
    m.append(RERANK_2);
    m
}

/// Embedding and last change of chunks, in the column for embeddings of
/// dimension `query_dim`. No ids: nothing to send, whatever the dimension.
pub fn chunk_rerank_features(chunk_ids: &[i64], query_dim: usize) -> (r: Result<
    Option<Statement>,
    ProtocolError,
>)
    ensures
        r matches Ok(None) <==> chunk_ids.len() == 0,
        chunk_ids.len() > 0 ==> match (r, column_for(query_dim)) {
            (Ok(Some(st)), Ok(col)) => st@ == fetches_all(
                rerank_sql(col),
                seq![BindView::BigIntArray(chunk_ids@)],
            ),
            (Err(e), Err(message)) => e@ == message,
            _ => false,
        },
        r matches Ok(Some(st)) ==> takes(
            st@,
            "id = ANY("@,
            BindView::BigIntArray(chunk_ids@),
        ),
{
    if chunk_ids.len() == 0 {
        return Ok(None);
    }
    match embedding_column_for_dim(query_dim) {
        Ok(col) => {
            let st = Statement::all(write_rerank_sql(col).as_str()).int8s(chunk_ids);
            proof {
                law_features_are_of_the_chunks(col@, chunk_ids@, st@);
            }
            Ok(Some(st))
        },
        Err(e) => Err(e),
    }
}

} // verus!
