//! Embedding vectors: the one supported dimension, and queries that tune the
//! vector index for one transaction.
use vstd::prelude::*;

use crate::meaning::{opens, part_at};
use crate::protocol::{statement_views, ProtocolError};
use crate::statement::{executes, Statement, StatementView};
use crate::text::{decimal, decimal_text, unsigned_decimal};

verus! {

/// The dimension of every stored embedding.
pub const EMBEDDING_DIM: usize = 1024;

/// The column that holds the embeddings of file chunks and commits.
pub const EMBEDDING_COLUMN: &'static str = "embedding_v2";

/// The message that refuses a dimension: a sentence and the dimension.
pub open spec fn dimension_refusal(sentence: Seq<char>, dim: usize) -> Seq<char> {
    sentence + decimal_text(dim as int)
}

/// Accepts the supported dimension and refuses any other with `sentence`
/// followed by the dimension.
pub fn require_dimension(dim: usize, sentence: &str) -> (r: Result<(), ProtocolError>)
    ensures
        r is Ok <==> dim == EMBEDDING_DIM,
        r matches Err(e) ==> e@ == dimension_refusal(sentence@, dim),
{
    if dim == EMBEDDING_DIM {
        return Ok(());
    }
    let mut m = String::from_str(sentence);
    m.append(unsigned_decimal(dim as u128).as_str());
    Err(ProtocolError { message: m })
}

/// The column that holds embeddings of a dimension, or the message that
/// refuses it.
pub open spec fn column_for(dim: usize) -> Result<Seq<char>, Seq<char>> {
    if dim == EMBEDDING_DIM {
        Ok(EMBEDDING_COLUMN@)
    } else {
        Err(
            "unsupported query-embedding dim "@ + decimal_text(dim as int)
                + " (expected a 1024-dimension BGE-M3 embedding)"@,
        )
    }
}

/// The column that holds embeddings of a dimension.
pub fn embedding_column_for_dim(dim: usize) -> (r: Result<&'static str, ProtocolError>)
    ensures
        match (r, column_for(dim)) {
            (Ok(c), Ok(name)) => c@ == name,
            (Err(e), Err(message)) => e@ == message,
            _ => false,
        },
{
    if dim == EMBEDDING_DIM {
        return Ok(EMBEDDING_COLUMN);
    }
    let mut m = String::from_str("unsupported query-embedding dim ");
    m.append(unsigned_decimal(dim as u128).as_str());
    m.append(" (expected a 1024-dimension BGE-M3 embedding)");
    Err(ProtocolError { message: m })
}

/// A query that runs in a transaction of its own, after some settings for
/// that transaction.
#[derive(Debug)]
pub struct TunedQuery {
    pub settings: Vec<Statement>,
    pub query: Statement,
}

/// A tuned query as a mathematical value.
#[verifier::ext_equal]
pub struct TunedView {
    pub settings: Seq<StatementView>,
    pub query: StatementView,
}

impl View for TunedQuery {
    type V = TunedView;

    open spec fn view(&self) -> TunedView {
        TunedView { settings: statement_views(self.settings@), query: self.query@ }
    }
}

/// Every field of the model stands for the field of the same name.
pub proof fn law_tuned_query_is_modelled_by_its_fields(query: TunedQuery)
    ensures
        query@.settings == statement_views(query.settings@),
        query@.query == query.query@,
{
}

/// Setting how many candidates the vector index visits.
pub open spec fn sets_ef_search(ef_search: i32) -> StatementView {
    executes("SET LOCAL hnsw.ef_search = "@ + decimal_text(ef_search as int), seq![])
}

/// Sets how many candidates the vector index visits.
pub fn set_ef_search(ef_search: i32) -> (st: Statement)
    ensures
        st@ == sets_ef_search(ef_search),
{
    let mut m = String::from_str("SET LOCAL hnsw.ef_search = ");
    m.append(decimal(ef_search as i64).as_str());
    Statement::execute(m.as_str())
}

/// A query over the vector index with a given number of candidates.
pub open spec fn tuned(ef_search: i32, query: StatementView) -> TunedView {
    TunedView { settings: seq![sets_ef_search(ef_search)], query }
}

/// Makes a query over the vector index with a given number of candidates.
pub fn tune(ef_search: i32, query: Statement) -> (r: TunedQuery)
    ensures
        r@ == tuned(ef_search, query@),
{
    let settings: Vec<Statement> = vec![set_ef_search(ef_search)];
    let r = TunedQuery { settings, query };
    assert(statement_views(r.settings@) =~= seq![sets_ef_search(ef_search)]);
    r
}

/// A search over the vector index first sets, for its transaction alone, how many
/// candidates the index visits, and then runs as it is.
pub proof fn law_search_is_tuned_first(ef_search: i32, query: StatementView)
    ensures
        tuned(ef_search, query).query == query,
        tuned(ef_search, query).settings.len() == 1,
        opens(tuned(ef_search, query).settings[0].sql, "SET LOCAL hnsw.ef_search = "@),
        tuned(ef_search, query).settings[0].sql.skip("SET LOCAL hnsw.ef_search = "@.len() as int)
            == decimal_text(ef_search as int),
{
    let head = "SET LOCAL hnsw.ef_search = "@;
    let t = tuned(ef_search, query).settings[0].sql;
    assert(t == head + decimal_text(ef_search as int));
    assert(part_at(t, 0, head));
    assert(t.skip(head.len() as int) =~= decimal_text(ef_search as int));
}

/// Embeddings of one dimension are accepted, and stand in the column for them.
pub proof fn law_one_dimension_has_a_column(dim: usize)
    ensures
        column_for(dim) is Ok <==> dim == 1024,
        column_for(dim) is Ok ==> column_for(dim)->Ok_0 == "embedding_v2"@,
{
}

} // verus!
