# pgmcp_db

The database layer of a code index with a memory graph, as a verified library.

The library decides what is sent to the database and what is made of the
answers. It performs no I/O: a query is a `Statement`, that is an SQL text, its
arguments in order, and how its rows are fetched. A transaction whose next
statement depends on an answer is a state machine: it hands out an `Action` and
takes the `Reply` to it.

| where | what |
|---|---|
| `src/statement.rs`, `src/protocol.rs`, `src/results.rs` | statements, transactions, decoded answers |
| `src/text.rs`, `src/order.rs`, `src/limits.rs`, `src/unix_path.rs` | texts, sorting, clamping, paths |
| `src/digest.rs`, `src/moments.rs` | digests and time stamps, from outside crates |
| `src/cwd_cache.rs`, `src/worktrees.rs`, `src/line_chunks.rs`, `src/search_pattern.rs` | the project cache, groups of worktrees, chunking, search patterns |
| `src/vocabulary.rs`, `src/embedding.rs`, `src/metadata.rs`, `src/pool.rs`, `src/patterns.rs` | the graph's vocabulary, embedding columns, stored settings, session setup, the pattern catalogue |
| `src/queries/` | the queries, one module per subject |
| `src/migrations/` | the schema steps |
| `app/` | the code that talks to PostgreSQL |

A value that the library does not hold (a float, a vector, a time stamp, a JSON
document, a UUID) is an argument `Supplied(k)`: the caller passes it as its
`k`-th value.

Each public function states in `ensures` the statement that it returns, or the
machine's next state and action. Proof functions named `law_..` state what holds
across calls.
