//! Planning layer for the code-index and agent-memory database: which SQL is
//! sent, with which arguments, and what is decided from the answers.
//!
//! Nothing here talks to the database. A function either returns the
//! [`statement::Statement`] to run, or is one step of a protocol that takes
//! the database's last answer and says what to do next.
pub mod cwd_cache;
pub mod digest;
pub mod embedding;
pub mod limits;
pub mod line_chunks;
pub mod meaning;
pub mod metadata;
pub mod migrations;
pub mod moments;
pub mod order;
pub mod patterns;
pub mod pool;
pub mod protocol;
pub mod queries;
pub mod results;
pub mod search_pattern;
pub mod statement;
pub mod text;
pub mod unix_path;
pub mod vocabulary;
pub mod worktrees;
