//! The statements and protocols of each part of the database.
pub mod advisories;
pub mod chunks;
pub mod clients;
pub mod concurrency;
pub mod cron_history;
pub mod dashboard_metrics;
pub mod data_table_laws;
pub mod data_table_links;
pub mod data_tables;
pub mod dedup;
pub mod dedup_laws;
pub mod digest;
pub mod experiments;
pub mod external_scanner;
pub mod feedback;
pub mod files;
pub mod git;
pub mod graph;
pub mod hybrid_laws;
pub mod index_failures;
pub mod mandates_write;
pub mod memory_crud;
pub mod memory_entities;
pub mod memory_entity_laws;
pub mod memory_graph;
pub mod memory_locks;
pub mod memory_observations;
pub mod memory_relation_laws;
pub mod memory_relations;
pub mod memory_search;
pub mod metrics;
pub mod ontology;
pub mod projects;
pub mod realtime_events;
pub mod search;
pub mod similarity;
pub mod stats;
pub mod status;
pub mod texts;
