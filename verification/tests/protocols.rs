//! Runs of several statements, answered as a database would.
use pgmcp_db::patterns::{upsert_source, SourceUpsert};
use pgmcp_db::protocol::{has_room, total, Action, Batch, Fallback, GetOrCreate, Reply};
use pgmcp_db::queries::chunks::{
    batch_committed, chunk_failed, insert_chunks_batch, next_chunk, replace_indexed_file,
    BatchAction, BatchError, ChunkInsert, IndexedFileReplacement,
};
use pgmcp_db::queries::experiments::{
    insert_experiment_decision, record_experiment_measurement, InsertExperimentResult,
    RecordExperimentMeasurement,
};
use pgmcp_db::queries::memory_crud::{find_or_create_scope, memory_forget, ForgetTargetType, ScopeSpec};
use pgmcp_db::queries::memory_entities::{memory_create_entities_detailed, NewEntityInput};
use pgmcp_db::queries::memory_observations::{
    memory_add_observations, memory_delete_observations, AddObservationInput,
    DeleteObservationInput,
};
use pgmcp_db::queries::memory_relations::{memory_create_relations_detailed, NewRelationInput};
use pgmcp_db::queries::ontology::{
    agent_assert_invariant, create_concept, migrate_concept, resolve_concept, set_concept_status,
    status_changed, SetStatusError,
};
use pgmcp_db::statement::{Bind, Statement};

fn sql(a: &Action) -> &str {
    match a {
        Action::Run(st) | Action::Hold(st) | Action::Ask(st) => st.sql.as_str(),
        other => panic!("no statement: {other:?}"),
    }
}

fn binds(a: &Action) -> &[Bind] {
    match a {
        Action::Run(st) | Action::Hold(st) | Action::Ask(st) => st.binds.as_slice(),
        other => panic!("no statement: {other:?}"),
    }
}

fn ids(v: &[i64]) -> Reply {
    Reply::Ids(v.to_vec())
}

#[test]
fn batches_run_in_one_transaction() {
    let (mut b, first) =
        Batch::start(vec![Statement::execute("A"), Statement::execute("B").int8(2)]);
    assert!(matches!(first, Action::Begin));
    assert_eq!(sql(&b.step(&Reply::Ready)), "A");
    assert_eq!(sql(&b.step(&Reply::Affected(3))), "B");
    assert!(matches!(b.step(&Reply::Affected(4)), Action::Commit));
    assert!(matches!(b.step(&Reply::Ready), Action::Done));
    assert_eq!(b.counts, vec![3, 4]);
}

#[test]
fn counters_do_not_overflow() {
    assert!(has_room(u64::MAX - 1, &Reply::Affected(1)));
    assert!(!has_room(u64::MAX, &Reply::Affected(1)));
    assert!(has_room(u64::MAX, &Reply::Ready));
    assert_eq!(total(&vec![1, 2, 3]), Some(6));
    assert_eq!(total(&vec![u64::MAX, 1]), None);
    assert_eq!(total(&Vec::new()), Some(0));
}

#[test]
fn rows_are_created_only_when_absent() {
    let (mut m, first) = GetOrCreate::start(Statement::optional("F"), Statement::one("C"));
    assert_eq!(sql(&first), "F");
    assert_eq!(sql(&m.step(&ids(&[]))), "C");
    assert!(matches!(m.step(&ids(&[9])), Action::Done));
    assert_eq!((m.id, m.created), (9, true));
    let (mut found, _) = GetOrCreate::start(Statement::optional("F"), Statement::one("C"));
    assert!(matches!(found.step(&ids(&[4])), Action::Done));
    assert_eq!((found.id, found.created), (4, false));
    let scope = ScopeSpec { user_id: None, agent_id: None, project_id: Some(1) };
    let (_, asked) = find_or_create_scope(&scope);
    assert!(sql(&asked).contains("FROM memory_scope"));
}

#[test]
fn second_lookup_runs_when_the_first_finds_nothing() {
    let (mut m, first) = Fallback::start(Statement::optional("A"), Statement::optional("B"));
    assert_eq!(sql(&first), "A");
    assert_eq!(sql(&m.step(&ids(&[]))), "B");
    assert!(matches!(m.step(&ids(&[5])), Action::Done));
    assert_eq!(m.found, Some(5));
    let (mut one, _) = Fallback::only(Statement::optional("A"));
    assert!(matches!(one.step(&ids(&[])), Action::Done));
    assert_eq!(one.found, None);
}

#[test]
fn concepts_resolve_by_number_and_then_by_name() {
    let (mut by_id, asked) = resolve_concept("42");
    assert!(matches!(binds(&asked)[0], Bind::BigInt(42)));
    assert!(matches!(&binds(&by_id.step(&ids(&[])))[0], Bind::Text(s) if s == "42"));
    let (mut by_name, named) = resolve_concept("locks");
    assert!(matches!(&binds(&named)[0], Bind::Text(s) if s == "locks"));
    assert!(matches!(by_name.step(&ids(&[3])), Action::Done));
    assert_eq!(by_name.found, Some(3));
}

#[test]
fn erasing_an_entity_counts_its_dependents() {
    let (mut m, first) = memory_forget(ForgetTargetType::Entity, 7, true, "user");
    assert!(matches!(first, Action::Begin));
    let mut a = m.step(&Reply::Ready);
    for n in 1..=5 {
        assert!(sql(&a).contains("COUNT(*)"));
        a = m.step(&ids(&[n]));
    }
    assert!(sql(&a).starts_with("DELETE FROM memory_entities"));
    assert!(m.can_count(&Reply::Affected(1)));
    let log = m.step(&Reply::Affected(1));
    assert!(sql(&log).contains("memory_forget_log"));
    assert!(matches!(binds(&log)[4], Bind::Int(16)));
    assert!(matches!(m.step(&ids(&[99])), Action::Commit));
    assert!(matches!(m.step(&Reply::Ready), Action::Done));
    let report = m.report();
    assert_eq!(report.target_type, "entity");
    assert_eq!(report.rows_affected, 16);
    assert_eq!(report.forget_log_id, 99);
    let manifest = report.manifest.expect("dependents");
    assert_eq!((manifest.observations, manifest.tiers), (1, 5));
}

#[test]
fn expiring_a_row_counts_nothing_else() {
    let (mut m, _) = memory_forget(ForgetTargetType::Observation, 7, false, "user");
    let a = m.step(&Reply::Ready);
    assert!(sql(&a).starts_with("UPDATE memory_observations"));
    assert!(!m.can_count(&Reply::Affected(u64::MAX)));
    m.step(&Reply::Affected(1));
    m.step(&ids(&[5]));
    m.step(&Reply::Ready);
    let report = m.report();
    assert!(report.manifest.is_none());
    assert_eq!(report.rows_affected, 1);
    assert!(!report.cascade);
}

#[test]
fn targets_are_parsed_by_name() {
    for name in ["entity", "observation", "relation"] {
        assert_eq!(ForgetTargetType::parse(name).expect("a target").label(), name);
    }
    assert!(ForgetTargetType::parse("Entity").is_err());
}

#[test]
fn observations_are_added_once_per_entity_and_text() {
    let inputs = vec![AddObservationInput {
        entity_name: "alpha".to_string(),
        contents: vec!["one".to_string(), "two".to_string()],
    }];
    let (mut m, first) = memory_add_observations(inputs, "user");
    assert!(matches!(first, Action::Begin));
    let look = m.step(&Reply::Ready);
    assert!(matches!(&binds(&look)[0], Bind::Text(s) if s == "alpha"));
    let mut a = m.step(&ids(&[11]));
    let mut inserted = 0;
    let mut seen = Vec::new();
    loop {
        let reply = match &a {
            Action::Run(st) => {
                seen.push(st.sql.clone());
                if st.sql.contains("INSERT") {
                    inserted += 1;
                    ids(&[100 + inserted])
                } else if st.sql.contains("advisory") {
                    Reply::Affected(1)
                } else if inserted == 0 {
                    ids(&[])
                } else {
                    ids(&[77])
                }
            }
            Action::Commit => Reply::Ready,
            Action::Done => break,
            other => panic!("{other:?}"),
        };
        a = m.step(&reply);
    }
    assert_eq!(inserted, 1, "{seen:?}");
    assert_eq!(m.result(), vec![101]);
}

#[test]
fn ambiguous_names_are_refused() {
    let inputs = vec![AddObservationInput {
        entity_name: "alpha".to_string(),
        contents: vec!["one".to_string()],
    }];
    let (mut m, _) = memory_add_observations(inputs, "user");
    m.step(&Reply::Ready);
    match m.step(&ids(&[1, 2])) {
        Action::Refuse(message) => assert_eq!(
            message,
            "ambiguous memory entity name 'alpha' matched 2 active entities; use a unique entity name"
        ),
        other => panic!("{other:?}"),
    }
}

#[test]
fn observations_of_unknown_entities_are_skipped() {
    let inputs = vec![
        DeleteObservationInput {
            entity_name: "gone".to_string(),
            observations: vec!["x".to_string()],
        },
        DeleteObservationInput {
            entity_name: "alpha".to_string(),
            observations: vec!["x".to_string(), "y".to_string()],
        },
    ];
    let (mut m, _) = memory_delete_observations(inputs);
    m.step(&Reply::Ready);
    let second = m.step(&ids(&[]));
    assert!(matches!(&binds(&second)[0], Bind::Text(s) if s == "alpha"));
    assert!(matches!(&binds(&m.step(&ids(&[3])))[1], Bind::Text(s) if s == "x"));
    assert!(matches!(&binds(&m.step(&Reply::Affected(1)))[1], Bind::Text(s) if s == "y"));
    assert!(matches!(m.step(&Reply::Affected(1)), Action::Commit));
    assert!(matches!(m.step(&Reply::Ready), Action::Done));
    assert_eq!(m.affected, 2);
}

#[test]
fn entities_are_locked_and_then_created() {
    let inputs = vec![
        NewEntityInput {
            name: "b".to_string(),
            entity_type: "concept".to_string(),
            observations: Vec::new(),
        },
        NewEntityInput {
            name: "a".to_string(),
            entity_type: "concept".to_string(),
            observations: Vec::new(),
        },
    ];
    let (mut m, first) = memory_create_entities_detailed(inputs, 5, "user");
    assert!(matches!(first, Action::Begin));
    let mut a = m.step(&Reply::Ready);
    let mut locks = 0;
    let mut created: Vec<String> = Vec::new();
    loop {
        let reply = match &a {
            Action::Run(st) if st.sql.contains("advisory") => {
                assert!(created.is_empty());
                locks += 1;
                Reply::Affected(1)
            }
            Action::Run(st) if st.sql.contains("INSERT INTO memory_entities") => {
                match &st.binds[0] {
                    Bind::Text(s) => created.push(s.clone()),
                    other => panic!("{other:?}"),
                }
                ids(&[created.len() as i64])
            }
            Action::Run(st) if st.sql.contains("INSERT INTO memory_entity_scope") => {
                assert!(matches!(st.binds[1], Bind::BigInt(5)));
                Reply::Affected(1)
            }
            Action::Run(_) => ids(&[]),
            Action::Commit => Reply::Ready,
            Action::Done => break,
            other => panic!("{other:?}"),
        };
        a = m.step(&reply);
    }
    assert_eq!(locks, 2);
    assert_eq!(created, vec!["b".to_string(), "a".to_string()]);
    let r = m.result();
    assert_eq!(r.entity_ids, vec![1, 2]);
    assert_eq!(r.entities_inserted, 2);
    assert_eq!(r.observations_inserted, 0);
}

#[test]
fn relations_need_both_endpoints() {
    let inputs = [
        NewRelationInput {
            from: " a ".to_string(),
            to: "b".to_string(),
            relation_type: "uses".to_string(),
        },
        NewRelationInput {
            from: "a".to_string(),
            to: "zzz".to_string(),
            relation_type: "uses".to_string(),
        },
    ];
    let (mut m, first) = memory_create_relations_detailed(&inputs, "user").expect("normalized");
    assert!(matches!(first, Action::Begin));
    let mut a = m.step(Reply::Ready);
    loop {
        let reply = match &a {
            Action::Run(st) if st.sql.contains("advisory") => Reply::Affected(1),
            Action::Run(st) if st.sql.contains("INSERT") => ids(&[50]),
            Action::Run(st) => match &st.binds[0] {
                Bind::Text(s) if s == "a" => ids(&[1]),
                Bind::Text(s) if s == "b" => ids(&[2]),
                _ => ids(&[]),
            },
            Action::Commit => Reply::Ready,
            Action::Done => break,
            other => panic!("{other:?}"),
        };
        a = m.step(reply);
    }
    let r = m.result();
    assert_eq!(r.relation_ids, vec![50, -1]);
    assert_eq!(r.relations_inserted, 1);
}

#[test]
fn bad_relation_fields_are_refused_before_anything_is_sent() {
    let blank = [NewRelationInput {
        from: "a".to_string(),
        to: " \t".to_string(),
        relation_type: "uses".to_string(),
    }];
    assert_eq!(
        memory_create_relations_detailed(&blank, "user").err().expect("a refusal").message,
        "relation to must not be blank"
    );
    let long = [NewRelationInput {
        from: "a".repeat(2000),
        to: "b".to_string(),
        relation_type: "uses".to_string(),
    }];
    assert!(memory_create_relations_detailed(&long, "user")
        .err()
        .expect("a refusal")
        .message
        .starts_with("relation from must be at most "));
}

fn measurement(sample_count: usize) -> RecordExperimentMeasurement {
    RecordExperimentMeasurement {
        experiment_id: 1,
        hypothesis_id: None,
        arm_label: "control".to_string(),
        arm_kind: "control".to_string(),
        command_spec_json: "{}".to_string(),
        run_plan_json: "{}".to_string(),
        host_meta_json: "{}".to_string(),
        git_ref: None,
        runner: None,
        seed: 7,
        metric_name: "ms".to_string(),
        sample_count,
        unit_keys: None,
        is_warmup: false,
    }
}

#[test]
fn measurements_lock_their_run_first() {
    let (mut m, first) = record_experiment_measurement(measurement(3));
    assert!(matches!(first, Action::Begin));
    let lock = m.step(&Reply::Ready);
    assert!(sql(&lock).contains("pg_advisory_xact_lock"));
    let mut a = m.step(&Reply::Affected(1));
    let mut sampled = false;
    loop {
        let reply = match &a {
            Action::Run(st) | Action::Hold(st) if st.sql.contains("experiment_samples") => {
                sampled = true;
                Reply::Affected(3)
            }
            Action::Run(_) => Reply::Affected(1),
            Action::Hold(st) | Action::Ask(st) => {
                Reply::Present(st.sql.contains("INSERT") || st.sql.contains("UPDATE"))
            }
            Action::Commit => Reply::Ready,
            Action::Done => break,
            other => panic!("{other:?}"),
        };
        a = m.step(&reply);
    }
    assert!(sampled);
    assert_eq!(m.inserted_samples, 3);
}

#[test]
fn decisions_close_the_experiment() {
    let (mut d, first) = insert_experiment_decision(InsertExperimentResult {
        experiment_id: 1,
        hypothesis_id: 2,
        test_type: "welch".to_string(),
        metric_name: "ms".to_string(),
        effect_size_kind: None,
        verdict: "supported".to_string(),
        accepted: true,
        correction: None,
        criterion_snapshot_json: "{}".to_string(),
        test_result_json: "{}".to_string(),
        rationale: None,
        decided_by: None,
        observation_id: Some(4),
    });
    assert!(matches!(first, Action::Begin));
    let mut a = d.step(&Reply::Ready);
    let mut seen: Vec<String> = Vec::new();
    loop {
        let reply = match &a {
            Action::Run(st) => {
                seen.push(st.sql.chars().take(30).collect());
                if st.sql.contains("RETURNING id") {
                    ids(&[8])
                } else {
                    Reply::Affected(1)
                }
            }
            Action::Commit => Reply::Ready,
            Action::Done => break,
            other => panic!("{other:?}"),
        };
        a = d.step(&reply);
    }
    assert_eq!(d.result_id, 8);
    assert!(seen.len() >= 4, "{seen:?}");
}

fn chunk(i: i32, dim: usize) -> ChunkInsert<'static> {
    ChunkInsert { chunk_index: i, content: "fn main() {}", start_line: 1, end_line: 2, dim }
}

fn replacement<'a>(chunks: &'a [ChunkInsert<'a>]) -> IndexedFileReplacement<'a> {
    IndexedFileReplacement {
        project_id: 1,
        path: "/ws/a/src/main.rs",
        relative_path: "src/main.rs",
        language: "rust",
        size_bytes: 12,
        content: Some("fn main() {}"),
        content_hash: 77,
        line_count: 1,
        truncated: false,
        content_recoverable_from_disk: true,
        chunks,
    }
}

#[test]
fn files_are_replaced_as_a_whole() {
    let chunks = [chunk(0, 1024), chunk(1, 1024)];
    let (mut m, first) = replace_indexed_file(replacement(&chunks)).expect("right dimensions");
    assert!(matches!(first, Action::Begin));
    let upsert = m.step(&Reply::Ready);
    assert!(matches!(binds(&upsert)[6], Bind::OptBigInt(None)));
    let delete = m.step(&ids(&[5]));
    assert!(sql(&delete).starts_with("DELETE FROM file_chunks"));
    assert!(sql(&m.step(&Reply::Affected(4))).starts_with("INSERT INTO file_chunks"));
    assert_eq!(m.chunk_sent(), Some(0));
    m.step(&Reply::Affected(1));
    assert_eq!(m.chunk_sent(), Some(1));
    let finalize = m.step(&Reply::Affected(1));
    assert!(matches!(binds(&finalize)[0], Bind::BigInt(77)));
    assert!(matches!(binds(&finalize)[1], Bind::BigInt(5)));
    let clear = m.step(&Reply::Affected(1));
    assert!(sql(&clear).contains("index_failures"));
    assert!(matches!(&binds(&clear)[0], Bind::Text(s) if s == "/ws/a/src/main.rs"));
    assert!(matches!(m.step(&Reply::Affected(0)), Action::Commit));
    assert!(matches!(m.step(&Reply::Ready), Action::Done));
    assert_eq!(m.file_id(), Some(5));
}

#[test]
fn files_with_a_bad_chunk_are_refused() {
    let chunks = [chunk(0, 1024), chunk(1, 384)];
    assert_eq!(
        replace_indexed_file(replacement(&chunks)).err().expect("a refusal").message,
        "replace_indexed_file: expected a 1024-dimension BGE-M3 embedding, got 384"
    );
}

#[test]
fn batches_of_chunks_end_whole_or_not_at_all() {
    match insert_chunks_batch(&[]) {
        BatchAction::Finish(o) => assert!(!o.fk_violation && o.error.is_none()),
        other => panic!("{other:?}"),
    }
    let chunks = [chunk(0, 1024), chunk(1, 3)];
    assert!(matches!(insert_chunks_batch(&chunks), BatchAction::Begin));
    assert!(matches!(next_chunk(5, &chunks, 0), BatchAction::Insert(0, _)));
    match next_chunk(5, &chunks, 1) {
        BatchAction::RollBack(o) => {
            assert!(matches!(o.error, Some(BatchError::Refused(_))));
            assert!(!o.fk_violation);
        }
        other => panic!("{other:?}"),
    }
    assert!(matches!(next_chunk(5, &chunks, 2), BatchAction::Commit));
    match chunk_failed(Some("23503")) {
        BatchAction::RollBack(o) => assert!(o.fk_violation && o.error.is_none()),
        other => panic!("{other:?}"),
    }
    for code in [Some("23505"), None] {
        match chunk_failed(code) {
            BatchAction::RollBack(o) => {
                assert!(!o.fk_violation && matches!(o.error, Some(BatchError::Database)))
            }
            other => panic!("{other:?}"),
        }
    }
    assert!(matches!(batch_committed(), BatchAction::Finish(_)));
}

#[test]
fn sources_are_updated_where_they_exist() {
    let source = || SourceUpsert {
        source_family: "book",
        title: "Patterns",
        url: None,
        license_label: None,
        source_type: "text",
        ingest_policy: "full",
        content: Some("abc"),
        status: "imported",
        error: None,
    };
    let (mut m, _) = upsert_source(source());
    let update = m.step(&ids(&[6]));
    assert!(sql(&update).starts_with("UPDATE software_pattern_sources"));
    assert!(matches!(m.step(&Reply::Affected(1)), Action::Done));
    assert_eq!(m.source_id(), Some(6));
    let (mut n, _) = upsert_source(source());
    assert!(sql(&n.step(&ids(&[]))).starts_with("INSERT INTO software_pattern_sources"));
    assert!(matches!(n.step(&ids(&[7])), Action::Done));
    assert_eq!(n.source_id(), Some(7));
}

#[test]
fn concepts_are_found_or_created_and_described() {
    let (mut m, _) = create_concept("locks", "domain", true);
    let created = m.step(&ids(&[]));
    assert!(sql(&created).contains("INSERT INTO memory_entities"));
    let described = m.step(&ids(&[3]));
    assert!(sql(&described).contains("ontology_concept_meta"));
    assert!(matches!(&binds(&described)[2], Bind::Text(s) if s == "agent"));
    assert!(matches!(m.step(&Reply::Affected(1)), Action::Done));
    assert_eq!(m.result(), Some((3, true)));
    let (mut old, _) = migrate_concept("locks", "domain", "catalog");
    old.step(&ids(&[4]));
    old.step(&Reply::Affected(1));
    assert_eq!(old.result(), Some((4, false)));
}

#[test]
fn agents_do_not_accept_concepts() {
    for status in ["accepted", "canonical"] {
        let e = set_concept_status(3, status, true).err().expect("a refusal");
        assert!(matches!(e, SetStatusError::AgentCannotCurate), "{e:?}");
        assert_eq!(
            e.message(),
            "an agent cannot set a curator-only status (accepted/canonical)"
        );
        assert!(set_concept_status(3, status, false).is_ok());
    }
    assert!(set_concept_status(3, "candidate", true).is_ok());
    assert!(status_changed(3, 1).is_ok());
    assert!(matches!(status_changed(3, 0), Err(SetStatusError::NotFound(3))));
}

#[test]
fn assertions_anchor_and_give_evidence() {
    let (mut m, first) = agent_assert_invariant("no deadlock", "a before b", "why", Some(9));
    let mut a = first;
    let mut seen: Vec<String> = Vec::new();
    loop {
        let reply = match &a {
            Action::Run(st) => {
                seen.push(st.sql.clone());
                match st.fetch {
                    pgmcp_db::statement::Fetch::Execute => Reply::Affected(1),
                    pgmcp_db::statement::Fetch::Optional => ids(&[]),
                    _ => ids(&[3]),
                }
            }
            Action::Ask(st) => {
                seen.push(st.sql.clone());
                Reply::Present(false)
            }
            Action::Begin | Action::Commit => Reply::Ready,
            Action::Done => break,
            other => panic!("{other:?}"),
        };
        a = m.step(&reply);
    }
    assert_eq!(m.entity_id(), Some(3));
    assert!(seen.iter().any(|s| s.contains("memory_code_anchor")), "{seen:?}");
    assert!(seen.iter().all(|s| !s.contains("SET status = $2")), "{seen:?}");
}

/// Tables that answer the statements of the memory graph.
#[derive(Default)]
struct Tables {
    entities: Vec<(String, String, i64)>,
    relations: Vec<(i64, i64, String, i64)>,
    observations: Vec<(i64, String)>,
}

fn word(b: &Bind) -> String {
    match b {
        Bind::Text(s) => s.clone(),
        other => panic!("{other:?}"),
    }
}

fn number(b: &Bind) -> i64 {
    match b {
        Bind::BigInt(n) => *n,
        other => panic!("{other:?}"),
    }
}

impl Tables {
    fn answer(&mut self, a: &Action) -> Reply {
        let st = match a {
            Action::Begin | Action::Commit => return Reply::Ready,
            Action::Run(st) => st,
            other => panic!("{other:?}"),
        };
        let b = &st.binds;
        if st.sql.contains("pg_advisory_xact_lock") || st.sql.contains("INTO memory_entity_scope") {
            Reply::Affected(1)
        } else if st.sql.starts_with("INSERT INTO memory_relations") {
            let id = 100 + self.relations.len() as i64;
            self.relations.push((number(&b[0]), number(&b[1]), word(&b[2]), id));
            ids(&[id])
        } else if st.sql.starts_with("INSERT INTO memory_entities") {
            let id = 1 + self.entities.len() as i64;
            self.entities.push((word(&b[0]), word(&b[1]), id));
            ids(&[id])
        } else if st.sql.starts_with("INSERT INTO memory_observations") {
            self.observations.push((number(&b[0]), word(&b[2])));
            ids(&[500])
        } else if st.sql.contains("FROM memory_relations") {
            let key = (number(&b[0]), number(&b[1]), word(&b[2]));
            let found = self.relations.iter().filter(|r| (r.0, r.1, r.2.clone()) == key);
            Reply::Ids(found.map(|r| r.3).collect())
        } else if st.sql.contains("FROM memory_observations") {
            let key = (number(&b[0]), word(&b[1]));
            Reply::Ids(if self.observations.contains(&key) { vec![500] } else { vec![] })
        } else {
            let found = self.entities.iter().filter(|e| {
                e.0 == word(&b[0]) && (b.len() == 1 || e.1 == word(&b[1]))
            });
            Reply::Ids(found.map(|e| e.2).collect())
        }
    }
}

#[test]
fn creating_relations_again_changes_nothing() {
    let mut tables = Tables::default();
    for (i, name) in ["a", "b", "c"].iter().enumerate() {
        tables.entities.push((name.to_string(), "t".to_string(), i as i64 + 1));
    }
    tables.relations.push((2, 3, "uses".to_string(), 77));
    let input = |from: &str, to: &str| NewRelationInput {
        from: from.to_string(),
        to: to.to_string(),
        relation_type: "uses".to_string(),
    };
    let inputs =
        [input("a", "b"), input("b", " c "), input("a", "a"), input("a", "x"), input("a", "b")];
    let mut results: Vec<(Vec<i64>, usize)> = Vec::new();
    for _ in 0..2 {
        let (mut m, mut a) = memory_create_relations_detailed(&inputs, "user").expect("normalized");
        while !matches!(a, Action::Done) {
            let reply = tables.answer(&a);
            a = m.step(reply);
        }
        let r = m.result();
        results.push((r.relation_ids, r.relations_inserted));
    }
    assert_eq!(results[0], (vec![101, 77, -1, -1, 101], 1));
    assert_eq!(results[1], (vec![101, 77, -1, -1, 101], 0));
    assert_eq!(tables.relations.len(), 2);
}

#[test]
fn creating_entities_again_changes_nothing() {
    let mut tables = Tables::default();
    tables.entities.push(("b".to_string(), "t".to_string(), 1));
    let input = |name: &str, observations: &[&str]| NewEntityInput {
        name: name.to_string(),
        entity_type: "t".to_string(),
        observations: observations.iter().map(|o| o.to_string()).collect(),
    };
    let inputs = vec![input("a", &["x", "y", "x"]), input("b", &["x"]), input("a", &["y"])];
    let mut results: Vec<(Vec<i64>, usize, usize)> = Vec::new();
    for _ in 0..2 {
        let (mut m, mut a) = memory_create_entities_detailed(inputs.clone(), 9, "user");
        while !matches!(a, Action::Done) {
            let reply = tables.answer(&a);
            a = m.step(&reply);
        }
        let r = m.result();
        results.push((r.entity_ids, r.entities_inserted, r.observations_inserted));
    }
    assert_eq!(results[0], (vec![2, 1, 2], 1, 3));
    assert_eq!(results[1], (vec![2, 1, 2], 0, 0));
    assert_eq!(tables.entities.len(), 2);
    assert_eq!(tables.observations.len(), 3);
}
