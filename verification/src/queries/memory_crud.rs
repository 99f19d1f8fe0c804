//! Life cycle of the memory graph: scopes, automatic entities, soft
//! deletion, forgetting with a log, retention, and the integrity report.
use vstd::prelude::*;

use crate::meaning::{fills, opens, says, takes};
use crate::protocol::{
    awaited, fits, statement_views, Action, ActionView, Awaiting, GetOrCreate, ProtocolError, Reply,
    ReplyView,
};
use crate::queries::texts::memory_crud::{
    concept_seed_topics_text, find_auto_entity_text, find_scope_text, insert_auto_entity_text,
    insert_scope_text, memory_delete_entities_text, record_memory_eval_report_text,
};
use crate::statement::{
    executes, fetches_all, fetches_one, fetches_optional, texts, BindView, Fetch, Statement,
    StatementView,
};
use crate::text::text_eq;

verus! {

pub const COUNT_OBSERVATIONS_SQL: &'static str =
    "SELECT COUNT(*) FROM memory_observations WHERE entity_id = $1";

pub const COUNT_RELATIONS_SQL: &'static str = "SELECT COUNT(*) FROM memory_relations
                     WHERE from_entity_id = $1 OR to_entity_id = $1";

pub const COUNT_ANCHORS_SQL: &'static str =
    "SELECT COUNT(*) FROM memory_code_anchor WHERE entity_id = $1";

pub const COUNT_SCOPES_SQL: &'static str =
    "SELECT COUNT(*) FROM memory_entity_scope WHERE entity_id = $1";

pub const COUNT_TIERS_SQL: &'static str =
    "SELECT COUNT(*) FROM memory_entity_tier WHERE entity_id = $1";

pub const ERASE_ENTITY_SQL: &'static str = "DELETE FROM memory_entities WHERE id = $1";

pub const EXPIRE_ENTITY_SQL: &'static str = "UPDATE memory_entities SET valid_to = NOW()
                     WHERE id = $1 AND valid_to IS NULL";

pub const ERASE_OBSERVATION_SQL: &'static str = "DELETE FROM memory_observations WHERE id = $1";

pub const EXPIRE_OBSERVATION_SQL: &'static str = "UPDATE memory_observations SET valid_to = NOW()
                     WHERE id = $1 AND valid_to IS NULL";

pub const ERASE_RELATION_SQL: &'static str = "DELETE FROM memory_relations WHERE id = $1";

pub const EXPIRE_RELATION_SQL: &'static str = "UPDATE memory_relations SET valid_to = NOW()
                     WHERE id = $1 AND valid_to IS NULL";

pub const LOG_FORGET_SQL: &'static str = "INSERT INTO memory_forget_log
            (actor, target_type, target_id, cascade, rows_affected, manifest_json)
         VALUES ($1, $2, $3, $4, $5, $6)
         RETURNING id";

/// What kind of memory row to forget.
#[derive(Debug, Clone, Copy, PartialEq, Eq, Structural)]
pub enum ForgetTargetType {
    Entity,
    Observation,
    Relation,
}

impl ForgetTargetType {
    /// The name of the kind.
    pub open spec fn name(self) -> Seq<char> {
        match self {
            ForgetTargetType::Entity => "entity"@,
            ForgetTargetType::Observation => "observation"@,
            ForgetTargetType::Relation => "relation"@,
        }
    }

    /// The kind with a given name, or the message that refuses the name.
    pub open spec fn named(s: Seq<char>) -> Result<ForgetTargetType, Seq<char>> {
        if s == "entity"@ {
            Ok(ForgetTargetType::Entity)
        } else if s == "observation"@ {
            Ok(ForgetTargetType::Observation)
        } else if s == "relation"@ {
            Ok(ForgetTargetType::Relation)
        } else {
            Err(
                "unknown target_type '"@ + s
                    + "'; expected entity|observation|relation"@,
            )
        }
    }

    /// The name of the kind, as the forget log stores it.
    pub fn label(self) -> (r: &'static str)
        ensures
            r@ == self.name(),
    {
        match self {
            ForgetTargetType::Entity => "entity",
            ForgetTargetType::Observation => "observation",
            ForgetTargetType::Relation => "relation",
        }
    }

    /// The kind with a given name.
    pub fn parse(s: &str) -> (r: Result<ForgetTargetType, ProtocolError>)
        ensures
            match r {
                Ok(t) => ForgetTargetType::named(s@) == Ok::<ForgetTargetType, Seq<char>>(t),
                Err(e) => ForgetTargetType::named(s@) == Err::<ForgetTargetType, Seq<char>>(e@),
            },
    {
        if text_eq(s, "entity") {
            Ok(ForgetTargetType::Entity)
        } else if text_eq(s, "observation") {
            Ok(ForgetTargetType::Observation)
        } else if text_eq(s, "relation") {
            Ok(ForgetTargetType::Relation)
        } else {
            let mut m = String::from_str("unknown target_type '");
            m.append(s);
            m.append("'; expected entity|observation|relation");
            Err(ProtocolError { message: m })
        }
    }
}

/// A kind is found again by its name, and a name that is accepted is the
/// name of the kind it gives.
pub proof fn law_target_names_round_trip(t: ForgetTargetType, s: Seq<char>)
    ensures
        ForgetTargetType::named(t.name()) == Ok::<ForgetTargetType, Seq<char>>(t),
        ForgetTargetType::named(s) matches Ok(u) ==> u.name() == s,
{
    reveal_strlit("entity");
    reveal_strlit("observation");
    reveal_strlit("relation");
    assert("entity"@.len() == 6);
    assert("observation"@.len() == 11);
    assert("relation"@.len() == 8);
}

/// How many dependent rows went with an erased entity.
#[derive(Debug, Clone, Copy, PartialEq, Eq, Structural)]
pub struct ForgetManifest {
    pub observations: i64,
    pub relations: i64,
    pub code_anchors: i64,
    pub scopes: i64,
    pub tiers: i64,
}

/// What forgetting did.
#[derive(Debug, Clone)]
pub struct ForgetReport {
    pub target_type: String,
    pub target_id: i64,
    pub cascade: bool,
    pub rows_affected: i64,
    /// Present exactly when an entity was erased with its dependents.
    pub manifest: Option<ForgetManifest>,
    pub forget_log_id: i64,
}

/// The query that counts the dependents of an entity, by number.
pub open spec fn dependent_count_sql(k: int) -> Seq<char> {
    if k == 0 {
        COUNT_OBSERVATIONS_SQL@
    } else if k == 1 {
        COUNT_RELATIONS_SQL@
    } else if k == 2 {
        COUNT_ANCHORS_SQL@
    } else if k == 3 {
        COUNT_SCOPES_SQL@
    } else {
        COUNT_TIERS_SQL@
    }
}

/// The query that removes a row: for good with `cascade`, else by ending its
/// validity.
pub open spec fn removal_sql(target: ForgetTargetType, cascade: bool) -> Seq<char> {
    match target {
        ForgetTargetType::Entity => if cascade { ERASE_ENTITY_SQL@ } else { EXPIRE_ENTITY_SQL@ },
        ForgetTargetType::Observation => if cascade {
            ERASE_OBSERVATION_SQL@
        } else {
            EXPIRE_OBSERVATION_SQL@
        },
        ForgetTargetType::Relation => if cascade {
            ERASE_RELATION_SQL@
        } else {
            EXPIRE_RELATION_SQL@
        },
    }
}

fn count_statement(k: usize, id: i64) -> (st: Statement)
    requires
        k < 5,
    ensures
        st@ == fetches_one(dependent_count_sql(k as int), seq![BindView::BigInt(id)]),
{
    let sql = if k == 0 {
        COUNT_OBSERVATIONS_SQL
    } else if k == 1 {
        COUNT_RELATIONS_SQL
    } else if k == 2 {
        COUNT_ANCHORS_SQL
    } else if k == 3 {
        COUNT_SCOPES_SQL
    } else {
        COUNT_TIERS_SQL
    };
    Statement::one(sql).int8(id)
}

fn removal_statement(target: ForgetTargetType, cascade: bool, id: i64) -> (st: Statement)
    ensures
        st@ == executes(removal_sql(target, cascade), seq![BindView::BigInt(id)]),
{
    let sql = match target {
        ForgetTargetType::Entity => if cascade { ERASE_ENTITY_SQL } else { EXPIRE_ENTITY_SQL },
        ForgetTargetType::Observation => if cascade {
            ERASE_OBSERVATION_SQL
        } else {
            EXPIRE_OBSERVATION_SQL
        },
        ForgetTargetType::Relation => if cascade {
            ERASE_RELATION_SQL
        } else {
            EXPIRE_RELATION_SQL
        },
    };
    Statement::execute(sql).int8(id)
}

/// Where forgetting stands.
#[derive(Debug, Clone, Copy, PartialEq, Eq, Structural)]
pub enum ForgetStage {
    Opening,
    Counting,
    Removing,
    Logging,
    Committing,
    Finished,
}

/// Forgets one row in a transaction: with `cascade` the row and what depends
/// on it is erased, otherwise its validity ends. The dependents of an erased
/// entity are counted first. What was done is written to the forget log.
#[derive(Debug)]
pub struct Forgetting {
    pub target: ForgetTargetType,
    pub target_id: i64,
    pub cascade: bool,
    pub actor: String,
    pub stage: ForgetStage,
    /// The counts of dependent rows, in the order they were asked for.
    pub counts: Vec<i64>,
    pub rows: i64,
    pub log_id: i64,
}

/// The state of a [`Forgetting`], as a mathematical value.
#[verifier::ext_equal]
pub struct ForgettingView {
    pub target: ForgetTargetType,
    pub target_id: i64,
    pub cascade: bool,
    pub actor: Seq<char>,
    pub stage: ForgetStage,
    pub counts: Seq<i64>,
    pub rows: int,
    pub log_id: i64,
}

impl View for Forgetting {
    type V = ForgettingView;

    open spec fn view(&self) -> ForgettingView {
        ForgettingView {
            target: self.target,
            target_id: self.target_id,
            cascade: self.cascade,
            actor: self.actor@,
            stage: self.stage,
            counts: self.counts@,
            rows: self.rows as int,
            log_id: self.log_id,
        }
    }
}

/// Every field of the model stands for the field of the same name.
pub proof fn law_forgetting_is_modelled_by_its_fields(forgetting: Forgetting)
    ensures
        forgetting@.target == forgetting.target,
        forgetting@.target_id == forgetting.target_id,
        forgetting@.cascade == forgetting.cascade,
        forgetting@.actor == forgetting.actor@,
        forgetting@.stage == forgetting.stage,
        forgetting@.counts == forgetting.counts@,
        forgetting@.rows == forgetting.rows as int,
        forgetting@.log_id == forgetting.log_id,
{
}

/// The sum of some row counts.
pub open spec fn sum_rows(counts: Seq<i64>) -> int
    decreases counts.len(),
{
    if counts.len() == 0 {
        0
    } else {
        sum_rows(counts.drop_last()) + counts.last()
    }
}

impl ForgettingView {
    /// Whether dependents are counted: only for an erased entity.
    pub open spec fn counting(self) -> bool {
        self.target is Entity && self.cascade
    }

    /// Continues with the count number `k`, or with the removal.
    pub open spec fn gathering(self, k: int) -> (ForgettingView, ActionView) {
        if self.counting() && k < 5 {
            (
                ForgettingView { stage: ForgetStage::Counting, ..self },
                ActionView::Run(
                    fetches_one(dependent_count_sql(k), seq![BindView::BigInt(self.target_id)]),
                ),
            )
        } else {
            (
                ForgettingView { stage: ForgetStage::Removing, ..self },
                ActionView::Run(
                    executes(
                        removal_sql(self.target, self.cascade),
                        seq![BindView::BigInt(self.target_id)],
                    ),
                ),
            )
        }
    }

    /// The log entry of what was done. The caller supplies the manifest.
    pub open spec fn log_entry(self) -> StatementView {
        fetches_one(
            LOG_FORGET_SQL@,
            seq![
                BindView::Text(self.actor),
                BindView::Text(self.target.name()),
                BindView::BigInt(self.target_id),
                BindView::Bool(self.cascade),
                BindView::Int((self.rows as i64) as i32),
                BindView::Supplied(0),
            ],
        )
    }

    /// What follows an answer.
    pub open spec fn next(self, reply: ReplyView) -> (ForgettingView, ActionView) {
        match (self.stage, reply) {
            (ForgetStage::Opening, _) => self.gathering(0),
            (ForgetStage::Counting, ReplyView::Ids(ids)) => (ForgettingView {
                counts: self.counts.push(ids[0]),
                ..self
            }).gathering((self.counts.len() + 1) as int),
            (ForgetStage::Removing, ReplyView::Affected(n)) => {
                let s = ForgettingView {
                    rows: n + sum_rows(self.counts),
                    stage: ForgetStage::Logging,
                    ..self
                };
                (s, ActionView::Run(s.log_entry()))
            },
            (ForgetStage::Logging, ReplyView::Ids(ids)) => (
                ForgettingView { stage: ForgetStage::Committing, log_id: ids[0], ..self },
                ActionView::Commit,
            ),
            (ForgetStage::Committing, _) => (
                ForgettingView { stage: ForgetStage::Finished, ..self },
                ActionView::Done,
            ),
            _ => (self, ActionView::Done),
        }
    }

    /// What every reachable state satisfies.
    pub open spec fn wf(self) -> bool {
        &&& self.stage is Opening ==> self.counts.len() == 0
        &&& self.stage is Counting ==> self.counting() && self.counts.len() < 5
        &&& self.stage is Removing || self.stage is Logging || self.stage is Committing
            || self.stage is Finished ==> self.counts.len() == (if self.counting() {
            5int
        } else {
            0
        })
    }

    /// The shape of answer that is awaited.
    pub open spec fn awaiting(self) -> Awaiting {
        match self.stage {
            ForgetStage::Opening => Awaiting::Ready,
            ForgetStage::Counting => Awaiting::One,
            ForgetStage::Removing => Awaiting::Affected,
            ForgetStage::Logging => Awaiting::One,
            ForgetStage::Committing => Awaiting::Ready,
            ForgetStage::Finished => Awaiting::Nothing,
        }
    }

    /// Whether the rows that an answer adds up to fit their counter. Row
    /// counts are never negative.
    pub open spec fn countable(self, reply: ReplyView) -> bool {
        match (self.stage, reply) {
            (ForgetStage::Removing, ReplyView::Affected(n)) => {
                &&& forall|i: int| 0 <= i < self.counts.len() ==> #[trigger] self.counts[i] >= 0
                &&& n + sum_rows(self.counts) <= i64::MAX
            },
            _ => true,
        }
    }
}

proof fn lemma_row_sums(counts: Seq<i64>, n: int)
    requires
        0 <= n <= counts.len(),
        forall|i: int| 0 <= i < counts.len() ==> #[trigger] counts[i] >= 0,
    ensures
        0 <= sum_rows(counts.take(n)) <= sum_rows(counts),
    decreases counts.len(),
{
    if n < counts.len() {
        assert(counts.drop_last().take(n) =~= counts.take(n));
        assert forall|i: int| 0 <= i < counts.drop_last().len() implies
            #[trigger] counts.drop_last()[i] >= 0 by {
            assert(counts.drop_last()[i] == counts[i]);
        }
        assert(counts.last() == counts[counts.len() - 1]);
        lemma_row_sums(counts.drop_last(), n);
    } else {
        assert(counts.take(n) =~= counts);
        if counts.len() > 0 {
            assert forall|i: int| 0 <= i < counts.drop_last().len() implies
            #[trigger] counts.drop_last()[i] >= 0 by {
                assert(counts.drop_last()[i] == counts[i]);
            }
            assert(counts.last() == counts[counts.len() - 1]);
            lemma_row_sums(counts.drop_last(), counts.len() - 1);
        }
    }
}

/// Prepares to forget one row; the first request opens the transaction.
pub fn memory_forget(target: ForgetTargetType, target_id: i64, cascade: bool, actor: &str) -> (r: (
    Forgetting,
    Action,
))
    ensures
        r.0@ == (ForgettingView {
            target,
            target_id,
            cascade,
            actor: actor@,
            stage: ForgetStage::Opening,
            counts: seq![],
            rows: 0,
            log_id: 0,
        }),
        r.0@.wf(),
        r.1@ == ActionView::Begin,
        r.0@.target == target,
        r.0@.target_id == target_id,
        r.0@.cascade == cascade,
        r.0@.actor == actor@,
        r.0@.rows == 0,
        r.0@.log_id == 0,
{
    (
        Forgetting {
            target,
            target_id,
            cascade,
            actor: String::from_str(actor),
            stage: ForgetStage::Opening,
            counts: Vec::new(),
            rows: 0,
            log_id: 0,
        },
        Action::Begin,
    )
}

impl Forgetting {
    fn is_counting(&self) -> (b: bool)
        ensures
            b == self@.counting(),
    {
        match self.target {
            ForgetTargetType::Entity => self.cascade,
            _ => false,
        }
    }

    fn gathering(&mut self, k: usize) -> (r: Action)
        requires
            k <= 5,
            old(self).counts.len() == k,
            k > 0 ==> old(self)@.counting(),
        ensures
            (final(self)@, r@) == old(self)@.gathering(k as int),
            final(self)@.wf(),
            awaited(r@) == final(self)@.awaiting(),
    {
        if self.is_counting() && k < 5 {
            self.stage = ForgetStage::Counting;
            Action::Run(count_statement(k, self.target_id))
        } else {
            self.stage = ForgetStage::Removing;
            Action::Run(removal_statement(self.target, self.cascade, self.target_id))
        }
    }

    fn log_entry(&self) -> (st: Statement)
        ensures
            st@ == self@.log_entry(),
    {
        Statement::one(LOG_FORGET_SQL)
            .text(self.actor.as_str())
            .text(self.target.label())
            .int8(self.target_id)
            .flag(self.cascade)
            .int4(self.rows as i32)
            .supplied(0)
    }

    /// Takes the answer to the last request and gives the next.
    pub fn step(&mut self, reply: &Reply) -> (r: Action)
        requires
            old(self)@.wf(),
            fits(old(self)@.awaiting(), reply@),
            old(self)@.countable(reply@),
        ensures
            (final(self)@, r@) == old(self)@.next(reply@),
            final(self)@.wf(),
            awaited(r@) == final(self)@.awaiting(),
    {
        match (self.stage, reply) {
            (ForgetStage::Opening, _) => self.gathering(0),
            (ForgetStage::Counting, Reply::Ids(ids)) => {
                self.counts.push(ids[0]);
                let k: usize = self.counts.len();
                self.gathering(k)
            },
            (ForgetStage::Removing, Reply::Affected(n)) => {
                proof {
                    lemma_row_sums(self.counts@, 0);
                    assert(self.counts@.take(0) =~= seq![]);
                }
                let mut rows: i64 = *n as i64;
                let mut i: usize = 0;
                while i < self.counts.len()
                    invariant
                        i <= self.counts.len(),
                        rows == *n + sum_rows(self.counts@.take(i as int)),
                        forall|j: int|
                            0 <= j < self.counts@.len() ==> #[trigger] self.counts@[j] >= 0,
                        *n + sum_rows(self.counts@) <= i64::MAX,
                    decreases self.counts.len() - i,
                {
                    proof {
                        lemma_row_sums(self.counts@, i + 1);
                        assert(self.counts@.take(i + 1).drop_last() =~= self.counts@.take(
                            i as int,
                        ));
                    }
                    rows = rows + self.counts[i];
                    i = i + 1;
                }
                assert(self.counts@.take(i as int) =~= self.counts@);
                self.rows = rows;
                self.stage = ForgetStage::Logging;
                Action::Run(self.log_entry())
            },
            (ForgetStage::Logging, Reply::Ids(ids)) => {
                self.stage = ForgetStage::Committing;
                self.log_id = ids[0];
                Action::Commit
            },
            (ForgetStage::Committing, _) => {
                self.stage = ForgetStage::Finished;
                Action::Done
            },
            _ => Action::Done,
        }
    }

    /// The counts of dependents that went with an erased entity.
    pub fn manifest(&self) -> (r: Option<ForgetManifest>)
        requires
            self@.wf(),
            self.stage is Logging || self.stage is Finished,
        ensures
            r == (if self@.counting() {
                Some(
                    ForgetManifest {
                        observations: self@.counts[0],
                        relations: self@.counts[1],
                        code_anchors: self@.counts[2],
                        scopes: self@.counts[3],
                        tiers: self@.counts[4],
                    },
                )
            } else {
                None
            }),
    {
        if self.is_counting() {
            Some(
                ForgetManifest {
                    observations: self.counts[0],
                    relations: self.counts[1],
                    code_anchors: self.counts[2],
                    scopes: self.counts[3],
                    tiers: self.counts[4],
                },
            )
        } else {
            None
        }
    }

    /// The report of a finished run.
    pub fn report(&self) -> (r: ForgetReport)
        requires
            self@.wf(),
            self.stage is Finished,
        ensures
            r.target_type@ == self.target.name(),
            r.target_id == self.target_id,
            r.cascade == self.cascade,
            r.rows_affected == self@.rows,
            r.manifest is Some <==> self@.counting(),
            r.manifest matches Some(m) ==> m == (ForgetManifest {
                observations: self@.counts[0],
                relations: self@.counts[1],
                code_anchors: self@.counts[2],
                scopes: self@.counts[3],
                tiers: self@.counts[4],
            }),
            r.forget_log_id == self.log_id,
    {
        ForgetReport {
            target_type: String::from_str(self.target.label()),
            target_id: self.target_id,
            cascade: self.cascade,
            rows_affected: self.rows,
            manifest: self.manifest(),
            forget_log_id: self.log_id,
        }
    }

    /// Whether the rows that an answer adds up to fit their counter.
    pub fn can_count(&self, reply: &Reply) -> (b: bool)
        ensures
            b == self@.countable(reply@),
    {
        match (self.stage, reply) {
            (ForgetStage::Removing, Reply::Affected(n)) => {
                if *n > i64::MAX as u64 {
                    proof {
                        if self@.countable(reply@) {
                            lemma_row_sums(self.counts@, 0);
                            assert(self.counts@.take(0) =~= seq![]);
                        }
                    }
                    return false;
                }
                let mut rows: i64 = *n as i64;
                let mut i: usize = 0;
                assert(self.counts@.take(0) =~= seq![]);
                while i < self.counts.len()
                    invariant
                        i <= self.counts.len(),
                        self.stage is Removing,
                        reply@ == ReplyView::Affected(*n),
                        0 <= rows,
                        rows == *n + sum_rows(self.counts@.take(i as int)),
                        forall|j: int| 0 <= j < i ==> #[trigger] self.counts@[j] >= 0,
                    decreases self.counts.len() - i,
                {
                    let c: i64 = self.counts[i];
                    assert(self.counts@.take(i + 1).drop_last() =~= self.counts@.take(i as int));
                    if c < 0 || c > i64::MAX - rows {
                        proof {
                            if self@.countable(reply@) {
                                lemma_row_sums(self.counts@, i + 1);
                            }
                        }
                        return false;
                    }
                    rows = rows + c;
                    i = i + 1;
                }
                assert(self.counts@.take(i as int) =~= self.counts@);
                true
            },
            _ => true,
        }
    }
}

/// Whatever the database answers, a row is removed before the log entry is
/// written, and the commit follows the log entry; nothing else is sent after
/// the removal.
pub proof fn law_forgetting_is_logged(v: ForgettingView, reply: ReplyView)
    requires
        v.wf(),
        fits(v.awaiting(), reply),
    ensures
        v.next(reply).0.wf(),
        awaited(v.next(reply).1) == v.next(reply).0.awaiting(),
        v.next(reply).1 is Commit <==> v.stage is Logging,
        v.stage is Removing ==> v.next(reply).1 == ActionView::Run(v.next(reply).0.log_entry()),
{
}

/// A soft deletion touches nothing but its target: the reported rows are
/// those that the single update touched.
pub proof fn law_soft_forget_counts_one_update(v: ForgettingView, n: u64)
    requires
        v.wf(),
        v.stage is Removing,
        !v.cascade,
    ensures
        v.next(ReplyView::Affected(n)).0.rows == n,
{
}

pub const FIND_SCOPE_SQL: &'static str = "SELECT id FROM memory_scope
         WHERE user_id IS NOT DISTINCT FROM $1
           AND agent_id IS NOT DISTINCT FROM $2
           AND session_id IS NOT DISTINCT FROM $3
           AND project_id IS NOT DISTINCT FROM $4
         LIMIT 1";

pub const INSERT_SCOPE_SQL: &'static str = "INSERT INTO memory_scope (user_id, agent_id, session_id, project_id)
         VALUES ($1, $2, $3, $4)
         RETURNING id";

/// A scope: each dimension may be left open. The session is supplied by the
/// caller.
#[derive(Debug, Clone)]
pub struct ScopeSpec {
    pub user_id: Option<String>,
    pub agent_id: Option<String>,
    pub project_id: Option<i32>,
}

impl Default for ScopeSpec {
    fn default() -> (r: ScopeSpec)
        ensures
            r == (ScopeSpec { user_id: None, agent_id: None, project_id: None }),
    {
        ScopeSpec { user_id: None, agent_id: None, project_id: None }
    }
}

fn scope_binds(st: Statement, scope: &ScopeSpec) -> (r: Statement)
    ensures
        r@ == (StatementView {
            binds: st@.binds + scope_arguments(*scope),
            ..st@
        }),
{
    let u: Option<&str> = match &scope.user_id {
        Some(s) => Some(s.as_str()),
        None => None,
    };
    let a: Option<&str> = match &scope.agent_id {
        Some(s) => Some(s.as_str()),
        None => None,
    };
    let r = st.opt_text(u).opt_text(a).supplied(0).opt_int4(scope.project_id);
    assert(r@.binds =~= st@.binds + scope_arguments(*scope));
    r
}

/// The arguments that identify a scope; the caller supplies the session.
pub open spec fn scope_arguments(scope: ScopeSpec) -> Seq<BindView> {
    seq![
        BindView::OptText(crate::statement::opt_text(scope.user_id)),
        BindView::OptText(crate::statement::opt_text(scope.agent_id)),
        BindView::Supplied(0),
        BindView::OptInt(scope.project_id),
    ]
}

/// Finds the scope row that matches a specification, or creates it.
pub fn find_or_create_scope(scope: &ScopeSpec) -> (r: (GetOrCreate, Action))
    ensures
        r.0.wf(),
        r.0.stage is Finding,
        r.1@ == ActionView::Run(fetches_optional(FIND_SCOPE_SQL@, scope_arguments(*scope))),
        r.0.create->0@ == fetches_one(INSERT_SCOPE_SQL@, scope_arguments(*scope)),
        awaited(r.1@) == r.0.awaiting(),
        opens(r.1@->Run_0.sql, "SELECT"@),
        takes(
            r.1@->Run_0,
            "user_id IS NOT DISTINCT FROM "@,
            BindView::OptText(crate::statement::opt_text(scope.user_id)),
        ),
        takes(
            r.1@->Run_0,
            "agent_id IS NOT DISTINCT FROM "@,
            BindView::OptText(crate::statement::opt_text(scope.agent_id)),
        ),
        takes(r.1@->Run_0, "session_id IS NOT DISTINCT FROM "@, BindView::Supplied(0)),
        takes(r.1@->Run_0, "project_id IS NOT DISTINCT FROM "@, BindView::OptInt(scope.project_id)),
        says(r.1@->Run_0.sql, "FROM memory_scope"@),
        opens(r.0.create->0@.sql, "INSERT INTO memory_scope"@),
        fills(
            r.0.create->0@,
            "INSERT INTO memory_scope"@,
            "user_id"@,
            "VALUES ("@,
            BindView::OptText(crate::statement::opt_text(scope.user_id)),
        ),
        fills(
            r.0.create->0@,
            "INSERT INTO memory_scope"@,
            "agent_id"@,
            "VALUES ("@,
            BindView::OptText(crate::statement::opt_text(scope.agent_id)),
        ),
        fills(
            r.0.create->0@,
            "INSERT INTO memory_scope"@,
            "session_id"@,
            "VALUES ("@,
            BindView::Supplied(0),
        ),
        fills(
            r.0.create->0@,
            "INSERT INTO memory_scope"@,
            "project_id"@,
            "VALUES ("@,
            BindView::OptInt(scope.project_id),
        ),
{
    let find = scope_binds(Statement::optional(FIND_SCOPE_SQL), scope);
    let create = scope_binds(Statement::one(INSERT_SCOPE_SQL), scope);
    assert(find@ =~= fetches_optional(FIND_SCOPE_SQL@, scope_arguments(*scope)));
    assert(create@ =~= fetches_one(INSERT_SCOPE_SQL@, scope_arguments(*scope)));
    assert(find@.fetch == Fetch::Optional && create@.fetch == Fetch::One);
    proof {
        find_scope_text();
        insert_scope_text();
        assert(find@.sql == FIND_SCOPE_SQL@);
        assert(create@.sql == INSERT_SCOPE_SQL@);
    }
    GetOrCreate::start(find, create)
}

pub const FIND_AUTO_ENTITY_SQL: &'static str = "SELECT id FROM memory_entities
         WHERE name = $1 AND entity_type = $2 AND valid_to IS NULL
         LIMIT 1";

pub const INSERT_AUTO_ENTITY_SQL: &'static str = "INSERT INTO memory_entities (name, entity_type, importance, source)
         VALUES ($1, $2, 0.5, 'auto_index'::memory_source)
         RETURNING id";

/// Uses the active entity with this identity as it is, or inserts one that
/// is marked as indexed automatically.
pub fn memory_upsert_auto_entity(name: &str, entity_type: &str) -> (r: (GetOrCreate, Action))
    ensures
        r.0.wf(),
        r.0.stage is Finding,
        r.1@ == ActionView::Run(
            fetches_optional(
                FIND_AUTO_ENTITY_SQL@,
                seq![BindView::Text(name@), BindView::Text(entity_type@)],
            ),
        ),
        r.0.create->0@ == fetches_one(
            INSERT_AUTO_ENTITY_SQL@,
            seq![BindView::Text(name@), BindView::Text(entity_type@)],
        ),
        awaited(r.1@) == r.0.awaiting(),
        opens(r.1@->Run_0.sql, "SELECT"@),
        takes(r.1@->Run_0, "name = "@, BindView::Text(name@)),
        takes(r.1@->Run_0, "entity_type = "@, BindView::Text(entity_type@)),
        says(r.1@->Run_0.sql, "FROM memory_entities"@),
        opens(r.0.create->0@.sql, "INSERT INTO memory_entities"@),
        fills(
            r.0.create->0@,
            "INSERT INTO memory_entities"@,
            "name"@,
            "VALUES ("@,
            BindView::Text(name@),
        ),
        fills(
            r.0.create->0@,
            "INSERT INTO memory_entities"@,
            "entity_type"@,
            "VALUES ("@,
            BindView::Text(entity_type@),
        ),
{
    let find = Statement::optional(FIND_AUTO_ENTITY_SQL).text(name).text(entity_type);
    let create = Statement::one(INSERT_AUTO_ENTITY_SQL).text(name).text(entity_type);
    assert(find@.fetch == Fetch::Optional && create@.fetch == Fetch::One);
    assert(find@ =~= fetches_optional(
        FIND_AUTO_ENTITY_SQL@,
        seq![BindView::Text(name@), BindView::Text(entity_type@)],
    ));
    assert(create@ =~= fetches_one(
        INSERT_AUTO_ENTITY_SQL@,
        seq![BindView::Text(name@), BindView::Text(entity_type@)],
    ));
    proof {
        find_auto_entity_text();
        insert_auto_entity_text();
        assert(find@.sql == FIND_AUTO_ENTITY_SQL@);
        assert(create@.sql == INSERT_AUTO_ENTITY_SQL@);
    }
    GetOrCreate::start(find, create)
}

pub const MEMORY_DELETE_ENTITIES_SQL: &'static str = "UPDATE memory_entities
            SET valid_to = NOW()
          WHERE name = ANY($1) AND valid_to IS NULL";

/// Ends the validity of the active entities with the given names. No names:
/// nothing to send, and no row is touched.
pub fn memory_delete_entities(names: &[String]) -> (r: Option<Statement>)
    ensures
        r is None <==> names.len() == 0,
        r matches Some(st) ==> st@ == executes(
            MEMORY_DELETE_ENTITIES_SQL@,
            seq![BindView::TextArray(texts(names@))],
        ),
        r matches Some(st) ==> opens(st@.sql, "UPDATE memory_entities"@),
        r matches Some(st) ==> takes(st@, "name = ANY("@, BindView::TextArray(texts(names@))),
{
    proof {
        memory_delete_entities_text();
    }
    if names.len() == 0 {
        None
    } else {
        let st = Statement::execute(MEMORY_DELETE_ENTITIES_SQL).texts(names);
        assert(st@.sql == MEMORY_DELETE_ENTITIES_SQL@);
        Some(st)
    }
}

pub const CONCEPT_SEED_TOPICS_SQL: &'static str = "SELECT id, label FROM code_topics
         WHERE chunk_count >= $1 AND label IS NOT NULL AND btrim(label) <> ''
         ORDER BY chunk_count DESC
         LIMIT $2";

/// Candidate topics for concepts: labelled topics with at least `min_chunks`
/// member chunks, most populous first.
pub fn concept_seed_topics(min_chunks: i64, limit: i64) -> (st: Statement)
    ensures
        st@ == fetches_all(
            CONCEPT_SEED_TOPICS_SQL@,
            seq![
                BindView::BigInt(min_chunks),
                BindView::BigInt(limit),
            ],
        ),
        opens(st@.sql, "SELECT"@),
        takes(st@, "chunk_count >= "@, BindView::BigInt(min_chunks)),
        takes(st@, "LIMIT "@, BindView::BigInt(limit)),
        says(st@.sql, "ORDER BY chunk_count DESC"@),
        says(st@.sql, "FROM code_topics"@),
{
    proof {
        concept_seed_topics_text();
    }
    let st = Statement::all(CONCEPT_SEED_TOPICS_SQL).int8(min_chunks).int8(limit);
    assert(st@.sql == CONCEPT_SEED_TOPICS_SQL@);
    st
}

/// The expired entities that may be erased: those that supersede no other and
/// hold no best practice.
pub const PURGEABLE_ENTITIES: &'static str = "memory_entities
         WHERE valid_to IS NOT NULL
           AND valid_to < NOW() - ($1::int * interval '1 day')
           AND importance < $2
           AND id NOT IN (
               SELECT superseded_by FROM memory_entities
               WHERE superseded_by IS NOT NULL
           )
           -- G2: never purge promoted best practices (procedural/reflective tier).
           AND id NOT IN (
               SELECT entity_id FROM memory_entity_tier
               WHERE tier IN ('procedural','reflective')
           )";

/// The expired observations that may be erased: those that supersede no
/// other, belong to no best practice and are linked to no outcome.
pub const PURGEABLE_OBSERVATIONS: &'static str = "memory_observations
         WHERE valid_to IS NOT NULL
           AND valid_to < NOW() - ($1::int * interval '1 day')
           AND importance < $2
           AND id NOT IN (
               SELECT superseded_by FROM memory_observations
               WHERE superseded_by IS NOT NULL
           )
           -- G2: never purge best-practice observations or outcome-linked rows.
           AND entity_id NOT IN (
               SELECT entity_id FROM memory_entity_tier
               WHERE tier IN ('procedural','reflective')
           )
           AND id NOT IN (
               SELECT observation_id FROM agent_outcomes
               WHERE observation_id IS NOT NULL
           )";

/// The expired relations that may be erased: those that supersede no other.
pub const PURGEABLE_RELATIONS: &'static str = "memory_relations
         WHERE valid_to IS NOT NULL
           AND valid_to < NOW() - ($1::int * interval '1 day')
           AND importance < $2
           AND id NOT IN (
               SELECT superseded_by FROM memory_relations
               WHERE superseded_by IS NOT NULL
           )";

/// The rows that a retention pass is about, one text per table: the table and
/// the condition.
pub open spec fn purgeable() -> Seq<Seq<char>> {
    seq![PURGEABLE_ENTITIES@, PURGEABLE_OBSERVATIONS@, PURGEABLE_RELATIONS@]
}

/// Counting the rows that expired `window_days` ago and may be erased.
pub open spec fn counts_expired(rows: Seq<char>, window_days: i64) -> StatementView {
    fetches_one(
        "SELECT COUNT(*) FROM "@ + rows,
        seq![BindView::Int(window_days as i32), BindView::Supplied(0)],
    )
}

fn count_expired(rows: &str, window_days: i64) -> (st: Statement)
    ensures
        st@ == counts_expired(rows@, window_days),
{
    let mut sql = String::from_str("SELECT COUNT(*) FROM ");
    sql.append(rows);
    Statement::one(sql.as_str()).int4(window_days as i32).supplied(0)
}

/// The counts of the entities, observations and relations that a purge with the
/// same window would erase. The caller supplies value 0, the importance
/// threshold.
pub fn memory_retention_dry_run(window_days: i64) -> (r: Vec<Statement>)
    ensures
        statement_views(r@) == purgeable().map_values(
            |rows: Seq<char>| counts_expired(rows, window_days),
        ),
{
    let r: Vec<Statement> = vec![
        count_expired(PURGEABLE_ENTITIES, window_days),
        count_expired(PURGEABLE_OBSERVATIONS, window_days),
        count_expired(PURGEABLE_RELATIONS, window_days),
    ];
    assert(statement_views(r@) =~= purgeable().map_values(
        |rows: Seq<char>| counts_expired(rows, window_days),
    ));
    r
}

/// Erasing the rows that expired `window_days` ago and may be erased.
pub open spec fn purges_expired(rows: Seq<char>, window_days: i64) -> StatementView {
    executes(
        "DELETE FROM "@ + rows,
        seq![BindView::Int(window_days as i32), BindView::Supplied(0)],
    )
}

fn purge_expired(rows: &str, window_days: i64) -> (st: Statement)
    ensures
        st@ == purges_expired(rows@, window_days),
{
    let mut sql = String::from_str("DELETE FROM ");
    sql.append(rows);
    Statement::execute(sql.as_str()).int4(window_days as i32).supplied(0)
}

/// Erases expired entities, observations and relations past the retention
/// window and below the importance threshold, in that order, to be run as a
/// batch. The caller supplies value 0, the importance threshold.
pub fn memory_retention_purge(window_days: i64) -> (r: Vec<Statement>)
    ensures
        statement_views(r@) == purgeable().map_values(
            |rows: Seq<char>| purges_expired(rows, window_days),
        ),
{
    let r: Vec<Statement> = vec![
        purge_expired(PURGEABLE_ENTITIES, window_days),
        purge_expired(PURGEABLE_OBSERVATIONS, window_days),
        purge_expired(PURGEABLE_RELATIONS, window_days),
    ];
    assert(statement_views(r@) =~= purgeable().map_values(
        |rows: Seq<char>| purges_expired(rows, window_days),
    ));
    r
}

/// A dry run counts what a purge with the same arguments erases: table by
/// table, the two statements select the same rows by the same arguments.
pub proof fn law_dry_run_counts_what_is_purged(window_days: i64, i: int)
    requires
        0 <= i < purgeable().len(),
    ensures
        ({
            let counted = purgeable().map_values(
                |rows: Seq<char>| counts_expired(rows, window_days),
            );
            let purged = purgeable().map_values(|rows: Seq<char>| purges_expired(rows, window_days));
            &&& counted.len() == purged.len()
            &&& counted[i].sql.skip("SELECT COUNT(*) FROM "@.len() as int) == purged[i].sql.skip(
                "DELETE FROM "@.len() as int,
            )
            &&& counted[i].binds == purged[i].binds
        }),
{
    let rows = purgeable()[i];
    let count = "SELECT COUNT(*) FROM "@;
    let purge = "DELETE FROM "@;
    assert((count + rows).skip(count.len() as int) =~= rows);
    assert((purge + rows).skip(purge.len() as int) =~= rows);
}

/// Counts of rows that break an integrity rule of the memory graph; a clean
/// graph has zeros.
#[derive(Debug, Clone, Copy, PartialEq, Eq, Structural)]
pub struct MemoryEvalReport {
    /// Rows whose validity ends before it starts.
    pub entities_temporal_invalid: i64,
    pub observations_temporal_invalid: i64,
    pub relations_temporal_invalid: i64,
    /// Rows whose chain of supersessions comes back to them.
    pub entity_supersede_cycles: i64,
    pub observation_supersede_cycles: i64,
    pub relation_supersede_cycles: i64,
    /// Observations without an entity.
    pub orphan_observations: i64,
    /// Reflections with a source that is gone.
    pub reflection_derived_from_missing: i64,
    /// Code anchors whose target is gone.
    pub stale_code_anchors: i64,
    /// Logged deletions whose target is still active.
    pub forget_log_dangling: i64,
    pub rows_examined: i64,
}

impl Default for MemoryEvalReport {
    fn default() -> (r: MemoryEvalReport)
        ensures
            r == (MemoryEvalReport {
                entities_temporal_invalid: 0,
                observations_temporal_invalid: 0,
                relations_temporal_invalid: 0,
                entity_supersede_cycles: 0,
                observation_supersede_cycles: 0,
                relation_supersede_cycles: 0,
                orphan_observations: 0,
                reflection_derived_from_missing: 0,
                stale_code_anchors: 0,
                forget_log_dangling: 0,
                rows_examined: 0,
            }),
    {
        MemoryEvalReport {
            entities_temporal_invalid: 0,
            observations_temporal_invalid: 0,
            relations_temporal_invalid: 0,
            entity_supersede_cycles: 0,
            observation_supersede_cycles: 0,
            relation_supersede_cycles: 0,
            orphan_observations: 0,
            reflection_derived_from_missing: 0,
            stale_code_anchors: 0,
            forget_log_dangling: 0,
            rows_examined: 0,
        }
    }
}

pub const EVAL_ENTITIES_TEMPORAL_INVALID_SQL: &'static str = "SELECT COUNT(*) FROM (
           SELECT 1 FROM memory_entities
            WHERE valid_to IS NOT NULL AND valid_to <= valid_from
            LIMIT $1
         ) sub";

pub const EVAL_OBSERVATIONS_TEMPORAL_INVALID_SQL: &'static str = "SELECT COUNT(*) FROM (
           SELECT 1 FROM memory_observations
            WHERE valid_to IS NOT NULL AND valid_to <= valid_from
            LIMIT $1
         ) sub";

pub const EVAL_RELATIONS_TEMPORAL_INVALID_SQL: &'static str = "SELECT COUNT(*) FROM (
           SELECT 1 FROM memory_relations
            WHERE valid_to IS NOT NULL AND valid_to <= valid_from
            LIMIT $1
         ) sub";

pub const EVAL_ENTITY_SUPERSEDE_CYCLES_SQL: &'static str = "SELECT COUNT(*) FROM (
           WITH RECURSIVE walk AS (
             SELECT id AS root, superseded_by AS next, 1 AS depth
               FROM memory_entities WHERE superseded_by IS NOT NULL
             UNION ALL
             SELECT w.root, e.superseded_by, w.depth + 1
               FROM walk w
               JOIN memory_entities e ON e.id = w.next
              WHERE w.next IS NOT NULL AND w.depth < 32
           )
           SELECT DISTINCT root FROM walk WHERE next = root LIMIT $1
         ) sub";

pub const EVAL_OBSERVATION_SUPERSEDE_CYCLES_SQL: &'static str = "SELECT COUNT(*) FROM (
           WITH RECURSIVE walk AS (
             SELECT id AS root, superseded_by AS next, 1 AS depth
               FROM memory_observations WHERE superseded_by IS NOT NULL
             UNION ALL
             SELECT w.root, o.superseded_by, w.depth + 1
               FROM walk w
               JOIN memory_observations o ON o.id = w.next
              WHERE w.next IS NOT NULL AND w.depth < 32
           )
           SELECT DISTINCT root FROM walk WHERE next = root LIMIT $1
         ) sub";

pub const EVAL_RELATION_SUPERSEDE_CYCLES_SQL: &'static str = "SELECT COUNT(*) FROM (
           WITH RECURSIVE walk AS (
             SELECT id AS root, superseded_by AS next, 1 AS depth
               FROM memory_relations WHERE superseded_by IS NOT NULL
             UNION ALL
             SELECT w.root, rel.superseded_by, w.depth + 1
               FROM walk w
               JOIN memory_relations rel ON rel.id = w.next
              WHERE w.next IS NOT NULL AND w.depth < 32
           )
           SELECT DISTINCT root FROM walk WHERE next = root LIMIT $1
         ) sub";

pub const EVAL_ORPHAN_OBSERVATIONS_SQL: &'static str = "SELECT COUNT(*) FROM (
           SELECT 1 FROM memory_observations o
            LEFT JOIN memory_entities e ON e.id = o.entity_id
            WHERE e.id IS NULL
            LIMIT $1
         ) sub";

pub const EVAL_REFLECTION_DERIVED_FROM_MISSING_SQL: &'static str = "SELECT COUNT(*) FROM (
           SELECT o.id FROM memory_observations o
            WHERE o.source = 'reflection'
              AND o.derived_from IS NOT NULL
              AND EXISTS (
                SELECT 1 FROM UNNEST(o.derived_from) AS d(id)
                 WHERE NOT EXISTS (
                   SELECT 1 FROM memory_observations src WHERE src.id = d.id
                 )
              )
            LIMIT $1
         ) sub";

pub const EVAL_STALE_CODE_ANCHORS_SQL: &'static str = "SELECT COUNT(*) FROM (
           SELECT a.id
             FROM memory_code_anchor a
             LEFT JOIN indexed_files f ON f.id = a.file_id
             LEFT JOIN file_chunks   c ON c.id = a.chunk_id
             LEFT JOIN code_topics   t ON t.id = a.topic_id
            WHERE (a.file_id  IS NOT NULL AND f.id IS NULL)
               OR (a.chunk_id IS NOT NULL AND c.id IS NULL)
               OR (a.topic_id IS NOT NULL AND t.id IS NULL)
            LIMIT $1
         ) sub";

pub const EVAL_FORGET_LOG_DANGLING_SQL: &'static str = "SELECT COUNT(*) FROM (
           SELECT fl.id
             FROM memory_forget_log fl
            WHERE (
                   (fl.target_type = 'entity' AND EXISTS (
                       SELECT 1 FROM memory_entities e
                        WHERE e.id = fl.target_id AND e.valid_to IS NULL
                   ))
                OR (fl.target_type = 'observation' AND EXISTS (
                       SELECT 1 FROM memory_observations o
                        WHERE o.id = fl.target_id AND o.valid_to IS NULL
                   ))
                OR (fl.target_type = 'relation' AND EXISTS (
                       SELECT 1 FROM memory_relations rel
                        WHERE rel.id = fl.target_id AND rel.valid_to IS NULL
                   ))
              )
            LIMIT $1
         ) sub";

/// The texts of the integrity queries, in the order of the report's fields.
pub open spec fn eval_queries() -> Seq<Seq<char>> {
    seq![
        EVAL_ENTITIES_TEMPORAL_INVALID_SQL@,
        EVAL_OBSERVATIONS_TEMPORAL_INVALID_SQL@,
        EVAL_RELATIONS_TEMPORAL_INVALID_SQL@,
        EVAL_ENTITY_SUPERSEDE_CYCLES_SQL@,
        EVAL_OBSERVATION_SUPERSEDE_CYCLES_SQL@,
        EVAL_RELATION_SUPERSEDE_CYCLES_SQL@,
        EVAL_ORPHAN_OBSERVATIONS_SQL@,
        EVAL_REFLECTION_DERIVED_FROM_MISSING_SQL@,
        EVAL_STALE_CODE_ANCHORS_SQL@,
        EVAL_FORGET_LOG_DANGLING_SQL@,
    ]
}

/// The ten integrity queries, each counting at most `row_cap` rows.
pub fn memory_eval_invariants(row_cap: i64) -> (r: Vec<Statement>)
    ensures
        statement_views(r@) == eval_queries().map_values(
            |q: Seq<char>| fetches_one(q, seq![BindView::BigInt(row_cap)]),
        ),
{
    let mut out: Vec<Statement> = Vec::new();
    out.push(Statement::one(EVAL_ENTITIES_TEMPORAL_INVALID_SQL).int8(row_cap));
    out.push(Statement::one(EVAL_OBSERVATIONS_TEMPORAL_INVALID_SQL).int8(row_cap));
    out.push(Statement::one(EVAL_RELATIONS_TEMPORAL_INVALID_SQL).int8(row_cap));
    out.push(Statement::one(EVAL_ENTITY_SUPERSEDE_CYCLES_SQL).int8(row_cap));
    out.push(Statement::one(EVAL_OBSERVATION_SUPERSEDE_CYCLES_SQL).int8(row_cap));
    out.push(Statement::one(EVAL_RELATION_SUPERSEDE_CYCLES_SQL).int8(row_cap));
    out.push(Statement::one(EVAL_ORPHAN_OBSERVATIONS_SQL).int8(row_cap));
    out.push(Statement::one(EVAL_REFLECTION_DERIVED_FROM_MISSING_SQL).int8(row_cap));
    out.push(Statement::one(EVAL_STALE_CODE_ANCHORS_SQL).int8(row_cap));
    out.push(Statement::one(EVAL_FORGET_LOG_DANGLING_SQL).int8(row_cap));
    assert(statement_views(out@) =~= eval_queries().map_values(
        |q: Seq<char>| fetches_one(q, seq![BindView::BigInt(row_cap)]),
    ));
    out
}

/// The report from the answers to the ten queries.
pub fn memory_eval_report(row_cap: i64, counts: &[i64]) -> (r: MemoryEvalReport)
    requires
        counts.len() == 10,
    ensures
        r == (MemoryEvalReport {
            entities_temporal_invalid: counts@[0],
            observations_temporal_invalid: counts@[1],
            relations_temporal_invalid: counts@[2],
            entity_supersede_cycles: counts@[3],
            observation_supersede_cycles: counts@[4],
            relation_supersede_cycles: counts@[5],
            orphan_observations: counts@[6],
            reflection_derived_from_missing: counts@[7],
            stale_code_anchors: counts@[8],
            forget_log_dangling: counts@[9],
            rows_examined: row_cap,
        }),
{
    MemoryEvalReport {
        entities_temporal_invalid: counts[0],
        observations_temporal_invalid: counts[1],
        relations_temporal_invalid: counts[2],
        entity_supersede_cycles: counts[3],
        observation_supersede_cycles: counts[4],
        relation_supersede_cycles: counts[5],
        orphan_observations: counts[6],
        reflection_derived_from_missing: counts[7],
        stale_code_anchors: counts[8],
        forget_log_dangling: counts[9],
        rows_examined: row_cap,
    }
}

pub const RECORD_MEMORY_EVAL_REPORT_SQL: &'static str = "INSERT INTO pgmcp_metadata (key, value) VALUES ('memory_eval_last_report', $1)
         ON CONFLICT (key) DO UPDATE SET value = EXCLUDED.value";

/// Stores the last integrity report. The caller supplies value 0, the report
/// and the time as JSON text.
pub fn record_memory_eval_report() -> (st: Statement)
    ensures
        st@ == executes(RECORD_MEMORY_EVAL_REPORT_SQL@, seq![BindView::Supplied(0)]),
        opens(st@.sql, "INSERT INTO pgmcp_metadata"@),
        fills(st@, "INSERT INTO pgmcp_metadata"@, "value"@, "VALUES ("@, BindView::Supplied(0)),
        says(st@.sql, "ON CONFLICT (key) DO UPDATE SET value = EXCLUDED.value"@),
{
    proof {
        record_memory_eval_report_text();
    }
    let st = Statement::execute(RECORD_MEMORY_EVAL_REPORT_SQL).supplied(0);
    assert(st@.sql == RECORD_MEMORY_EVAL_REPORT_SQL@);
    st
}

} // verus!
