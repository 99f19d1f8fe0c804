//! Observations of the memory graph: writing them once each, and deleting
//! them by text.
use vstd::prelude::*;

use crate::digest::{sha256_hex, text_sha256};
use crate::meaning::{fills, opens, takes};
use crate::order::{sort_ids, sorted_ids};
use crate::protocol::{awaited, fits, room, Action, ActionView, Awaiting, Reply, ReplyView};
use crate::queries::memory_locks::{lock_key, lock_memory_entity_observations, takes_lock};
use crate::queries::texts::memory_observations::{
    law_finds_observation_stands_for_its_values, law_inserts_observation_stands_for_its_values,
};
use crate::statement::{
    executes, fetches_all, fetches_optional, texts, BindView, Statement, StatementView,
};
use crate::text::{decimal_text, unsigned_decimal};

use vstd::utf8::encode_utf8;

verus! {

pub const FIND_ACTIVE_OBSERVATION_SQL: &'static str = "SELECT id FROM memory_observations
         WHERE entity_id = $1
           AND content_sha256 = $2
           AND valid_to IS NULL
         LIMIT 1";

pub const INSERT_ACTIVE_OBSERVATION_SQL: &'static str = "INSERT INTO memory_observations
            (entity_id, content, content_sha256, source)
         VALUES ($1, $2, $3, $4::memory_source)
         ON CONFLICT DO NOTHING
         RETURNING id";

pub const ACTIVE_ENTITIES_BY_NAME_SQL: &'static str = "SELECT id FROM memory_entities
             WHERE name = $1 AND valid_to IS NULL
             ORDER BY id";

/// The digest under which an observation is stored.
pub fn observation_sha256(content: &str) -> (r: String)
    ensures
        r@ == sha256_hex(encode_utf8(content@)),
{
    text_sha256(content)
}

/// An observation to write: the entity it belongs to and its text.
#[derive(Debug)]
pub struct PendingObservation {
    pub entity_id: i64,
    pub content: String,
}

/// An observation to write, as a mathematical value.
pub struct PendingView {
    pub entity_id: i64,
    pub content: Seq<char>,
}

impl View for PendingObservation {
    type V = PendingView;

    open spec fn view(&self) -> PendingView {
        PendingView { entity_id: self.entity_id, content: self.content@ }
    }
}

/// Every field of the model stands for the field of the same name.
pub proof fn law_pending_observation_is_modelled_by_its_fields(observation: PendingObservation)
    ensures
        observation@.entity_id == observation.entity_id,
        observation@.content == observation.content@,
{
}

/// The values of a list of observations to write.
pub open spec fn pending_views(v: Seq<PendingObservation>) -> Seq<PendingView> {
    v.map_values(|p: PendingObservation| p@)
}

/// The entities that some observations belong to, in the order of the list.
pub open spec fn owners(p: Seq<PendingView>) -> Seq<i64> {
    p.map_values(|x: PendingView| x.entity_id)
}

/// Looking for an active observation with the same text.
pub open spec fn finds_observation(p: PendingView) -> StatementView {
    fetches_optional(
        FIND_ACTIVE_OBSERVATION_SQL@,
        seq![
            BindView::BigInt(p.entity_id),
            BindView::Text(sha256_hex(encode_utf8(p.content))),
        ],
    )
}

/// Writing an observation unless a concurrent writer did.
pub open spec fn inserts_observation(p: PendingView, source: Seq<char>) -> StatementView {
    fetches_optional(
        INSERT_ACTIVE_OBSERVATION_SQL@,
        seq![
            BindView::BigInt(p.entity_id),
            BindView::Text(p.content),
            BindView::Text(sha256_hex(encode_utf8(p.content))),
            BindView::Text(source),
        ],
    )
}

/// Looks for an active observation with the same text.
pub fn find_active_observation(entity_id: i64, content: &str) -> (st: Statement)
    ensures
        st@ == finds_observation(PendingView { entity_id, content: content@ }),
        opens(st@.sql, "SELECT"@),
        takes(
            st@,
            "entity_id = "@,
            BindView::BigInt(PendingView { entity_id, content: content@ }.entity_id),
        ),
        takes(
            st@,
            "content_sha256 = "@,
            BindView::Text(sha256_hex(encode_utf8(PendingView { entity_id, content: content@ }.content))),
        ),
{
    proof {
        law_finds_observation_stands_for_its_values(PendingView { entity_id, content: content@ });
    }
    let sha = observation_sha256(content);
    Statement::optional(FIND_ACTIVE_OBSERVATION_SQL).int8(entity_id).text(sha.as_str())
}

/// Writes an observation unless a concurrent writer did.
pub fn insert_active_observation(entity_id: i64, content: &str, source: &str) -> (st: Statement)
    ensures
        st@ == inserts_observation(PendingView { entity_id, content: content@ }, source@),
        opens(st@.sql, "INSERT INTO memory_observations"@),
        fills(
            st@,
            "INSERT INTO memory_observations"@,
            "entity_id"@,
            "VALUES ("@,
            BindView::BigInt(PendingView { entity_id, content: content@ }.entity_id),
        ),
        fills(
            st@,
            "INSERT INTO memory_observations"@,
            "content"@,
            "VALUES ("@,
            BindView::Text(PendingView { entity_id, content: content@ }.content),
        ),
        fills(
            st@,
            "INSERT INTO memory_observations"@,
            "content_sha256"@,
            "VALUES ("@,
            BindView::Text(sha256_hex(encode_utf8(PendingView { entity_id, content: content@ }.content))),
        ),
        fills(
            st@,
            "INSERT INTO memory_observations"@,
            "source"@,
            "VALUES ("@,
            BindView::Text(source@),
        ),
{
    proof {
        law_inserts_observation_stands_for_its_values(
            PendingView { entity_id, content: content@ },
            source@,
        );
    }
    let sha = observation_sha256(content);
    Statement::optional(INSERT_ACTIVE_OBSERVATION_SQL)
        .int8(entity_id)
        .text(content)
        .text(sha.as_str())
        .text(source)
}

/// Locking the observations of an entity.
pub open spec fn locks_observations(entity_id: i64) -> StatementView {
    takes_lock(
        lock_key(
            encode_utf8("memory:entity-observations:"@),
            seq![decimal_text(entity_id as int)],
        ),
    )
}

/// Where the writing of a list of observations stands.
#[derive(Debug, Clone, Copy, PartialEq, Eq, Structural)]
pub enum WriterStage {
    Locking,
    Finding,
    Inserting,
    Finished,
}

/// Writes a list of observations, each unless the entity already has an
/// active one with the same text: first the lock of every owning entity, in
/// increasing order, then each observation in turn.
#[derive(Debug)]
pub struct ObservationWriter {
    pub source: String,
    pub pending: Vec<PendingObservation>,
    pub locks: Vec<i64>,
    pub stage: WriterStage,
    pub at: usize,
    /// Ids of the observations written so far.
    pub written: Vec<i64>,
}

/// The state of an [`ObservationWriter`], as a mathematical value.
#[verifier::ext_equal]
pub struct WriterView {
    pub source: Seq<char>,
    pub pending: Seq<PendingView>,
    pub locks: Seq<i64>,
    pub stage: WriterStage,
    pub at: int,
    pub written: Seq<i64>,
}

impl View for ObservationWriter {
    type V = WriterView;

    open spec fn view(&self) -> WriterView {
        WriterView {
            source: self.source@,
            pending: pending_views(self.pending@),
            locks: self.locks@,
            stage: self.stage,
            at: self.at as int,
            written: self.written@,
        }
    }
}

/// Every field of the model stands for the field of the same name.
pub proof fn law_observation_writer_is_modelled_by_its_fields(writer: ObservationWriter)
    ensures
        writer@.source == writer.source@,
        writer@.pending == pending_views(writer.pending@),
        writer@.locks == writer.locks@,
        writer@.stage == writer.stage,
        writer@.at == writer.at as int,
        writer@.written == writer.written@,
{
}

impl WriterView {
    /// Continues with observation `k`.
    pub open spec fn finding(self, k: int) -> (WriterView, Option<StatementView>) {
        if k < self.pending.len() {
            (
                WriterView { stage: WriterStage::Finding, at: k, ..self },
                Some(finds_observation(self.pending[k])),
            )
        } else {
            (WriterView { stage: WriterStage::Finished, at: k, ..self }, None)
        }
    }

    /// Continues with lock `k`.
    pub open spec fn locking(self, k: int) -> (WriterView, Option<StatementView>) {
        if k < self.locks.len() {
            (
                WriterView { stage: WriterStage::Locking, at: k, ..self },
                Some(locks_observations(self.locks[k])),
            )
        } else {
            self.finding(0)
        }
    }

    /// What follows an answer.
    pub open spec fn next(self, reply: ReplyView) -> (WriterView, Option<StatementView>) {
        match (self.stage, reply) {
            (WriterStage::Locking, _) => self.locking(self.at + 1),
            (WriterStage::Finding, ReplyView::Ids(ids)) => if ids.len() > 0 {
                self.finding(self.at + 1)
            } else {
                (
                    WriterView { stage: WriterStage::Inserting, ..self },
                    Some(inserts_observation(self.pending[self.at], self.source)),
                )
            },
            (WriterStage::Inserting, ReplyView::Ids(ids)) => if ids.len() > 0 {
                (WriterView { written: self.written.push(ids[0]), ..self }).finding(self.at + 1)
            } else {
                self.finding(self.at + 1)
            },
            _ => (self, None),
        }
    }

    /// What every reachable state satisfies.
    pub open spec fn wf(self) -> bool {
        &&& self.locks == sorted_ids(owners(self.pending))
        &&& 0 <= self.at
        &&& self.stage is Locking ==> self.at < self.locks.len() && self.written.len() == 0
        &&& self.stage is Finding || self.stage is Inserting ==> self.at < self.pending.len()
        &&& self.stage is Finished ==> self.at == self.pending.len()
        &&& self.written.len() <= self.at
    }

    /// The shape of answer that is awaited.
    pub open spec fn awaiting(self) -> Awaiting {
        match self.stage {
            WriterStage::Locking => Awaiting::Affected,
            WriterStage::Finding => Awaiting::Optional,
            WriterStage::Inserting => Awaiting::Optional,
            WriterStage::Finished => Awaiting::Nothing,
        }
    }
}

/// The shape of answer that an optional statement calls for.
pub open spec fn awaited_of(s: Option<StatementView>) -> Awaiting {
    match s {
        Some(st) => awaited(ActionView::Run(st)),
        None => Awaiting::Nothing,
    }
}

/// An optional statement as a mathematical value.
pub open spec fn opt_statement(s: Option<Statement>) -> Option<StatementView> {
    match s {
        Some(st) => Some(st@),
        None => None,
    }
}

impl ObservationWriter {
    fn finding(&mut self, k: usize) -> (r: Option<Statement>)
        requires
            k <= old(self).pending.len(),
        ensures
            (final(self)@, opt_statement(r)) == old(self)@.finding(k as int),
    {
        self.at = k;
        if k < self.pending.len() {
            self.stage = WriterStage::Finding;
            let p = &self.pending[k];
            assert(pending_views(self.pending@)[k as int] == p@);
            Some(find_active_observation(p.entity_id, p.content.as_str()))
        } else {
            self.stage = WriterStage::Finished;
            None
        }
    }

    fn locking(&mut self, k: usize) -> (r: Option<Statement>)
        requires
            k <= old(self).locks.len(),
        ensures
            (final(self)@, opt_statement(r)) == old(self)@.locking(k as int),
    {
        if k < self.locks.len() {
            self.at = k;
            self.stage = WriterStage::Locking;
            Some(lock_memory_entity_observations(self.locks[k]))
        } else {
            self.finding(0)
        }
    }

    /// Starts writing; `None` means that there is nothing to write.
    pub fn start(source: &str, pending: Vec<PendingObservation>) -> (r: (
        ObservationWriter,
        Option<Statement>,
    ))
        ensures
            r.0@.wf(),
            awaited_of(opt_statement(r.1)) == r.0@.awaiting(),
            (r.0@, opt_statement(r.1)) == (WriterView {
                source: source@,
                pending: pending_views(pending@),
                locks: sorted_ids(owners(pending_views(pending@))),
                stage: WriterStage::Finished,
                at: 0,
                written: seq![],
            }).locking(0),
    {
        let mut ids: Vec<i64> = Vec::new();
        let mut i: usize = 0;
        while i < pending.len()
            invariant
                i <= pending.len(),
                ids.len() == i,
                forall|j: int| 0 <= j < i ==> ids@[j] == pending@[j].entity_id,
            decreases pending.len() - i,
        {
            ids.push(pending[i].entity_id);
            i = i + 1;
        }
        assert(ids@ =~= owners(pending_views(pending@)));
        let locks = sort_ids(&ids);
        let mut w = ObservationWriter {
            source: String::from_str(source),
            pending,
            locks,
            stage: WriterStage::Finished,
            at: 0,
            written: Vec::new(),
        };
        proof {
            crate::order::law_sorted_ids(ids@);
            if w@.pending.len() > 0 {
                assert(ids@.contains(ids@[0]));
            }
        }
        let first = w.locking(0);
        (w, first)
    }

    /// Takes the answer to the last statement and gives the next; `None`
    /// means that all is written.
    pub fn step(&mut self, reply: &Reply) -> (r: Option<Statement>)
        requires
            old(self)@.wf(),
            fits(old(self)@.awaiting(), reply@),
        ensures
            (final(self)@, opt_statement(r)) == old(self)@.next(reply@),
            final(self)@.wf(),
            awaited_of(opt_statement(r)) == final(self)@.awaiting(),
    {
        proof {
            crate::order::law_sorted_ids(owners(self@.pending));
        }
        match self.stage {
            WriterStage::Locking => {
                assert(self.at < self.locks.len());
                let k: usize = self.at + 1;
                self.locking(k)
            },
            WriterStage::Finding => {
                let found: bool = match reply {
                    Reply::Ids(ids) => ids.len() > 0,
                    _ => false,
                };
                assert(self.at < self.pending.len());
                if found {
                    let k: usize = self.at + 1;
                    self.finding(k)
                } else {
                    self.stage = WriterStage::Inserting;
                    let p = &self.pending[self.at];
                    assert(pending_views(self.pending@)[self.at as int] == p@);
                    Some(insert_active_observation(p.entity_id, p.content.as_str(), self.source.as_str()))
                }
            },
            WriterStage::Inserting => {
                match reply {
                    Reply::Ids(ids) => {
                        if ids.len() > 0 {
                            self.written.push(ids[0]);
                        }
                    },
                    _ => {},
                }
                assert(self.at < self.pending.len());
                let k: usize = self.at + 1;
                self.finding(k)
            },
            WriterStage::Finished => None,
        }
    }
}

/// Observations to append to an entity named by `entity_name`.
#[derive(Debug, Clone)]
pub struct AddObservationInput {
    pub entity_name: String,
    pub contents: Vec<String>,
}

/// Observations to delete from an entity named by `entity_name`.
#[derive(Debug, Clone)]
pub struct DeleteObservationInput {
    pub entity_name: String,
    pub observations: Vec<String>,
}

/// An entity name with some texts, as a mathematical value.
pub struct NamedTexts {
    pub name: Seq<char>,
    pub items: Seq<Seq<char>>,
}

impl View for AddObservationInput {
    type V = NamedTexts;

    open spec fn view(&self) -> NamedTexts {
        NamedTexts { name: self.entity_name@, items: texts(self.contents@) }
    }
}

/// Every field of the model stands for the field of the same name.
pub proof fn law_add_observation_input_is_modelled_by_its_fields(input: AddObservationInput)
    ensures
        input@.name == input.entity_name@,
        input@.items == texts(input.contents@),
{
}

impl View for DeleteObservationInput {
    type V = NamedTexts;

    open spec fn view(&self) -> NamedTexts {
        NamedTexts { name: self.entity_name@, items: texts(self.observations@) }
    }
}

/// Every field of the model stands for the field of the same name.
pub proof fn law_delete_observation_input_is_modelled_by_its_fields(input: DeleteObservationInput)
    ensures
        input@.name == input.entity_name@,
        input@.items == texts(input.observations@),
{
}

/// The values of a list of additions.
pub open spec fn addition_views(v: Seq<AddObservationInput>) -> Seq<NamedTexts> {
    v.map_values(|x: AddObservationInput| x@)
}

/// The values of a list of deletions.
pub open spec fn deletion_views(v: Seq<DeleteObservationInput>) -> Seq<NamedTexts> {
    v.map_values(|x: DeleteObservationInput| x@)
}

/// Texts as observations of one entity.
pub open spec fn observations_of(items: Seq<Seq<char>>, id: i64) -> Seq<PendingView> {
    items.map_values(|o: Seq<char>| PendingView { entity_id: id, content: o })
}

/// The message for an entity name that several active entities share.
pub open spec fn ambiguous_name(name: Seq<char>, rows: nat) -> Seq<char> {
    "ambiguous memory entity name '"@ + name + "' matched "@ + decimal_text(rows as int)
        + " active entities; use a unique entity name"@
}

fn ambiguous_name_message(name: &str, rows: usize) -> (r: String)
    ensures
        r@ == ambiguous_name(name@, rows as nat),
{
    let mut m = String::from_str("ambiguous memory entity name '");
    m.append(name);
    m.append("' matched ");
    m.append(unsigned_decimal(rows as u128).as_str());
    m.append(" active entities; use a unique entity name");
    m
}

/// Where the addition of observations stands.
#[derive(Debug, Clone, Copy, PartialEq, Eq, Structural)]
pub enum AdditionStage {
    Opening,
    LookingUp,
    Observing,
    Committing,
    Finished,
    Refused,
}

/// Appends observations to existing entities in one transaction. An unknown
/// name is skipped; an ambiguous one refuses the request.
#[derive(Debug)]
pub struct ObservationAddition {
    pub inputs: Vec<AddObservationInput>,
    pub source: String,
    pub stage: AdditionStage,
    pub at: usize,
    pub pending: Vec<PendingObservation>,
    pub writer: Option<ObservationWriter>,
}

/// The state of an [`ObservationAddition`], as a mathematical value.
#[verifier::ext_equal]
pub struct AdditionView {
    pub inputs: Seq<NamedTexts>,
    pub source: Seq<char>,
    pub stage: AdditionStage,
    pub at: int,
    pub pending: Seq<PendingView>,
    pub writer: Option<WriterView>,
}

impl View for ObservationAddition {
    type V = AdditionView;

    open spec fn view(&self) -> AdditionView {
        AdditionView {
            inputs: addition_views(self.inputs@),
            source: self.source@,
            stage: self.stage,
            at: self.at as int,
            pending: pending_views(self.pending@),
            writer: match self.writer {
                Some(w) => Some(w@),
                None => None,
            },
        }
    }
}

/// Every field of the model stands for the field of the same name.
pub proof fn law_observation_addition_is_modelled_by_its_fields(addition: ObservationAddition)
    ensures
        addition@.inputs == addition_views(addition.inputs@),
        addition@.source == addition.source@,
        addition@.stage == addition.stage,
        addition@.at == addition.at as int,
        addition@.pending == pending_views(addition.pending@),
        addition@.writer == (match addition.writer { Some(w) => Some(w@), None => None, }),
{
}

/// The writer of some collected observations, before its first statement.
pub open spec fn fresh_writer(source: Seq<char>, pending: Seq<PendingView>) -> WriterView {
    WriterView {
        source,
        pending,
        locks: sorted_ids(owners(pending)),
        stage: WriterStage::Finished,
        at: 0,
        written: seq![],
    }
}

impl AdditionView {
    /// Goes on with the writer, or commits when it is done.
    pub open spec fn observing(self, w: WriterView, s: Option<StatementView>) -> (
        AdditionView,
        ActionView,
    ) {
        match s {
            Some(st) => (
                AdditionView { stage: AdditionStage::Observing, writer: Some(w), ..self },
                ActionView::Run(st),
            ),
            None => (
                AdditionView { stage: AdditionStage::Committing, writer: Some(w), ..self },
                ActionView::Commit,
            ),
        }
    }

    /// Continues with input `k`.
    pub open spec fn looking(self, k: int) -> (AdditionView, ActionView) {
        if k < self.inputs.len() {
            (
                AdditionView { stage: AdditionStage::LookingUp, at: k, ..self },
                ActionView::Run(
                    fetches_all(
                        ACTIVE_ENTITIES_BY_NAME_SQL@,
                        seq![BindView::Text(self.inputs[k].name)],
                    ),
                ),
            )
        } else {
            let (w, s) = fresh_writer(self.source, self.pending).locking(0);
            (AdditionView { at: k, pending: seq![], ..self }).observing(w, s)
        }
    }

    /// What follows an answer.
    pub open spec fn next(self, reply: ReplyView) -> (AdditionView, ActionView) {
        match (self.stage, reply) {
            (AdditionStage::Opening, _) => self.looking(0),
            (AdditionStage::LookingUp, ReplyView::Ids(ids)) => if ids.len() == 0 {
                self.looking(self.at + 1)
            } else if ids.len() > 1 {
                (
                    AdditionView { stage: AdditionStage::Refused, ..self },
                    ActionView::Refuse(ambiguous_name(self.inputs[self.at].name, ids.len())),
                )
            } else {
                (AdditionView {
                    pending: self.pending + observations_of(self.inputs[self.at].items, ids[0]),
                    ..self
                }).looking(self.at + 1)
            },
            (AdditionStage::Observing, _) => {
                let (w, s) = self.writer->0.next(reply);
                self.observing(w, s)
            },
            (AdditionStage::Committing, _) => (
                AdditionView { stage: AdditionStage::Finished, ..self },
                ActionView::Done,
            ),
            _ => (self, ActionView::Done),
        }
    }

    /// What every reachable state satisfies.
    pub open spec fn wf(self) -> bool {
        &&& 0 <= self.at
        &&& self.stage is LookingUp || self.stage is Refused ==> self.at < self.inputs.len()
        &&& self.stage is Observing || self.stage is Committing || self.stage is Finished
            ==> self.writer is Some && self.writer->0.wf()
        &&& self.stage is Observing ==> !(self.writer->0.stage is Finished)
        &&& self.stage is Committing || self.stage is Finished
            ==> self.writer->0.stage is Finished
    }

    /// The shape of answer that is awaited.
    pub open spec fn awaiting(self) -> Awaiting {
        match self.stage {
            AdditionStage::Opening => Awaiting::Ready,
            AdditionStage::LookingUp => Awaiting::Many,
            AdditionStage::Observing => self.writer->0.awaiting(),
            AdditionStage::Committing => Awaiting::Ready,
            AdditionStage::Finished => Awaiting::Nothing,
            AdditionStage::Refused => Awaiting::Nothing,
        }
    }
}

/// Appends texts of one entity to a list of observations to write.
fn collect(pending: &mut Vec<PendingObservation>, items: &Vec<String>, id: i64)
    ensures
        pending_views(final(pending)@) == pending_views(old(pending)@) + observations_of(
            texts(items@),
            id,
        ),
{
    let ghost before = pending@;
    let mut j: usize = 0;
    while j < items.len()
        invariant
            j <= items.len(),
            before.len() + j == pending.len(),
            forall|i: int| 0 <= i < before.len() ==> #[trigger] pending@[i] == before[i],
            forall|i: int|
                before.len() <= i < before.len() + j ==> (#[trigger] pending@[i])@ == (
                PendingView { entity_id: id, content: items@[i - before.len()]@ }),
        decreases items.len() - j,
    {
        pending.push(PendingObservation { entity_id: id, content: items[j].clone() });
        j = j + 1;
    }
    assert(pending_views(pending@) =~= pending_views(before) + observations_of(texts(items@), id));
}

/// Prepares the addition; the first request opens the transaction.
pub fn memory_add_observations(inputs: Vec<AddObservationInput>, source: &str) -> (r: (
    ObservationAddition,
    Action,
))
    ensures
        r.0@ == (AdditionView {
            inputs: addition_views(inputs@),
            source: source@,
            stage: AdditionStage::Opening,
            at: 0,
            pending: seq![],
            writer: None,
        }),
        r.0@.wf(),
        r.1@ == ActionView::Begin,
        r.0@.inputs == addition_views(inputs@),
        r.0@.source == source@,
        r.0@.at == 0,
        r.0@.writer is None,
{
    let m = ObservationAddition {
        inputs,
        source: String::from_str(source),
        stage: AdditionStage::Opening,
        at: 0,
        pending: Vec::new(),
        writer: None,
    };
    assert(pending_views(m.pending@) =~= seq![]);
    (m, Action::Begin)
}

impl ObservationAddition {
    fn observing(&mut self, w: ObservationWriter, s: Option<Statement>) -> (r: Action)
        ensures
            (final(self)@, r@) == old(self)@.observing(w@, opt_statement(s)),
    {
        self.writer = Some(w);
        match s {
            Some(st) => {
                self.stage = AdditionStage::Observing;
                Action::Run(st)
            },
            None => {
                self.stage = AdditionStage::Committing;
                Action::Commit
            },
        }
    }

    fn looking(&mut self, k: usize) -> (r: Action)
        requires
            k <= old(self).inputs.len(),
        ensures
            (final(self)@, r@) == old(self)@.looking(k as int),
            final(self)@.wf(),
            awaited(r@) == final(self)@.awaiting(),
    {
        self.at = k;
        if k < self.inputs.len() {
            self.stage = AdditionStage::LookingUp;
            assert(self@.inputs[k as int] == self.inputs@[k as int]@);
            Action::Run(
                Statement::all(ACTIVE_ENTITIES_BY_NAME_SQL).text(
                    self.inputs[k].entity_name.as_str(),
                ),
            )
        } else {
            let mut pending: Vec<PendingObservation> = Vec::new();
            std::mem::swap(&mut pending, &mut self.pending);
            assert(pending_views(self.pending@) =~= seq![]);
            let (w, s) = ObservationWriter::start(self.source.as_str(), pending);
            self.observing(w, s)
        }
    }

    /// Takes the answer to the last request and gives the next.
    pub fn step(&mut self, reply: &Reply) -> (r: Action)
        requires
            old(self)@.wf(),
            fits(old(self)@.awaiting(), reply@),
        ensures
            (final(self)@, r@) == old(self)@.next(reply@),
            final(self)@.wf(),
            awaited(r@) == final(self)@.awaiting(),
    {
        match (self.stage, reply) {
            (AdditionStage::Opening, _) => self.looking(0),
            (AdditionStage::LookingUp, Reply::Ids(ids)) => {
                assert(self.at < self.inputs.len());
                assert(self@.inputs[self.at as int] == self.inputs@[self.at as int]@);
                let k: usize = self.at + 1;
                if ids.len() == 0 {
                    self.looking(k)
                } else if ids.len() > 1 {
                    self.stage = AdditionStage::Refused;
                    Action::Refuse(
                        ambiguous_name_message(
                            self.inputs[self.at].entity_name.as_str(),
                            ids.len(),
                        ),
                    )
                } else {
                    collect(&mut self.pending, &self.inputs[self.at].contents, ids[0]);
                    self.looking(k)
                }
            },
            (AdditionStage::Observing, _) => {
                let mut w: Option<ObservationWriter> = None;
                std::mem::swap(&mut w, &mut self.writer);
                match w {
                    Some(mut x) => {
                        let s = x.step(reply);
                        self.observing(x, s)
                    },
                    None => Action::Done,
                }
            },
            (AdditionStage::Committing, _) => {
                self.stage = AdditionStage::Finished;
                Action::Done
            },
            _ => Action::Done,
        }
    }

    /// Ids of the observations that a finished addition wrote.
    pub fn result(self) -> (r: Vec<i64>)
        requires
            self@.wf(),
            self.stage is Finished,
        ensures
            r@ == self@.writer->0.written,
            r.len() <= self@.writer->0.pending.len(),
    {
        match self.writer {
            Some(w) => w.written,
            None => Vec::new(),
        }
    }
}

pub const ACTIVE_ENTITY_BY_NAME_SQL: &'static str =
    "SELECT id FROM memory_entities WHERE name = $1 AND valid_to IS NULL LIMIT 1";

pub const DELETE_OBSERVATION_SQL: &'static str = "UPDATE memory_observations
                    SET valid_to = NOW()
                  WHERE entity_id = $1 AND content = $2 AND valid_to IS NULL";

/// Ending the validity of an entity's observations with a text.
pub open spec fn deletes_observation(entity_id: i64, content: Seq<char>) -> StatementView {
    executes(
        DELETE_OBSERVATION_SQL@,
        seq![BindView::BigInt(entity_id), BindView::Text(content)],
    )
}

/// Where the deletion of observations stands.
#[derive(Debug, Clone, Copy, PartialEq, Eq, Structural)]
pub enum DeletionStage {
    Opening,
    LookingUp,
    Deleting,
    Committing,
    Finished,
}

/// Deletes observations by text under named entities in one transaction. An
/// unknown name is skipped.
#[derive(Debug)]
pub struct ObservationDeletion {
    pub inputs: Vec<DeleteObservationInput>,
    pub stage: DeletionStage,
    pub at: usize,
    /// The text of the input at hand.
    pub item: usize,
    pub entity_id: i64,
    pub affected: u64,
}

/// The state of an [`ObservationDeletion`], as a mathematical value.
#[verifier::ext_equal]
pub struct DeletionView {
    pub inputs: Seq<NamedTexts>,
    pub stage: DeletionStage,
    pub at: int,
    pub item: int,
    pub entity_id: i64,
    pub affected: int,
}

impl View for ObservationDeletion {
    type V = DeletionView;

    open spec fn view(&self) -> DeletionView {
        DeletionView {
            inputs: deletion_views(self.inputs@),
            stage: self.stage,
            at: self.at as int,
            item: self.item as int,
            entity_id: self.entity_id,
            affected: self.affected as int,
        }
    }
}

/// Every field of the model stands for the field of the same name.
pub proof fn law_observation_deletion_is_modelled_by_its_fields(deletion: ObservationDeletion)
    ensures
        deletion@.inputs == deletion_views(deletion.inputs@),
        deletion@.stage == deletion.stage,
        deletion@.at == deletion.at as int,
        deletion@.item == deletion.item as int,
        deletion@.entity_id == deletion.entity_id,
        deletion@.affected == deletion.affected as int,
{
}

impl DeletionView {
    /// Continues with input `k`.
    pub open spec fn looking(self, k: int) -> (DeletionView, ActionView) {
        if k < self.inputs.len() {
            (
                DeletionView { stage: DeletionStage::LookingUp, at: k, ..self },
                ActionView::Run(
                    fetches_optional(
                        ACTIVE_ENTITY_BY_NAME_SQL@,
                        seq![BindView::Text(self.inputs[k].name)],
                    ),
                ),
            )
        } else {
            (
                DeletionView { stage: DeletionStage::Committing, at: k, ..self },
                ActionView::Commit,
            )
        }
    }

    /// Continues with text `j` of the input at hand.
    pub open spec fn deleting(self, j: int) -> (DeletionView, ActionView) {
        if j < self.inputs[self.at].items.len() {
            (
                DeletionView { stage: DeletionStage::Deleting, item: j, ..self },
                ActionView::Run(
                    deletes_observation(self.entity_id, self.inputs[self.at].items[j]),
                ),
            )
        } else {
            self.looking(self.at + 1)
        }
    }

    /// What follows an answer.
    pub open spec fn next(self, reply: ReplyView) -> (DeletionView, ActionView) {
        match (self.stage, reply) {
            (DeletionStage::Opening, _) => self.looking(0),
            (DeletionStage::LookingUp, ReplyView::Ids(ids)) => if ids.len() == 0 {
                self.looking(self.at + 1)
            } else {
                (DeletionView { entity_id: ids[0], ..self }).deleting(0)
            },
            (DeletionStage::Deleting, ReplyView::Affected(n)) => (DeletionView {
                affected: self.affected + n,
                ..self
            }).deleting(self.item + 1),
            (DeletionStage::Committing, _) => (
                DeletionView { stage: DeletionStage::Finished, ..self },
                ActionView::Done,
            ),
            _ => (self, ActionView::Done),
        }
    }

    /// What every reachable state satisfies.
    pub open spec fn wf(self) -> bool {
        &&& 0 <= self.at
        &&& 0 <= self.item
        &&& self.stage is LookingUp || self.stage is Deleting ==> self.at < self.inputs.len()
        &&& self.stage is Deleting ==> self.item < self.inputs[self.at].items.len()
    }

    /// The shape of answer that is awaited.
    pub open spec fn awaiting(self) -> Awaiting {
        match self.stage {
            DeletionStage::Opening => Awaiting::Ready,
            DeletionStage::LookingUp => Awaiting::Optional,
            DeletionStage::Deleting => Awaiting::Affected,
            DeletionStage::Committing => Awaiting::Ready,
            DeletionStage::Finished => Awaiting::Nothing,
        }
    }
}

/// Prepares the deletion; the first request opens the transaction.
pub fn memory_delete_observations(
    inputs: Vec<DeleteObservationInput>,
) -> (r: (ObservationDeletion, Action))
    ensures
        r.0@ == (DeletionView {
            inputs: deletion_views(inputs@),
            stage: DeletionStage::Opening,
            at: 0,
            item: 0,
            entity_id: 0,
            affected: 0,
        }),
        r.0@.wf(),
        r.1@ == ActionView::Begin,
        r.0@.inputs == deletion_views(inputs@),
        r.0@.at == 0,
        r.0@.item == 0,
        r.0@.entity_id == 0,
        r.0@.affected == 0,
{
    (
        ObservationDeletion {
            inputs,
            stage: DeletionStage::Opening,
            at: 0,
            item: 0,
            entity_id: 0,
            affected: 0,
        },
        Action::Begin,
    )
}

impl ObservationDeletion {
    fn looking(&mut self, k: usize) -> (r: Action)
        requires
            k <= old(self).inputs.len(),
        ensures
            (final(self)@, r@) == old(self)@.looking(k as int),
            final(self)@.wf(),
            awaited(r@) == final(self)@.awaiting(),
    {
        self.at = k;
        if k < self.inputs.len() {
            self.stage = DeletionStage::LookingUp;
            assert(self@.inputs[k as int] == self.inputs@[k as int]@);
            Action::Run(
                Statement::optional(ACTIVE_ENTITY_BY_NAME_SQL).text(
                    self.inputs[k].entity_name.as_str(),
                ),
            )
        } else {
            self.stage = DeletionStage::Committing;
            Action::Commit
        }
    }

    fn deleting(&mut self, j: usize) -> (r: Action)
        requires
            old(self).at < old(self).inputs.len(),
            j <= old(self).inputs@[old(self).at as int].observations.len(),
        ensures
            (final(self)@, r@) == old(self)@.deleting(j as int),
            final(self)@.wf(),
            awaited(r@) == final(self)@.awaiting(),
    {
        assert(self@.inputs[self.at as int] == self.inputs@[self.at as int]@);
        if j < self.inputs[self.at].observations.len() {
            self.stage = DeletionStage::Deleting;
            self.item = j;
            assert(self@.inputs[self.at as int].items[j as int]
                == self.inputs@[self.at as int].observations@[j as int]@);
            Action::Run(
                Statement::execute(DELETE_OBSERVATION_SQL).int8(self.entity_id).text(
                    self.inputs[self.at].observations[j].as_str(),
                ),
            )
        } else {
            let k: usize = self.at + 1;
            self.looking(k)
        }
    }

    /// Takes the answer to the last request and gives the next. The count of
    /// deleted rows must fit its counter.
    pub fn step(&mut self, reply: &Reply) -> (r: Action)
        requires
            old(self)@.wf(),
            fits(old(self)@.awaiting(), reply@),
            room(old(self)@.affected, reply@),
        ensures
            (final(self)@, r@) == old(self)@.next(reply@),
            final(self)@.wf(),
            awaited(r@) == final(self)@.awaiting(),
    {
        proof {
            if self@.at < self@.inputs.len() {
                assert(self@.inputs[self.at as int] == self.inputs@[self.at as int]@);
            }
        }
        match (self.stage, reply) {
            (DeletionStage::Opening, _) => self.looking(0),
            (DeletionStage::LookingUp, Reply::Ids(ids)) => {
                if ids.len() == 0 {
                    assert(self.at < self.inputs.len());
                    let k: usize = self.at + 1;
                    self.looking(k)
                } else {
                    self.entity_id = ids[0];
                    self.deleting(0)
                }
            },
            (DeletionStage::Deleting, Reply::Affected(n)) => {
                self.affected = self.affected + *n;
                assert(self.item < self.inputs@[self.at as int].observations.len());
                let j: usize = self.item + 1;
                self.deleting(j)
            },
            (DeletionStage::Committing, _) => {
                self.stage = DeletionStage::Finished;
                Action::Done
            },
            _ => Action::Done,
        }
    }
}

} // verus!
