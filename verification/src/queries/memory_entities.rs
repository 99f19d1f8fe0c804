//! Creating entities of the memory graph.
use vstd::prelude::*;

use crate::meaning::{opens, takes};
use crate::order::{sort_tuples, sorted_tuples, tuples};
use crate::protocol::{awaited, fits, Action, ActionView, Awaiting, Reply, ReplyView};
use crate::queries::memory_locks::{lock_key, memory_advisory_lock_key, take_lock, takes_lock};
use crate::queries::memory_observations::{
    fresh_writer, opt_statement, owners, pending_views, ObservationWriter, PendingObservation,
    PendingView, WriterView,
};
use crate::queries::texts::memory_locks::law_takes_lock_stands_for_its_values;
use crate::statement::{
    executes, fetches_all, fetches_one, str_texts, texts, BindView, Statement, StatementView,
};
use crate::text::{decimal_text, unsigned_decimal};

use vstd::utf8::encode_utf8;

verus! {

pub const ACTIVE_ENTITY_IDS_SQL: &'static str = "SELECT id FROM memory_entities
             WHERE name = $1 AND entity_type = $2 AND valid_to IS NULL
             ORDER BY id";

pub const INSERT_ENTITY_SQL: &'static str = "INSERT INTO memory_entities
                        (name, entity_type, importance, source)
                     VALUES ($1, $2, 0.5, $3::memory_source)
                     RETURNING id";

pub const ATTACH_SCOPE_SQL: &'static str = "INSERT INTO memory_entity_scope (entity_id, scope_id)
             VALUES ($1, $2)
             ON CONFLICT DO NOTHING";

/// One entity to create, with the observations it starts with.
#[derive(Debug, Clone)]
pub struct NewEntityInput {
    pub name: String,
    pub entity_type: String,
    /// Initial observations; may be empty.
    pub observations: Vec<String>,
}

/// An entity to create, as a mathematical value.
pub struct EntityInputView {
    pub name: Seq<char>,
    pub entity_type: Seq<char>,
    pub observations: Seq<Seq<char>>,
}

impl View for NewEntityInput {
    type V = EntityInputView;

    open spec fn view(&self) -> EntityInputView {
        EntityInputView {
            name: self.name@,
            entity_type: self.entity_type@,
            observations: texts(self.observations@),
        }
    }
}

/// Every field of the model stands for the field of the same name.
pub proof fn law_new_entity_input_is_modelled_by_its_fields(input: NewEntityInput)
    ensures
        input@.name == input.name@,
        input@.entity_type == input.entity_type@,
        input@.observations == texts(input.observations@),
{
}

/// The values of a list of entities to create.
pub open spec fn input_views(v: Seq<NewEntityInput>) -> Seq<EntityInputView> {
    v.map_values(|x: NewEntityInput| x@)
}

/// The identities (name, type) of a list of entities.
pub open spec fn identities(v: Seq<EntityInputView>) -> Seq<Seq<Seq<char>>> {
    v.map_values(|x: EntityInputView| seq![x.name, x.entity_type])
}

/// The initial observations of one entity, once its id is known.
pub open spec fn initial_observations(x: EntityInputView, id: i64) -> Seq<PendingView> {
    x.observations.map_values(|o: Seq<char>| PendingView { entity_id: id, content: o })
}

/// What creating entities did.
#[derive(Debug, Clone)]
pub struct MemoryCreateEntitiesResult {
    /// One id per input, in input order.
    pub entity_ids: Vec<i64>,
    pub entities_inserted: usize,
    pub observations_inserted: usize,
}

/// Looking up the active entities with one identity.
pub open spec fn looks_up_entity(x: EntityInputView) -> StatementView {
    fetches_all(
        ACTIVE_ENTITY_IDS_SQL@,
        seq![BindView::Text(x.name), BindView::Text(x.entity_type)],
    )
}

/// Inserting an entity.
pub open spec fn inserts_entity(x: EntityInputView, source: Seq<char>) -> StatementView {
    fetches_one(
        INSERT_ENTITY_SQL@,
        seq![BindView::Text(x.name), BindView::Text(x.entity_type), BindView::Text(source)],
    )
}

/// Attaching an entity to a scope.
pub open spec fn attaches_scope(entity_id: i64, scope_id: i64) -> StatementView {
    executes(ATTACH_SCOPE_SQL@, seq![BindView::BigInt(entity_id), BindView::BigInt(scope_id)])
}

/// Locking an entity identity.
pub open spec fn locks_identity(identity: Seq<Seq<char>>) -> StatementView {
    takes_lock(lock_key(encode_utf8("memory:entity:"@), identity))
}

/// The message for an identity that several active entities share.
pub open spec fn ambiguous_identity(x: EntityInputView, rows: nat) -> Seq<char> {
    "ambiguous active memory entity identity ('"@ + x.name + "', '"@ + x.entity_type
        + "') matched "@ + decimal_text(rows as int)
        + " rows; repair duplicate active entities"@
}

fn ambiguous_identity_message(name: &str, entity_type: &str, rows: usize) -> (r: String)
    ensures
        forall|o: Seq<Seq<char>>|
            r@ == #[trigger] ambiguous_identity(
                EntityInputView { name: name@, entity_type: entity_type@, observations: o },
                rows as nat,
            ),
{
    let mut m = String::from_str("ambiguous active memory entity identity ('");
    m.append(name);
    m.append("', '");
    m.append(entity_type);
    m.append("') matched ");
    m.append(unsigned_decimal(rows as u128).as_str());
    m.append(" rows; repair duplicate active entities");
    m
}

/// Where the creation of a list of entities stands.
#[derive(Debug, Clone, Copy, PartialEq, Eq, Structural)]
pub enum EntityStage {
    Opening,
    Locking,
    LookingUp,
    Inserting,
    Scoping,
    Observing,
    Committing,
    Finished,
    Refused,
}

/// Creates entities and their initial observations in one transaction. An
/// active entity with the same name and type is used again; several such
/// entities refuse the request. All identities are locked first, in order.
#[derive(Debug)]
pub struct EntityCreation {
    pub inputs: Vec<NewEntityInput>,
    pub scope_id: i64,
    pub source: String,
    pub locks: Vec<Vec<String>>,
    pub stage: EntityStage,
    pub at: usize,
    /// The entity that the input at hand resolved to.
    pub current: i64,
    pub entity_ids: Vec<i64>,
    pub inserted: usize,
    /// Observations collected until the last input is resolved.
    pub pending: Vec<PendingObservation>,
    pub writer: Option<ObservationWriter>,
}

/// The state of an [`EntityCreation`], as a mathematical value.
#[verifier::ext_equal]
pub struct EntitiesView {
    pub inputs: Seq<EntityInputView>,
    pub scope_id: i64,
    pub source: Seq<char>,
    pub locks: Seq<Seq<Seq<char>>>,
    pub stage: EntityStage,
    pub at: int,
    pub current: i64,
    pub entity_ids: Seq<i64>,
    pub inserted: int,
    pub pending: Seq<PendingView>,
    pub writer: Option<WriterView>,
}

/// The state of an optional writer.
pub open spec fn opt_writer(w: Option<ObservationWriter>) -> Option<WriterView> {
    match w {
        Some(x) => Some(x@),
        None => None,
    }
}

impl View for EntityCreation {
    type V = EntitiesView;

    open spec fn view(&self) -> EntitiesView {
        EntitiesView {
            inputs: input_views(self.inputs@),
            scope_id: self.scope_id,
            source: self.source@,
            locks: tuples(self.locks@),
            stage: self.stage,
            at: self.at as int,
            current: self.current,
            entity_ids: self.entity_ids@,
            inserted: self.inserted as int,
            pending: pending_views(self.pending@),
            writer: opt_writer(self.writer),
        }
    }
}

/// Every field of the model stands for the field of the same name.
pub proof fn law_entity_creation_is_modelled_by_its_fields(creation: EntityCreation)
    ensures
        creation@.inputs == input_views(creation.inputs@),
        creation@.scope_id == creation.scope_id,
        creation@.source == creation.source@,
        creation@.locks == tuples(creation.locks@),
        creation@.stage == creation.stage,
        creation@.at == creation.at as int,
        creation@.current == creation.current,
        creation@.entity_ids == creation.entity_ids@,
        creation@.inserted == creation.inserted as int,
        creation@.pending == pending_views(creation.pending@),
        creation@.writer == opt_writer(creation.writer),
{
}

impl EntitiesView {
    /// Goes on with the observation writer, or commits when it is done.
    pub open spec fn observing(self, w: WriterView, s: Option<StatementView>) -> (
        EntitiesView,
        ActionView,
    ) {
        match s {
            Some(st) => (
                EntitiesView { stage: EntityStage::Observing, writer: Some(w), ..self },
                ActionView::Run(st),
            ),
            None => (
                EntitiesView { stage: EntityStage::Committing, writer: Some(w), ..self },
                ActionView::Commit,
            ),
        }
    }

    /// Continues with input `k`.
    pub open spec fn looking(self, k: int) -> (EntitiesView, ActionView) {
        if k < self.inputs.len() {
            (
                EntitiesView { stage: EntityStage::LookingUp, at: k, ..self },
                ActionView::Run(looks_up_entity(self.inputs[k])),
            )
        } else {
            let (w, s) = fresh_writer(self.source, self.pending).locking(0);
            (EntitiesView { at: k, pending: seq![], ..self }).observing(w, s)
        }
    }

    /// Continues with identity lock `k`.
    pub open spec fn locking(self, k: int) -> (EntitiesView, ActionView) {
        if k < self.locks.len() {
            (
                EntitiesView { stage: EntityStage::Locking, at: k, ..self },
                ActionView::Run(locks_identity(self.locks[k])),
            )
        } else {
            self.looking(0)
        }
    }

    /// Attaches the entity that the input at hand resolved to.
    pub open spec fn scoping(self, id: i64) -> (EntitiesView, ActionView) {
        (
            EntitiesView { stage: EntityStage::Scoping, current: id, ..self },
            ActionView::Run(attaches_scope(id, self.scope_id)),
        )
    }

    /// What follows an answer.
    pub open spec fn next(self, reply: ReplyView) -> (EntitiesView, ActionView) {
        match (self.stage, reply) {
            (EntityStage::Opening, _) => self.locking(0),
            (EntityStage::Locking, _) => self.locking(self.at + 1),
            (EntityStage::LookingUp, ReplyView::Ids(ids)) => if ids.len() == 1 {
                self.scoping(ids[0])
            } else if ids.len() == 0 {
                (
                    EntitiesView {
                        stage: EntityStage::Inserting,
                        inserted: self.inserted + 1,
                        ..self
                    },
                    ActionView::Run(inserts_entity(self.inputs[self.at], self.source)),
                )
            } else {
                (
                    EntitiesView { stage: EntityStage::Refused, ..self },
                    ActionView::Refuse(ambiguous_identity(self.inputs[self.at], ids.len())),
                )
            },
            (EntityStage::Inserting, ReplyView::Ids(ids)) => self.scoping(ids[0]),
            (EntityStage::Scoping, _) => (EntitiesView {
                entity_ids: self.entity_ids.push(self.current),
                pending: self.pending + initial_observations(self.inputs[self.at], self.current),
                ..self
            }).looking(self.at + 1),
            (EntityStage::Observing, _) => {
                let (w, s) = self.writer->0.next(reply);
                self.observing(w, s)
            },
            (EntityStage::Committing, _) => (
                EntitiesView { stage: EntityStage::Finished, ..self },
                ActionView::Done,
            ),
            _ => (self, ActionView::Done),
        }
    }

    /// What every reachable state satisfies.
    pub open spec fn wf(self) -> bool {
        &&& self.locks == sorted_tuples(identities(self.inputs))
        &&& 0 <= self.at
        &&& 0 <= self.inserted
        &&& self.stage is Opening ==> self.at == 0
        &&& self.stage is Locking ==> self.at < self.locks.len()
        &&& self.stage is Opening || self.stage is Locking ==> self.entity_ids.len() == 0
            && self.inserted == 0
        &&& self.stage is LookingUp || self.stage is Inserting || self.stage is Scoping
            || self.stage is Refused ==> self.at < self.inputs.len() && self.entity_ids.len()
            == self.at
        &&& self.stage is LookingUp ==> self.inserted <= self.at
        &&& self.inserted <= self.inputs.len()
        &&& self.inserted <= self.at + 1
        &&& self.stage is Observing || self.stage is Committing || self.stage is Finished
            ==> self.writer is Some && self.writer->0.wf() && self.entity_ids.len()
            == self.inputs.len()
        &&& self.stage is Observing ==> !(self.writer->0.stage is Finished)
        &&& self.stage is Committing || self.stage is Finished
            ==> self.writer->0.stage is Finished
    }

    /// The shape of answer that is awaited.
    pub open spec fn awaiting(self) -> Awaiting {
        match self.stage {
            EntityStage::Opening => Awaiting::Ready,
            EntityStage::Locking => Awaiting::Affected,
            EntityStage::LookingUp => Awaiting::Many,
            EntityStage::Inserting => Awaiting::One,
            EntityStage::Scoping => Awaiting::Affected,
            EntityStage::Observing => self.writer->0.awaiting(),
            EntityStage::Committing => Awaiting::Ready,
            EntityStage::Finished => Awaiting::Nothing,
            EntityStage::Refused => Awaiting::Nothing,
        }
    }
}

/// The fields of a string list, as slices.
fn fields_of(v: &Vec<String>) -> (r: Vec<&str>)
    ensures
        str_texts(r@) == texts(v@),
{
    let mut out: Vec<&str> = Vec::new();
    let mut i: usize = 0;
    while i < v.len()
        invariant
            i <= v.len(),
            out.len() == i,
            forall|j: int| 0 <= j < i ==> out@[j]@ == v@[j]@,
        decreases v.len() - i,
    {
        out.push(v[i].as_str());
        i = i + 1;
    }
    assert(str_texts(out@) =~= texts(v@));
    out
}

/// The statement that takes the lock of a text tuple under a prefix.
pub fn lock_tuple(prefix: &str, tuple: &Vec<String>) -> (st: Statement)
    ensures
        st@ == takes_lock(lock_key(encode_utf8(prefix@), texts(tuple@))),
        opens(st@.sql, "SELECT"@),
        takes(
            st@,
            "pg_advisory_xact_lock("@,
            BindView::Int(lock_key(encode_utf8(prefix@), texts(tuple@)).0),
        ),
        takes(
            st@,
            "SELECT pg_advisory_xact_lock($1, "@,
            BindView::Int(lock_key(encode_utf8(prefix@), texts(tuple@)).1),
        ),
{
    proof {
        law_takes_lock_stands_for_its_values(lock_key(encode_utf8(prefix@), texts(tuple@)));
    }
    let fields = fields_of(tuple);
    take_lock(memory_advisory_lock_key(prefix.as_bytes(), fields.as_slice()))
}

/// A creation before its first answer.
pub open spec fn fresh_entities(
    inputs: Seq<EntityInputView>,
    scope_id: i64,
    source: Seq<char>,
) -> EntitiesView {
    EntitiesView {
        inputs,
        scope_id,
        source,
        locks: sorted_tuples(identities(inputs)),
        stage: EntityStage::Opening,
        at: 0,
        current: 0,
        entity_ids: seq![],
        inserted: 0,
        pending: seq![],
        writer: None,
    }
}

/// Prepares the creation of `inputs` under a scope; the first request
/// opens the transaction.
pub fn memory_create_entities_detailed(
    inputs: Vec<NewEntityInput>,
    scope_id: i64,
    source: &str,
) -> (r: (EntityCreation, Action))
    ensures
        r.1@ == ActionView::Begin,
        r.0@ == fresh_entities(input_views(inputs@), scope_id, source@),
        r.0@.wf(),
        awaited(r.1@) == r.0@.awaiting(),
{
    let mut ids: Vec<Vec<String>> = Vec::new();
    let mut i: usize = 0;
    while i < inputs.len()
        invariant
            i <= inputs.len(),
            ids.len() == i,
            forall|j: int|
                0 <= j < i ==> texts(#[trigger] ids@[j]@) == seq![
                    inputs@[j].name@,
                    inputs@[j].entity_type@,
                ],
        decreases inputs.len() - i,
    {
        let pair: Vec<String> = vec![inputs[i].name.clone(), inputs[i].entity_type.clone()];
        assert(texts(pair@) =~= seq![
            inputs@[i as int].name@,
            inputs@[i as int].entity_type@,
        ]);
        ids.push(pair);
        i = i + 1;
    }
    assert(tuples(ids@) =~= identities(input_views(inputs@)));
    let locks = sort_tuples(ids);
    let r = EntityCreation {
        inputs,
        scope_id,
        source: String::from_str(source),
        locks,
        stage: EntityStage::Opening,
        at: 0,
        current: 0,
        entity_ids: Vec::new(),
        inserted: 0,
        pending: Vec::new(),
        writer: None,
    };
    assert(pending_views(r.pending@) =~= seq![]);
    (r, Action::Begin)
}

impl EntityCreation {
    fn observing(&mut self, w: ObservationWriter, s: Option<Statement>) -> (r: Action)
        ensures
            (final(self)@, r@) == old(self)@.observing(w@, opt_statement(s)),
    {
        self.writer = Some(w);
        match s {
            Some(st) => {
                self.stage = EntityStage::Observing;
                Action::Run(st)
            },
            None => {
                self.stage = EntityStage::Committing;
                Action::Commit
            },
        }
    }

    fn looking(&mut self, k: usize) -> (r: Action)
        requires
            k <= old(self).inputs.len(),
            old(self)@.locks == sorted_tuples(identities(old(self)@.inputs)),
            old(self)@.entity_ids.len() == k,
            0 <= old(self)@.inserted <= k,
        ensures
            (final(self)@, r@) == old(self)@.looking(k as int),
            final(self)@.wf(),
            awaited(r@) == final(self)@.awaiting(),
    {
        self.at = k;
        if k < self.inputs.len() {
            self.stage = EntityStage::LookingUp;
            let x = &self.inputs[k];
            assert(input_views(self.inputs@)[k as int] == x@);
            Action::Run(
                Statement::all(ACTIVE_ENTITY_IDS_SQL)
                    .text(x.name.as_str())
                    .text(x.entity_type.as_str()),
            )
        } else {
            let mut pending: Vec<PendingObservation> = Vec::new();
            std::mem::swap(&mut pending, &mut self.pending);
            assert(pending_views(self.pending@) =~= seq![]);
            let (w, s) = ObservationWriter::start(self.source.as_str(), pending);
            self.observing(w, s)
        }
    }

    fn locking(&mut self, k: usize) -> (r: Action)
        requires
            k <= old(self).locks.len(),
            old(self)@.locks == sorted_tuples(identities(old(self)@.inputs)),
            old(self)@.entity_ids.len() == 0,
            old(self)@.inserted == 0,
        ensures
            (final(self)@, r@) == old(self)@.locking(k as int),
            final(self)@.wf(),
            awaited(r@) == final(self)@.awaiting(),
    {
        if k < self.locks.len() {
            self.at = k;
            self.stage = EntityStage::Locking;
            assert(tuples(self.locks@)[k as int] == texts(self.locks@[k as int]@));
            Action::Run(lock_tuple("memory:entity:", &self.locks[k]))
        } else {
            self.looking(0)
        }
    }

    fn scoping(&mut self, id: i64) -> (r: Action)
        requires
            old(self)@.wf(),
            old(self).stage is LookingUp || old(self).stage is Inserting,
        ensures
            (final(self)@, r@) == old(self)@.scoping(id),
            final(self)@.wf(),
            awaited(r@) == final(self)@.awaiting(),
    {
        self.stage = EntityStage::Scoping;
        self.current = id;
        Action::Run(Statement::execute(ATTACH_SCOPE_SQL).int8(id).int8(self.scope_id))
    }

    fn scoped(&mut self) -> (r: Action)
        requires
            old(self)@.wf(),
            old(self).stage is Scoping,
        ensures
            (final(self)@, r@) == old(self)@.next(ReplyView::Ready),
            final(self)@.wf(),
            awaited(r@) == final(self)@.awaiting(),
    {
        let ghost before = *self;
        let id: i64 = self.current;
        let ghost x = self@.inputs[self.at as int];
        assert(self.at < self.inputs.len());
        let n: usize = self.inputs[self.at].observations.len();
        assert(x == self.inputs@[self.at as int]@);
        assert(x.observations.len() == n);
        let mut j: usize = 0;
        while j < n
            invariant
                j <= n,
                self.at < self.inputs.len(),
                n == self.inputs@[self.at as int].observations.len(),
                x == self.inputs@[self.at as int]@,
                before@.pending.len() + j == self.pending.len(),
                forall|i: int|
                    0 <= i < before@.pending.len() ==> (#[trigger] self.pending@[i])@
                        == before@.pending[i],
                forall|i: int|
                    before@.pending.len() <= i < before@.pending.len() + j ==> (
                    #[trigger] self.pending@[i])@ == (PendingView {
                        entity_id: id,
                        content: x.observations[i - before@.pending.len()],
                    }),
                self.inputs == before.inputs,
                self.scope_id == before.scope_id,
                self.source == before.source,
                self.locks == before.locks,
                self.stage == before.stage,
                self.at == before.at,
                self.current == before.current,
                self.entity_ids == before.entity_ids,
                self.inserted == before.inserted,
                self.writer == before.writer,
            decreases n - j,
        {
            let content = self.inputs[self.at].observations[j].clone();
            assert(content@ == x.observations[j as int]);
            self.pending.push(PendingObservation { entity_id: id, content });
            j = j + 1;
        }
        assert(pending_views(self.pending@) =~= before@.pending + initial_observations(x, id));
        self.entity_ids.push(id);
        let k: usize = self.at + 1;
        self.looking(k)
    }

    /// Takes the answer to the last request and gives the next.
    pub fn step(&mut self, reply: &Reply) -> (r: Action)
        requires
            old(self)@.wf(),
            fits(old(self)@.awaiting(), reply@),
        ensures
            (final(self)@, r@) == old(self)@.next(reply@),
            final(self)@.wf(),
            awaited(r@) == final(self)@.awaiting(),
    {
        match self.stage {
            EntityStage::Opening => self.locking(0),
            EntityStage::Locking => {
                assert(self.at < self.locks.len());
                let k: usize = self.at + 1;
                self.locking(k)
            },
            EntityStage::LookingUp => {
                assert(self.at < self.inputs.len());
                assert(self@.inputs[self.at as int] == self.inputs@[self.at as int]@);
                match reply {
                    Reply::Ids(ids) => {
                        if ids.len() == 1 {
                            self.scoping(ids[0])
                        } else if ids.len() == 0 {
                            self.stage = EntityStage::Inserting;
                            self.inserted = self.inserted + 1;
                            let x = &self.inputs[self.at];
                            Action::Run(
                                Statement::one(INSERT_ENTITY_SQL)
                                    .text(x.name.as_str())
                                    .text(x.entity_type.as_str())
                                    .text(self.source.as_str()),
                            )
                        } else {
                            self.stage = EntityStage::Refused;
                            let x = &self.inputs[self.at];
                            let m = ambiguous_identity_message(
                                x.name.as_str(),
                                x.entity_type.as_str(),
                                ids.len(),
                            );
                            assert(m@ == ambiguous_identity(x@, ids@.len()));
                            Action::Refuse(m)
                        }
                    },
                    _ => Action::Done,
                }
            },
            EntityStage::Inserting => match reply {
                Reply::Ids(ids) => self.scoping(ids[0]),
                _ => Action::Done,
            },
            EntityStage::Scoping => self.scoped(),
            EntityStage::Observing => {
                let mut w: Option<ObservationWriter> = None;
                std::mem::swap(&mut w, &mut self.writer);
                match w {
                    Some(mut x) => {
                        let s = x.step(reply);
                        self.observing(x, s)
                    },
                    None => Action::Done,
                }
            },
            EntityStage::Committing => {
                self.stage = EntityStage::Finished;
                Action::Done
            },
            _ => Action::Done,
        }
    }

    /// The result of a finished creation.
    pub fn result(self) -> (r: MemoryCreateEntitiesResult)
        requires
            self@.wf(),
            self.stage is Finished,
        ensures
            r.entity_ids@ == self@.entity_ids,
            r.entities_inserted == self@.inserted,
            r.observations_inserted == self@.writer->0.written.len(),
            r.entity_ids.len() == self@.inputs.len(),
            r.entities_inserted <= r.entity_ids.len(),
    {
        let n: usize = match &self.writer {
            Some(w) => w.written.len(),
            None => 0,
        };
        MemoryCreateEntitiesResult {
            entity_ids: self.entity_ids,
            entities_inserted: self.inserted,
            observations_inserted: n,
        }
    }
}

/// Whatever the database answers, a creation stays well formed, waits for
/// the answer its request calls for, and asks for the commit only when every
/// input has its entity and no observation is left to write.
pub proof fn law_entities_commit_last(v: EntitiesView, reply: ReplyView)
    requires
        v.wf(),
        fits(v.awaiting(), reply),
    ensures
        v.next(reply).0.wf(),
        awaited(v.next(reply).1) == v.next(reply).0.awaiting(),
        v.next(reply).1 is Commit ==> v.next(reply).0.entity_ids.len() == v.inputs.len()
            && v.next(reply).0.writer->0.stage is Finished,
        v.next(reply).1 is Refuse ==> reply->Ids_0.len() > 1,
{
    crate::order::law_sorted_ids(owners(v.pending));
    if v.stage is Observing {
        crate::order::law_sorted_ids(owners(v.writer->0.pending));
    }
}

} // verus!
