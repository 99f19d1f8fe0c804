//! What the creation of entities does to the tables it runs against.
use vstd::prelude::*;
use vstd::utf8::encode_utf8;

use crate::digest::sha256_hex;
use crate::order::{law_sorted_ids, sorted_ids};
use crate::protocol::{fits, ActionView, ReplyView};
use crate::queries::memory_entities::{
    attaches_scope, fresh_entities, initial_observations, inserts_entity, law_entities_commit_last,
    looks_up_entity, EntitiesView, EntityInputView, EntityStage,
};
use crate::queries::memory_locks::{lock_key, takes_lock};
use crate::queries::memory_observations::{
    finds_observation, fresh_writer, inserts_observation, owners, PendingView, WriterStage,
    WriterView,
};
use crate::statement::StatementView;
use crate::text::decimal_text;

verus! {

/// The active rows that the creation of entities reads and writes, in tables
/// where no two active entities share their name and type and no two active
/// observations of one entity share their digest.
#[verifier::ext_equal]
pub struct EntityTables {
    /// The active entities: the id for each name and type.
    pub entities: Map<(Seq<char>, Seq<char>), i64>,
    /// The active observations: the entity and the digest of the text.
    pub observations: Set<(i64, Seq<char>)>,
}

/// What identifies an entity.
pub open spec fn identity(x: EntityInputView) -> (Seq<char>, Seq<char>) {
    (x.name, x.entity_type)
}

/// What identifies an observation: its entity and the digest of its text.
pub open spec fn mark(p: PendingView) -> (i64, Seq<char>) {
    (p.entity_id, sha256_hex(encode_utf8(p.content)))
}

impl EntityTables {
    /// There are finitely many rows.
    pub open spec fn wf(self) -> bool {
        self.entities.dom().finite() && self.observations.finite()
    }

    /// The ids of the active entities with an identity.
    pub open spec fn identified(self, key: (Seq<char>, Seq<char>)) -> Seq<i64> {
        if self.entities.contains_key(key) {
            seq![self.entities[key]]
        } else {
            seq![]
        }
    }

    /// Whether `id` is the id of the active entity that an input names.
    pub open spec fn is_entity(self, x: EntityInputView, id: i64) -> bool {
        self.entities.contains_key(identity(x)) && self.entities[identity(x)] == id
    }
}

/// Whether a statement inserts an entity or an observation.
pub open spec fn is_insertion(st: StatementView) -> bool {
    ||| exists|x: EntityInputView, s: Seq<char>| #[trigger] inserts_entity(x, s) == st
    ||| exists|p: PendingView, s: Seq<char>| #[trigger] inserts_observation(p, s) == st
}

/// Whether a request is answered as the tables stand, and leaves them as it
/// should: a lookup gives the matching row; an insertion adds one row and
/// gives its id, where the row is not there yet; nothing else changes an
/// entity or an observation.
pub open spec fn answers(
    before: EntityTables,
    request: ActionView,
    reply: ReplyView,
    after: EntityTables,
) -> bool {
    match request {
        ActionView::Run(st) => {
            &&& forall|x: EntityInputView| #[trigger]
                looks_up_entity(x) == st ==> reply == ReplyView::Ids(
                    before.identified(identity(x)),
                )
            &&& forall|x: EntityInputView, s: Seq<char>| #[trigger]
                inserts_entity(x, s) == st ==> after == (EntityTables {
                    entities: before.entities.insert(identity(x), reply->Ids_0[0]),
                    ..before
                })
            &&& forall|p: PendingView| #[trigger]
                finds_observation(p) == st ==> (reply->Ids_0.len() > 0
                    <==> before.observations.contains(mark(p)))
            &&& forall|p: PendingView, s: Seq<char>| #[trigger]
                inserts_observation(p, s) == st ==> (reply->Ids_0.len() > 0
                    <==> !before.observations.contains(mark(p))) && after == (EntityTables {
                    observations: before.observations.insert(mark(p)),
                    ..before
                })
            &&& !is_insertion(st) ==> after == before
        },
        _ => after == before,
    }
}

/// A creation of entities as it ran: its states, its requests, the answers,
/// and the tables before each answer and after the last.
pub struct EntityRun {
    pub states: Seq<EntitiesView>,
    pub requests: Seq<ActionView>,
    pub replies: Seq<ReplyView>,
    pub tables: Seq<EntityTables>,
}

impl EntityRun {
    /// Whether the creation of `inputs` can run so.
    pub open spec fn valid(
        self,
        inputs: Seq<EntityInputView>,
        scope_id: i64,
        source: Seq<char>,
    ) -> bool {
        &&& self.states.len() == self.replies.len() + 1
        &&& self.requests.len() == self.replies.len() + 1
        &&& self.tables.len() == self.replies.len() + 1
        &&& self.states[0] == fresh_entities(inputs, scope_id, source)
        &&& self.requests[0] == ActionView::Begin
        &&& self.tables[0].wf()
        &&& forall|k: int| 0 <= k < self.replies.len() ==> #[trigger] self.steps(k)
    }

    /// Whether state, request and tables `k` lead to the next ones.
    pub open spec fn steps(self, k: int) -> bool {
        &&& fits(self.states[k].awaiting(), self.replies[k])
        &&& (self.states[k + 1], self.requests[k + 1]) == self.states[k].next(self.replies[k])
        &&& answers(self.tables[k], self.requests[k], self.replies[k], self.tables[k + 1])
    }

    /// The tables before the run.
    pub open spec fn first(self) -> EntityTables {
        self.tables[0]
    }

    /// The tables after the run.
    pub open spec fn last(self) -> EntityTables {
        self.tables.last()
    }

    /// The state after the run.
    pub open spec fn end(self) -> EntitiesView {
        self.states.last()
    }

    /// How many observations the run says that it inserted.
    pub open spec fn observations_inserted(self) -> nat {
        self.end().writer->0.written.len()
    }
}

/// The observations of the inputs whose entities are known, in order.
pub open spec fn collected(inputs: Seq<EntityInputView>, ids: Seq<i64>) -> Seq<PendingView>
    decreases ids.len(),
{
    if ids.len() == 0 {
        seq![]
    } else {
        collected(inputs, ids.drop_last()) + initial_observations(
            inputs[ids.len() - 1],
            ids.last(),
        )
    }
}

/// How many inputs have their entity in the tables.
spec fn reached(v: EntitiesView) -> int {
    if v.stage is Scoping {
        v.at + 1
    } else {
        v.entity_ids.len() as int
    }
}

/// How many observations a writer is done with.
spec fn done(w: WriterView) -> int {
    match w.stage {
        WriterStage::Locking => 0,
        _ => w.at,
    }
}

/// What holds of a writer after every answer.
spec fn kept_writing(
    first: EntityTables,
    pending: Seq<PendingView>,
    w: WriterView,
    s: Option<StatementView>,
    now: EntityTables,
) -> bool {
    &&& w.wf()
    &&& w.pending == pending
    &&& first.observations.subset_of(now.observations)
    &&& now.observations.len() == first.observations.len() + w.written.len()
    &&& forall|j: int| 0 <= j < done(w) ==> now.observations.contains(mark(#[trigger] pending[j]))
    &&& forall|o: (i64, Seq<char>)| #[trigger]
        now.observations.contains(o) ==> first.observations.contains(o) || exists|j: int|
            0 <= j < done(w) && o == mark(#[trigger] pending[j])
    &&& match w.stage {
        WriterStage::Locking => s matches Some(st) && !is_insertion(st),
        WriterStage::Finding => s == Some(finds_observation(pending[w.at])),
        WriterStage::Inserting => s == Some(inserts_observation(pending[w.at], w.source))
            && !now.observations.contains(mark(pending[w.at])),
        WriterStage::Finished => s is None,
    }
}

/// What holds after every answer of a run.
spec fn kept(
    first: EntityTables,
    inputs: Seq<EntityInputView>,
    v: EntitiesView,
    request: ActionView,
    now: EntityTables,
) -> bool {
    let x = inputs[v.at];
    let late = v.stage is Observing || v.stage is Committing || v.stage is Finished;
    &&& v.wf()
    &&& v.inputs == inputs
    &&& now.wf()
    &&& first.entities.submap_of(now.entities)
    &&& now.entities.len() + (if v.stage is Inserting {
        1int
    } else {
        0
    }) == first.entities.len() + v.inserted
    &&& forall|j: int|
        0 <= j < v.entity_ids.len() ==> now.is_entity(inputs[j], #[trigger] v.entity_ids[j])
    &&& forall|key: (Seq<char>, Seq<char>)| #[trigger]
        now.entities.contains_key(key) ==> first.entities.contains_key(key) || exists|j: int|
            0 <= j < reached(v) && key == identity(#[trigger] inputs[j])
    &&& !(v.stage is Refused)
    &&& !late ==> now.observations == first.observations && v.pending == collected(
        inputs,
        v.entity_ids,
    )
    &&& late ==> kept_writing(
        first,
        collected(inputs, v.entity_ids),
        v.writer->0,
        if v.stage is Observing {
            Some(request->Run_0)
        } else {
            None
        },
        now,
    )
    &&& match v.stage {
        EntityStage::Locking => request matches ActionView::Run(st) && !is_insertion(st),
        EntityStage::LookingUp => request == ActionView::Run(looks_up_entity(x)),
        EntityStage::Inserting => request == ActionView::Run(inserts_entity(x, v.source))
            && !now.entities.contains_key(identity(x)),
        EntityStage::Scoping => (request matches ActionView::Run(st) && !is_insertion(st))
            && now.is_entity(x, v.current),
        EntityStage::Observing => request is Run,
        _ => !(request is Run),
    }
}

spec fn no_input() -> EntityInputView {
    EntityInputView { name: seq![], entity_type: seq![], observations: seq![] }
}

spec fn no_observation() -> PendingView {
    PendingView { entity_id: 0, content: seq![] }
}

proof fn lemma_statements_differ(
    x: EntityInputView,
    p: PendingView,
    id: i64,
    scope_id: i64,
    key: (i32, i32),
)
    ensures
        !is_insertion(looks_up_entity(x)),
        !is_insertion(finds_observation(p)),
        !is_insertion(attaches_scope(id, scope_id)),
        !is_insertion(takes_lock(key)),
{
    assert forall|y: EntityInputView, s: Seq<char>|
        true implies #[trigger] inserts_entity(y, s).fetch != looks_up_entity(x).fetch
        && inserts_entity(y, s).fetch != finds_observation(p).fetch && inserts_entity(y, s).fetch
        != attaches_scope(id, scope_id).fetch && inserts_entity(y, s).fetch != takes_lock(
        key,
    ).fetch by {
    }
    assert forall|q: PendingView, s: Seq<char>|
        true implies #[trigger] inserts_observation(q, s).fetch != looks_up_entity(x).fetch
        && inserts_observation(q, s).binds.len() != finds_observation(p).binds.len()
        && inserts_observation(q, s).fetch != attaches_scope(id, scope_id).fetch
        && inserts_observation(q, s).fetch != takes_lock(key).fetch by {
    }
}

/// A writer that turns to its observation `k` keeps what holds.
proof fn lemma_finding(
    first: EntityTables,
    pending: Seq<PendingView>,
    w: WriterView,
    k: int,
    now: EntityTables,
)
    requires
        0 <= k <= pending.len(),
        w.pending == pending,
        w.locks == sorted_ids(owners(pending)),
        w.written.len() <= k,
        first.observations.subset_of(now.observations),
        now.observations.len() == first.observations.len() + w.written.len(),
        forall|j: int| 0 <= j < k ==> now.observations.contains(mark(#[trigger] pending[j])),
        forall|o: (i64, Seq<char>)| #[trigger]
            now.observations.contains(o) ==> first.observations.contains(o) || exists|j: int|
                0 <= j < k && o == mark(#[trigger] pending[j]),
    ensures
        kept_writing(first, pending, w.finding(k).0, w.finding(k).1, now),
{
}

/// A writer that turns to its lock `k` keeps what holds.
proof fn lemma_writer_locking(
    first: EntityTables,
    pending: Seq<PendingView>,
    w: WriterView,
    k: int,
    now: EntityTables,
)
    requires
        0 <= k,
        w.pending == pending,
        w.locks == sorted_ids(owners(pending)),
        w.written.len() == 0,
        now.observations == first.observations,
    ensures
        kept_writing(first, pending, w.locking(k).0, w.locking(k).1, now),
{
    if k < w.locks.len() {
        lemma_statements_differ(
            no_input(),
            no_observation(),
            0,
            0,
            lock_key(
                encode_utf8("memory:entity-observations:"@),
                seq![decimal_text(w.locks[k] as int)],
            ),
        );
    } else {
        lemma_finding(first, pending, w, 0, now);
    }
}

proof fn lemma_writer_step(
    first: EntityTables,
    pending: Seq<PendingView>,
    w: WriterView,
    st: StatementView,
    now: EntityTables,
    reply: ReplyView,
    later: EntityTables,
)
    requires
        kept_writing(first, pending, w, Some(st), now),
        now.wf(),
        fits(w.awaiting(), reply),
        answers(now, ActionView::Run(st), reply, later),
    ensures
        kept_writing(first, pending, w.next(reply).0, w.next(reply).1, later),
        later.wf(),
        later.entities == now.entities,
{
    law_sorted_ids(owners(pending));
    match w.stage {
        WriterStage::Locking => {
            assert(now.observations =~= first.observations);
            lemma_writer_locking(first, pending, w, w.at + 1, later);
        },
        WriterStage::Finding => {
            let p = pending[w.at];
            lemma_statements_differ(no_input(), p, 0, 0, (0, 0));
            assert(later == now);
            if reply->Ids_0.len() > 0 {
                lemma_more(first, pending, w.at, now);
                lemma_finding(first, pending, w, w.at + 1, later);
            }
        },
        WriterStage::Inserting => {
            let p = pending[w.at];
            assert(later.observations == now.observations.insert(mark(p)));
            assert(reply->Ids_0.len() > 0);
            let u = WriterView { written: w.written.push(reply->Ids_0[0]), ..w };
            assert forall|o: (i64, Seq<char>)| #[trigger]
                later.observations.contains(o) implies first.observations.contains(o) || exists|
                j: int,
            |
                0 <= j < w.at + 1 && o == mark(#[trigger] pending[j]) by {
                if now.observations.contains(o) {
                    lemma_more(first, pending, w.at, now);
                } else {
                    assert(o == mark(pending[w.at]));
                }
            }
            lemma_finding(first, pending, u, w.at + 1, later);
        },
        WriterStage::Finished => {},
    }
}

proof fn lemma_more(first: EntityTables, pending: Seq<PendingView>, k: int, now: EntityTables)
    requires
        forall|o: (i64, Seq<char>)| #[trigger]
            now.observations.contains(o) ==> first.observations.contains(o) || exists|j: int|
                0 <= j < k && o == mark(#[trigger] pending[j]),
    ensures
        forall|o: (i64, Seq<char>)| #[trigger]
            now.observations.contains(o) ==> first.observations.contains(o) || exists|j: int|
                0 <= j < k + 1 && o == mark(#[trigger] pending[j]),
{
    assert forall|o: (i64, Seq<char>)| #[trigger]
        now.observations.contains(o) implies first.observations.contains(o) || exists|j: int|
        0 <= j < k + 1 && o == mark(#[trigger] pending[j]) by {
        if !first.observations.contains(o) {
            let j = choose|j: int| 0 <= j < k && o == mark(#[trigger] pending[j]);
            assert(0 <= j < k + 1 && o == mark(pending[j]));
        }
    }
}

/// Turning to input `k`, or to the observations after the last input, keeps
/// what holds.
proof fn lemma_looking(
    first: EntityTables,
    inputs: Seq<EntityInputView>,
    v: EntitiesView,
    k: int,
    now: EntityTables,
)
    requires
        v.looking(k).0.wf(),
        v.inputs == inputs,
        0 <= k <= inputs.len(),
        v.entity_ids.len() == k,
        now.wf(),
        first.entities.submap_of(now.entities),
        now.entities.len() == first.entities.len() + v.inserted,
        forall|j: int|
            0 <= j < v.entity_ids.len() ==> now.is_entity(inputs[j], #[trigger] v.entity_ids[j]),
        forall|key: (Seq<char>, Seq<char>)| #[trigger]
            now.entities.contains_key(key) ==> first.entities.contains_key(key) || exists|j: int|
                0 <= j < k && key == identity(#[trigger] inputs[j]),
        now.observations == first.observations,
        v.pending == collected(inputs, v.entity_ids),
    ensures
        kept(first, inputs, v.looking(k).0, v.looking(k).1, now),
{
    if k >= inputs.len() {
        lemma_writer_locking(first, v.pending, fresh_writer(v.source, v.pending), 0, now);
        law_sorted_ids(owners(v.pending));
    }
}

proof fn lemma_step_locking(
    first: EntityTables,
    inputs: Seq<EntityInputView>,
    v: EntitiesView,
    request: ActionView,
    now: EntityTables,
    reply: ReplyView,
    later: EntityTables,
)
    requires
        v.stage is Opening || v.stage is Locking,
        kept(first, inputs, v, request, now),
        fits(v.awaiting(), reply),
        answers(now, request, reply, later),
    ensures
        kept(first, inputs, v.next(reply).0, v.next(reply).1, later),
{
    law_entities_commit_last(v, reply);
    assert(later == now);
    let k = if v.stage is Opening {
        0
    } else {
        v.at + 1
    };
    if k < v.locks.len() {
        lemma_statements_differ(
            no_input(),
            no_observation(),
            0,
            0,
            lock_key(encode_utf8("memory:entity:"@), v.locks[k]),
        );
    } else {
        lemma_looking(first, inputs, v, 0, later);
    }
}

proof fn lemma_step_looking_up(
    first: EntityTables,
    inputs: Seq<EntityInputView>,
    v: EntitiesView,
    request: ActionView,
    now: EntityTables,
    reply: ReplyView,
    later: EntityTables,
)
    requires
        v.stage is LookingUp,
        kept(first, inputs, v, request, now),
        fits(v.awaiting(), reply),
        answers(now, request, reply, later),
    ensures
        kept(first, inputs, v.next(reply).0, v.next(reply).1, later),
{
    law_entities_commit_last(v, reply);
    let x = inputs[v.at];
    let key = identity(x);
    assert(reply == ReplyView::Ids(now.identified(key)));
    lemma_statements_differ(x, no_observation(), now.entities[key], v.scope_id, (0, 0));
    assert(later == now);
    if now.entities.contains_key(key) {
        lemma_further(first, inputs, v.at, now);
    }
}

proof fn lemma_step_inserting(
    first: EntityTables,
    inputs: Seq<EntityInputView>,
    v: EntitiesView,
    request: ActionView,
    now: EntityTables,
    reply: ReplyView,
    later: EntityTables,
)
    requires
        v.stage is Inserting,
        kept(first, inputs, v, request, now),
        fits(v.awaiting(), reply),
        answers(now, request, reply, later),
    ensures
        kept(first, inputs, v.next(reply).0, v.next(reply).1, later),
{
    law_entities_commit_last(v, reply);
    let x = inputs[v.at];
    let key = identity(x);
    let id = reply->Ids_0[0];
    lemma_statements_differ(x, no_observation(), id, v.scope_id, (0, 0));
    assert(later.entities == now.entities.insert(key, id));
    assert(later.entities.dom() =~= now.entities.dom().insert(key));
    assert forall|j: int| 0 <= j < v.entity_ids.len() implies later.is_entity(
        inputs[j],
        #[trigger] v.entity_ids[j],
    ) by {
        assert(now.is_entity(inputs[j], v.entity_ids[j]));
    }
    lemma_added(first, inputs, v.at, now, later, id);
    let w = v.next(reply).0;
    assert(w.stage is Scoping && reached(w) == v.at + 1);
    assert(first.entities.submap_of(later.entities));
    assert(later.entities.len() == now.entities.len() + 1);
    assert(later.observations == first.observations);
}

proof fn lemma_step_scoping(
    first: EntityTables,
    inputs: Seq<EntityInputView>,
    v: EntitiesView,
    request: ActionView,
    now: EntityTables,
    reply: ReplyView,
    later: EntityTables,
)
    requires
        v.stage is Scoping,
        kept(first, inputs, v, request, now),
        fits(v.awaiting(), reply),
        answers(now, request, reply, later),
    ensures
        kept(first, inputs, v.next(reply).0, v.next(reply).1, later),
{
    law_entities_commit_last(v, reply);
    assert(later == now);
    let x = inputs[v.at];
    let u = EntitiesView {
        entity_ids: v.entity_ids.push(v.current),
        pending: v.pending + initial_observations(x, v.current),
        ..v
    };
    assert(u.entity_ids.drop_last() =~= v.entity_ids);
    assert forall|j: int| 0 <= j < u.entity_ids.len() implies now.is_entity(
        inputs[j],
        #[trigger] u.entity_ids[j],
    ) by {
        if j < v.at {
            assert(now.is_entity(inputs[j], v.entity_ids[j]));
        }
    }
    lemma_looking(first, inputs, u, v.at + 1, later);
}

proof fn lemma_step_observing(
    first: EntityTables,
    inputs: Seq<EntityInputView>,
    v: EntitiesView,
    request: ActionView,
    now: EntityTables,
    reply: ReplyView,
    later: EntityTables,
)
    requires
        v.stage is Observing,
        kept(first, inputs, v, request, now),
        fits(v.awaiting(), reply),
        answers(now, request, reply, later),
    ensures
        kept(first, inputs, v.next(reply).0, v.next(reply).1, later),
{
    law_entities_commit_last(v, reply);
    let pending = collected(inputs, v.entity_ids);
    lemma_writer_step(first, pending, v.writer->0, request->Run_0, now, reply, later);
}

proof fn lemma_step(
    first: EntityTables,
    inputs: Seq<EntityInputView>,
    v: EntitiesView,
    request: ActionView,
    now: EntityTables,
    reply: ReplyView,
    later: EntityTables,
)
    requires
        kept(first, inputs, v, request, now),
        fits(v.awaiting(), reply),
        answers(now, request, reply, later),
    ensures
        kept(first, inputs, v.next(reply).0, v.next(reply).1, later),
{
    match v.stage {
        EntityStage::Opening | EntityStage::Locking => {
            lemma_step_locking(first, inputs, v, request, now, reply, later);
        },
        EntityStage::LookingUp => {
            lemma_step_looking_up(first, inputs, v, request, now, reply, later);
        },
        EntityStage::Inserting => {
            lemma_step_inserting(first, inputs, v, request, now, reply, later);
        },
        EntityStage::Scoping => {
            lemma_step_scoping(first, inputs, v, request, now, reply, later);
        },
        EntityStage::Observing => {
            lemma_step_observing(first, inputs, v, request, now, reply, later);
        },
        _ => {
            law_entities_commit_last(v, reply);
            assert(later == now);
        },
    }
}

proof fn lemma_added(
    first: EntityTables,
    inputs: Seq<EntityInputView>,
    k: int,
    now: EntityTables,
    later: EntityTables,
    id: i64,
)
    requires
        0 <= k < inputs.len(),
        later.entities == now.entities.insert(identity(inputs[k]), id),
        forall|key: (Seq<char>, Seq<char>)| #[trigger]
            now.entities.contains_key(key) ==> first.entities.contains_key(key) || exists|j: int|
                0 <= j < k && key == identity(#[trigger] inputs[j]),
    ensures
        forall|key: (Seq<char>, Seq<char>)| #[trigger]
            later.entities.contains_key(key) ==> first.entities.contains_key(key) || exists|j: int|
                0 <= j < k + 1 && key == identity(#[trigger] inputs[j]),
{
    lemma_further(first, inputs, k, now);
    assert forall|key: (Seq<char>, Seq<char>)| #[trigger]
        later.entities.contains_key(key) implies first.entities.contains_key(key) || exists|j: int|
        0 <= j < k + 1 && key == identity(#[trigger] inputs[j]) by {
        if !now.entities.contains_key(key) {
            assert(key == identity(inputs[k]));
        }
    }
}

proof fn lemma_further(first: EntityTables, inputs: Seq<EntityInputView>, k: int, now: EntityTables)
    requires
        forall|key: (Seq<char>, Seq<char>)| #[trigger]
            now.entities.contains_key(key) ==> first.entities.contains_key(key) || exists|j: int|
                0 <= j < k && key == identity(#[trigger] inputs[j]),
    ensures
        forall|key: (Seq<char>, Seq<char>)| #[trigger]
            now.entities.contains_key(key) ==> first.entities.contains_key(key) || exists|j: int|
                0 <= j < k + 1 && key == identity(#[trigger] inputs[j]),
{
    assert forall|key: (Seq<char>, Seq<char>)| #[trigger]
        now.entities.contains_key(key) implies first.entities.contains_key(key) || exists|j: int|
        0 <= j < k + 1 && key == identity(#[trigger] inputs[j]) by {
        if !first.entities.contains_key(key) {
            let j = choose|j: int| 0 <= j < k && key == identity(#[trigger] inputs[j]);
            assert(0 <= j < k + 1 && key == identity(inputs[j]));
        }
    }
}

proof fn lemma_run(
    run: EntityRun,
    inputs: Seq<EntityInputView>,
    scope_id: i64,
    source: Seq<char>,
    k: int,
)
    requires
        run.valid(inputs, scope_id, source),
        0 <= k <= run.replies.len(),
    ensures
        kept(run.first(), inputs, run.states[k], run.requests[k], run.tables[k]),
    decreases k,
{
    if k > 0 {
        lemma_run(run, inputs, scope_id, source, k - 1);
        assert(run.steps(k - 1));
        lemma_step(
            run.first(),
            inputs,
            run.states[k - 1],
            run.requests[k - 1],
            run.tables[k - 1],
            run.replies[k - 1],
            run.tables[k],
        );
    }
}

/// In tables without duplicates no creation is refused, and one that finished
/// gives, in the order of the inputs, the id of the one active entity of each
/// input. It keeps the entities and observations that were there, adds those
/// of the inputs and no others, and counts the rows that it added. Of two
/// observations of one entity those with the same digest count as one.
pub proof fn law_entities_are_created_once(
    run: EntityRun,
    inputs: Seq<EntityInputView>,
    scope_id: i64,
    source: Seq<char>,
)
    requires
        run.valid(inputs, scope_id, source),
    ensures
        !(run.end().stage is Refused),
        run.end().stage is Finished ==> {
            let ids = run.end().entity_ids;
            let pending = collected(inputs, ids);
            &&& ids.len() == inputs.len()
            &&& forall|i: int|
                0 <= i < inputs.len() ==> #[trigger] run.last().is_entity(inputs[i], ids[i])
            &&& run.first().entities.submap_of(run.last().entities)
            &&& forall|key: (Seq<char>, Seq<char>)| #[trigger]
                run.last().entities.contains_key(key) <==> run.first().entities.contains_key(key)
                    || exists|i: int|
                    0 <= i < inputs.len() && key == identity(#[trigger] inputs[i])
            &&& run.last().entities.len() == run.first().entities.len() + run.end().inserted
            &&& forall|o: (i64, Seq<char>)| #[trigger]
                run.last().observations.contains(o) <==> run.first().observations.contains(o)
                    || exists|j: int| 0 <= j < pending.len() && o == mark(#[trigger] pending[j])
            &&& run.last().observations.len() == run.first().observations.len()
                + run.observations_inserted()
        },
{
    lemma_run(run, inputs, scope_id, source, run.replies.len() as int);
    if run.end().stage is Finished {
        let ids = run.end().entity_ids;
        let pending = collected(inputs, ids);
        assert forall|i: int| 0 <= i < inputs.len() implies #[trigger] run.last().is_entity(
            inputs[i],
            ids[i],
        ) by {
            assert(run.last().is_entity(inputs[i], run.end().entity_ids[i]));
        }
        assert forall|key: (Seq<char>, Seq<char>)|
            run.first().entities.contains_key(key) || exists|i: int|
                0 <= i < inputs.len() && key == identity(
                    #[trigger] inputs[i],
                ) implies #[trigger] run.last().entities.contains_key(key) by {
            if !run.first().entities.contains_key(key) {
                let i = choose|i: int|
                    0 <= i < inputs.len() && key == identity(#[trigger] inputs[i]);
                assert(run.last().is_entity(inputs[i], ids[i]));
            }
        }
    }
}

/// Creating the same entities again gives the same ids, adds nothing, and
/// leaves the tables as they were.
pub proof fn law_creating_entities_again_changes_nothing(
    one: EntityRun,
    two: EntityRun,
    inputs: Seq<EntityInputView>,
    scope_id: i64,
    source: Seq<char>,
    scope_again: i64,
    again: Seq<char>,
)
    requires
        one.valid(inputs, scope_id, source),
        one.end().stage is Finished,
        two.valid(inputs, scope_again, again),
        two.end().stage is Finished,
        two.first() == one.last(),
    ensures
        two.end().entity_ids == one.end().entity_ids,
        two.end().inserted == 0,
        two.observations_inserted() == 0,
        two.last() == one.last(),
{
    law_entities_are_created_once(one, inputs, scope_id, source);
    law_entities_are_created_once(two, inputs, scope_again, again);
    let a = two.first();
    let b = two.last();
    assert forall|i: int| 0 <= i < inputs.len() implies two.end().entity_ids[i]
        == one.end().entity_ids[i] by {
        assert(a.is_entity(inputs[i], one.end().entity_ids[i]));
        assert(b.is_entity(inputs[i], two.end().entity_ids[i]));
    }
    assert(two.end().entity_ids =~= one.end().entity_ids);
    assert(a.entities =~= b.entities);
    assert(a.observations =~= b.observations);
}

} // verus!
