//! What the creation of relations does to the tables it runs against.
use vstd::prelude::*;
use vstd::utf8::encode_utf8;

use crate::order::sorted_tuples;
use crate::protocol::{fits, ActionView, ReplyView};
use crate::queries::memory_locks::{lock_key, takes_lock};
use crate::queries::memory_relations::{
    fresh_relations, inserts_relation, looks_up_name, looks_up_relation, relation_tuples,
    RelationStage, RelationView, RelationsView, NO_RELATION,
};
use crate::statement::StatementView;

verus! {

/// The active rows that the creation of relations reads and writes, in tables
/// where no two active entities share a name and no two active relations
/// share their endpoints and type.
#[verifier::ext_equal]
pub struct RelationTables {
    /// The active entities: the id of each name.
    pub names: Map<Seq<char>, i64>,
    /// The active relations: the id for each source, target and type.
    pub relations: Map<(i64, i64, Seq<char>), i64>,
}

impl RelationTables {
    /// There are finitely many relations, and no id is negative.
    pub open spec fn wf(self) -> bool {
        &&& self.relations.dom().finite()
        &&& forall|t: (i64, i64, Seq<char>)| #[trigger]
            self.relations.contains_key(t) ==> self.relations[t] >= 0
    }

    /// The ids of the active entities with a name.
    pub open spec fn named(self, name: Seq<char>) -> Seq<i64> {
        if self.names.contains_key(name) {
            seq![self.names[name]]
        } else {
            seq![]
        }
    }

    /// The ids of the active relations with a triple.
    pub open spec fn related(self, t: (i64, i64, Seq<char>)) -> Seq<i64> {
        if self.relations.contains_key(t) {
            seq![self.relations[t]]
        } else {
            seq![]
        }
    }

    /// Whether an input gives a relation: both endpoints are known, and they
    /// differ.
    pub open spec fn resolves(self, x: RelationView) -> bool {
        &&& self.names.contains_key(x.from)
        &&& self.names.contains_key(x.to)
        &&& self.names[x.from] != self.names[x.to]
    }

    /// The triple of an input.
    pub open spec fn triple(self, x: RelationView) -> (i64, i64, Seq<char>) {
        (self.names[x.from], self.names[x.to], x.relation_type)
    }

    /// Whether `id` is the outcome of an input: that of the active relation
    /// with its triple, or -1 where the input gives none.
    pub open spec fn is_outcome(self, x: RelationView, id: i64) -> bool {
        if self.resolves(x) {
            self.relations.contains_key(self.triple(x)) && self.relations[self.triple(x)] == id
        } else {
            id == NO_RELATION
        }
    }
}

/// Whether a statement inserts a relation.
pub open spec fn is_insertion(st: StatementView) -> bool {
    exists|f: i64, t: i64, r: Seq<char>, s: Seq<char>| #[trigger] inserts_relation(f, t, r, s) == st
}

/// Whether a request is answered as the tables stand, and leaves them as it
/// should: a lookup gives the matching rows; an insertion adds one row and
/// gives its id; nothing else changes a row.
pub open spec fn answers(
    before: RelationTables,
    request: ActionView,
    reply: ReplyView,
    after: RelationTables,
) -> bool {
    match request {
        ActionView::Run(st) => {
            &&& forall|n: Seq<char>| #[trigger]
                looks_up_name(n) == st ==> reply == ReplyView::Ids(before.named(n))
            &&& forall|f: i64, t: i64, r: Seq<char>| #[trigger]
                looks_up_relation(f, t, r) == st ==> reply == ReplyView::Ids(
                    before.related((f, t, r)),
                )
            &&& forall|f: i64, t: i64, r: Seq<char>, s: Seq<char>| #[trigger]
                inserts_relation(f, t, r, s) == st ==> reply->Ids_0[0] >= 0 && after
                    == (RelationTables {
                    relations: before.relations.insert((f, t, r), reply->Ids_0[0]),
                    ..before
                })
            &&& !is_insertion(st) ==> after == before
        },
        _ => after == before,
    }
}

/// A creation of relations as it ran: its states, its requests, the answers,
/// and the tables before each answer and after the last.
pub struct RelationRun {
    pub states: Seq<RelationsView>,
    pub requests: Seq<ActionView>,
    pub replies: Seq<ReplyView>,
    pub tables: Seq<RelationTables>,
}

impl RelationRun {
    /// Whether the creation of `inputs` can run so.
    pub open spec fn valid(self, inputs: Seq<RelationView>, source: Seq<char>) -> bool {
        &&& self.states.len() == self.replies.len() + 1
        &&& self.requests.len() == self.replies.len() + 1
        &&& self.tables.len() == self.replies.len() + 1
        &&& self.states[0] == fresh_relations(inputs, source)
        &&& self.requests[0] == ActionView::Begin
        &&& self.tables[0].wf()
        &&& forall|k: int| 0 <= k < self.replies.len() ==> #[trigger] self.steps(k)
    }

    /// Whether state, request and tables `k` lead to the next ones.
    pub open spec fn steps(self, k: int) -> bool {
        &&& fits(self.states[k].awaiting(), self.replies[k])
        &&& (self.states[k + 1], self.requests[k + 1]) == self.states[k].next(self.replies[k])
        &&& answers(self.tables[k], self.requests[k], self.replies[k], self.tables[k + 1])
    }

    /// The tables before the run.
    pub open spec fn first(self) -> RelationTables {
        self.tables[0]
    }

    /// The tables after the run.
    pub open spec fn last(self) -> RelationTables {
        self.tables.last()
    }

    /// The state after the run.
    pub open spec fn end(self) -> RelationsView {
        self.states.last()
    }
}

/// What holds after every answer of a run.
spec fn kept(
    first: RelationTables,
    inputs: Seq<RelationView>,
    v: RelationsView,
    request: ActionView,
    now: RelationTables,
) -> bool {
    let x = inputs[v.at];
    &&& v.wf()
    &&& v.inputs == inputs
    &&& now.wf()
    &&& now.names == first.names
    &&& first.relations.submap_of(now.relations)
    &&& now.relations.len() == first.relations.len() + v.inserted
    &&& forall|j: int|
        0 <= j < v.relation_ids.len() ==> now.is_outcome(inputs[j], #[trigger] v.relation_ids[j])
    &&& forall|t: (i64, i64, Seq<char>)| #[trigger]
        now.relations.contains_key(t) ==> first.relations.contains_key(t) || exists|j: int|
            0 <= j < v.relation_ids.len() && first.resolves(#[trigger] inputs[j]) && t
                == first.triple(inputs[j])
    &&& !(v.stage is Refused)
    &&& match v.stage {
        RelationStage::Locking => request matches ActionView::Run(st) && !is_insertion(st),
        RelationStage::FindingFrom => request == ActionView::Run(looks_up_name(x.from)),
        RelationStage::FindingTo => request == ActionView::Run(looks_up_name(x.to))
            && v.from_ids == now.named(x.from),
        RelationStage::FindingRelation => request == ActionView::Run(
            looks_up_relation(v.from_id, v.to_id, x.relation_type),
        ) && now.resolves(x) && now.triple(x) == (v.from_id, v.to_id, x.relation_type),
        RelationStage::Inserting => request == ActionView::Run(
            inserts_relation(v.from_id, v.to_id, x.relation_type, v.source),
        ) && now.resolves(x) && now.triple(x) == (v.from_id, v.to_id, x.relation_type)
            && !now.relations.contains_key(now.triple(x)),
        _ => !(request is Run),
    }
}

proof fn lemma_statements_differ(n: Seq<char>, f: i64, t: i64, r: Seq<char>, key: (i32, i32))
    ensures
        !is_insertion(looks_up_name(n)),
        !is_insertion(looks_up_relation(f, t, r)),
        !is_insertion(takes_lock(key)),
{
    assert forall|a: i64, b: i64, c: Seq<char>, s: Seq<char>|
        true implies #[trigger] inserts_relation(a, b, c, s).fetch != looks_up_name(n).fetch
        && inserts_relation(a, b, c, s).fetch != looks_up_relation(f, t, r).fetch
        && inserts_relation(a, b, c, s).fetch != takes_lock(key).fetch by {
    }
}

/// Recording an outcome keeps what holds.
proof fn lemma_resolved(
    first: RelationTables,
    inputs: Seq<RelationView>,
    before: RelationTables,
    v: RelationsView,
    now: RelationTables,
    id: i64,
)
    requires
        v.locks == sorted_tuples(relation_tuples(inputs)),
        v.inputs == inputs,
        0 <= v.at < inputs.len(),
        v.relation_ids.len() == v.at,
        0 <= v.inserted <= v.at + 1,
        now.wf(),
        now.names == first.names,
        before.names == first.names,
        before.relations.submap_of(now.relations),
        first.relations.submap_of(now.relations),
        now.relations.len() == first.relations.len() + v.inserted,
        forall|j: int|
            0 <= j < v.relation_ids.len() ==> before.is_outcome(
                inputs[j],
                #[trigger] v.relation_ids[j],
            ),
        now.is_outcome(inputs[v.at], id),
        forall|t: (i64, i64, Seq<char>)| #[trigger]
            before.relations.contains_key(t) ==> first.relations.contains_key(t) || exists|j: int|
                0 <= j < v.relation_ids.len() && first.resolves(#[trigger] inputs[j]) && t
                    == first.triple(inputs[j]),
        forall|t: (i64, i64, Seq<char>)| #[trigger]
            now.relations.contains_key(t) ==> before.relations.contains_key(t) || (first.resolves(
                inputs[v.at],
            ) && t == first.triple(inputs[v.at])),
    ensures
        kept(first, inputs, v.resolved(id).0, v.resolved(id).1, now),
{
    let w = v.resolved(id).0;
    assert(w.relation_ids == v.relation_ids.push(id));
    assert forall|j: int| 0 <= j < w.relation_ids.len() implies now.is_outcome(
        inputs[j],
        #[trigger] w.relation_ids[j],
    ) by {
        if j < v.at {
            assert(before.is_outcome(inputs[j], v.relation_ids[j]));
        }
    }
    assert forall|t: (i64, i64, Seq<char>)| #[trigger]
        now.relations.contains_key(t) implies first.relations.contains_key(t) || exists|j: int|
        0 <= j < w.relation_ids.len() && first.resolves(#[trigger] inputs[j]) && t == first.triple(
            inputs[j],
        ) by {
        if before.relations.contains_key(t) {
            if !first.relations.contains_key(t) {
                let j = choose|j: int|
                    0 <= j < v.relation_ids.len() && first.resolves(#[trigger] inputs[j]) && t
                        == first.triple(inputs[j]);
                assert(0 <= j < w.relation_ids.len() && first.resolves(inputs[j]));
            }
        } else {
            assert(first.resolves(inputs[v.at]));
        }
    }
}

proof fn lemma_step(
    first: RelationTables,
    inputs: Seq<RelationView>,
    v: RelationsView,
    request: ActionView,
    now: RelationTables,
    reply: ReplyView,
    later: RelationTables,
)
    requires
        kept(first, inputs, v, request, now),
        fits(v.awaiting(), reply),
        answers(now, request, reply, later),
    ensures
        kept(first, inputs, v.next(reply).0, v.next(reply).1, later),
{
    let x = inputs[v.at];
    let w = v.next(reply).0;
    match v.stage {
        RelationStage::Opening | RelationStage::Locking => {
            assert(later == now);
            let k = if v.stage is Opening {
                0
            } else {
                v.at + 1
            };
            if k < v.locks.len() {
                lemma_statements_differ(
                    x.from,
                    0,
                    0,
                    x.to,
                    lock_key(encode_utf8("memory:relation:"@), v.locks[k]),
                );
            }
        },
        RelationStage::FindingFrom => {
            lemma_statements_differ(x.from, 0, 0, x.to, (0, 0));
            assert(later == now);
        },
        RelationStage::FindingTo => {
            lemma_statements_differ(x.to, 0, 0, x.to, (0, 0));
            assert(later == now);
            assert(reply == ReplyView::Ids(now.named(x.to)));
            if !now.resolves(x) {
                lemma_resolved(first, inputs, now, v, later, NO_RELATION);
            }
        },
        RelationStage::FindingRelation => {
            lemma_statements_differ(x.to, v.from_id, v.to_id, x.relation_type, (0, 0));
            assert(later == now);
            let t = now.triple(x);
            assert(reply == ReplyView::Ids(now.related(t)));
            if now.relations.contains_key(t) {
                lemma_resolved(first, inputs, now, v, later, now.relations[t]);
            }
        },
        RelationStage::Inserting => {
            let t = now.triple(x);
            let id = reply->Ids_0[0];
            assert(later.relations == now.relations.insert(t, id));
            assert(later.relations.dom() =~= now.relations.dom().insert(t));
            assert(later.wf());
            let u = RelationsView { inserted: v.inserted + 1, ..v };
            lemma_resolved(first, inputs, now, u, later, id);
        },
        _ => {
            assert(later == now);
        },
    }
}

proof fn lemma_run(run: RelationRun, inputs: Seq<RelationView>, source: Seq<char>, k: int)
    requires
        run.valid(inputs, source),
        0 <= k <= run.replies.len(),
    ensures
        kept(run.first(), inputs, run.states[k], run.requests[k], run.tables[k]),
    decreases k,
{
    if k > 0 {
        lemma_run(run, inputs, source, k - 1);
        assert(run.steps(k - 1));
        lemma_step(
            run.first(),
            inputs,
            run.states[k - 1],
            run.requests[k - 1],
            run.tables[k - 1],
            run.replies[k - 1],
            run.tables[k],
        );
    }
}

/// In tables without duplicates no creation is refused, and one that finished
/// gives, in the order of the inputs, the id of the one active relation of
/// each input, and -1 exactly where an endpoint is unknown or both are the
/// same entity. It keeps the relations that were there, counts the rows that
/// it added, and changes nothing else.
pub proof fn law_relations_are_created_once(
    run: RelationRun,
    inputs: Seq<RelationView>,
    source: Seq<char>,
)
    requires
        run.valid(inputs, source),
    ensures
        !(run.end().stage is Refused),
        run.last().names == run.first().names,
        run.first().relations.submap_of(run.last().relations),
        run.last().relations.len() == run.first().relations.len() + run.end().inserted,
        run.end().stage is Finished ==> {
            let ids = run.end().relation_ids;
            &&& ids.len() == inputs.len()
            &&& forall|i: int|
                0 <= i < inputs.len() ==> #[trigger] run.last().is_outcome(inputs[i], ids[i])
            &&& forall|i: int|
                0 <= i < inputs.len() ==> (#[trigger] ids[i] == NO_RELATION
                    <==> !run.first().resolves(inputs[i]))
        },
{
    lemma_run(run, inputs, source, run.replies.len() as int);
    if run.end().stage is Finished {
        let ids = run.end().relation_ids;
        assert forall|i: int| 0 <= i < inputs.len() implies #[trigger] run.last().is_outcome(
            inputs[i],
            ids[i],
        ) by {
            assert(run.last().is_outcome(inputs[i], run.end().relation_ids[i]));
        }
        assert forall|i: int| 0 <= i < inputs.len() implies (#[trigger] ids[i] == NO_RELATION
            <==> !run.first().resolves(inputs[i])) by {
            assert(run.last().is_outcome(inputs[i], ids[i]));
            if run.last().resolves(inputs[i]) {
                assert(run.last().relations.contains_key(run.last().triple(inputs[i])));
            }
        }
    }
}

/// Creating the same relations again gives the same ids, adds nothing, and
/// leaves the tables as they were.
pub proof fn law_creating_relations_again_changes_nothing(
    one: RelationRun,
    two: RelationRun,
    inputs: Seq<RelationView>,
    source: Seq<char>,
    again: Seq<char>,
)
    requires
        one.valid(inputs, source),
        one.end().stage is Finished,
        two.valid(inputs, again),
        two.end().stage is Finished,
        two.first() == one.last(),
    ensures
        two.end().relation_ids == one.end().relation_ids,
        two.end().inserted == 0,
        two.last() == one.last(),
{
    law_relations_are_created_once(one, inputs, source);
    law_relations_are_created_once(two, inputs, again);
    lemma_run(two, inputs, again, two.replies.len() as int);
    let a = two.first();
    let b = two.last();
    assert forall|i: int| 0 <= i < inputs.len() implies two.end().relation_ids[i]
        == one.end().relation_ids[i] by {
        assert(a.is_outcome(inputs[i], one.end().relation_ids[i]));
        assert(b.is_outcome(inputs[i], two.end().relation_ids[i]));
        if a.resolves(inputs[i]) {
            assert(a.relations.contains_key(a.triple(inputs[i])));
        }
    }
    assert(two.end().relation_ids =~= one.end().relation_ids);
    assert forall|t: (i64, i64, Seq<char>)| #[trigger]
        b.relations.contains_key(t) implies a.relations.contains_key(t) by {
        if !a.relations.contains_key(t) {
            let j = choose|j: int|
                0 <= j < two.end().relation_ids.len() && a.resolves(#[trigger] inputs[j]) && t
                    == a.triple(inputs[j]);
            assert(a.is_outcome(inputs[j], one.end().relation_ids[j]));
        }
    }
    assert(a.relations =~= b.relations);
}

} // verus!
