//! Creating and deleting relations of the memory graph.
use vstd::prelude::*;

use crate::meaning::{opens, takes};
use crate::order::{sort_tuples, sorted_tuples, tuples};
use crate::protocol::{
    awaited, fits, statement_views, Action, ActionView, Awaiting, ProtocolError, Reply, ReplyView,
};
use crate::queries::memory_entities::lock_tuple;
use crate::queries::memory_locks::{lock_key, takes_lock};
use crate::queries::memory_observations::ACTIVE_ENTITIES_BY_NAME_SQL;
use crate::queries::texts::memory_relations::law_deletes_relation_stands_for_its_values;
use crate::statement::{
    executes, fetches_all, fetches_one, texts, BindView, Fetch, Statement, StatementView,
};
use crate::text::{blank, decimal_text, lemma_trimmed_ends, trim, trimmed, unsigned_decimal};

use vstd::utf8::encode_utf8;

verus! {

pub const ACTIVE_RELATION_IDS_SQL: &'static str = "SELECT id FROM memory_relations
             WHERE from_entity_id = $1 AND to_entity_id = $2 AND relation_type = $3
               AND valid_to IS NULL
             ORDER BY id";

pub const INSERT_RELATION_SQL: &'static str = "INSERT INTO memory_relations
                (from_entity_id, to_entity_id, relation_type, source)
             VALUES ($1, $2, $3, $4::memory_source)
             RETURNING id";

pub const DELETE_RELATION_SQL: &'static str = "UPDATE memory_relations r
                SET valid_to = NOW()
              FROM memory_entities a, memory_entities b
              WHERE r.from_entity_id = a.id
                AND r.to_entity_id = b.id
                AND a.name = $1 AND a.valid_to IS NULL
                AND b.name = $2 AND b.valid_to IS NULL
                AND r.relation_type = $3
                AND r.valid_to IS NULL";

/// The longest relation field that is stored, in UTF-8 bytes.
pub const MAX_MEMORY_RELATION_FIELD_BYTES: usize = 256;

/// The id recorded for an input that gives no relation.
pub const NO_RELATION: i64 = -1;

/// A relation to create or delete, named by its endpoints.
#[derive(Debug, Clone)]
pub struct NewRelationInput {
    pub from: String,
    pub to: String,
    pub relation_type: String,
}

/// A relation whose fields are trimmed, not blank and short enough.
#[derive(Debug)]
pub struct NormalizedRelationInput {
    pub from: String,
    pub to: String,
    pub relation_type: String,
}

/// A relation triple as a mathematical value.
pub struct RelationView {
    pub from: Seq<char>,
    pub to: Seq<char>,
    pub relation_type: Seq<char>,
}

impl View for NewRelationInput {
    type V = RelationView;

    open spec fn view(&self) -> RelationView {
        RelationView { from: self.from@, to: self.to@, relation_type: self.relation_type@ }
    }
}

/// Every field of the model stands for the field of the same name.
pub proof fn law_new_relation_input_is_modelled_by_its_fields(input: NewRelationInput)
    ensures
        input@.from == input.from@,
        input@.to == input.to@,
        input@.relation_type == input.relation_type@,
{
}

impl View for NormalizedRelationInput {
    type V = RelationView;

    open spec fn view(&self) -> RelationView {
        RelationView { from: self.from@, to: self.to@, relation_type: self.relation_type@ }
    }
}

/// Every field of the model stands for the field of the same name.
pub proof fn law_normalized_relation_input_is_modelled_by_its_fields(input: NormalizedRelationInput)
    ensures
        input@.from == input.from@,
        input@.to == input.to@,
        input@.relation_type == input.relation_type@,
{
}

/// The values of a list of relations.
pub open spec fn relation_views(v: Seq<NewRelationInput>) -> Seq<RelationView> {
    v.map_values(|x: NewRelationInput| x@)
}

/// The values of a list of normalized relations.
pub open spec fn normalized_views(v: Seq<NormalizedRelationInput>) -> Seq<RelationView> {
    v.map_values(|x: NormalizedRelationInput| x@)
}

/// What creating relations did.
#[derive(Debug, Clone)]
pub struct MemoryCreateRelationsResult {
    /// One id per input, in input order; -1 where an endpoint is unknown or
    /// the relation would join an entity to itself.
    pub relation_ids: Vec<i64>,
    pub relations_inserted: usize,
}

/// A trimmed field, or the message that refuses it.
pub open spec fn normalized_field(value: Seq<char>, field: Seq<char>) -> Result<
    Seq<char>,
    Seq<char>,
> {
    if blank(value) {
        Err(field + " must not be blank"@)
    } else if encode_utf8(trimmed(value)).len() > MAX_MEMORY_RELATION_FIELD_BYTES {
        Err(
            field + " must be at most "@ + decimal_text(MAX_MEMORY_RELATION_FIELD_BYTES as int)
                + " bytes"@,
        )
    } else {
        Ok(trimmed(value))
    }
}

/// A normalized relation, or the message of its first bad field.
pub open spec fn normalized_relation(x: RelationView) -> Result<RelationView, Seq<char>> {
    match normalized_field(x.from, "relation from"@) {
        Err(e) => Err(e),
        Ok(from) => match normalized_field(x.to, "relation to"@) {
            Err(e) => Err(e),
            Ok(to) => match normalized_field(x.relation_type, "relation_type"@) {
                Err(e) => Err(e),
                Ok(relation_type) => Ok(RelationView { from, to, relation_type }),
            },
        },
    }
}

/// All relations normalized, or the message of the first bad one.
pub open spec fn normalized_relations(v: Seq<RelationView>) -> Result<
    Seq<RelationView>,
    Seq<char>,
>
    decreases v.len(),
{
    if v.len() == 0 {
        Ok(seq![])
    } else {
        match normalized_relations(v.drop_last()) {
            Err(e) => Err(e),
            Ok(front) => match normalized_relation(v.last()) {
                Err(e) => Err(e),
                Ok(x) => Ok(front.push(x)),
            },
        }
    }
}

/// A relation field as a result value.
pub open spec fn field_result(r: Result<String, ProtocolError>) -> Result<Seq<char>, Seq<char>> {
    match r {
        Ok(s) => Ok(s@),
        Err(e) => Err(e@),
    }
}

/// A normalized relation as a result value.
pub open spec fn relation_result(r: Result<NormalizedRelationInput, ProtocolError>) -> Result<
    RelationView,
    Seq<char>,
> {
    match r {
        Ok(x) => Ok(x@),
        Err(e) => Err(e@),
    }
}

/// Trims a field, refusing a blank and an overlong one.
pub fn normalize_relation_field(value: &str, field: &str) -> (r: Result<String, ProtocolError>)
    ensures
        field_result(r) == normalized_field(value@, field@),
{
    proof {
        lemma_trimmed_ends(value@);
    }
    let t = trim(value);
    if t.as_str().is_empty() {
        let mut m = String::from_str(field);
        m.append(" must not be blank");
        return Err(ProtocolError { message: m });
    }
    if t.as_str().as_bytes().len() > MAX_MEMORY_RELATION_FIELD_BYTES {
        let mut m = String::from_str(field);
        m.append(" must be at most ");
        m.append(unsigned_decimal(MAX_MEMORY_RELATION_FIELD_BYTES as u128).as_str());
        m.append(" bytes");
        return Err(ProtocolError { message: m });
    }
    Ok(t)
}

/// Normalizes the three fields of a relation.
pub fn normalize_new_relation_input(input: &NewRelationInput) -> (r: Result<
    NormalizedRelationInput,
    ProtocolError,
>)
    ensures
        relation_result(r) == normalized_relation(input@),
{
    let from = match normalize_relation_field(input.from.as_str(), "relation from") {
        Ok(s) => s,
        Err(e) => return Err(e),
    };
    let to = match normalize_relation_field(input.to.as_str(), "relation to") {
        Ok(s) => s,
        Err(e) => return Err(e),
    };
    let relation_type = match normalize_relation_field(
        input.relation_type.as_str(),
        "relation_type",
    ) {
        Ok(s) => s,
        Err(e) => return Err(e),
    };
    Ok(NormalizedRelationInput { from, to, relation_type })
}

/// Normalizing a normalized relation changes nothing.
pub proof fn law_normalizing_is_idempotent(x: RelationView)
    requires
        normalized_relation(x) is Ok,
    ensures
        normalized_relation(normalized_relation(x)->Ok_0) == normalized_relation(x),
{
    crate::text::law_trimming_is_idempotent(x.from);
    crate::text::law_trimming_is_idempotent(x.to);
    crate::text::law_trimming_is_idempotent(x.relation_type);
    lemma_trimmed_ends(x.from);
    lemma_trimmed_ends(x.to);
    lemma_trimmed_ends(x.relation_type);
    lemma_trimmed_ends(trimmed(x.from));
    lemma_trimmed_ends(trimmed(x.to));
    lemma_trimmed_ends(trimmed(x.relation_type));
}

/// The lock tuples of a list of relations.
pub open spec fn relation_tuples(v: Seq<RelationView>) -> Seq<Seq<Seq<char>>> {
    v.map_values(|x: RelationView| seq![x.from, x.to, x.relation_type])
}

/// Looking up the active entities with a name.
pub open spec fn looks_up_name(name: Seq<char>) -> StatementView {
    fetches_all(ACTIVE_ENTITIES_BY_NAME_SQL@, seq![BindView::Text(name)])
}

/// Looking up the active relations with given endpoints and type.
pub open spec fn looks_up_relation(
    from_id: i64,
    to_id: i64,
    relation_type: Seq<char>,
) -> StatementView {
    fetches_all(
        ACTIVE_RELATION_IDS_SQL@,
        seq![BindView::BigInt(from_id), BindView::BigInt(to_id), BindView::Text(relation_type)],
    )
}

/// Inserting a relation.
pub open spec fn inserts_relation(
    from_id: i64,
    to_id: i64,
    relation_type: Seq<char>,
    source: Seq<char>,
) -> StatementView {
    fetches_one(
        INSERT_RELATION_SQL@,
        seq![
            BindView::BigInt(from_id),
            BindView::BigInt(to_id),
            BindView::Text(relation_type),
            BindView::Text(source),
        ],
    )
}

/// The message for an endpoint name that several active entities share.
pub open spec fn ambiguous_endpoint(name: Seq<char>, rows: nat) -> Seq<char> {
    "ambiguous memory relation endpoint name '"@ + name + "' matched "@ + decimal_text(
        rows as int,
    ) + " active entities; use a unique entity name"@
}

/// The message for a relation that several active rows share.
pub open spec fn ambiguous_relation(x: RelationView, rows: nat) -> Seq<char> {
    "ambiguous active memory relation ('"@ + x.from + "', '"@ + x.to + "', '"@ + x.relation_type
        + "') matched "@ + decimal_text(rows as int)
        + " rows; repair duplicate active relations"@
}

fn ambiguous_endpoint_message(name: &str, rows: usize) -> (r: String)
    ensures
        r@ == ambiguous_endpoint(name@, rows as nat),
{
    let mut m = String::from_str("ambiguous memory relation endpoint name '");
    m.append(name);
    m.append("' matched ");
    m.append(unsigned_decimal(rows as u128).as_str());
    m.append(" active entities; use a unique entity name");
    m
}

fn ambiguous_relation_message(x: &NormalizedRelationInput, rows: usize) -> (r: String)
    ensures
        r@ == ambiguous_relation(x@, rows as nat),
{
    let mut m = String::from_str("ambiguous active memory relation ('");
    m.append(x.from.as_str());
    m.append("', '");
    m.append(x.to.as_str());
    m.append("', '");
    m.append(x.relation_type.as_str());
    m.append("') matched ");
    m.append(unsigned_decimal(rows as u128).as_str());
    m.append(" rows; repair duplicate active relations");
    m
}

/// Where the creation of a list of relations stands.
#[derive(Debug, Clone, Copy, PartialEq, Eq, Structural)]
pub enum RelationStage {
    Opening,
    Locking,
    FindingFrom,
    FindingTo,
    FindingRelation,
    Inserting,
    Committing,
    Finished,
    Refused,
}

/// Creates relations between entities named by their endpoints, in one
/// transaction. An active relation with the same triple is used again; an
/// unknown endpoint and a relation of an entity to itself give -1; an
/// ambiguous endpoint or relation refuses the request.
#[derive(Debug)]
pub struct RelationCreation {
    pub inputs: Vec<NormalizedRelationInput>,
    pub source: String,
    pub locks: Vec<Vec<String>>,
    pub stage: RelationStage,
    pub at: usize,
    /// The entities that carry the source name of the input at hand.
    pub from_ids: Vec<i64>,
    pub from_id: i64,
    pub to_id: i64,
    pub relation_ids: Vec<i64>,
    pub inserted: usize,
}

/// The state of a [`RelationCreation`], as a mathematical value.
#[verifier::ext_equal]
pub struct RelationsView {
    pub inputs: Seq<RelationView>,
    pub source: Seq<char>,
    pub locks: Seq<Seq<Seq<char>>>,
    pub stage: RelationStage,
    pub at: int,
    pub from_ids: Seq<i64>,
    pub from_id: i64,
    pub to_id: i64,
    pub relation_ids: Seq<i64>,
    pub inserted: int,
}

impl View for RelationCreation {
    type V = RelationsView;

    open spec fn view(&self) -> RelationsView {
        RelationsView {
            inputs: normalized_views(self.inputs@),
            source: self.source@,
            locks: tuples(self.locks@),
            stage: self.stage,
            at: self.at as int,
            from_ids: self.from_ids@,
            from_id: self.from_id,
            to_id: self.to_id,
            relation_ids: self.relation_ids@,
            inserted: self.inserted as int,
        }
    }
}

/// Every field of the model stands for the field of the same name.
pub proof fn law_relation_creation_is_modelled_by_its_fields(creation: RelationCreation)
    ensures
        creation@.inputs == normalized_views(creation.inputs@),
        creation@.source == creation.source@,
        creation@.locks == tuples(creation.locks@),
        creation@.stage == creation.stage,
        creation@.at == creation.at as int,
        creation@.from_ids == creation.from_ids@,
        creation@.from_id == creation.from_id,
        creation@.to_id == creation.to_id,
        creation@.relation_ids == creation.relation_ids@,
        creation@.inserted == creation.inserted as int,
{
}

impl RelationsView {
    /// Continues with input `k`.
    pub open spec fn finding(self, k: int) -> (RelationsView, ActionView) {
        if k < self.inputs.len() {
            (
                RelationsView { stage: RelationStage::FindingFrom, at: k, ..self },
                ActionView::Run(looks_up_name(self.inputs[k].from)),
            )
        } else {
            (
                RelationsView { stage: RelationStage::Committing, at: k, ..self },
                ActionView::Commit,
            )
        }
    }

    /// Continues with lock `k`.
    pub open spec fn locking(self, k: int) -> (RelationsView, ActionView) {
        if k < self.locks.len() {
            (
                RelationsView { stage: RelationStage::Locking, at: k, ..self },
                ActionView::Run(
                    takes_lock(lock_key(encode_utf8("memory:relation:"@), self.locks[k])),
                ),
            )
        } else {
            self.finding(0)
        }
    }

    /// Records the outcome of the input at hand and continues.
    pub open spec fn resolved(self, id: i64) -> (RelationsView, ActionView) {
        (RelationsView { relation_ids: self.relation_ids.push(id), ..self }).finding(self.at + 1)
    }

    /// Refuses the request.
    pub open spec fn refused(self, message: Seq<char>) -> (RelationsView, ActionView) {
        (
            RelationsView { stage: RelationStage::Refused, ..self },
            ActionView::Refuse(message),
        )
    }

    /// Decides from the entities that carry the two endpoint names.
    pub open spec fn endpoints(self, to_ids: Seq<i64>) -> (RelationsView, ActionView) {
        let x = self.inputs[self.at];
        if self.from_ids.len() == 0 {
            self.resolved(NO_RELATION)
        } else if self.from_ids.len() > 1 {
            self.refused(ambiguous_endpoint(x.from, self.from_ids.len()))
        } else if to_ids.len() == 0 {
            self.resolved(NO_RELATION)
        } else if to_ids.len() > 1 {
            self.refused(ambiguous_endpoint(x.to, to_ids.len()))
        } else if self.from_ids[0] == to_ids[0] {
            self.resolved(NO_RELATION)
        } else {
            (
                RelationsView {
                    stage: RelationStage::FindingRelation,
                    from_id: self.from_ids[0],
                    to_id: to_ids[0],
                    ..self
                },
                ActionView::Run(looks_up_relation(self.from_ids[0], to_ids[0], x.relation_type)),
            )
        }
    }

    /// Decides from the active relations with the same triple.
    pub open spec fn existing(self, ids: Seq<i64>) -> (RelationsView, ActionView) {
        let x = self.inputs[self.at];
        if ids.len() == 1 {
            self.resolved(ids[0])
        } else if ids.len() == 0 {
            (
                RelationsView { stage: RelationStage::Inserting, ..self },
                ActionView::Run(
                    inserts_relation(self.from_id, self.to_id, x.relation_type, self.source),
                ),
            )
        } else {
            self.refused(ambiguous_relation(x, ids.len()))
        }
    }

    /// What follows an answer.
    pub open spec fn next(self, reply: ReplyView) -> (RelationsView, ActionView) {
        match (self.stage, reply) {
            (RelationStage::Opening, _) => self.locking(0),
            (RelationStage::Locking, _) => self.locking(self.at + 1),
            (RelationStage::FindingFrom, ReplyView::Ids(ids)) => (
                RelationsView { stage: RelationStage::FindingTo, from_ids: ids, ..self },
                ActionView::Run(looks_up_name(self.inputs[self.at].to)),
            ),
            (RelationStage::FindingTo, ReplyView::Ids(ids)) => self.endpoints(ids),
            (RelationStage::FindingRelation, ReplyView::Ids(ids)) => self.existing(ids),
            (RelationStage::Inserting, ReplyView::Ids(ids)) => (RelationsView {
                inserted: self.inserted + 1,
                ..self
            }).resolved(ids[0]),
            (RelationStage::Committing, _) => (
                RelationsView { stage: RelationStage::Finished, ..self },
                ActionView::Done,
            ),
            _ => (self, ActionView::Done),
        }
    }

    /// What every reachable state satisfies.
    pub open spec fn wf(self) -> bool {
        &&& self.locks == sorted_tuples(relation_tuples(self.inputs))
        &&& 0 <= self.at
        &&& 0 <= self.inserted <= self.relation_ids.len() <= self.inputs.len()
        &&& self.stage is Opening || self.stage is Locking ==> self.relation_ids.len() == 0
        &&& self.stage is Locking ==> self.at < self.locks.len()
        &&& self.stage is FindingFrom || self.stage is FindingTo || self.stage is FindingRelation
            || self.stage is Inserting || self.stage is Refused ==> self.at < self.inputs.len()
            && self.relation_ids.len() == self.at
        &&& self.stage is FindingRelation || self.stage is Inserting ==> self.from_id
            != self.to_id
        &&& self.stage is Committing || self.stage is Finished ==> self.relation_ids.len()
            == self.inputs.len()
    }

    /// The shape of answer that is awaited.
    pub open spec fn awaiting(self) -> Awaiting {
        match self.stage {
            RelationStage::Opening => Awaiting::Ready,
            RelationStage::Locking => Awaiting::Affected,
            RelationStage::FindingFrom => Awaiting::Many,
            RelationStage::FindingTo => Awaiting::Many,
            RelationStage::FindingRelation => Awaiting::Many,
            RelationStage::Inserting => Awaiting::One,
            RelationStage::Committing => Awaiting::Ready,
            RelationStage::Finished => Awaiting::Nothing,
            RelationStage::Refused => Awaiting::Nothing,
        }
    }
}

/// A creation before its first answer.
pub open spec fn fresh_relations(inputs: Seq<RelationView>, source: Seq<char>) -> RelationsView {
    RelationsView {
        inputs,
        source,
        locks: sorted_tuples(relation_tuples(inputs)),
        stage: RelationStage::Opening,
        at: 0,
        from_ids: seq![],
        from_id: 0,
        to_id: 0,
        relation_ids: seq![],
        inserted: 0,
    }
}

/// Prepares the creation of `inputs`; the first request opens the
/// transaction. A field that cannot be normalized refuses the whole list
/// before anything is sent.
pub fn memory_create_relations_detailed(inputs: &[NewRelationInput], source: &str) -> (r: Result<
    (RelationCreation, Action),
    ProtocolError,
>)
    ensures
        match (r, normalized_relations(relation_views(inputs@))) {
            (Ok((m, a)), Ok(v)) => {
                &&& m@ == fresh_relations(v, source@)
                &&& a@ == ActionView::Begin
                &&& m@.wf()
                &&& awaited(a@) == m@.awaiting()
            },
            (Err(e), Err(message)) => e@ == message,
            _ => false,
        },
{
    let ghost all = relation_views(inputs@);
    let mut out: Vec<NormalizedRelationInput> = Vec::new();
    let mut keys: Vec<Vec<String>> = Vec::new();
    let mut i: usize = 0;
    assert(all.take(0) =~= seq![]);
    assert(normalized_views(out@) =~= seq![]);
    while i < inputs.len()
        invariant
            i <= inputs.len(),
            all == relation_views(inputs@),
            normalized_relations(all.take(i as int)) == Ok::<Seq<RelationView>, Seq<char>>(
                normalized_views(out@),
            ),
            out.len() == i,
            keys.len() == i,
            forall|j: int|
                0 <= j < i ==> texts(#[trigger] keys@[j]@) == seq![
                    out@[j].from@,
                    out@[j].to@,
                    out@[j].relation_type@,
                ],
        decreases inputs.len() - i,
    {
        assert(all[i as int] == inputs@[i as int]@);
        assert(all.take(i + 1).drop_last() =~= all.take(i as int));
        match normalize_new_relation_input(&inputs[i]) {
            Ok(x) => {
                let key: Vec<String> = vec![
                    x.from.clone(),
                    x.to.clone(),
                    x.relation_type.clone(),
                ];
                assert(texts(key@) =~= seq![x.from@, x.to@, x.relation_type@]);
                keys.push(key);
                let ghost before = out@;
                out.push(x);
                assert(normalized_views(out@) =~= normalized_views(before).push(x@));
            },
            Err(e) => {
                proof {
                    lemma_first_error(all, i + 1);
                }
                return Err(e);
            },
        }
        i = i + 1;
    }
    assert(all.take(i as int) =~= all);
    assert(tuples(keys@) =~= relation_tuples(normalized_views(out@)));
    let m = RelationCreation {
        inputs: out,
        source: String::from_str(source),
        locks: sort_tuples(keys),
        stage: RelationStage::Opening,
        at: 0,
        from_ids: Vec::new(),
        from_id: 0,
        to_id: 0,
        relation_ids: Vec::new(),
        inserted: 0,
    };
    Ok((m, Action::Begin))
}

impl RelationCreation {
    fn finding(&mut self, k: usize) -> (r: Action)
        requires
            k <= old(self).inputs.len(),
            old(self)@.locks == sorted_tuples(relation_tuples(old(self)@.inputs)),
            0 <= old(self)@.inserted <= old(self)@.relation_ids.len(),
            old(self)@.relation_ids.len() == k,
        ensures
            (final(self)@, r@) == old(self)@.finding(k as int),
            final(self)@.wf(),
            awaited(r@) == final(self)@.awaiting(),
    {
        self.at = k;
        if k < self.inputs.len() {
            self.stage = RelationStage::FindingFrom;
            assert(self@.inputs[k as int] == self.inputs@[k as int]@);
            Action::Run(
                Statement::all(ACTIVE_ENTITIES_BY_NAME_SQL).text(self.inputs[k].from.as_str()),
            )
        } else {
            self.stage = RelationStage::Committing;
            Action::Commit
        }
    }

    fn locking(&mut self, k: usize) -> (r: Action)
        requires
            k <= old(self).locks.len(),
            old(self)@.locks == sorted_tuples(relation_tuples(old(self)@.inputs)),
            old(self)@.inserted == 0,
            old(self)@.relation_ids.len() == 0,
        ensures
            (final(self)@, r@) == old(self)@.locking(k as int),
            final(self)@.wf(),
            awaited(r@) == final(self)@.awaiting(),
    {
        if k < self.locks.len() {
            self.at = k;
            self.stage = RelationStage::Locking;
            assert(tuples(self.locks@)[k as int] == texts(self.locks@[k as int]@));
            Action::Run(lock_tuple("memory:relation:", &self.locks[k]))
        } else {
            self.finding(0)
        }
    }

    fn resolved(&mut self, id: i64) -> (r: Action)
        requires
            old(self).at < old(self).inputs.len(),
            old(self)@.locks == sorted_tuples(relation_tuples(old(self)@.inputs)),
            0 <= old(self)@.inserted <= old(self)@.at + 1,
            old(self)@.relation_ids.len() == old(self)@.at,
        ensures
            (final(self)@, r@) == old(self)@.resolved(id),
            final(self)@.wf(),
            awaited(r@) == final(self)@.awaiting(),
    {
        self.relation_ids.push(id);
        let k: usize = self.at + 1;
        self.finding(k)
    }

    fn endpoints(&mut self, to_ids: &Vec<i64>) -> (r: Action)
        requires
            old(self)@.wf(),
            old(self).stage is FindingTo,
        ensures
            (final(self)@, r@) == old(self)@.endpoints(to_ids@),
            final(self)@.wf(),
            awaited(r@) == final(self)@.awaiting(),
    {
        assert(self.at < self.inputs.len());
        assert(self@.inputs[self.at as int] == self.inputs@[self.at as int]@);
        if self.from_ids.len() == 0 {
            return self.resolved(NO_RELATION);
        }
        if self.from_ids.len() > 1 {
            self.stage = RelationStage::Refused;
            return Action::Refuse(
                ambiguous_endpoint_message(self.inputs[self.at].from.as_str(), self.from_ids.len()),
            );
        }
        if to_ids.len() == 0 {
            return self.resolved(NO_RELATION);
        }
        if to_ids.len() > 1 {
            self.stage = RelationStage::Refused;
            return Action::Refuse(
                ambiguous_endpoint_message(self.inputs[self.at].to.as_str(), to_ids.len()),
            );
        }
        let from_id: i64 = self.from_ids[0];
        let to_id: i64 = to_ids[0];
        if from_id == to_id {
            return self.resolved(NO_RELATION);
        }
        self.stage = RelationStage::FindingRelation;
        self.from_id = from_id;
        self.to_id = to_id;
        Action::Run(
            Statement::all(ACTIVE_RELATION_IDS_SQL)
                .int8(from_id)
                .int8(to_id)
                .text(self.inputs[self.at].relation_type.as_str()),
        )
    }

    fn existing(&mut self, ids: &Vec<i64>) -> (r: Action)
        requires
            old(self)@.wf(),
            old(self).stage is FindingRelation,
        ensures
            (final(self)@, r@) == old(self)@.existing(ids@),
            final(self)@.wf(),
            awaited(r@) == final(self)@.awaiting(),
    {
        assert(self.at < self.inputs.len());
        assert(self@.inputs[self.at as int] == self.inputs@[self.at as int]@);
        if ids.len() == 1 {
            self.resolved(ids[0])
        } else if ids.len() == 0 {
            self.stage = RelationStage::Inserting;
            Action::Run(
                Statement::one(INSERT_RELATION_SQL)
                    .int8(self.from_id)
                    .int8(self.to_id)
                    .text(self.inputs[self.at].relation_type.as_str())
                    .text(self.source.as_str()),
            )
        } else {
            self.stage = RelationStage::Refused;
            Action::Refuse(ambiguous_relation_message(&self.inputs[self.at], ids.len()))
        }
    }

    /// Takes the answer to the last request and gives the next.
    pub fn step(&mut self, reply: Reply) -> (r: Action)
        requires
            old(self)@.wf(),
            fits(old(self)@.awaiting(), reply@),
        ensures
            (final(self)@, r@) == old(self)@.next(reply@),
            final(self)@.wf(),
            awaited(r@) == final(self)@.awaiting(),
    {
        match (self.stage, reply) {
            (RelationStage::Opening, _) => self.locking(0),
            (RelationStage::Locking, _) => {
                assert(self.at < self.locks.len());
                let k: usize = self.at + 1;
                self.locking(k)
            },
            (RelationStage::FindingFrom, Reply::Ids(ids)) => {
                self.from_ids = ids;
                self.stage = RelationStage::FindingTo;
                assert(self.at < self.inputs.len());
                assert(self@.inputs[self.at as int] == self.inputs@[self.at as int]@);
                Action::Run(
                    Statement::all(ACTIVE_ENTITIES_BY_NAME_SQL).text(
                        self.inputs[self.at].to.as_str(),
                    ),
                )
            },
            (RelationStage::FindingTo, Reply::Ids(ids)) => self.endpoints(&ids),
            (RelationStage::FindingRelation, Reply::Ids(ids)) => self.existing(&ids),
            (RelationStage::Inserting, Reply::Ids(ids)) => {
                assert(self.inserted < self.inputs.len());
                self.inserted = self.inserted + 1;
                self.resolved(ids[0])
            },
            (RelationStage::Committing, _) => {
                self.stage = RelationStage::Finished;
                Action::Done
            },
            _ => Action::Done,
        }
    }

    /// The result of a finished creation.
    pub fn result(self) -> (r: MemoryCreateRelationsResult)
        requires
            self@.wf(),
            self.stage is Finished,
        ensures
            r.relation_ids@ == self@.relation_ids,
            r.relations_inserted == self@.inserted,
            r.relation_ids.len() == self@.inputs.len(),
            r.relations_inserted <= r.relation_ids.len(),
    {
        MemoryCreateRelationsResult {
            relation_ids: self.relation_ids,
            relations_inserted: self.inserted,
        }
    }
}

proof fn lemma_first_error(v: Seq<RelationView>, n: int)
    requires
        0 <= n <= v.len(),
        normalized_relations(v.take(n)) is Err,
    ensures
        normalized_relations(v) == normalized_relations(v.take(n)),
    decreases v.len(),
{
    if n < v.len() {
        assert(v.drop_last().take(n) =~= v.take(n));
        lemma_first_error(v.drop_last(), n);
    } else {
        assert(v.take(n) =~= v);
    }
}

/// Whatever the database answers, a creation stays well formed, never
/// inserts a relation of an entity to itself, and asks for the commit only
/// when every input has its outcome.
pub proof fn law_relations_commit_last(v: RelationsView, reply: ReplyView)
    requires
        v.wf(),
        fits(v.awaiting(), reply),
    ensures
        v.next(reply).0.wf(),
        awaited(v.next(reply).1) == v.next(reply).0.awaiting(),
        v.next(reply).1 is Commit ==> v.next(reply).0.relation_ids.len() == v.inputs.len(),
        v.next(reply).0.stage is Inserting ==> v.next(reply).0.from_id != v.next(reply).0.to_id,
        v.next(reply).0.inserted <= v.next(reply).0.relation_ids.len(),
{
}

/// Deleting the active relation with a triple of names.
pub open spec fn deletes_relation(x: RelationView) -> StatementView {
    executes(
        DELETE_RELATION_SQL@,
        seq![BindView::Text(x.from), BindView::Text(x.to), BindView::Text(x.relation_type)],
    )
}

/// Ends the validity of the active relations with a triple of names.
pub fn delete_relation(input: &NewRelationInput) -> (st: Statement)
    ensures
        st@ == deletes_relation(input@),
        opens(st@.sql, "UPDATE memory_relations"@),
        takes(st@, "a.name = "@, BindView::Text(input@.from)),
        takes(st@, "b.name = "@, BindView::Text(input@.to)),
        takes(st@, "r.relation_type = "@, BindView::Text(input@.relation_type)),
{
    proof {
        law_deletes_relation_stands_for_its_values(input@);
    }
    Statement::execute(DELETE_RELATION_SQL)
        .text(input.from.as_str())
        .text(input.to.as_str())
        .text(input.relation_type.as_str())
}

/// Deletes relations named by their endpoints: one statement per input, to
/// be run as a batch.
pub fn memory_delete_relations(inputs: &[NewRelationInput]) -> (r: Vec<Statement>)
    ensures
        statement_views(r@) == relation_views(inputs@).map_values(
            |x: RelationView| deletes_relation(x),
        ),
        forall|i: int| 0 <= i < r.len() ==> (#[trigger] r@[i]).fetch == Fetch::Execute,
{
    let mut out: Vec<Statement> = Vec::new();
    let mut i: usize = 0;
    while i < inputs.len()
        invariant
            i <= inputs.len(),
            out.len() == i,
            forall|j: int|
                0 <= j < i ==> (#[trigger] out@[j])@ == deletes_relation(inputs@[j]@),
        decreases inputs.len() - i,
    {
        out.push(delete_relation(&inputs[i]));
        i = i + 1;
    }
    assert(statement_views(out@) =~= relation_views(inputs@).map_values(
        |x: RelationView| deletes_relation(x),
    ));
    assert forall|j: int| 0 <= j < out.len() implies (#[trigger] out@[j]).fetch
        == Fetch::Execute by {
        assert(out@[j]@.fetch == Fetch::Execute);
    }
    out
}

} // verus!
