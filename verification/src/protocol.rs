//! What a multi-statement protocol asks of the database, and what the
//! database answers.
//!
//! A protocol is a value with a `step` method: given the answer to its last
//! request it returns the next one. Whoever runs it performs each
//! [`Action`] and hands the [`Reply`] back; a failing statement ends the run,
//! and an open transaction is rolled back with it.
use vstd::prelude::*;

use crate::statement::{Fetch, Statement, StatementView};

verus! {

/// The next request of a protocol.
#[derive(Debug)]
pub enum Action {
    /// Open a transaction; later statements run in it.
    Begin,
    /// Run one statement and read ids or a row count.
    Run(Statement),
    /// Run one statement, keep the row it returns, if any, and tell whether
    /// there was one.
    Hold(Statement),
    /// Run one statement that returns a truth value.
    Ask(Statement),
    /// Commit the open transaction.
    Commit,
    /// The protocol is over and its result can be read.
    Done,
    /// The protocol is over: the request is refused with this message, and
    /// an open transaction is rolled back.
    Refuse(String),
}

/// A request as a mathematical value.
#[verifier::ext_equal]
pub enum ActionView {
    Begin,
    Run(StatementView),
    Hold(StatementView),
    Ask(StatementView),
    Commit,
    Done,
    Refuse(Seq<char>),
}

impl View for Action {
    type V = ActionView;

    open spec fn view(&self) -> ActionView {
        match *self {
            Action::Begin => ActionView::Begin,
            Action::Run(s) => ActionView::Run(s@),
            Action::Hold(s) => ActionView::Hold(s@),
            Action::Ask(s) => ActionView::Ask(s@),
            Action::Commit => ActionView::Commit,
            Action::Done => ActionView::Done,
            Action::Refuse(m) => ActionView::Refuse(m@),
        }
    }
}

/// An answer of the database.
#[derive(Debug)]
pub enum Reply {
    /// The transaction is open, or committed.
    Ready,
    /// How many rows a statement touched.
    Affected(u64),
    /// The first column of the rows a statement returned.
    Ids(Vec<i64>),
    /// Whether a row that the caller keeps was there, or the truth value that
    /// was asked for.
    Present(bool),
}

/// An answer as a mathematical value.
pub enum ReplyView {
    Ready,
    Affected(u64),
    Ids(Seq<i64>),
    Present(bool),
}

impl View for Reply {
    type V = ReplyView;

    open spec fn view(&self) -> ReplyView {
        match *self {
            Reply::Ready => ReplyView::Ready,
            Reply::Affected(n) => ReplyView::Affected(n),
            Reply::Ids(v) => ReplyView::Ids(v@),
            Reply::Present(b) => ReplyView::Present(b),
        }
    }
}

/// The shape of answer that a protocol waits for.
#[derive(Debug, Clone, Copy, PartialEq, Eq, Structural)]
pub enum Awaiting {
    Ready,
    Affected,
    One,
    Optional,
    Many,
    Presence,
    Nothing,
}

/// The shape of answer that a request calls for.
pub open spec fn awaited(a: ActionView) -> Awaiting {
    match a {
        ActionView::Begin => Awaiting::Ready,
        ActionView::Commit => Awaiting::Ready,
        ActionView::Run(s) => match s.fetch {
            Fetch::Execute => Awaiting::Affected,
            Fetch::One => Awaiting::One,
            Fetch::Optional => Awaiting::Optional,
            Fetch::All => Awaiting::Many,
        },
        ActionView::Hold(_) => Awaiting::Presence,
        ActionView::Ask(_) => Awaiting::Presence,
        ActionView::Done => Awaiting::Nothing,
        ActionView::Refuse(_) => Awaiting::Nothing,
    }
}

/// Whether an answer has the awaited shape.
pub open spec fn fits(w: Awaiting, r: ReplyView) -> bool {
    match w {
        Awaiting::Ready => r is Ready,
        Awaiting::Affected => r is Affected,
        Awaiting::One => r matches ReplyView::Ids(v) && v.len() == 1,
        Awaiting::Optional => r matches ReplyView::Ids(v) && v.len() <= 1,
        Awaiting::Many => r is Ids,
        Awaiting::Presence => r is Present,
        Awaiting::Nothing => false,
    }
}

/// Whether a count of touched rows still fits a counter that stands at
/// `total`.
pub open spec fn room(total: int, r: ReplyView) -> bool {
    r matches ReplyView::Affected(n) ==> total + n <= u64::MAX
}

/// Whether a count of touched rows still fits a counter that stands at
/// `total`.
pub fn has_room(total: u64, r: &Reply) -> (b: bool)
    ensures
        b == room(total as int, r@),
{
    match r {
        Reply::Affected(n) => *n <= u64::MAX - total,
        _ => true,
    }
}

/// The sum of some counts.
pub open spec fn sum(counts: Seq<u64>) -> int
    decreases counts.len(),
{
    if counts.len() == 0 {
        0
    } else {
        sum(counts.drop_last()) + counts.last()
    }
}

proof fn lemma_sum_grows(counts: Seq<u64>, n: int)
    requires
        0 <= n <= counts.len(),
    ensures
        0 <= sum(counts.take(n)) <= sum(counts),
    decreases counts.len(),
{
    if n < counts.len() {
        assert(counts.drop_last().take(n) =~= counts.take(n));
        lemma_sum_grows(counts.drop_last(), n);
    } else {
        assert(counts.take(n) =~= counts);
        if counts.len() > 0 {
            lemma_sum_grows(counts.drop_last(), counts.len() - 1);
        }
    }
}

/// The sum of some counts, where it fits.
pub fn total(counts: &Vec<u64>) -> (r: Option<u64>)
    ensures
        r == (if sum(counts@) <= u64::MAX {
            Some(sum(counts@) as u64)
        } else {
            None
        }),
{
    let mut t: u64 = 0;
    let mut i: usize = 0;
    while i < counts.len()
        invariant
            i <= counts.len(),
            t == sum(counts@.take(i as int)),
        decreases counts.len() - i,
    {
        assert(counts@.take(i + 1).drop_last() =~= counts@.take(i as int));
        if counts[i] > u64::MAX - t {
            proof {
                lemma_sum_grows(counts@, i + 1);
            }
            return None;
        }
        t = t + counts[i];
        i = i + 1;
    }
    assert(counts@.take(i as int) =~= counts@);
    Some(t)
}

/// The values of a list of statements.
pub open spec fn statement_views(v: Seq<Statement>) -> Seq<StatementView> {
    v.map_values(|s: Statement| s@)
}

/// Where a batch stands.
#[derive(Debug, Clone, Copy, PartialEq, Eq, Structural)]
pub enum BatchStage {
    Opening,
    Running,
    Committing,
    Finished,
}

/// Runs a list of statements for their effect in one transaction and keeps
/// how many rows each touched.
#[derive(Debug)]
pub struct Batch {
    /// The statements that were not sent yet, the next one last.
    pub waiting: Vec<Statement>,
    pub stage: BatchStage,
    pub counts: Vec<u64>,
}

/// The state of a [`Batch`], as a mathematical value.
#[verifier::ext_equal]
pub struct BatchView {
    /// The statements that were not sent yet, in order.
    pub rest: Seq<StatementView>,
    pub stage: BatchStage,
    pub counts: Seq<u64>,
}

impl View for Batch {
    type V = BatchView;

    open spec fn view(&self) -> BatchView {
        BatchView {
            rest: statement_views(self.waiting@).reverse(),
            stage: self.stage,
            counts: self.counts@,
        }
    }
}

/// What a batch still has to run are the statements that wait, the last one first.
pub proof fn law_batch_is_modelled_by_its_fields(batch: Batch)
    ensures
        batch@.rest == statement_views(batch.waiting@).reverse(),
        batch@.stage == batch.stage,
        batch@.counts == batch.counts@,
{
}

impl BatchView {
    /// Sends the next statement, or the commit after the last.
    pub open spec fn sending(self) -> (BatchView, ActionView) {
        if self.rest.len() > 0 {
            (
                BatchView { rest: self.rest.skip(1), stage: BatchStage::Running, ..self },
                ActionView::Run(self.rest[0]),
            )
        } else {
            (BatchView { stage: BatchStage::Committing, ..self }, ActionView::Commit)
        }
    }

    /// What follows an answer.
    pub open spec fn next(self, reply: ReplyView) -> (BatchView, ActionView) {
        match (self.stage, reply) {
            (BatchStage::Opening, _) => self.sending(),
            (BatchStage::Running, ReplyView::Affected(n)) => (BatchView {
                counts: self.counts.push(n),
                ..self
            }).sending(),
            (BatchStage::Committing, _) => (
                BatchView { stage: BatchStage::Finished, ..self },
                ActionView::Done,
            ),
            _ => (self, ActionView::Done),
        }
    }

    /// All statements of a batch are run for their effect.
    pub open spec fn wf(self) -> bool {
        &&& forall|i: int|
            0 <= i < self.rest.len() ==> (#[trigger] self.rest[i]).fetch == Fetch::Execute
        &&& self.stage is Committing || self.stage is Finished ==> self.rest.len() == 0
    }

    /// The shape of answer that is awaited.
    pub open spec fn awaiting(self) -> Awaiting {
        match self.stage {
            BatchStage::Opening => Awaiting::Ready,
            BatchStage::Running => Awaiting::Affected,
            BatchStage::Committing => Awaiting::Ready,
            BatchStage::Finished => Awaiting::Nothing,
        }
    }
}

/// Reverses a list of statements.
fn reversed(v: Vec<Statement>) -> (r: Vec<Statement>)
    ensures
        r@ == v@.reverse(),
{
    let ghost all = v@;
    let mut rest = v;
    let mut out: Vec<Statement> = Vec::new();
    while rest.len() > 0
        invariant
            rest@ == all.take(rest@.len() as int),
            rest@.len() <= all.len(),
            out@ =~= all.skip(rest@.len() as int).reverse(),
        decreases rest.len(),
    {
        let ghost n = rest@.len() as int;
        match rest.pop() {
            Some(s) => {
                out.push(s);
                assert(rest@ =~= all.take(n - 1));
                assert(all.skip(n - 1).reverse() =~= all.skip(n).reverse().push(all[n - 1]));
            },
            None => {},
        }
    }
    assert(all.skip(0) =~= all);
    out
}

impl Batch {
    /// Prepares a batch; the first request opens the transaction.
    pub fn start(statements: Vec<Statement>) -> (r: (Batch, Action))
        requires
            forall|i: int|
                0 <= i < statements.len() ==> (#[trigger] statements@[i]).fetch == Fetch::Execute,
        ensures
            r.0@ == (BatchView {
                rest: statement_views(statements@),
                stage: BatchStage::Opening,
                counts: seq![],
            }),
            r.0@.wf(),
            r.1@ == ActionView::Begin,
    {
        let ghost all = statements@;
        let b = Batch { waiting: reversed(statements), stage: BatchStage::Opening, counts: Vec::new() };
        assert(statement_views(b.waiting@).reverse() =~= statement_views(all));
        (b, Action::Begin)
    }

    fn sending(&mut self) -> (r: Action)
        requires
            old(self)@.wf(),
        ensures
            (final(self)@, r@) == old(self)@.sending(),
            final(self)@.wf(),
            awaited(r@) == final(self)@.awaiting(),
    {
        let ghost before = self.waiting@;
        match self.waiting.pop() {
            Some(s) => {
                self.stage = BatchStage::Running;
                assert(statement_views(before).reverse()[0] == s@);
                assert(statement_views(self.waiting@).reverse() =~= statement_views(
                    before,
                ).reverse().skip(1));
                Action::Run(s)
            },
            None => {
                self.stage = BatchStage::Committing;
                Action::Commit
            },
        }
    }

    /// Takes the answer to the last request and gives the next.
    pub fn step(&mut self, reply: &Reply) -> (r: Action)
        requires
            old(self)@.wf(),
            fits(old(self)@.awaiting(), reply@),
        ensures
            (final(self)@, r@) == old(self)@.next(reply@),
            final(self)@.wf(),
            awaited(r@) == final(self)@.awaiting(),
    {
        match (self.stage, reply) {
            (BatchStage::Opening, _) => self.sending(),
            (BatchStage::Running, Reply::Affected(n)) => {
                self.counts.push(*n);
                self.sending()
            },
            (BatchStage::Committing, _) => {
                self.stage = BatchStage::Finished;
                Action::Done
            },
            _ => Action::Done,
        }
    }
}

/// A batch sends its statements in order, each once, and the commit after
/// the last: in every state the answered and the waiting statements together
/// are as many as there were.
pub proof fn law_batch_sends_all(v: BatchView, reply: ReplyView)
    requires
        v.wf(),
        v.stage is Running,
        fits(v.awaiting(), reply),
    ensures
        v.next(reply).0.counts.len() == v.counts.len() + 1,
        v.rest.len() > 0 ==> v.next(reply).1 == ActionView::Run(v.rest[0])
            && v.next(reply).0.rest == v.rest.skip(1),
        v.rest.len() == 0 <==> v.next(reply).1 is Commit,
{
}

/// Where a lookup-or-insert stands.
#[derive(Debug, Clone, Copy, PartialEq, Eq, Structural)]
pub enum LookupStage {
    Finding,
    Creating,
    Finished,
}

/// Looks a row up and inserts it where there is none.
#[derive(Debug)]
pub struct GetOrCreate {
    /// The insertion, until it is sent.
    pub create: Option<Statement>,
    pub stage: LookupStage,
    pub id: i64,
    /// Whether the row was inserted.
    pub created: bool,
}

impl GetOrCreate {
    /// What every reachable state satisfies.
    pub open spec fn wf(self) -> bool {
        &&& self.stage is Finding ==> self.create is Some && self.create->0.fetch == Fetch::One
        &&& self.stage is Finding || self.stage is Creating ==> !self.created
    }

    /// The shape of answer that is awaited.
    pub open spec fn awaiting(self) -> Awaiting {
        match self.stage {
            LookupStage::Finding => Awaiting::Optional,
            LookupStage::Creating => Awaiting::One,
            LookupStage::Finished => Awaiting::Nothing,
        }
    }

    /// Prepares the lookup, which is the first request.
    pub fn start(find: Statement, create: Statement) -> (r: (GetOrCreate, Action))
        requires
            find.fetch == Fetch::Optional,
            create.fetch == Fetch::One,
        ensures
            r.0.wf(),
            r.0.stage is Finding,
            r.0.create == Some(create),
            r.1@ == ActionView::Run(find@),
            awaited(r.1@) == r.0.awaiting(),
    {
        (
            GetOrCreate { create: Some(create), stage: LookupStage::Finding, id: 0, created: false },
            Action::Run(find),
        )
    }

    /// Takes the answer to the last request and gives the next: a row that
    /// was found ends the run; otherwise the insertion is sent.
    pub fn step(&mut self, reply: &Reply) -> (r: Action)
        requires
            old(self).wf(),
            fits(old(self).awaiting(), reply@),
        ensures
            final(self).wf(),
            awaited(r@) == final(self).awaiting(),
            old(self).stage is Finding && reply@->Ids_0.len() > 0 ==> r@ == ActionView::Done
                && final(self).stage is Finished && final(self).id == reply@->Ids_0[0]
                && !final(self).created,
            old(self).stage is Finding && reply@->Ids_0.len() == 0 ==> r@ == ActionView::Run(
                old(self).create->0@,
            ) && final(self).stage is Creating,
            old(self).stage is Creating ==> r@ == ActionView::Done && final(self).stage is Finished
                && final(self).id == reply@->Ids_0[0] && final(self).created,
    {
        match (self.stage, reply) {
            (LookupStage::Finding, Reply::Ids(ids)) => {
                if ids.len() > 0 {
                    self.stage = LookupStage::Finished;
                    self.id = ids[0];
                    return Action::Done;
                }
                self.stage = LookupStage::Creating;
                match self.create.take() {
                    Some(st) => Action::Run(st),
                    None => Action::Done,
                }
            },
            (LookupStage::Creating, Reply::Ids(ids)) => {
                self.stage = LookupStage::Finished;
                self.id = ids[0];
                self.created = true;
                Action::Done
            },
            _ => Action::Done,
        }
    }
}

/// Looks a row up by one statement and, where it finds none, by another.
#[derive(Debug)]
pub struct Fallback {
    /// The second lookup, until it is sent.
    pub second: Option<Statement>,
    pub over: bool,
    pub found: Option<i64>,
}

/// The first id of an answer, if any.
pub open spec fn first_id(r: ReplyView) -> Option<i64> {
    match r {
        ReplyView::Ids(v) => if v.len() > 0 {
            Some(v[0])
        } else {
            None
        },
        _ => None,
    }
}

impl Fallback {
    /// Prepares the two lookups; the first is the first request.
    pub fn start(first: Statement, second: Statement) -> (r: (Fallback, Action))
        requires
            first.fetch == Fetch::Optional,
            second.fetch == Fetch::Optional,
        ensures
            r.0.second == Some(second),
            !r.0.over,
            r.0.wf(),
            r.1@ == ActionView::Run(first@),
    {
        (Fallback { second: Some(second), over: false, found: None }, Action::Run(first))
    }

    /// Prepares a single lookup, which is the first request.
    pub fn only(lookup: Statement) -> (r: (Fallback, Action))
        requires
            lookup.fetch == Fetch::Optional,
        ensures
            r.0.second is None,
            !r.0.over,
            r.0.wf(),
            r.1@ == ActionView::Run(lookup@),
    {
        (Fallback { second: None, over: false, found: None }, Action::Run(lookup))
    }

    /// What every reachable state satisfies.
    pub open spec fn wf(self) -> bool {
        self.second matches Some(st) ==> st.fetch == Fetch::Optional
    }

    /// Takes the answer to the last request: a row ends the run; no row sends
    /// the second lookup, if it was not sent yet.
    pub fn step(&mut self, reply: &Reply) -> (r: Action)
        requires
            old(self).wf(),
            !old(self).over,
            fits(Awaiting::Optional, reply@),
        ensures
            final(self).wf(),
            final(self).found == first_id(reply@),
            final(self).second is None || first_id(reply@) is Some,
            first_id(reply@) is None && old(self).second is Some ==> r@ == ActionView::Run(
                old(self).second->0@,
            ) && !final(self).over && awaited(r@) == Awaiting::Optional,
            first_id(reply@) is Some || old(self).second is None ==> r@ == ActionView::Done
                && final(self).over,
    {
        self.found = match reply {
            Reply::Ids(v) => if v.len() > 0 {
                Some(v[0])
            } else {
                None
            },
            _ => None,
        };
        if self.found.is_some() {
            self.over = true;
            return Action::Done;
        }
        match self.second.take() {
            Some(st) => Action::Run(st),
            None => {
                self.over = true;
                Action::Done
            },
        }
    }
}

/// A request that was refused before anything was sent, or because of what
/// the database holds.
#[derive(Debug)]
pub struct ProtocolError {
    pub message: String,
}

impl View for ProtocolError {
    type V = Seq<char>;

    open spec fn view(&self) -> Seq<char> {
        self.message@
    }
}

} // verus!
