//! The log of events for live displays.
use vstd::prelude::*;

use crate::meaning::{fills, opens, says, takes};
use crate::queries::texts::realtime_events::{
    append_realtime_event_text, append_realtime_event_tx_text, current_realtime_seq_text,
    law_replay_starts_behind_the_last_event,
};
use crate::statement::{fetches_all, fetches_one, texts, BindView, Statement, StatementView};

verus! {

pub const DEFAULT_REPLAY_LIMIT: i64 = 250;

pub const MAX_REPLAY_LIMIT: i64 = 2_000;

/// How many events are replayed for a requested number: a default for none,
/// and never more than a maximum.
pub open spec fn replay_limit(limit: i64) -> i64 {
    if limit <= 0 {
        DEFAULT_REPLAY_LIMIT
    } else if limit > MAX_REPLAY_LIMIT {
        MAX_REPLAY_LIMIT
    } else {
        limit
    }
}

/// How many events are replayed for a requested number.
pub fn clamp_realtime_replay_limit(limit: i64) -> (r: i64)
    ensures
        r == replay_limit(limit),
        1 <= r <= MAX_REPLAY_LIMIT,
{
    if limit <= 0 {
        DEFAULT_REPLAY_LIMIT
    } else if limit > MAX_REPLAY_LIMIT {
        MAX_REPLAY_LIMIT
    } else {
        limit
    }
}

pub const APPEND_REALTIME_EVENT_SQL: &'static str = "INSERT INTO pgmcp_realtime_events
            (topic, entity_kind, entity_id, op, payload)
         VALUES ($1, $2, $3, $4, $5)
         RETURNING seq";

/// Appends an event; its number comes back. The caller supplies value 0,
/// `payload`.
pub fn append_realtime_event(
    topic: &str,
    entity_kind: &str,
    entity_id: &str,
    op: &str,
) -> (st: Statement)
    ensures
        st@ == fetches_one(
            APPEND_REALTIME_EVENT_SQL@,
            seq![
                BindView::Text(topic@),
                BindView::Text(entity_kind@),
                BindView::Text(entity_id@),
                BindView::Text(op@),
                BindView::Supplied(0),
            ],
        ),
        opens(st@.sql, "INSERT INTO pgmcp_realtime_events"@),
        fills(
            st@,
            "INSERT INTO pgmcp_realtime_events"@,
            "topic"@,
            "VALUES ("@,
            BindView::Text(topic@),
        ),
        fills(
            st@,
            "INSERT INTO pgmcp_realtime_events"@,
            "entity_kind"@,
            "VALUES ("@,
            BindView::Text(entity_kind@),
        ),
        fills(
            st@,
            "INSERT INTO pgmcp_realtime_events"@,
            "entity_id"@,
            "VALUES ("@,
            BindView::Text(entity_id@),
        ),
        fills(st@, "INSERT INTO pgmcp_realtime_events"@, "op"@, "VALUES ("@, BindView::Text(op@)),
        fills(
            st@,
            "INSERT INTO pgmcp_realtime_events"@,
            "payload"@,
            "VALUES ("@,
            BindView::Supplied(0),
        ),
{
    proof {
        append_realtime_event_text();
    }
    let st = Statement::one(APPEND_REALTIME_EVENT_SQL)
        .text(topic)
        .text(entity_kind)
        .text(entity_id)
        .text(op)
        .supplied(0);
    assert(st@.sql == APPEND_REALTIME_EVENT_SQL@);
    st
}

pub const APPEND_REALTIME_EVENT_TX_SQL: &'static str = "INSERT INTO pgmcp_realtime_events
            (topic, entity_kind, entity_id, op, payload)
         VALUES ($1, $2, $3, $4, $5)
         RETURNING seq";

/// Appends an event within the transaction of the caller, so that no reader
/// sees it before the change that it tells of. The caller supplies value 0,
/// `payload`.
pub fn append_realtime_event_tx(
    topic: &str,
    entity_kind: &str,
    entity_id: &str,
    op: &str,
) -> (st: Statement)
    ensures
        st@ == fetches_one(
            APPEND_REALTIME_EVENT_TX_SQL@,
            seq![
                BindView::Text(topic@),
                BindView::Text(entity_kind@),
                BindView::Text(entity_id@),
                BindView::Text(op@),
                BindView::Supplied(0),
            ],
        ),
        opens(st@.sql, "INSERT INTO pgmcp_realtime_events"@),
        fills(
            st@,
            "INSERT INTO pgmcp_realtime_events"@,
            "topic"@,
            "VALUES ("@,
            BindView::Text(topic@),
        ),
        fills(
            st@,
            "INSERT INTO pgmcp_realtime_events"@,
            "entity_kind"@,
            "VALUES ("@,
            BindView::Text(entity_kind@),
        ),
        fills(
            st@,
            "INSERT INTO pgmcp_realtime_events"@,
            "entity_id"@,
            "VALUES ("@,
            BindView::Text(entity_id@),
        ),
        fills(st@, "INSERT INTO pgmcp_realtime_events"@, "op"@, "VALUES ("@, BindView::Text(op@)),
        fills(
            st@,
            "INSERT INTO pgmcp_realtime_events"@,
            "payload"@,
            "VALUES ("@,
            BindView::Supplied(0),
        ),
{
    proof {
        append_realtime_event_tx_text();
    }
    let st = Statement::one(APPEND_REALTIME_EVENT_TX_SQL)
        .text(topic)
        .text(entity_kind)
        .text(entity_id)
        .text(op)
        .supplied(0);
    assert(st@.sql == APPEND_REALTIME_EVENT_TX_SQL@);
    st
}

pub const CURRENT_REALTIME_SEQ_SQL: &'static str =
    "SELECT COALESCE(MAX(seq), 0) FROM pgmcp_realtime_events";

/// The number of the last event, or zero.
pub fn current_realtime_seq() -> (st: Statement)
    ensures
        st@ == fetches_one(CURRENT_REALTIME_SEQ_SQL@, seq![]),
        opens(st@.sql, "SELECT"@),
        says(st@.sql, "FROM pgmcp_realtime_events"@),
{
    proof {
        current_realtime_seq_text();
    }
    let st = Statement::one(CURRENT_REALTIME_SEQ_SQL);
    assert(st@.sql == CURRENT_REALTIME_SEQ_SQL@);
    st
}

pub const EVENTS_AFTER_SQL: &'static str = "SELECT seq, topic, entity_kind, entity_id, op, payload, created_at
               FROM pgmcp_realtime_events
              WHERE seq > $1
                AND ins_xid < pg_snapshot_xmin(pg_current_snapshot())
              ORDER BY seq
              LIMIT $2";

pub const EVENTS_OF_TOPICS_AFTER_SQL: &'static str = "SELECT seq, topic, entity_kind, entity_id, op, payload, created_at
               FROM pgmcp_realtime_events
              WHERE seq > $1
                AND topic = ANY($3)
                AND ins_xid < pg_snapshot_xmin(pg_current_snapshot())
              ORDER BY seq
              LIMIT $2";

/// The number after which events are replayed, never negative.
pub open spec fn replay_start(after_seq: i64) -> i64 {
    if after_seq < 0 {
        0
    } else {
        after_seq
    }
}

/// The query for the events after a number whose transactions are over,
/// optionally of some topics.
pub open spec fn events_after(after_seq: i64, limit: i64, topics: Seq<Seq<char>>) -> StatementView {
    if topics.len() == 0 {
        fetches_all(
            EVENTS_AFTER_SQL@,
            seq![
                BindView::BigInt(replay_start(after_seq)),
                BindView::BigInt(replay_limit(limit)),
            ],
        )
    } else {
        fetches_all(
            EVENTS_OF_TOPICS_AFTER_SQL@,
            seq![
                BindView::BigInt(replay_start(after_seq)),
                BindView::BigInt(replay_limit(limit)),
                BindView::TextArray(topics),
            ],
        )
    }
}

/// The events after a number whose transactions are over; of all topics where
/// none is given.
pub fn committed_realtime_events_after(
    after_seq: i64,
    limit: i64,
    topics: &[String],
) -> (st: Statement)
    ensures
        st@ == events_after(after_seq, limit, texts(topics@)),
        texts(topics@).len() == 0 ==> opens(st@.sql, "SELECT"@),
        texts(topics@).len() == 0 ==> takes(
            st@,
            "seq > "@,
            BindView::BigInt(if after_seq < 0 { 0 } else { after_seq }),
        ),
        texts(topics@).len() == 0 ==> takes(st@, "LIMIT "@, BindView::BigInt(replay_limit(limit))),
        texts(topics@).len() > 0 ==> opens(st@.sql, "SELECT"@),
        texts(topics@).len() > 0 ==> takes(
            st@,
            "seq > "@,
            BindView::BigInt(if after_seq < 0 { 0 } else { after_seq }),
        ),
        texts(topics@).len() > 0 ==> takes(st@, "LIMIT "@, BindView::BigInt(replay_limit(limit))),
        texts(topics@).len() > 0 ==> takes(
            st@,
            "topic = ANY("@,
            BindView::TextArray(texts(topics@)),
        ),
{
    proof {
        law_replay_starts_behind_the_last_event(after_seq, limit, texts(topics@));
    }
    let start: i64 = if after_seq < 0 {
        0
    } else {
        after_seq
    };
    let n: i64 = clamp_realtime_replay_limit(limit);
    if topics.len() == 0 {
        Statement::all(EVENTS_AFTER_SQL).int8(start).int8(n)
    } else {
        Statement::all(EVENTS_OF_TOPICS_AFTER_SQL).int8(start).int8(n).texts(topics)
    }
}

/// A replay returns at least one event and at most the largest number; a number
/// between is kept, and without one the usual number is taken.
pub proof fn law_replay_is_bounded(limit: i64, after_seq: i64)
    ensures
        1 <= replay_limit(limit) <= MAX_REPLAY_LIMIT,
        1 <= limit <= MAX_REPLAY_LIMIT ==> replay_limit(limit) == limit,
        limit > MAX_REPLAY_LIMIT ==> replay_limit(limit) == MAX_REPLAY_LIMIT,
        limit <= 0 ==> replay_limit(limit) == DEFAULT_REPLAY_LIMIT,
        replay_start(after_seq) >= 0,
        after_seq >= 0 ==> replay_start(after_seq) == after_seq,
{
}

} // verus!
