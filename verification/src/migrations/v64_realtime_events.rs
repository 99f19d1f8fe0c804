//! The log of events that clients follow and replay.
use vstd::prelude::*;

use crate::migrations::change::{
    changes, check, checks, one_of, run, runs, write_one_of, Change, ChangeView,
};

verus! {

/// The number of the step.
pub const REALTIME_EVENTS_V1: i32 = 64;

/// The name of the step.
pub const REALTIME_EVENTS_V1_NAME: &'static str = "pgmcp_realtime_events_v1";

pub const CREATE_PGMCP_REALTIME_EVENTS: &'static str = "CREATE TABLE IF NOT EXISTS pgmcp_realtime_events (
            seq         BIGSERIAL PRIMARY KEY,
            ins_xid     xid8        NOT NULL DEFAULT pg_current_xact_id(),
            topic       TEXT        NOT NULL,
            entity_kind TEXT        NOT NULL,
            entity_id   TEXT        NOT NULL,
            op          TEXT        NOT NULL,
            payload     JSONB       NOT NULL DEFAULT '{}'::jsonb,
            created_at  TIMESTAMPTZ NOT NULL DEFAULT now()
        )";

pub const CREATE_IDX_REALTIME_EVENTS_TOPIC_SEQ: &'static str = "CREATE INDEX IF NOT EXISTS idx_realtime_events_topic_seq \
            ON pgmcp_realtime_events(topic, seq)";

pub const CREATE_IDX_REALTIME_EVENTS_ENTITY_SEQ: &'static str = "CREATE INDEX IF NOT EXISTS idx_realtime_events_entity_seq \
            ON pgmcp_realtime_events(entity_kind, entity_id, seq DESC)";

pub const CREATE_IDX_REALTIME_EVENTS_CREATED_AT: &'static str = "CREATE INDEX IF NOT EXISTS idx_realtime_events_created_at \
            ON pgmcp_realtime_events(created_at)";

pub const CREATE_PGMCP_NOTIFY_REALTIME_EVENT: &'static str = "CREATE OR REPLACE FUNCTION pgmcp_notify_realtime_event()
         RETURNS trigger
         LANGUAGE plpgsql
         AS $$
         BEGIN
             PERFORM pg_notify(
                 'pgmcp_realtime_events',
                 json_build_object('seq', NEW.seq, 'topic', NEW.topic)::text
             );
             RETURN NEW;
         END;
         $$";

pub const DROP_TRG_PGMCP_REALTIME_EVENTS_NOTIFY: &'static str =
    "DROP TRIGGER IF EXISTS trg_pgmcp_realtime_events_notify ON pgmcp_realtime_events";

pub const CREATE_TRG_PGMCP_REALTIME_EVENTS_NOTIFY: &'static str = "CREATE TRIGGER trg_pgmcp_realtime_events_notify
         AFTER INSERT ON pgmcp_realtime_events
         FOR EACH ROW EXECUTE FUNCTION pgmcp_notify_realtime_event()";

/// The changes of the step, in their order.
pub open spec fn steps(topics: Seq<char>, ops: Seq<char>) -> Seq<ChangeView> {
    seq![
        runs(CREATE_PGMCP_REALTIME_EVENTS@),
        runs(CREATE_IDX_REALTIME_EVENTS_TOPIC_SEQ@),
        runs(CREATE_IDX_REALTIME_EVENTS_ENTITY_SEQ@),
        runs(CREATE_IDX_REALTIME_EVENTS_CREATED_AT@),
        checks(
            "pgmcp_realtime_events"@,
            "pgmcp_realtime_events_topic_check"@,
            one_of("topic"@, topics),
        ),
        checks(
            "pgmcp_realtime_events"@,
            "pgmcp_realtime_events_op_check"@,
            one_of("op"@, ops),
        ),
        runs(CREATE_PGMCP_NOTIFY_REALTIME_EVENT@),
        runs(DROP_TRG_PGMCP_REALTIME_EVENTS_NOTIFY@),
        runs(CREATE_TRG_PGMCP_REALTIME_EVENTS_NOTIFY@),
    ]
}

/// Creates the log of events, the constraints on topics and operations, and the
/// trigger that announces each new event.
pub fn apply(topics: &str, ops: &str) -> (r: Vec<Change>)
    ensures
        changes(r@) == steps(topics@, ops@),
{
    let r = vec![
        run(CREATE_PGMCP_REALTIME_EVENTS),
        run(CREATE_IDX_REALTIME_EVENTS_TOPIC_SEQ),
        run(CREATE_IDX_REALTIME_EVENTS_ENTITY_SEQ),
        run(CREATE_IDX_REALTIME_EVENTS_CREATED_AT),
        check(
            "pgmcp_realtime_events",
            "pgmcp_realtime_events_topic_check",
            write_one_of("topic", topics).as_str(),
        ),
        check(
            "pgmcp_realtime_events",
            "pgmcp_realtime_events_op_check",
            write_one_of("op", ops).as_str(),
        ),
        run(CREATE_PGMCP_NOTIFY_REALTIME_EVENT),
        run(DROP_TRG_PGMCP_REALTIME_EVENTS_NOTIFY),
        run(CREATE_TRG_PGMCP_REALTIME_EVENTS_NOTIFY),
    ];
    assert(changes(r@) =~= steps(topics@, ops@));
    r
}

} // verus!
