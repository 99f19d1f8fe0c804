//! What the statements of `realtime_events` say.
use vstd::prelude::*;

use crate::meaning::{
    item, lined_up_at, lines_up, mentions, opens, part_at, past, past_blanks, says, takes,
};
use crate::queries::realtime_events::{
    events_after, replay_limit, APPEND_REALTIME_EVENT_SQL, APPEND_REALTIME_EVENT_TX_SQL,
    CURRENT_REALTIME_SEQ_SQL, EVENTS_AFTER_SQL, EVENTS_OF_TOPICS_AFTER_SQL,
};
use crate::statement::BindView;

verus! {

/// What the text of [`APPEND_REALTIME_EVENT_SQL`] says.
pub proof fn append_realtime_event_text()
    ensures
        opens(APPEND_REALTIME_EVENT_SQL@, "INSERT INTO pgmcp_realtime_events"@),
        lines_up(
            APPEND_REALTIME_EVENT_SQL@,
            "INSERT INTO pgmcp_realtime_events"@,
            "topic"@,
            "VALUES ("@,
            1,
        ),
        lines_up(
            APPEND_REALTIME_EVENT_SQL@,
            "INSERT INTO pgmcp_realtime_events"@,
            "entity_kind"@,
            "VALUES ("@,
            2,
        ),
        lines_up(
            APPEND_REALTIME_EVENT_SQL@,
            "INSERT INTO pgmcp_realtime_events"@,
            "entity_id"@,
            "VALUES ("@,
            3,
        ),
        lines_up(
            APPEND_REALTIME_EVENT_SQL@,
            "INSERT INTO pgmcp_realtime_events"@,
            "op"@,
            "VALUES ("@,
            4,
        ),
        lines_up(
            APPEND_REALTIME_EVENT_SQL@,
            "INSERT INTO pgmcp_realtime_events"@,
            "payload"@,
            "VALUES ("@,
            5,
        ),
{
    reveal_strlit(
        "INSERT INTO pgmcp_realtime_events
            (topic, entity_kind, entity_id, op, payload)
         VALUES ($1, $2, $3, $4, $5)
         RETURNING seq",
    );
    reveal_strlit("INSERT INTO pgmcp_realtime_events");
    reveal_strlit("VALUES (");
    reveal_strlit("entity_id");
    reveal_strlit("entity_kind");
    reveal_strlit("op");
    reveal_strlit("payload");
    reveal_strlit("topic");
    let t = APPEND_REALTIME_EVENT_SQL@;
    assert(part_at(t, 0, "INSERT INTO pgmcp_realtime_events"@));
    reveal_with_fuel(past, 15);
    reveal_with_fuel(past_blanks, 2);
    assert(past(t, 33, '(') == 47);
    assert(item(t, 47, 0) == 47);
    assert(item(t, 47, 1) == 54);
    assert(item(t, 47, 2) == 67);
    assert(item(t, 47, 3) == 78);
    assert(item(t, 47, 4) == 82);
    assert(item(t, 108, 0) == 108);
    assert(item(t, 108, 1) == 112);
    assert(item(t, 108, 2) == 116);
    assert(item(t, 108, 3) == 120);
    assert(item(t, 108, 4) == 124);
    assert(lined_up_at(
        t,
        "INSERT INTO pgmcp_realtime_events"@,
        "topic"@,
        "VALUES ("@,
        1,
        0,
        100,
        0,
    ));
    assert(lined_up_at(
        t,
        "INSERT INTO pgmcp_realtime_events"@,
        "entity_kind"@,
        "VALUES ("@,
        2,
        0,
        100,
        1,
    ));
    assert(lined_up_at(
        t,
        "INSERT INTO pgmcp_realtime_events"@,
        "entity_id"@,
        "VALUES ("@,
        3,
        0,
        100,
        2,
    ));
    assert(lined_up_at(t, "INSERT INTO pgmcp_realtime_events"@, "op"@, "VALUES ("@, 4, 0, 100, 3));
    assert(lined_up_at(
        t,
        "INSERT INTO pgmcp_realtime_events"@,
        "payload"@,
        "VALUES ("@,
        5,
        0,
        100,
        4,
    ));
}

/// What the text of [`APPEND_REALTIME_EVENT_TX_SQL`] says.
pub proof fn append_realtime_event_tx_text()
    ensures
        opens(APPEND_REALTIME_EVENT_TX_SQL@, "INSERT INTO pgmcp_realtime_events"@),
        lines_up(
            APPEND_REALTIME_EVENT_TX_SQL@,
            "INSERT INTO pgmcp_realtime_events"@,
            "topic"@,
            "VALUES ("@,
            1,
        ),
        lines_up(
            APPEND_REALTIME_EVENT_TX_SQL@,
            "INSERT INTO pgmcp_realtime_events"@,
            "entity_kind"@,
            "VALUES ("@,
            2,
        ),
        lines_up(
            APPEND_REALTIME_EVENT_TX_SQL@,
            "INSERT INTO pgmcp_realtime_events"@,
            "entity_id"@,
            "VALUES ("@,
            3,
        ),
        lines_up(
            APPEND_REALTIME_EVENT_TX_SQL@,
            "INSERT INTO pgmcp_realtime_events"@,
            "op"@,
            "VALUES ("@,
            4,
        ),
        lines_up(
            APPEND_REALTIME_EVENT_TX_SQL@,
            "INSERT INTO pgmcp_realtime_events"@,
            "payload"@,
            "VALUES ("@,
            5,
        ),
{
    reveal_strlit(
        "INSERT INTO pgmcp_realtime_events
            (topic, entity_kind, entity_id, op, payload)
         VALUES ($1, $2, $3, $4, $5)
         RETURNING seq",
    );
    reveal_strlit("INSERT INTO pgmcp_realtime_events");
    reveal_strlit("VALUES (");
    reveal_strlit("entity_id");
    reveal_strlit("entity_kind");
    reveal_strlit("op");
    reveal_strlit("payload");
    reveal_strlit("topic");
    let t = APPEND_REALTIME_EVENT_TX_SQL@;
    assert(part_at(t, 0, "INSERT INTO pgmcp_realtime_events"@));
    reveal_with_fuel(past, 15);
    reveal_with_fuel(past_blanks, 2);
    assert(past(t, 33, '(') == 47);
    assert(item(t, 47, 0) == 47);
    assert(item(t, 47, 1) == 54);
    assert(item(t, 47, 2) == 67);
    assert(item(t, 47, 3) == 78);
    assert(item(t, 47, 4) == 82);
    assert(item(t, 108, 0) == 108);
    assert(item(t, 108, 1) == 112);
    assert(item(t, 108, 2) == 116);
    assert(item(t, 108, 3) == 120);
    assert(item(t, 108, 4) == 124);
    assert(lined_up_at(
        t,
        "INSERT INTO pgmcp_realtime_events"@,
        "topic"@,
        "VALUES ("@,
        1,
        0,
        100,
        0,
    ));
    assert(lined_up_at(
        t,
        "INSERT INTO pgmcp_realtime_events"@,
        "entity_kind"@,
        "VALUES ("@,
        2,
        0,
        100,
        1,
    ));
    assert(lined_up_at(
        t,
        "INSERT INTO pgmcp_realtime_events"@,
        "entity_id"@,
        "VALUES ("@,
        3,
        0,
        100,
        2,
    ));
    assert(lined_up_at(t, "INSERT INTO pgmcp_realtime_events"@, "op"@, "VALUES ("@, 4, 0, 100, 3));
    assert(lined_up_at(
        t,
        "INSERT INTO pgmcp_realtime_events"@,
        "payload"@,
        "VALUES ("@,
        5,
        0,
        100,
        4,
    ));
}

/// What the text of [`CURRENT_REALTIME_SEQ_SQL`] says.
pub proof fn current_realtime_seq_text()
    ensures
        opens(CURRENT_REALTIME_SEQ_SQL@, "SELECT"@),
        says(CURRENT_REALTIME_SEQ_SQL@, "FROM pgmcp_realtime_events"@),
{
    reveal_strlit(
        "SELECT COALESCE(MAX(seq), 0) FROM pgmcp_realtime_events",
    );
    reveal_strlit("FROM pgmcp_realtime_events");
    reveal_strlit("SELECT");
    let t = CURRENT_REALTIME_SEQ_SQL@;
    assert(part_at(t, 0, "SELECT"@));
    assert(part_at(t, 29, "FROM pgmcp_realtime_events"@));
}

/// What the text of [`EVENTS_AFTER_SQL`] says.
pub proof fn events_after_text()
    ensures
        opens(EVENTS_AFTER_SQL@, "SELECT"@),
        mentions(EVENTS_AFTER_SQL@, "seq > "@, 1),
        mentions(EVENTS_AFTER_SQL@, "LIMIT "@, 2),
        says(EVENTS_AFTER_SQL@, "AND ins_xid < pg_snapshot_xmin(pg_current_snapshot())"@),
        says(EVENTS_AFTER_SQL@, "ORDER BY seq"@),
        says(EVENTS_AFTER_SQL@, "FROM pgmcp_realtime_events"@),
{
    reveal_strlit(
        "SELECT seq, topic, entity_kind, entity_id, op, payload, created_at
               FROM pgmcp_realtime_events
              WHERE seq > $1
                AND ins_xid < pg_snapshot_xmin(pg_current_snapshot())
              ORDER BY seq
              LIMIT $2",
    );
    reveal_strlit("AND ins_xid < pg_snapshot_xmin(pg_current_snapshot())");
    reveal_strlit("FROM pgmcp_realtime_events");
    reveal_strlit("LIMIT ");
    reveal_strlit("ORDER BY seq");
    reveal_strlit("SELECT");
    reveal_strlit("seq > ");
    let t = EVENTS_AFTER_SQL@;
    assert(part_at(t, 0, "SELECT"@));
    assert(part_at(t, 129, "seq > "@));
    assert(part_at(t, 249, "LIMIT "@));
    assert(part_at(t, 154, "AND ins_xid < pg_snapshot_xmin(pg_current_snapshot())"@));
    assert(part_at(t, 222, "ORDER BY seq"@));
    assert(part_at(t, 82, "FROM pgmcp_realtime_events"@));
}

/// What the text of [`EVENTS_OF_TOPICS_AFTER_SQL`] says.
pub proof fn events_of_topics_after_text()
    ensures
        opens(EVENTS_OF_TOPICS_AFTER_SQL@, "SELECT"@),
        mentions(EVENTS_OF_TOPICS_AFTER_SQL@, "seq > "@, 1),
        mentions(EVENTS_OF_TOPICS_AFTER_SQL@, "LIMIT "@, 2),
        mentions(EVENTS_OF_TOPICS_AFTER_SQL@, "topic = ANY("@, 3),
        says(EVENTS_OF_TOPICS_AFTER_SQL@, "AND ins_xid < pg_snapshot_xmin(pg_current_snapshot())"@),
        says(EVENTS_OF_TOPICS_AFTER_SQL@, "ORDER BY seq"@),
        says(EVENTS_OF_TOPICS_AFTER_SQL@, "FROM pgmcp_realtime_events"@),
{
    reveal_strlit(
        "SELECT seq, topic, entity_kind, entity_id, op, payload, created_at
               FROM pgmcp_realtime_events
              WHERE seq > $1
                AND topic = ANY($3)
                AND ins_xid < pg_snapshot_xmin(pg_current_snapshot())
              ORDER BY seq
              LIMIT $2",
    );
    reveal_strlit("AND ins_xid < pg_snapshot_xmin(pg_current_snapshot())");
    reveal_strlit("FROM pgmcp_realtime_events");
    reveal_strlit("LIMIT ");
    reveal_strlit("ORDER BY seq");
    reveal_strlit("SELECT");
    reveal_strlit("seq > ");
    reveal_strlit("topic = ANY(");
    let t = EVENTS_OF_TOPICS_AFTER_SQL@;
    assert(part_at(t, 0, "SELECT"@));
    assert(part_at(t, 129, "seq > "@));
    assert(part_at(t, 285, "LIMIT "@));
    assert(part_at(t, 158, "topic = ANY("@));
    assert(part_at(t, 190, "AND ins_xid < pg_snapshot_xmin(pg_current_snapshot())"@));
    assert(part_at(t, 258, "ORDER BY seq"@));
    assert(part_at(t, 82, "FROM pgmcp_realtime_events"@));
}

/// Events are replayed behind the last one that was seen, and none is asked for
/// before the first; where topics are given, only those of the topics.
pub proof fn law_replay_starts_behind_the_last_event(
    after_seq: i64,
    limit: i64,
    topics: Seq<Seq<char>>,
)
    ensures
        topics.len() == 0 ==> opens(events_after(after_seq, limit, topics).sql, "SELECT"@),
        topics.len() == 0 ==> takes(
            events_after(after_seq, limit, topics),
            "seq > "@,
            BindView::BigInt(if after_seq < 0 { 0 } else { after_seq }),
        ),
        topics.len() == 0 ==> takes(
            events_after(after_seq, limit, topics),
            "LIMIT "@,
            BindView::BigInt(replay_limit(limit)),
        ),
        topics.len() == 0 ==> says(
            events_after(after_seq, limit, topics).sql,
            "AND ins_xid < pg_snapshot_xmin(pg_current_snapshot())"@,
        ),
        topics.len() == 0 ==> says(events_after(after_seq, limit, topics).sql, "ORDER BY seq"@),
        topics.len() == 0 ==> says(
            events_after(after_seq, limit, topics).sql,
            "FROM pgmcp_realtime_events"@,
        ),
        topics.len() > 0 ==> opens(events_after(after_seq, limit, topics).sql, "SELECT"@),
        topics.len() > 0 ==> takes(
            events_after(after_seq, limit, topics),
            "seq > "@,
            BindView::BigInt(if after_seq < 0 { 0 } else { after_seq }),
        ),
        topics.len() > 0 ==> takes(
            events_after(after_seq, limit, topics),
            "LIMIT "@,
            BindView::BigInt(replay_limit(limit)),
        ),
        topics.len() > 0 ==> takes(
            events_after(after_seq, limit, topics),
            "topic = ANY("@,
            BindView::TextArray(topics),
        ),
        topics.len() > 0 ==> says(
            events_after(after_seq, limit, topics).sql,
            "AND ins_xid < pg_snapshot_xmin(pg_current_snapshot())"@,
        ),
        topics.len() > 0 ==> says(events_after(after_seq, limit, topics).sql, "ORDER BY seq"@),
        topics.len() > 0 ==> says(
            events_after(after_seq, limit, topics).sql,
            "FROM pgmcp_realtime_events"@,
        ),
{
    if topics.len() == 0 {
        events_after_text();
        assert(events_after(after_seq, limit, topics).sql == EVENTS_AFTER_SQL@);
    }
    if topics.len() > 0 {
        events_of_topics_after_text();
        assert(events_after(after_seq, limit, topics).sql == EVENTS_OF_TOPICS_AFTER_SQL@);
    }
}

} // verus!
