//! Traces of runs: spans, annotations, counterexamples and the journal of
//! control actions.
use vstd::prelude::*;

use crate::migrations::change::{
    changes, create_index, create_table, creates_index, creates_table, is_creation,
    law_creating_again_changes_nothing, lemma_creations, with_changes, Change, ChangeView,
};

verus! {

/// The number of the step.
pub const CRUCIBLE_TRACE: i32 = 60;

/// The name of the step.
pub const CRUCIBLE_TRACE_NAME: &'static str = "crucible_trace";

pub const SPANS_1: &'static str = "crucible_trace_spans (
            span_id              BIGSERIAL PRIMARY KEY,
            trace_id             UUID NOT NULL,
            parent_span_id       BIGINT REFERENCES crucible_trace_spans(span_id) ON DELETE CASCADE,
            kind                 TEXT NOT NULL CHECK (kind IN (";

pub const SPANS_2: &'static str = ")),
            name                 TEXT NOT NULL,
            status               TEXT NOT NULL DEFAULT 'unset' CHECK (status IN (";

pub const SPANS_3: &'static str = ")),
            status_message       TEXT,
            started_at           TIMESTAMPTZ NOT NULL DEFAULT NOW(),
            ended_at             TIMESTAMPTZ,
            session_key          TEXT REFERENCES orchestration_sessions(session_key) ON DELETE SET NULL,
            task_id              UUID REFERENCES a2a_tasks(id) ON DELETE SET NULL,
            run_trace_id         BIGINT REFERENCES csm_run_traces(id) ON DELETE SET NULL,
            work_item_public_id  TEXT,
            experiment_id        BIGINT REFERENCES experiments(id) ON DELETE SET NULL,
            pi_session_id        TEXT,
            role                 TEXT,
            peer                 TEXT,
            model                TEXT,
            event_lo             INT,
            event_hi             INT,
            gtype_cursor         INT,
            frame_depth          INT NOT NULL DEFAULT 0,
            orch_state           INT,
            critic_iteration     INT,
            critic_phase         TEXT,
            attributes           JSONB NOT NULL DEFAULT '{}'::jsonb,
            links                JSONB NOT NULL DEFAULT '[]'::jsonb,
            created_at           TIMESTAMPTZ NOT NULL DEFAULT NOW()
        )";

/// The table of spans; each span may have a parent.
pub open spec fn spans_definition(span_kind: Seq<char>, span_status: Seq<char>) -> Seq<char> {
    SPANS_1@ + span_kind + SPANS_2@ + span_status + SPANS_3@
}

fn write_spans(span_kind: &str, span_status: &str) -> (r: String)
    ensures
        r@ == spans_definition(span_kind@, span_status@),
{
    let mut m = String::from_str(SPANS_1);
    m.append(span_kind);
    m.append(SPANS_2);
    m.append(span_status);
    m.append(SPANS_3);
    m
}

pub const IDX_CTS_TRACE: &'static str =
    "idx_cts_trace      ON crucible_trace_spans (trace_id, span_id)";

pub const IDX_CTS_PARENT: &'static str =
    "idx_cts_parent     ON crucible_trace_spans (parent_span_id)";

pub const IDX_CTS_SESSION: &'static str =
    "idx_cts_session    ON crucible_trace_spans (session_key)";

pub const IDX_CTS_TASK: &'static str = "idx_cts_task       ON crucible_trace_spans (task_id)";

pub const IDX_CTS_RUNTRACE: &'static str =
    "idx_cts_runtrace   ON crucible_trace_spans (run_trace_id)";

pub const IDX_CTS_WORKITEM: &'static str =
    "idx_cts_workitem   ON crucible_trace_spans (work_item_public_id)";

pub const IDX_CTS_EXPERIMENT: &'static str =
    "idx_cts_experiment ON crucible_trace_spans (experiment_id)";

pub const IDX_CTS_KIND_STATUS: &'static str =
    "idx_cts_kind_status ON crucible_trace_spans (kind, status)";

pub const IDX_CTS_STARTED: &'static str = "idx_cts_started    ON crucible_trace_spans (started_at)";

pub const IDX_CTS_OPEN: &'static str =
    "idx_cts_open       ON crucible_trace_spans (trace_id) WHERE ended_at IS NULL";

pub const IDX_CTS_ATTRS_GIN: &'static str =
    "idx_cts_attrs_gin  ON crucible_trace_spans USING gin (attributes)";

pub const COUNTEREXAMPLES_1: &'static str = "crucible_trace_counterexamples (
            id                  BIGSERIAL PRIMARY KEY,
            trace_id            UUID,
            span_id             BIGINT REFERENCES crucible_trace_spans(span_id) ON DELETE SET NULL,
            experiment_id       BIGINT REFERENCES experiments(id) ON DELETE SET NULL,
            work_item_public_id TEXT,
            source              TEXT NOT NULL CHECK (source IN (";

pub const COUNTEREXAMPLES_2: &'static str = ")),
            verdict             TEXT NOT NULL DEFAULT 'violated' CHECK (verdict IN (";

pub const COUNTEREXAMPLES_3: &'static str = ")),
            property            TEXT,
            witness_kind        TEXT NOT NULL CHECK (witness_kind IN (";

pub const COUNTEREXAMPLES_4: &'static str = ")),
            witness             JSONB NOT NULL,
            content             TEXT,
            content_sha256      CHAR(64) NOT NULL UNIQUE,
            metrics             JSONB NOT NULL DEFAULT '{}'::jsonb,
            created_at          TIMESTAMPTZ NOT NULL DEFAULT NOW()
        )";

/// The table of counterexamples, at most one for each content.
pub open spec fn counterexamples_definition(
    cex_source: Seq<char>,
    cex_verdict: Seq<char>,
    witness_kind: Seq<char>,
) -> Seq<char> {
    COUNTEREXAMPLES_1@ + cex_source + COUNTEREXAMPLES_2@ + cex_verdict
        + COUNTEREXAMPLES_3@ + witness_kind + COUNTEREXAMPLES_4@
}

fn write_counterexamples(
    cex_source: &str,
    cex_verdict: &str,
    witness_kind: &str,
) -> (r: String)
    ensures
        r@ == counterexamples_definition(cex_source@, cex_verdict@, witness_kind@),
{
    let mut m = String::from_str(COUNTEREXAMPLES_1);
    m.append(cex_source);
    m.append(COUNTEREXAMPLES_2);
    m.append(cex_verdict);
    m.append(COUNTEREXAMPLES_3);
    m.append(witness_kind);
    m.append(COUNTEREXAMPLES_4);
    m
}

pub const IDX_CTCX_TRACE: &'static str =
    "idx_ctcx_trace  ON crucible_trace_counterexamples (trace_id)";

pub const IDX_CTCX_SOURCE: &'static str =
    "idx_ctcx_source ON crucible_trace_counterexamples (source, verdict)";

pub const EVENTS_1: &'static str = "crucible_trace_events (
            id                 BIGSERIAL PRIMARY KEY,
            span_id            BIGINT NOT NULL REFERENCES crucible_trace_spans(span_id) ON DELETE CASCADE,
            trace_id           UUID NOT NULL,
            at                 TIMESTAMPTZ NOT NULL DEFAULT NOW(),
            event_kind         TEXT NOT NULL CHECK (event_kind IN (";

pub const EVENTS_2: &'static str = ")),
            severity           TEXT NOT NULL DEFAULT 'info' CHECK (severity IN (";

pub const EVENTS_3: &'static str = ")),
            message            TEXT,
            event_ord          INT,
            counterexample_id  BIGINT REFERENCES crucible_trace_counterexamples(id) ON DELETE SET NULL,
            attributes         JSONB NOT NULL DEFAULT '{}'::jsonb
        )";

/// The table of annotations within a span.
pub open spec fn events_definition(annotation_kind: Seq<char>, severity: Seq<char>) -> Seq<char> {
    EVENTS_1@ + annotation_kind + EVENTS_2@ + severity + EVENTS_3@
}

fn write_events(annotation_kind: &str, severity: &str) -> (r: String)
    ensures
        r@ == events_definition(annotation_kind@, severity@),
{
    let mut m = String::from_str(EVENTS_1);
    m.append(annotation_kind);
    m.append(EVENTS_2);
    m.append(severity);
    m.append(EVENTS_3);
    m
}

pub const IDX_CTE_SPAN: &'static str = "idx_cte_span  ON crucible_trace_events (span_id)";

pub const IDX_CTE_TRACE: &'static str = "idx_cte_trace ON crucible_trace_events (trace_id, at)";

pub const IDX_CTE_KIND: &'static str = "idx_cte_kind  ON crucible_trace_events (event_kind)";

pub const SPAN_CLOSURE: &'static str = "crucible_trace_span_closure (
            ancestor_id   BIGINT NOT NULL REFERENCES crucible_trace_spans(span_id) ON DELETE CASCADE,
            descendant_id BIGINT NOT NULL REFERENCES crucible_trace_spans(span_id) ON DELETE CASCADE,
            depth         INT NOT NULL,
            PRIMARY KEY (ancestor_id, descendant_id)
        )";

pub const IDX_CTSC_DESC: &'static str =
    "idx_ctsc_desc ON crucible_trace_span_closure (descendant_id)";

pub const JOURNAL_1: &'static str = "crucible_control_journal (
            id                  BIGSERIAL PRIMARY KEY,
            action              TEXT NOT NULL CHECK (action IN (";

pub const JOURNAL_2: &'static str = ")),
            scope               TEXT NOT NULL DEFAULT 'fleet' CHECK (scope IN (";

pub const JOURNAL_3: &'static str = ")),
            session_key         TEXT,
            task_id             UUID REFERENCES a2a_tasks(id) ON DELETE SET NULL,
            work_item_public_id TEXT,
            trace_id            UUID,
            span_id             BIGINT REFERENCES crucible_trace_spans(span_id) ON DELETE SET NULL,
            reason              TEXT,
            actor               TEXT,
            at                  TIMESTAMPTZ NOT NULL DEFAULT NOW(),
            attributes          JSONB NOT NULL DEFAULT '{}'::jsonb
        )";

/// The journal of control actions.
pub open spec fn journal_definition(action: Seq<char>, scope: Seq<char>) -> Seq<char> {
    JOURNAL_1@ + action + JOURNAL_2@ + scope + JOURNAL_3@
}

fn write_journal(action: &str, scope: &str) -> (r: String)
    ensures
        r@ == journal_definition(action@, scope@),
{
    let mut m = String::from_str(JOURNAL_1);
    m.append(action);
    m.append(JOURNAL_2);
    m.append(scope);
    m.append(JOURNAL_3);
    m
}

pub const IDX_CCJ_AT: &'static str = "idx_ccj_at      ON crucible_control_journal (at DESC)";

pub const IDX_CCJ_ACTION: &'static str =
    "idx_ccj_action  ON crucible_control_journal (action, at DESC)";

pub const IDX_CCJ_SESSION: &'static str =
    "idx_ccj_session ON crucible_control_journal (session_key)";

pub const IDX_CCJ_TRACE: &'static str = "idx_ccj_trace   ON crucible_control_journal (trace_id)";

/// The changes of the step, in their order.
pub open spec fn steps(
    span_kind: Seq<char>,
    span_status: Seq<char>,
    cex_source: Seq<char>,
    cex_verdict: Seq<char>,
    witness_kind: Seq<char>,
    annotation_kind: Seq<char>,
    severity: Seq<char>,
    action: Seq<char>,
    scope: Seq<char>,
) -> Seq<ChangeView> {
    seq![
        creates_table(spans_definition(span_kind, span_status)),
        creates_index(IDX_CTS_TRACE@),
        creates_index(IDX_CTS_PARENT@),
        creates_index(IDX_CTS_SESSION@),
        creates_index(IDX_CTS_TASK@),
        creates_index(IDX_CTS_RUNTRACE@),
        creates_index(IDX_CTS_WORKITEM@),
        creates_index(IDX_CTS_EXPERIMENT@),
        creates_index(IDX_CTS_KIND_STATUS@),
        creates_index(IDX_CTS_STARTED@),
        creates_index(IDX_CTS_OPEN@),
        creates_index(IDX_CTS_ATTRS_GIN@),
        creates_table(counterexamples_definition(cex_source, cex_verdict, witness_kind)),
        creates_index(IDX_CTCX_TRACE@),
        creates_index(IDX_CTCX_SOURCE@),
        creates_table(events_definition(annotation_kind, severity)),
        creates_index(IDX_CTE_SPAN@),
        creates_index(IDX_CTE_TRACE@),
        creates_index(IDX_CTE_KIND@),
        creates_table(SPAN_CLOSURE@),
        creates_index(IDX_CTSC_DESC@),
        creates_table(journal_definition(action, scope)),
        creates_index(IDX_CCJ_AT@),
        creates_index(IDX_CCJ_ACTION@),
        creates_index(IDX_CCJ_SESSION@),
        creates_index(IDX_CCJ_TRACE@),
    ]
}

/// Creates the tables of traces. Each argument is the list of values that a
/// column admits, as it stands between the parentheses of `IN`.
pub fn apply(
    span_kind: &str,
    span_status: &str,
    cex_source: &str,
    cex_verdict: &str,
    witness_kind: &str,
    annotation_kind: &str,
    severity: &str,
    action: &str,
    scope: &str,
) -> (r: Vec<Change>)
    ensures
        changes(r@) == steps(
            span_kind@,
            span_status@,
            cex_source@,
            cex_verdict@,
            witness_kind@,
            annotation_kind@,
            severity@,
            action@,
            scope@,
        ),
{
    let r = vec![
        create_table(write_spans(span_kind, span_status).as_str()),
        create_index(IDX_CTS_TRACE),
        create_index(IDX_CTS_PARENT),
        create_index(IDX_CTS_SESSION),
        create_index(IDX_CTS_TASK),
        create_index(IDX_CTS_RUNTRACE),
        create_index(IDX_CTS_WORKITEM),
        create_index(IDX_CTS_EXPERIMENT),
        create_index(IDX_CTS_KIND_STATUS),
        create_index(IDX_CTS_STARTED),
        create_index(IDX_CTS_OPEN),
        create_index(IDX_CTS_ATTRS_GIN),
        create_table(write_counterexamples(cex_source, cex_verdict, witness_kind).as_str()),
        create_index(IDX_CTCX_TRACE),
        create_index(IDX_CTCX_SOURCE),
        create_table(write_events(annotation_kind, severity).as_str()),
        create_index(IDX_CTE_SPAN),
        create_index(IDX_CTE_TRACE),
        create_index(IDX_CTE_KIND),
        create_table(SPAN_CLOSURE),
        create_index(IDX_CTSC_DESC),
        create_table(write_journal(action, scope).as_str()),
        create_index(IDX_CCJ_AT),
        create_index(IDX_CCJ_ACTION),
        create_index(IDX_CCJ_SESSION),
        create_index(IDX_CCJ_TRACE),
    ];
    assert(changes(r@) =~= steps(
            span_kind@,
            span_status@,
            cex_source@,
            cex_verdict@,
            witness_kind@,
            annotation_kind@,
            severity@,
            action@,
            scope@,
        ));
    r
}

/// The step only creates what is missing, so it can run again: a second run
/// changes nothing.
pub proof fn law_step_can_run_again(
    schema: Map<Seq<char>, ChangeView>,
    span_kind: Seq<char>,
    span_status: Seq<char>,
    cex_source: Seq<char>,
    cex_verdict: Seq<char>,
    witness_kind: Seq<char>,
    annotation_kind: Seq<char>,
    severity: Seq<char>,
    action: Seq<char>,
    scope: Seq<char>,
)
    ensures
        ({
            let all = steps(
                span_kind,
                span_status,
                cex_source,
                cex_verdict,
                witness_kind,
                annotation_kind,
                severity,
                action,
                scope,
            );
            &&& forall|i: int| 0 <= i < all.len() ==> is_creation(#[trigger] all[i])
            &&& schema.submap_of(with_changes(schema, all))
            &&& with_changes(with_changes(schema, all), all) == with_changes(schema, all)
        }),
{
    let all = steps(
        span_kind,
        span_status,
        cex_source,
        cex_verdict,
        witness_kind,
        annotation_kind,
        severity,
        action,
        scope,
    );
    assert forall|d: Seq<char>| is_creation(#[trigger] creates_table(d)) by {
        lemma_creations(d);
    }
    assert forall|d: Seq<char>| is_creation(#[trigger] creates_index(d)) by {
        lemma_creations(d);
    }
    law_creating_again_changes_nothing(schema, all);
}

} // verus!
