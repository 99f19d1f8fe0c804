//! Claims on work items, the ledger of claims, and which agents are present.
use vstd::prelude::*;

use crate::migrations::change::{changes, run, runs, Change, ChangeView};

verus! {

/// The number of the step.
pub const WORK_ITEMS_COLLAB_V1: i32 = 5;

/// The name of the step.
pub const WORK_ITEMS_COLLAB_V1_NAME: &'static str = "work_items_collab_v1";

pub const ADD_WORK_ITEMS_CLAIMED_BY: &'static str =
    "ALTER TABLE work_items ADD COLUMN IF NOT EXISTS claimed_by TEXT";

pub const ADD_WORK_ITEMS_CLAIMED_AT: &'static str =
    "ALTER TABLE work_items ADD COLUMN IF NOT EXISTS claimed_at TIMESTAMPTZ";

pub const ADD_WORK_ITEMS_LEASE_EXPIRES_AT: &'static str =
    "ALTER TABLE work_items ADD COLUMN IF NOT EXISTS lease_expires_at TIMESTAMPTZ";

pub const ADD_WORK_ITEMS_CLAIM_COUNT: &'static str =
    "ALTER TABLE work_items ADD COLUMN IF NOT EXISTS claim_count INTEGER NOT NULL DEFAULT 0";

pub const CREATE_IDX_WORK_ITEMS_CLAIMED_BY: &'static str = "CREATE INDEX IF NOT EXISTS idx_work_items_claimed_by ON work_items(claimed_by) \
            WHERE claimed_by IS NOT NULL";

pub const CREATE_WORK_ITEM_CLAIMS: &'static str = "CREATE TABLE IF NOT EXISTS work_item_claims (
            id            BIGSERIAL PRIMARY KEY,
            work_item_id  BIGINT NOT NULL REFERENCES work_items(id) ON DELETE CASCADE,
            agent_id      TEXT NOT NULL,
            action        TEXT NOT NULL CHECK (action IN
                              ('claim','release','handoff_out','handoff_in','expire','steal')),
            to_agent_id   TEXT,
            lease_expires_at TIMESTAMPTZ,
            created_at    TIMESTAMPTZ NOT NULL DEFAULT NOW()
        )";

pub const CREATE_IDX_WI_CLAIMS_ITEM: &'static str =
    "CREATE INDEX IF NOT EXISTS idx_wi_claims_item ON work_item_claims(work_item_id, created_at DESC)";

pub const CREATE_IDX_WI_CLAIMS_AGENT: &'static str =
    "CREATE INDEX IF NOT EXISTS idx_wi_claims_agent ON work_item_claims(agent_id, created_at DESC)";

pub const CREATE_AGENT_PRESENCE: &'static str = "CREATE TABLE IF NOT EXISTS agent_presence (
            agent_id             TEXT PRIMARY KEY,
            last_active_at       TIMESTAMPTZ NOT NULL DEFAULT NOW(),
            status               TEXT NOT NULL DEFAULT 'active'
                                     CHECK (status IN ('active','idle','offline')),
            current_work_item_id BIGINT REFERENCES work_items(id) ON DELETE SET NULL,
            session_id           UUID,
            updated_at           TIMESTAMPTZ NOT NULL DEFAULT NOW()
        )";

pub const CREATE_IDX_AGENT_PRESENCE_ACTIVE: &'static str =
    "CREATE INDEX IF NOT EXISTS idx_agent_presence_active ON agent_presence(last_active_at DESC)";

pub const CREATE_AGENT_IDENTITY: &'static str = "CREATE OR REPLACE VIEW agent_identity AS
            SELECT DISTINCT ON (lower(a.name))
                lower(a.name) AS agent_id,
                a.name        AS registered_name,
                a.url,
                a.specialty,
                a.recommended_role,
                a.last_seen_at
            FROM a2a_agents a
            ORDER BY lower(a.name), a.last_seen_at DESC NULLS LAST";

pub const STAMP_METADATA: &'static str = "INSERT INTO pgmcp_metadata (key, value) VALUES ('work_items_collab_version', '1')
         ON CONFLICT (key) DO UPDATE SET value = excluded.value";

/// The changes of the step, in their order.
pub open spec fn steps() -> Seq<ChangeView> {
    seq![
        runs(ADD_WORK_ITEMS_CLAIMED_BY@),
        runs(ADD_WORK_ITEMS_CLAIMED_AT@),
        runs(ADD_WORK_ITEMS_LEASE_EXPIRES_AT@),
        runs(ADD_WORK_ITEMS_CLAIM_COUNT@),
        runs(CREATE_IDX_WORK_ITEMS_CLAIMED_BY@),
        runs(CREATE_WORK_ITEM_CLAIMS@),
        runs(CREATE_IDX_WI_CLAIMS_ITEM@),
        runs(CREATE_IDX_WI_CLAIMS_AGENT@),
        runs(CREATE_AGENT_PRESENCE@),
        runs(CREATE_IDX_AGENT_PRESENCE_ACTIVE@),
        runs(CREATE_AGENT_IDENTITY@),
        runs(STAMP_METADATA@),
    ]
}

/// Adds the columns of a claim to work items, the ledger of claims, the table
/// of present agents and the view that names them.
pub fn apply() -> (r: Vec<Change>)
    ensures
        changes(r@) == steps(),
{
    let r = vec![
        run(ADD_WORK_ITEMS_CLAIMED_BY),
        run(ADD_WORK_ITEMS_CLAIMED_AT),
        run(ADD_WORK_ITEMS_LEASE_EXPIRES_AT),
        run(ADD_WORK_ITEMS_CLAIM_COUNT),
        run(CREATE_IDX_WORK_ITEMS_CLAIMED_BY),
        run(CREATE_WORK_ITEM_CLAIMS),
        run(CREATE_IDX_WI_CLAIMS_ITEM),
        run(CREATE_IDX_WI_CLAIMS_AGENT),
        run(CREATE_AGENT_PRESENCE),
        run(CREATE_IDX_AGENT_PRESENCE_ACTIVE),
        run(CREATE_AGENT_IDENTITY),
        run(STAMP_METADATA),
    ];
    assert(changes(r@) =~= steps());
    r
}

} // verus!
