//! Connected clients and what they work on.
use vstd::prelude::*;

use crate::meaning::{fills, opens, says, takes};
use crate::queries::texts::clients::{
    active_agents_by_project_text, active_clients_text, client_project_matrix_text,
    recent_edited_files_text, touch_agent_presence_project_text,
};
use crate::statement::{executes, fetches_all, opt_str, opt_text, BindView, Statement};

verus! {

pub const ACTIVE_CLIENTS_SQL: &'static str = "SELECT c.mcp_session_id, c.client_name, c.client_version, c.pid, c.cwd,
                p.name AS project, c.project_id, c.alive,
                c.first_seen, c.last_seen, c.last_liveness_at,
                GREATEST(0, EXTRACT(EPOCH FROM (now() - c.last_seen))::int8) AS idle_secs
           FROM mcp_clients c
           LEFT JOIN projects p ON p.id = c.project_id
          WHERE ($2 OR c.alive)
            AND ($1::text IS NULL OR p.name = $1)
          ORDER BY c.project_id NULLS LAST, c.last_seen DESC";

/// Connected clients, or all, optionally of one project.
pub fn active_clients(project: Option<&str>, include_exited: bool) -> (st: Statement)
    ensures
        st@ == fetches_all(
            ACTIVE_CLIENTS_SQL@,
            seq![
                BindView::OptText(opt_str(project)),
                BindView::Bool(include_exited),
            ],
        ),
        opens(st@.sql, "SELECT"@),
        takes(st@, "p.name = "@, BindView::OptText(opt_str(project))),
        takes(st@, "WHERE ("@, BindView::Bool(include_exited)),
        says(st@.sql, "ORDER BY c.project_id NULLS LAST, c.last_seen DESC"@),
        says(st@.sql, "FROM mcp_clients"@),
{
    proof {
        active_clients_text();
    }
    let st = Statement::all(ACTIVE_CLIENTS_SQL).opt_text(project).flag(include_exited);
    assert(st@.sql == ACTIVE_CLIENTS_SQL@);
    st
}

pub const CLIENT_PROJECT_MATRIX_SQL: &'static str = "SELECT
            cfe.project_id,
            p.name AS project,
            COALESCE(cfe.mcp_session_id, cfe.session_id::text, mc2.mcp_session_id,
                     'agent:' || cfe.agent_id, 'cgroup:' || cfe.cgroup_id::text) AS client_key,
            COALESCE(mc.client_name, mc2.client_name, cfe.agent_id,
                     CASE WHEN cfe.source = 'client_hook' THEN $3::text
                          ELSE 'unknown' END) AS client_name,
            COALESCE(mc.pid, mc2.pid, MAX(cfe.pid)) AS pid,
            COUNT(*) FILTER (WHERE cfe.op IN ('write','edit','close')) AS edit_count,
            COUNT(*) FILTER (WHERE cfe.op IN ('read','open'))          AS read_count,
            COUNT(DISTINCT cfe.abs_path)                               AS file_count,
            MAX(cfe.ts) FILTER (WHERE cfe.op IN ('write','edit','close')) AS last_edit,
            MAX(cfe.ts)                                                AS last_activity
         FROM client_file_events cfe
         LEFT JOIN projects p      ON p.id = cfe.project_id
         LEFT JOIN mcp_clients mc  ON mc.mcp_session_id = cfe.mcp_session_id
         -- Subprocess (ebpf_cgroup) rows carry no mcp_session_id; recover the
         -- owning agent by the cgroup id its process subtree inherited.
         LEFT JOIN mcp_clients mc2 ON mc2.cgroup_id = cfe.cgroup_id
                                  AND cfe.cgroup_id IS NOT NULL
         WHERE cfe.ts > now() - make_interval(mins => $1)
           AND ($2::text IS NULL OR p.name = $2)
         GROUP BY cfe.project_id, p.name,
                  COALESCE(cfe.mcp_session_id, cfe.session_id::text, mc2.mcp_session_id,
                           'agent:' || cfe.agent_id, 'cgroup:' || cfe.cgroup_id::text),
                  mc.client_name, mc2.client_name, cfe.agent_id,
                  mc.pid, mc2.pid, cfe.source
         ORDER BY cfe.project_id NULLS LAST, edit_count DESC, last_activity DESC";

/// How much each client read and edited in each project lately. An event of
/// the client hook that names no agent counts for `hook_client`, the agent that
/// was the hook's only user before events named their agent.
pub fn client_project_matrix(
    since_minutes: i32,
    project: Option<&str>,
    hook_client: &str,
) -> (st: Statement)
    ensures
        st@ == fetches_all(
            CLIENT_PROJECT_MATRIX_SQL@,
            seq![
                BindView::Int(since_minutes),
                BindView::OptText(opt_str(project)),
                BindView::Text(hook_client@),
            ],
        ),
        opens(st@.sql, "SELECT"@),
        takes(st@, "mins => "@, BindView::Int(since_minutes)),
        takes(st@, "p.name = "@, BindView::OptText(opt_str(project))),
        takes(st@, "'client_hook' THEN "@, BindView::Text(hook_client@)),
        says(st@.sql, "AND cfe.cgroup_id IS NOT NULL"@),
        says(st@.sql, "GROUP BY cfe.project_id, p.name"@),
        says(st@.sql, "ORDER BY cfe.project_id NULLS LAST, edit_count DESC, last_activity DESC"@),
        says(st@.sql, "FROM client_file_events"@),
{
    proof {
        client_project_matrix_text();
    }
    let st = Statement::all(CLIENT_PROJECT_MATRIX_SQL)
        .int4(since_minutes)
        .opt_text(project)
        .text(hook_client);
    assert(st@.sql == CLIENT_PROJECT_MATRIX_SQL@);
    st
}

pub const TOUCH_AGENT_PRESENCE_PROJECT_SQL: &'static str = "INSERT INTO agent_presence
            (agent_id, last_active_at, status, session_id, current_project_id, updated_at)
         VALUES ($1, now(), 'active', $2, $3, now())
         ON CONFLICT (agent_id) DO UPDATE SET
            last_active_at     = now(),
            status             = 'active',
            session_id         = EXCLUDED.session_id,
            current_project_id = COALESCE(EXCLUDED.current_project_id,
                                          agent_presence.current_project_id),
            updated_at         = now()";

/// Records that an agent is present in a project. The caller supplies value 0,
/// `session_id`.
pub fn touch_agent_presence_project(
    agent_id: &str,
    current_project_id: Option<i32>,
) -> (st: Statement)
    ensures
        st@ == executes(
            TOUCH_AGENT_PRESENCE_PROJECT_SQL@,
            seq![
                BindView::Text(agent_id@),
                BindView::Supplied(0),
                BindView::OptInt(current_project_id),
            ],
        ),
        opens(st@.sql, "INSERT INTO agent_presence"@),
        fills(
            st@,
            "INSERT INTO agent_presence"@,
            "agent_id"@,
            "VALUES ("@,
            BindView::Text(agent_id@),
        ),
        fills(
            st@,
            "INSERT INTO agent_presence"@,
            "session_id"@,
            "VALUES ("@,
            BindView::Supplied(0),
        ),
        fills(
            st@,
            "INSERT INTO agent_presence"@,
            "current_project_id"@,
            "VALUES ("@,
            BindView::OptInt(current_project_id),
        ),
        says(st@.sql, "ON CONFLICT (agent_id) DO UPDATE SET"@),
{
    proof {
        touch_agent_presence_project_text();
    }
    let st = Statement::execute(TOUCH_AGENT_PRESENCE_PROJECT_SQL)
        .text(agent_id)
        .supplied(0)
        .opt_int4(current_project_id);
    assert(st@.sql == TOUCH_AGENT_PRESENCE_PROJECT_SQL@);
    st
}

pub const RECENT_EDITED_FILES_SQL: &'static str = "SELECT cfe.project_id, cfe.abs_path,
                COUNT(*) FILTER (WHERE cfe.op IN ('write','edit','close')) AS edits,
                MAX(cfe.ts) AS last_ts
         FROM client_file_events cfe
         LEFT JOIN projects p ON p.id = cfe.project_id
         WHERE cfe.ts > now() - make_interval(mins => $1)
           AND ($2::text IS NULL OR p.name = $2)
         GROUP BY cfe.project_id, cfe.abs_path
         ORDER BY cfe.project_id NULLS LAST,
                  MAX(cfe.ts) FILTER (WHERE cfe.op IN ('write','edit','close')) DESC NULLS LAST,
                  last_ts DESC";

/// The files that were touched lately: project by project, the file edited last
/// first, and the files that were only looked at behind those that were edited.
pub fn recent_edited_files(since_minutes: i32, project: Option<&str>) -> (st: Statement)
    ensures
        st@ == fetches_all(
            RECENT_EDITED_FILES_SQL@,
            seq![
                BindView::Int(since_minutes),
                BindView::OptText(opt_str(project)),
            ],
        ),
        opens(st@.sql, "SELECT"@),
        takes(st@, "mins => "@, BindView::Int(since_minutes)),
        takes(st@, "p.name = "@, BindView::OptText(opt_str(project))),
        says(st@.sql, "GROUP BY cfe.project_id, cfe.abs_path"@),
        says(st@.sql, "ORDER BY cfe.project_id NULLS LAST"@),
        says(st@.sql, "FROM client_file_events"@),
{
    proof {
        recent_edited_files_text();
    }
    let st = Statement::all(RECENT_EDITED_FILES_SQL).int4(since_minutes).opt_text(project);
    assert(st@.sql == RECENT_EDITED_FILES_SQL@);
    st
}

pub const ACTIVE_AGENTS_BY_PROJECT_SQL: &'static str = "SELECT c.client_name, c.mcp_session_id, c.pid, c.cwd, c.project_id,
                p.name AS project, c.alive, c.last_seen,
                ai.recommended_role, ai.specialty
           FROM mcp_clients c
           LEFT JOIN projects p       ON p.id = c.project_id
           LEFT JOIN agent_identity ai ON ai.agent_id = lower(c.client_name)
          WHERE c.alive AND ($1::text IS NULL OR p.name = $1)
          ORDER BY c.project_id NULLS LAST, c.last_seen DESC";

/// The agents that were active lately, by project.
pub fn active_agents_by_project(project: Option<&str>) -> (st: Statement)
    ensures
        st@ == fetches_all(
            ACTIVE_AGENTS_BY_PROJECT_SQL@,
            seq![BindView::OptText(opt_str(project))],
        ),
        opens(st@.sql, "SELECT"@),
        takes(st@, "p.name = "@, BindView::OptText(opt_str(project))),
        says(st@.sql, "ORDER BY c.project_id NULLS LAST, c.last_seen DESC"@),
        says(st@.sql, "FROM mcp_clients"@),
{
    proof {
        active_agents_by_project_text();
    }
    let st = Statement::all(ACTIVE_AGENTS_BY_PROJECT_SQL).opt_text(project);
    assert(st@.sql == ACTIVE_AGENTS_BY_PROJECT_SQL@);
    st
}

} // verus!
