//! What the statements of `clients` say.
use vstd::prelude::*;

use crate::meaning::{
    item, lined_up_at, lines_up, mentions, opens, part_at, past, past_blanks, says,
};
use crate::queries::clients::{
    ACTIVE_AGENTS_BY_PROJECT_SQL, ACTIVE_CLIENTS_SQL, CLIENT_PROJECT_MATRIX_SQL,
    RECENT_EDITED_FILES_SQL, TOUCH_AGENT_PRESENCE_PROJECT_SQL,
};

verus! {

/// What the text of [`ACTIVE_CLIENTS_SQL`] says.
#[verifier::rlimit(50)]
pub proof fn active_clients_text()
    ensures
        opens(ACTIVE_CLIENTS_SQL@, "SELECT"@),
        mentions(ACTIVE_CLIENTS_SQL@, "p.name = "@, 1),
        mentions(ACTIVE_CLIENTS_SQL@, "WHERE ("@, 2),
        says(ACTIVE_CLIENTS_SQL@, "ORDER BY c.project_id NULLS LAST, c.last_seen DESC"@),
        says(ACTIVE_CLIENTS_SQL@, "FROM mcp_clients"@),
        says(ACTIVE_CLIENTS_SQL@, "LEFT JOIN projects p ON p.id = c.project_id"@),
{
    reveal_strlit(
        "SELECT c.mcp_session_id, c.client_name, c.client_version, c.pid, c.cwd,
                p.name AS project, c.project_id, c.alive,
                c.first_seen, c.last_seen, c.last_liveness_at,
                GREATEST(0, EXTRACT(EPOCH FROM (now() - c.last_seen))::int8) AS idle_secs
           FROM mcp_clients c
           LEFT JOIN projects p ON p.id = c.project_id
          WHERE ($2 OR c.alive)
            AND ($1::text IS NULL OR p.name = $1)
          ORDER BY c.project_id NULLS LAST, c.last_seen DESC",
    );
    reveal_strlit("FROM mcp_clients");
    reveal_strlit("LEFT JOIN projects p ON p.id = c.project_id");
    reveal_strlit("ORDER BY c.project_id NULLS LAST, c.last_seen DESC");
    reveal_strlit("SELECT");
    reveal_strlit("WHERE (");
    reveal_strlit("p.name = ");
    let t = ACTIVE_CLIENTS_SQL@;
    assert(part_at(t, 0, "SELECT"@));
    assert(part_at(t, 437, "p.name = "@));
    assert(part_at(t, 378, "WHERE ("@));
    assert(part_at(t, 460, "ORDER BY c.project_id NULLS LAST, c.last_seen DESC"@));
    assert(part_at(t, 294, "FROM mcp_clients"@));
    assert(part_at(t, 324, "LEFT JOIN projects p ON p.id = c.project_id"@));
}

/// What the text of [`CLIENT_PROJECT_MATRIX_SQL`] says.
#[verifier::rlimit(100)]
pub proof fn client_project_matrix_text()
    ensures
        opens(CLIENT_PROJECT_MATRIX_SQL@, "SELECT"@),
        mentions(CLIENT_PROJECT_MATRIX_SQL@, "mins => "@, 1),
        mentions(CLIENT_PROJECT_MATRIX_SQL@, "p.name = "@, 2),
        mentions(CLIENT_PROJECT_MATRIX_SQL@, "'client_hook' THEN "@, 3),
        says(CLIENT_PROJECT_MATRIX_SQL@, "AND cfe.cgroup_id IS NOT NULL"@),
        says(CLIENT_PROJECT_MATRIX_SQL@, "GROUP BY cfe.project_id, p.name"@),
        says(
            CLIENT_PROJECT_MATRIX_SQL@,
            "ORDER BY cfe.project_id NULLS LAST, edit_count DESC, last_activity DESC"@,
        ),
        says(CLIENT_PROJECT_MATRIX_SQL@, "FROM client_file_events"@),
        says(CLIENT_PROJECT_MATRIX_SQL@, "LEFT JOIN projects p      ON p.id = cfe.project_id"@),
        says(
            CLIENT_PROJECT_MATRIX_SQL@,
            "LEFT JOIN mcp_clients mc  ON mc.mcp_session_id = cfe.mcp_session_id"@,
        ),
        says(
            CLIENT_PROJECT_MATRIX_SQL@,
            "LEFT JOIN mcp_clients mc2 ON mc2.cgroup_id = cfe.cgroup_id"@,
        ),
{
    reveal_strlit(
        "SELECT
            cfe.project_id,
            p.name AS project,
            COALESCE(cfe.mcp_session_id, cfe.session_id::text, mc2.mcp_session_id,
                     'agent:' || cfe.agent_id, 'cgroup:' || cfe.cgroup_id::text) AS client_key,
            COALESCE(mc.client_name, mc2.client_name, cfe.agent_id,
                     CASE WHEN cfe.source = 'client_hook' THEN $3::text
                          ELSE 'unknown' END) AS client_name,
            COALESCE(mc.pid, mc2.pid, MAX(cfe.pid)) AS pid,
            COUNT(*) FILTER (WHERE cfe.op IN ('write','edit','close')) AS edit_count,
            COUNT(*) FILTER (WHERE cfe.op IN ('read','open'))          AS read_count,
            COUNT(DISTINCT cfe.abs_path)                               AS file_count,
            MAX(cfe.ts) FILTER (WHERE cfe.op IN ('write','edit','close')) AS last_edit,
            MAX(cfe.ts)                                                AS last_activity
         FROM client_file_events cfe
         LEFT JOIN projects p      ON p.id = cfe.project_id
         LEFT JOIN mcp_clients mc  ON mc.mcp_session_id = cfe.mcp_session_id
         -- Subprocess (ebpf_cgroup) rows carry no mcp_session_id; recover the
         -- owning agent by the cgroup id its process subtree inherited.
         LEFT JOIN mcp_clients mc2 ON mc2.cgroup_id = cfe.cgroup_id
                                  AND cfe.cgroup_id IS NOT NULL
         WHERE cfe.ts > now() - make_interval(mins => $1)
           AND ($2::text IS NULL OR p.name = $2)
         GROUP BY cfe.project_id, p.name,
                  COALESCE(cfe.mcp_session_id, cfe.session_id::text, mc2.mcp_session_id,
                           'agent:' || cfe.agent_id, 'cgroup:' || cfe.cgroup_id::text),
                  mc.client_name, mc2.client_name, cfe.agent_id,
                  mc.pid, mc2.pid, cfe.source
         ORDER BY cfe.project_id NULLS LAST, edit_count DESC, last_activity DESC",
    );
    reveal_strlit("'client_hook' THEN ");
    reveal_strlit("AND cfe.cgroup_id IS NOT NULL");
    reveal_strlit("FROM client_file_events");
    reveal_strlit("GROUP BY cfe.project_id, p.name");
    reveal_strlit("LEFT JOIN mcp_clients mc  ON mc.mcp_session_id = cfe.mcp_session_id");
    reveal_strlit("LEFT JOIN mcp_clients mc2 ON mc2.cgroup_id = cfe.cgroup_id");
    reveal_strlit("LEFT JOIN projects p      ON p.id = cfe.project_id");
    reveal_strlit("ORDER BY cfe.project_id NULLS LAST, edit_count DESC, last_activity DESC");
    reveal_strlit("SELECT");
    reveal_strlit("mins => ");
    reveal_strlit("p.name = ");
    let t = CLIENT_PROJECT_MATRIX_SQL@;
    assert(part_at(t, 0, "SELECT"@));
    assert(part_at(t, 1445, "mins => "@));
    assert(part_at(t, 1493, "p.name = "@));
    assert(part_at(t, 357, "'client_hook' THEN "@));
    assert(part_at(t, 1369, "AND cfe.cgroup_id IS NOT NULL"@));
    assert(part_at(t, 1515, "GROUP BY cfe.project_id, p.name"@));
    assert(part_at(
        t,
        1845,
        "ORDER BY cfe.project_id NULLS LAST, edit_count DESC, last_activity DESC"@,
    ));
    assert(part_at(t, 950, "FROM client_file_events"@));
    assert(part_at(t, 987, "LEFT JOIN projects p      ON p.id = cfe.project_id"@));
    assert(part_at(
        t,
        1047,
        "LEFT JOIN mcp_clients mc  ON mc.mcp_session_id = cfe.mcp_session_id"@,
    ));
    assert(part_at(t, 1276, "LEFT JOIN mcp_clients mc2 ON mc2.cgroup_id = cfe.cgroup_id"@));
}

/// What the text of [`TOUCH_AGENT_PRESENCE_PROJECT_SQL`] says.
#[verifier::rlimit(50)]
pub proof fn touch_agent_presence_project_text()
    ensures
        opens(TOUCH_AGENT_PRESENCE_PROJECT_SQL@, "INSERT INTO agent_presence"@),
        lines_up(
            TOUCH_AGENT_PRESENCE_PROJECT_SQL@,
            "INSERT INTO agent_presence"@,
            "agent_id"@,
            "VALUES ("@,
            1,
        ),
        lines_up(
            TOUCH_AGENT_PRESENCE_PROJECT_SQL@,
            "INSERT INTO agent_presence"@,
            "session_id"@,
            "VALUES ("@,
            2,
        ),
        lines_up(
            TOUCH_AGENT_PRESENCE_PROJECT_SQL@,
            "INSERT INTO agent_presence"@,
            "current_project_id"@,
            "VALUES ("@,
            3,
        ),
        says(TOUCH_AGENT_PRESENCE_PROJECT_SQL@, "ON CONFLICT (agent_id) DO UPDATE SET"@),
{
    reveal_strlit(
        "INSERT INTO agent_presence
            (agent_id, last_active_at, status, session_id, current_project_id, updated_at)
         VALUES ($1, now(), 'active', $2, $3, now())
         ON CONFLICT (agent_id) DO UPDATE SET
            last_active_at     = now(),
            status             = 'active',
            session_id         = EXCLUDED.session_id,
            current_project_id = COALESCE(EXCLUDED.current_project_id,
                                          agent_presence.current_project_id),
            updated_at         = now()",
    );
    reveal_strlit("INSERT INTO agent_presence");
    reveal_strlit("ON CONFLICT (agent_id) DO UPDATE SET");
    reveal_strlit("VALUES (");
    reveal_strlit("agent_id");
    reveal_strlit("current_project_id");
    reveal_strlit("session_id");
    let t = TOUCH_AGENT_PRESENCE_PROJECT_SQL@;
    assert(part_at(t, 0, "INSERT INTO agent_presence"@));
    reveal_with_fuel(past, 16);
    reveal_with_fuel(past_blanks, 2);
    assert(past(t, 26, '(') == 40);
    assert(item(t, 40, 0) == 40);
    assert(item(t, 40, 1) == 50);
    assert(item(t, 40, 2) == 66);
    assert(item(t, 40, 3) == 74);
    assert(item(t, 40, 4) == 86);
    assert(item(t, 135, 0) == 135);
    assert(item(t, 135, 1) == 139);
    assert(item(t, 135, 2) == 146);
    assert(item(t, 135, 3) == 156);
    assert(item(t, 135, 4) == 160);
    assert(lined_up_at(t, "INSERT INTO agent_presence"@, "agent_id"@, "VALUES ("@, 1, 0, 127, 0));
    assert(lined_up_at(t, "INSERT INTO agent_presence"@, "session_id"@, "VALUES ("@, 2, 0, 127, 3));
    assert(lined_up_at(
        t,
        "INSERT INTO agent_presence"@,
        "current_project_id"@,
        "VALUES ("@,
        3,
        0,
        127,
        4,
    ));
    assert(part_at(t, 180, "ON CONFLICT (agent_id) DO UPDATE SET"@));
}

/// What the text of [`RECENT_EDITED_FILES_SQL`] says.
#[verifier::rlimit(50)]
pub proof fn recent_edited_files_text()
    ensures
        opens(RECENT_EDITED_FILES_SQL@, "SELECT"@),
        mentions(RECENT_EDITED_FILES_SQL@, "mins => "@, 1),
        mentions(RECENT_EDITED_FILES_SQL@, "p.name = "@, 2),
        says(RECENT_EDITED_FILES_SQL@, "GROUP BY cfe.project_id, cfe.abs_path"@),
        says(RECENT_EDITED_FILES_SQL@, "ORDER BY cfe.project_id NULLS LAST"@),
        says(RECENT_EDITED_FILES_SQL@, "FROM client_file_events"@),
        says(RECENT_EDITED_FILES_SQL@, "LEFT JOIN projects p ON p.id = cfe.project_id"@),
{
    reveal_strlit(
        "SELECT cfe.project_id, cfe.abs_path,
                COUNT(*) FILTER (WHERE cfe.op IN ('write','edit','close')) AS edits,
                MAX(cfe.ts) AS last_ts
         FROM client_file_events cfe
         LEFT JOIN projects p ON p.id = cfe.project_id
         WHERE cfe.ts > now() - make_interval(mins => $1)
           AND ($2::text IS NULL OR p.name = $2)
         GROUP BY cfe.project_id, cfe.abs_path
         ORDER BY cfe.project_id NULLS LAST,
                  MAX(cfe.ts) FILTER (WHERE cfe.op IN ('write','edit','close')) DESC NULLS LAST,
                  last_ts DESC",
    );
    reveal_strlit("FROM client_file_events");
    reveal_strlit("GROUP BY cfe.project_id, cfe.abs_path");
    reveal_strlit("LEFT JOIN projects p ON p.id = cfe.project_id");
    reveal_strlit("ORDER BY cfe.project_id NULLS LAST");
    reveal_strlit("SELECT");
    reveal_strlit("mins => ");
    reveal_strlit("p.name = ");
    let t = RECENT_EDITED_FILES_SQL@;
    assert(part_at(t, 0, "SELECT"@));
    assert(part_at(t, 299, "mins => "@));
    assert(part_at(t, 347, "p.name = "@));
    assert(part_at(t, 369, "GROUP BY cfe.project_id, cfe.abs_path"@));
    assert(part_at(t, 416, "ORDER BY cfe.project_id NULLS LAST"@));
    assert(part_at(t, 170, "FROM client_file_events"@));
    assert(part_at(t, 207, "LEFT JOIN projects p ON p.id = cfe.project_id"@));
}

/// What the text of [`ACTIVE_AGENTS_BY_PROJECT_SQL`] says.
pub proof fn active_agents_by_project_text()
    ensures
        opens(ACTIVE_AGENTS_BY_PROJECT_SQL@, "SELECT"@),
        mentions(ACTIVE_AGENTS_BY_PROJECT_SQL@, "p.name = "@, 1),
        says(ACTIVE_AGENTS_BY_PROJECT_SQL@, "ORDER BY c.project_id NULLS LAST, c.last_seen DESC"@),
        says(ACTIVE_AGENTS_BY_PROJECT_SQL@, "FROM mcp_clients"@),
        says(ACTIVE_AGENTS_BY_PROJECT_SQL@, "LEFT JOIN projects p       ON p.id = c.project_id"@),
        says(
            ACTIVE_AGENTS_BY_PROJECT_SQL@,
            "LEFT JOIN agent_identity ai ON ai.agent_id = lower(c.client_name)"@,
        ),
{
    reveal_strlit(
        "SELECT c.client_name, c.mcp_session_id, c.pid, c.cwd, c.project_id,
                p.name AS project, c.alive, c.last_seen,
                ai.recommended_role, ai.specialty
           FROM mcp_clients c
           LEFT JOIN projects p       ON p.id = c.project_id
           LEFT JOIN agent_identity ai ON ai.agent_id = lower(c.client_name)
          WHERE c.alive AND ($1::text IS NULL OR p.name = $1)
          ORDER BY c.project_id NULLS LAST, c.last_seen DESC",
    );
    reveal_strlit("FROM mcp_clients");
    reveal_strlit("LEFT JOIN agent_identity ai ON ai.agent_id = lower(c.client_name)");
    reveal_strlit("LEFT JOIN projects p       ON p.id = c.project_id");
    reveal_strlit("ORDER BY c.project_id NULLS LAST, c.last_seen DESC");
    reveal_strlit("SELECT");
    reveal_strlit("p.name = ");
    let t = ACTIVE_AGENTS_BY_PROJECT_SQL@;
    assert(part_at(t, 0, "SELECT"@));
    assert(part_at(t, 392, "p.name = "@));
    assert(part_at(t, 415, "ORDER BY c.project_id NULLS LAST, c.last_seen DESC"@));
    assert(part_at(t, 186, "FROM mcp_clients"@));
    assert(part_at(t, 216, "LEFT JOIN projects p       ON p.id = c.project_id"@));
    assert(part_at(t, 277, "LEFT JOIN agent_identity ai ON ai.agent_id = lower(c.client_name)"@));
}

} // verus!
