//! What the statements of `digest` say.
use vstd::prelude::*;

use crate::meaning::{
    item, lined_up_at, lines_up, mentions, opens, part_at, past, past_blanks, says,
};
use crate::queries::digest::{
    INSERT_DIGEST_EMISSION_SQL, RECENTLY_EMITTED_SQL, SESSION_EMIT_COUNT_SQL,
};

verus! {

/// What the text of [`RECENTLY_EMITTED_SQL`] says.
pub proof fn recently_emitted_text()
    ensures
        opens(RECENTLY_EMITTED_SQL@, "SELECT"@),
        mentions(RECENTLY_EMITTED_SQL@, "session_id = "@, 1),
        mentions(RECENTLY_EMITTED_SQL@, "content_sha256 = "@, 2),
        mentions(RECENTLY_EMITTED_SQL@, "> now() - ("@, 3),
        says(RECENTLY_EMITTED_SQL@, "FROM digest_emissions"@),
{
    reveal_strlit(
        "SELECT 1 FROM digest_emissions
          WHERE session_id = $1 AND content_sha256 = $2
            AND ts > now() - ($3::bigint * interval '1 second')
          LIMIT 1",
    );
    reveal_strlit("> now() - (");
    reveal_strlit("FROM digest_emissions");
    reveal_strlit("SELECT");
    reveal_strlit("content_sha256 = ");
    reveal_strlit("session_id = ");
    let t = RECENTLY_EMITTED_SQL@;
    assert(part_at(t, 0, "SELECT"@));
    assert(part_at(t, 47, "session_id = "@));
    assert(part_at(t, 67, "content_sha256 = "@));
    assert(part_at(t, 106, "> now() - ("@));
    assert(part_at(t, 9, "FROM digest_emissions"@));
}

/// What the text of [`SESSION_EMIT_COUNT_SQL`] says.
pub proof fn session_emit_count_text()
    ensures
        opens(SESSION_EMIT_COUNT_SQL@, "SELECT"@),
        mentions(SESSION_EMIT_COUNT_SQL@, "session_id = "@, 1),
        says(SESSION_EMIT_COUNT_SQL@, "FROM digest_emissions"@),
{
    reveal_strlit(
        "SELECT COUNT(*)::int8 FROM digest_emissions WHERE session_id = $1",
    );
    reveal_strlit("FROM digest_emissions");
    reveal_strlit("SELECT");
    reveal_strlit("session_id = ");
    let t = SESSION_EMIT_COUNT_SQL@;
    assert(part_at(t, 0, "SELECT"@));
    assert(part_at(t, 50, "session_id = "@));
    assert(part_at(t, 22, "FROM digest_emissions"@));
}

/// What the text of [`INSERT_DIGEST_EMISSION_SQL`] says.
pub proof fn insert_digest_emission_text()
    ensures
        opens(INSERT_DIGEST_EMISSION_SQL@, "INSERT INTO digest_emissions"@),
        lines_up(
            INSERT_DIGEST_EMISSION_SQL@,
            "INSERT INTO digest_emissions"@,
            "session_id"@,
            "VALUES ("@,
            1,
        ),
        lines_up(
            INSERT_DIGEST_EMISSION_SQL@,
            "INSERT INTO digest_emissions"@,
            "channel"@,
            "VALUES ("@,
            2,
        ),
        lines_up(
            INSERT_DIGEST_EMISSION_SQL@,
            "INSERT INTO digest_emissions"@,
            "project_id"@,
            "VALUES ("@,
            3,
        ),
        lines_up(
            INSERT_DIGEST_EMISSION_SQL@,
            "INSERT INTO digest_emissions"@,
            "content_sha256"@,
            "VALUES ("@,
            4,
        ),
        lines_up(
            INSERT_DIGEST_EMISSION_SQL@,
            "INSERT INTO digest_emissions"@,
            "item_count"@,
            "VALUES ("@,
            5,
        ),
{
    reveal_strlit(
        "INSERT INTO digest_emissions
            (session_id, channel, project_id, content_sha256, item_count)
         VALUES ($1, $2, $3, $4, $5)",
    );
    reveal_strlit("INSERT INTO digest_emissions");
    reveal_strlit("VALUES (");
    reveal_strlit("channel");
    reveal_strlit("content_sha256");
    reveal_strlit("item_count");
    reveal_strlit("project_id");
    reveal_strlit("session_id");
    let t = INSERT_DIGEST_EMISSION_SQL@;
    assert(part_at(t, 0, "INSERT INTO digest_emissions"@));
    reveal_with_fuel(past, 16);
    reveal_with_fuel(past_blanks, 2);
    assert(past(t, 28, '(') == 42);
    assert(item(t, 42, 0) == 42);
    assert(item(t, 42, 1) == 54);
    assert(item(t, 42, 2) == 63);
    assert(item(t, 42, 3) == 75);
    assert(item(t, 42, 4) == 91);
    assert(item(t, 120, 0) == 120);
    assert(item(t, 120, 1) == 124);
    assert(item(t, 120, 2) == 128);
    assert(item(t, 120, 3) == 132);
    assert(item(t, 120, 4) == 136);
    assert(lined_up_at(
        t,
        "INSERT INTO digest_emissions"@,
        "session_id"@,
        "VALUES ("@,
        1,
        0,
        112,
        0,
    ));
    assert(lined_up_at(t, "INSERT INTO digest_emissions"@, "channel"@, "VALUES ("@, 2, 0, 112, 1));
    assert(lined_up_at(
        t,
        "INSERT INTO digest_emissions"@,
        "project_id"@,
        "VALUES ("@,
        3,
        0,
        112,
        2,
    ));
    assert(lined_up_at(
        t,
        "INSERT INTO digest_emissions"@,
        "content_sha256"@,
        "VALUES ("@,
        4,
        0,
        112,
        3,
    ));
    assert(lined_up_at(
        t,
        "INSERT INTO digest_emissions"@,
        "item_count"@,
        "VALUES ("@,
        5,
        0,
        112,
        4,
    ));
}

} // verus!
