//! What the statements of `data_table_links` say.
use vstd::prelude::*;

use crate::meaning::{
    item, lined_up_at, lines_up, mentions, opens, part_at, past, past_blanks, says,
};
use crate::queries::data_table_links::{
    LINKS_FOR_TABLE_SQL, LINK_DATA_TABLE_SQL, UNLINK_DATA_TABLE_SQL,
};

verus! {

/// What the text of [`LINK_DATA_TABLE_SQL`] says.
pub proof fn link_data_table_text()
    ensures
        opens(LINK_DATA_TABLE_SQL@, "INSERT INTO data_table_links"@),
        lines_up(
            LINK_DATA_TABLE_SQL@,
            "INSERT INTO data_table_links"@,
            "table_id"@,
            "VALUES ("@,
            1,
        ),
        lines_up(
            LINK_DATA_TABLE_SQL@,
            "INSERT INTO data_table_links"@,
            "target_type"@,
            "VALUES ("@,
            2,
        ),
        lines_up(
            LINK_DATA_TABLE_SQL@,
            "INSERT INTO data_table_links"@,
            "target_id"@,
            "VALUES ("@,
            3,
        ),
        lines_up(LINK_DATA_TABLE_SQL@, "INSERT INTO data_table_links"@, "role"@, "VALUES ("@, 4),
        says(LINK_DATA_TABLE_SQL@, "ON CONFLICT (table_id, target_type, target_id)"@),
        says(LINK_DATA_TABLE_SQL@, "role = EXCLUDED.role"@),
{
    reveal_strlit(
        "INSERT INTO data_table_links (table_id, target_type, target_id, role)
         VALUES ($1, $2, $3, $4)
         ON CONFLICT (table_id, target_type, target_id)
         DO UPDATE SET role = EXCLUDED.role
         RETURNING id",
    );
    reveal_strlit("INSERT INTO data_table_links");
    reveal_strlit("ON CONFLICT (table_id, target_type, target_id)");
    reveal_strlit("VALUES (");
    reveal_strlit("role");
    reveal_strlit("role = EXCLUDED.role");
    reveal_strlit("table_id");
    reveal_strlit("target_id");
    reveal_strlit("target_type");
    let t = LINK_DATA_TABLE_SQL@;
    assert(part_at(t, 0, "INSERT INTO data_table_links"@));
    reveal_with_fuel(past, 13);
    reveal_with_fuel(past_blanks, 2);
    assert(past(t, 28, '(') == 30);
    assert(item(t, 30, 0) == 30);
    assert(item(t, 30, 1) == 40);
    assert(item(t, 30, 2) == 53);
    assert(item(t, 30, 3) == 64);
    assert(item(t, 87, 0) == 87);
    assert(item(t, 87, 1) == 91);
    assert(item(t, 87, 2) == 95);
    assert(item(t, 87, 3) == 99);
    assert(lined_up_at(t, "INSERT INTO data_table_links"@, "table_id"@, "VALUES ("@, 1, 0, 79, 0));
    assert(lined_up_at(
        t,
        "INSERT INTO data_table_links"@,
        "target_type"@,
        "VALUES ("@,
        2,
        0,
        79,
        1,
    ));
    assert(lined_up_at(t, "INSERT INTO data_table_links"@, "target_id"@, "VALUES ("@, 3, 0, 79, 2));
    assert(lined_up_at(t, "INSERT INTO data_table_links"@, "role"@, "VALUES ("@, 4, 0, 79, 3));
    assert(part_at(t, 112, "ON CONFLICT (table_id, target_type, target_id)"@));
    assert(part_at(t, 182, "role = EXCLUDED.role"@));
}

/// What the text of [`UNLINK_DATA_TABLE_SQL`] says.
pub proof fn unlink_data_table_text()
    ensures
        opens(UNLINK_DATA_TABLE_SQL@, "DELETE FROM data_table_links"@),
        mentions(UNLINK_DATA_TABLE_SQL@, "table_id = "@, 1),
        mentions(UNLINK_DATA_TABLE_SQL@, "target_type = "@, 2),
        mentions(UNLINK_DATA_TABLE_SQL@, "target_id = "@, 3),
{
    reveal_strlit(
        "DELETE FROM data_table_links
          WHERE table_id = $1 AND target_type = $2 AND target_id = $3",
    );
    reveal_strlit("DELETE FROM data_table_links");
    reveal_strlit("table_id = ");
    reveal_strlit("target_id = ");
    reveal_strlit("target_type = ");
    let t = UNLINK_DATA_TABLE_SQL@;
    assert(part_at(t, 0, "DELETE FROM data_table_links"@));
    assert(part_at(t, 45, "table_id = "@));
    assert(part_at(t, 63, "target_type = "@));
    assert(part_at(t, 84, "target_id = "@));
}

/// What the text of [`LINKS_FOR_TABLE_SQL`] says.
pub proof fn links_for_table_text()
    ensures
        opens(LINKS_FOR_TABLE_SQL@, "SELECT"@),
        mentions(LINKS_FOR_TABLE_SQL@, "table_id = "@, 1),
        says(LINKS_FOR_TABLE_SQL@, "ORDER BY created_at"@),
        says(LINKS_FOR_TABLE_SQL@, "FROM data_table_links"@),
{
    reveal_strlit(
        "SELECT id, table_id, target_type, target_id, role, created_at
           FROM data_table_links
          WHERE table_id = $1
          ORDER BY created_at",
    );
    reveal_strlit("FROM data_table_links");
    reveal_strlit("ORDER BY created_at");
    reveal_strlit("SELECT");
    reveal_strlit("table_id = ");
    let t = LINKS_FOR_TABLE_SQL@;
    assert(part_at(t, 0, "SELECT"@));
    assert(part_at(t, 111, "table_id = "@));
    assert(part_at(t, 135, "ORDER BY created_at"@));
    assert(part_at(t, 73, "FROM data_table_links"@));
}

} // verus!
