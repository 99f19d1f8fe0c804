//! What the statements of `metadata` say.
use vstd::prelude::*;

use crate::meaning::{
    fills, item, lined_up_at, lines_up, mentions, opens, part_at, past, past_blanks, says, takes,
};
use crate::metadata::{reads, writes, READ_METADATA_SQL, WRITE_METADATA_SQL};
use crate::statement::BindView;

verus! {

/// What the text of [`READ_METADATA_SQL`] says.
pub proof fn read_metadata_text()
    ensures
        opens(READ_METADATA_SQL@, "SELECT"@),
        mentions(READ_METADATA_SQL@, "key = "@, 1),
        says(READ_METADATA_SQL@, "FROM pgmcp_metadata"@),
{
    reveal_strlit(
        "SELECT value FROM pgmcp_metadata WHERE key = $1",
    );
    reveal_strlit("FROM pgmcp_metadata");
    reveal_strlit("SELECT");
    reveal_strlit("key = ");
    let t = READ_METADATA_SQL@;
    assert(part_at(t, 0, "SELECT"@));
    assert(part_at(t, 39, "key = "@));
    assert(part_at(t, 13, "FROM pgmcp_metadata"@));
}

/// What the text of [`WRITE_METADATA_SQL`] says.
pub proof fn write_metadata_text()
    ensures
        opens(WRITE_METADATA_SQL@, "INSERT INTO pgmcp_metadata"@),
        lines_up(WRITE_METADATA_SQL@, "INSERT INTO pgmcp_metadata"@, "key"@, "VALUES ("@, 1),
        lines_up(WRITE_METADATA_SQL@, "INSERT INTO pgmcp_metadata"@, "value"@, "VALUES ("@, 2),
        says(WRITE_METADATA_SQL@, "ON CONFLICT (key) DO UPDATE SET value = EXCLUDED.value"@),
        says(WRITE_METADATA_SQL@, "value = EXCLUDED.value"@),
{
    reveal_strlit(
        "INSERT INTO pgmcp_metadata (key, value) VALUES ($1, $2)
         ON CONFLICT (key) DO UPDATE SET value = EXCLUDED.value",
    );
    reveal_strlit("INSERT INTO pgmcp_metadata");
    reveal_strlit("ON CONFLICT (key) DO UPDATE SET value = EXCLUDED.value");
    reveal_strlit("VALUES (");
    reveal_strlit("key");
    reveal_strlit("value");
    reveal_strlit("value = EXCLUDED.value");
    let t = WRITE_METADATA_SQL@;
    assert(part_at(t, 0, "INSERT INTO pgmcp_metadata"@));
    reveal_with_fuel(past, 5);
    reveal_with_fuel(past_blanks, 2);
    assert(past(t, 26, '(') == 28);
    assert(item(t, 28, 0) == 28);
    assert(item(t, 28, 1) == 33);
    assert(item(t, 48, 0) == 48);
    assert(item(t, 48, 1) == 52);
    assert(lined_up_at(t, "INSERT INTO pgmcp_metadata"@, "key"@, "VALUES ("@, 1, 0, 40, 0));
    assert(lined_up_at(t, "INSERT INTO pgmcp_metadata"@, "value"@, "VALUES ("@, 2, 0, 40, 1));
    assert(part_at(t, 65, "ON CONFLICT (key) DO UPDATE SET value = EXCLUDED.value"@));
    assert(part_at(t, 97, "value = EXCLUDED.value"@));
}

/// Each argument of [`reads`] is what the text names in its place.
pub proof fn law_reads_stands_for_its_values(key: Seq<char>)
    ensures
        opens(reads(key).sql, "SELECT"@),
        takes(reads(key), "key = "@, BindView::Text(key)),
        says(reads(key).sql, "FROM pgmcp_metadata"@),
{
    read_metadata_text();
    assert(reads(key).sql == READ_METADATA_SQL@);
}

/// Each argument of [`writes`] is what the text names in its place.
pub proof fn law_writes_stands_for_its_values(key: Seq<char>, value: Seq<char>)
    ensures
        opens(writes(key, value).sql, "INSERT INTO pgmcp_metadata"@),
        fills(
            writes(key, value),
            "INSERT INTO pgmcp_metadata"@,
            "key"@,
            "VALUES ("@,
            BindView::Text(key),
        ),
        fills(
            writes(key, value),
            "INSERT INTO pgmcp_metadata"@,
            "value"@,
            "VALUES ("@,
            BindView::Text(value),
        ),
        says(writes(key, value).sql, "ON CONFLICT (key) DO UPDATE SET value = EXCLUDED.value"@),
        says(writes(key, value).sql, "value = EXCLUDED.value"@),
{
    write_metadata_text();
    assert(writes(key, value).sql == WRITE_METADATA_SQL@);
}

} // verus!
