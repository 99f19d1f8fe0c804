//! What the statements of `mandates_write` say.
use vstd::prelude::*;

use crate::meaning::{ends_plainly, mentions, opens, part_at, says};
use crate::queries::mandates_write::{
    CREATE_DURABLE_MANDATE_IN_TX_HEAD, DURABLE_MANDATE_COLS,
    GET_DURABLE_MANDATE_FOR_UPDATE_IN_TX_HEAD, GET_DURABLE_MANDATE_FOR_UPDATE_IN_TX_TAIL,
    LIST_ACTIVE_DURABLE_MANDATES_HEAD, LIST_ACTIVE_DURABLE_MANDATES_TAIL,
    RETIRE_DURABLE_MANDATE_IN_TX_HEAD, UPDATE_DURABLE_MANDATE_IN_TX_HEAD,
};

verus! {

/// What the text of [`DURABLE_MANDATE_COLS`] says.
pub proof fn durable_mandate_cols_text()
    ensures
        ends_plainly(DURABLE_MANDATE_COLS@),
{
    reveal_strlit(
        "id, scope, project_id, polarity, imperative, target, \
     source_mandate_id, promoted_at, file_path, created_by, updated_at, retired_at",
    );
    let t = DURABLE_MANDATE_COLS@;
}

/// What the text of [`GET_DURABLE_MANDATE_FOR_UPDATE_IN_TX_HEAD`] says.
pub proof fn get_durable_mandate_for_update_in_tx_head_text()
    ensures
        opens(GET_DURABLE_MANDATE_FOR_UPDATE_IN_TX_HEAD@, "SELECT"@),
        ends_plainly(GET_DURABLE_MANDATE_FOR_UPDATE_IN_TX_HEAD@),
{
    reveal_strlit(
        "SELECT ",
    );
    reveal_strlit("SELECT");
    let t = GET_DURABLE_MANDATE_FOR_UPDATE_IN_TX_HEAD@;
    assert(part_at(t, 0, "SELECT"@));
}

/// What the text of [`GET_DURABLE_MANDATE_FOR_UPDATE_IN_TX_TAIL`] says.
pub proof fn get_durable_mandate_for_update_in_tx_tail_text()
    ensures
        mentions(GET_DURABLE_MANDATE_FOR_UPDATE_IN_TX_TAIL@, "durable_mandates WHERE id = "@, 1),
        says(GET_DURABLE_MANDATE_FOR_UPDATE_IN_TX_TAIL@, "FROM durable_mandates"@),
        ends_plainly(GET_DURABLE_MANDATE_FOR_UPDATE_IN_TX_TAIL@),
{
    reveal_strlit(
        " FROM durable_mandates WHERE id = $1 FOR UPDATE",
    );
    reveal_strlit("FROM durable_mandates");
    reveal_strlit("durable_mandates WHERE id = ");
    let t = GET_DURABLE_MANDATE_FOR_UPDATE_IN_TX_TAIL@;
    assert(part_at(t, 6, "durable_mandates WHERE id = "@));
    assert(part_at(t, 1, "FROM durable_mandates"@));
}

/// What the text of [`UPDATE_DURABLE_MANDATE_IN_TX_HEAD`] says.
pub proof fn update_durable_mandate_in_tx_head_text()
    ensures
        opens(UPDATE_DURABLE_MANDATE_IN_TX_HEAD@, "UPDATE durable_mandates"@),
        mentions(UPDATE_DURABLE_MANDATE_IN_TX_HEAD@, "WHERE id = "@, 1),
        mentions(UPDATE_DURABLE_MANDATE_IN_TX_HEAD@, "COALESCE("@, 2),
        mentions(UPDATE_DURABLE_MANDATE_IN_TX_HEAD@, "COALESCE("@, 3),
        mentions(UPDATE_DURABLE_MANDATE_IN_TX_HEAD@, "COALESCE("@, 4),
        ends_plainly(UPDATE_DURABLE_MANDATE_IN_TX_HEAD@),
{
    reveal_strlit(
        "UPDATE durable_mandates SET
            imperative = COALESCE($2, imperative),
            target = COALESCE($3, target),
            polarity = COALESCE($4, polarity),
            updated_at = NOW()
         WHERE id = $1 AND retired_at IS NULL
         RETURNING ",
    );
    reveal_strlit("COALESCE(");
    reveal_strlit("UPDATE durable_mandates");
    reveal_strlit("WHERE id = ");
    let t = UPDATE_DURABLE_MANDATE_IN_TX_HEAD@;
    assert(part_at(t, 0, "UPDATE durable_mandates"@));
    assert(part_at(t, 209, "WHERE id = "@));
    assert(part_at(t, 53, "COALESCE("@));
    assert(part_at(t, 100, "COALESCE("@));
    assert(part_at(t, 145, "COALESCE("@));
}

/// What the text of [`RETIRE_DURABLE_MANDATE_IN_TX_HEAD`] says.
pub proof fn retire_durable_mandate_in_tx_head_text()
    ensures
        opens(RETIRE_DURABLE_MANDATE_IN_TX_HEAD@, "UPDATE durable_mandates"@),
        mentions(RETIRE_DURABLE_MANDATE_IN_TX_HEAD@, "WHERE id = "@, 1),
        ends_plainly(RETIRE_DURABLE_MANDATE_IN_TX_HEAD@),
{
    reveal_strlit(
        "UPDATE durable_mandates SET retired_at = NOW(), updated_at = NOW()
         WHERE id = $1 AND retired_at IS NULL
         RETURNING ",
    );
    reveal_strlit("UPDATE durable_mandates");
    reveal_strlit("WHERE id = ");
    let t = RETIRE_DURABLE_MANDATE_IN_TX_HEAD@;
    assert(part_at(t, 0, "UPDATE durable_mandates"@));
    assert(part_at(t, 76, "WHERE id = "@));
}

/// What the text of [`LIST_ACTIVE_DURABLE_MANDATES_HEAD`] says.
pub proof fn list_active_durable_mandates_head_text()
    ensures
        opens(LIST_ACTIVE_DURABLE_MANDATES_HEAD@, "SELECT"@),
        ends_plainly(LIST_ACTIVE_DURABLE_MANDATES_HEAD@),
{
    reveal_strlit(
        "SELECT ",
    );
    reveal_strlit("SELECT");
    let t = LIST_ACTIVE_DURABLE_MANDATES_HEAD@;
    assert(part_at(t, 0, "SELECT"@));
}

/// What the text of [`LIST_ACTIVE_DURABLE_MANDATES_TAIL`] says.
pub proof fn list_active_durable_mandates_tail_text()
    ensures
        mentions(LIST_ACTIVE_DURABLE_MANDATES_TAIL@, "scope = "@, 1),
        mentions(LIST_ACTIVE_DURABLE_MANDATES_TAIL@, "project_id = "@, 2),
        says(LIST_ACTIVE_DURABLE_MANDATES_TAIL@, "WHERE retired_at IS NULL"@),
        says(LIST_ACTIVE_DURABLE_MANDATES_TAIL@, "ORDER BY promoted_at DESC"@),
        says(LIST_ACTIVE_DURABLE_MANDATES_TAIL@, "FROM durable_mandates"@),
        ends_plainly(LIST_ACTIVE_DURABLE_MANDATES_TAIL@),
{
    reveal_strlit(
        " FROM durable_mandates
         WHERE retired_at IS NULL
           AND ($1::text IS NULL OR scope = $1)
           AND ($2::int  IS NULL OR project_id = $2)
         ORDER BY promoted_at DESC",
    );
    reveal_strlit("FROM durable_mandates");
    reveal_strlit("ORDER BY promoted_at DESC");
    reveal_strlit("WHERE retired_at IS NULL");
    reveal_strlit("project_id = ");
    reveal_strlit("scope = ");
    let t = LIST_ACTIVE_DURABLE_MANDATES_TAIL@;
    assert(part_at(t, 93, "scope = "@));
    assert(part_at(t, 141, "project_id = "@));
    assert(part_at(t, 32, "WHERE retired_at IS NULL"@));
    assert(part_at(t, 167, "ORDER BY promoted_at DESC"@));
    assert(part_at(t, 1, "FROM durable_mandates"@));
}

/// What the text of [`CREATE_DURABLE_MANDATE_IN_TX_HEAD`] says.
#[verifier::rlimit(50)]
pub proof fn create_durable_mandate_in_tx_head_text()
    ensures
        opens(CREATE_DURABLE_MANDATE_IN_TX_HEAD@, "INSERT INTO durable_mandates"@),
        says(
            CREATE_DURABLE_MANDATE_IN_TX_HEAD@,
            "(scope, project_id, polarity, imperative, target, source_mandate_id,"@,
        ),
        says(CREATE_DURABLE_MANDATE_IN_TX_HEAD@, "created_by, updated_at)"@),
        mentions(CREATE_DURABLE_MANDATE_IN_TX_HEAD@, "VALUES ("@, 1),
        mentions(CREATE_DURABLE_MANDATE_IN_TX_HEAD@, "VALUES ($1, "@, 2),
        mentions(CREATE_DURABLE_MANDATE_IN_TX_HEAD@, "VALUES ($1, $2, "@, 3),
        mentions(CREATE_DURABLE_MANDATE_IN_TX_HEAD@, "VALUES ($1, $2, $3, "@, 4),
        mentions(CREATE_DURABLE_MANDATE_IN_TX_HEAD@, "VALUES ($1, $2, $3, $4, "@, 5),
        mentions(CREATE_DURABLE_MANDATE_IN_TX_HEAD@, "VALUES ($1, $2, $3, $4, $5, NULL, "@, 6),
        ends_plainly(CREATE_DURABLE_MANDATE_IN_TX_HEAD@),
{
    reveal_strlit(
        "INSERT INTO durable_mandates
            (scope, project_id, polarity, imperative, target, source_mandate_id,
             created_by, updated_at)
         VALUES ($1, $2, $3, $4, $5, NULL, $6, NOW())
         RETURNING ",
    );
    reveal_strlit("INSERT INTO durable_mandates");
    reveal_strlit("(scope, project_id, polarity, imperative, target, source_mandate_id,");
    reveal_strlit("created_by, updated_at)");
    reveal_strlit("VALUES (");
    reveal_strlit("VALUES ($1, ");
    reveal_strlit("VALUES ($1, $2, ");
    reveal_strlit("VALUES ($1, $2, $3, ");
    reveal_strlit("VALUES ($1, $2, $3, $4, ");
    reveal_strlit("VALUES ($1, $2, $3, $4, $5, NULL, ");
    let t = CREATE_DURABLE_MANDATE_IN_TX_HEAD@;
    assert(part_at(t, 41, "(scope, project_id, polarity, imperative, target, source_mandate_id,"@));
    assert(part_at(t, 123, "created_by, updated_at)"@));
    assert(part_at(t, 156, "VALUES ("@));
    assert(part_at(t, 156, "VALUES ($1, "@));
    assert(part_at(t, 156, "VALUES ($1, $2, "@));
    assert(part_at(t, 156, "VALUES ($1, $2, $3, "@));
    assert(part_at(t, 156, "VALUES ($1, $2, $3, $4, "@));
    assert(part_at(t, 156, "VALUES ($1, $2, $3, $4, $5, NULL, "@));
}

} // verus!
