//! Mandates that operators keep.
use vstd::prelude::*;

use crate::meaning::{lemma_within, opens, says, takes};
use crate::queries::texts::mandates_write::{
    create_durable_mandate_in_tx_head_text, durable_mandate_cols_text,
    get_durable_mandate_for_update_in_tx_head_text, get_durable_mandate_for_update_in_tx_tail_text,
    list_active_durable_mandates_head_text, list_active_durable_mandates_tail_text,
    retire_durable_mandate_in_tx_head_text, update_durable_mandate_in_tx_head_text,
};
use crate::statement::{
    fetches_all, fetches_one, fetches_optional, opt_str, opt_text, BindView, Statement,
};
use crate::text::{followed, join, joined};

verus! {

/// The columns of a mandate that are read.
pub const DURABLE_MANDATE_COLS: &'static str = "id, scope, project_id, polarity, imperative, target, \
     source_mandate_id, promoted_at, file_path, created_by, updated_at, retired_at";

pub const CREATE_DURABLE_MANDATE_IN_TX_HEAD: &'static str = "INSERT INTO durable_mandates
            (scope, project_id, polarity, imperative, target, source_mandate_id,
             created_by, updated_at)
         VALUES ($1, $2, $3, $4, $5, NULL, $6, NOW())
         RETURNING ";

/// Creates a mandate for an operator, within the transaction of the caller.
pub fn create_durable_mandate_in_tx(
    scope: &str,
    project_id: Option<i32>,
    polarity: &str,
    imperative: &str,
    target: Option<&str>,
    created_by: &str,
) -> (st: Statement)
    ensures
        st@ == fetches_one(
            CREATE_DURABLE_MANDATE_IN_TX_HEAD@ + DURABLE_MANDATE_COLS@,
            seq![
                BindView::Text(scope@),
                BindView::OptInt(project_id),
                BindView::Text(polarity@),
                BindView::Text(imperative@),
                BindView::OptText(opt_str(target)),
                BindView::Text(created_by@),
            ],
        ),
        opens(st@.sql, "INSERT INTO durable_mandates"@),
        says(st@.sql, "(scope, project_id, polarity, imperative, target, source_mandate_id,"@),
        says(st@.sql, "created_by, updated_at)"@),
        takes(st@, "VALUES ("@, BindView::Text(scope@)),
        takes(st@, "VALUES ($1, "@, BindView::OptInt(project_id)),
        takes(st@, "VALUES ($1, $2, "@, BindView::Text(polarity@)),
        takes(st@, "VALUES ($1, $2, $3, "@, BindView::Text(imperative@)),
        takes(st@, "VALUES ($1, $2, $3, $4, "@, BindView::OptText(opt_str(target))),
        takes(st@, "VALUES ($1, $2, $3, $4, $5, NULL, "@, BindView::Text(created_by@)),
{
    let st = Statement::one(followed(CREATE_DURABLE_MANDATE_IN_TX_HEAD, DURABLE_MANDATE_COLS).as_str())
        .text(scope)
        .opt_int4(project_id)
        .text(polarity)
        .text(imperative)
        .opt_text(target)
        .text(created_by);
    proof {
        create_durable_mandate_in_tx_head_text();
        let none = Seq::<char>::empty();
        let head = CREATE_DURABLE_MANDATE_IN_TX_HEAD@;
        assert(st@.sql =~= none + head + DURABLE_MANDATE_COLS@);
        lemma_within(st@.sql, none, head, DURABLE_MANDATE_COLS@);
    }
    st
}

pub const GET_DURABLE_MANDATE_FOR_UPDATE_IN_TX_HEAD: &'static str = "SELECT ";

pub const GET_DURABLE_MANDATE_FOR_UPDATE_IN_TX_TAIL: &'static str =
    " FROM durable_mandates WHERE id = $1 FOR UPDATE";

/// A mandate, locked within the transaction of the caller.
pub fn get_durable_mandate_for_update_in_tx(id: i64) -> (st: Statement)
    ensures
        st@ == fetches_optional(
            joined(
                GET_DURABLE_MANDATE_FOR_UPDATE_IN_TX_HEAD@,
                DURABLE_MANDATE_COLS@,
                GET_DURABLE_MANDATE_FOR_UPDATE_IN_TX_TAIL@,
            ),
            seq![
                BindView::BigInt(id),
            ],
        ),
        opens(st@.sql, "SELECT"@),
        takes(st@, "durable_mandates WHERE id = "@, BindView::BigInt(id)),
        says(st@.sql, "FROM durable_mandates"@),
{
    let st = Statement::optional(
        join(
            GET_DURABLE_MANDATE_FOR_UPDATE_IN_TX_HEAD,
            DURABLE_MANDATE_COLS,
            GET_DURABLE_MANDATE_FOR_UPDATE_IN_TX_TAIL,
        ).as_str(),
    )
        .int8(id);
    proof {
        get_durable_mandate_for_update_in_tx_head_text();
        durable_mandate_cols_text();
        get_durable_mandate_for_update_in_tx_tail_text();
        assert(st@.sql =~= GET_DURABLE_MANDATE_FOR_UPDATE_IN_TX_HEAD@ + (DURABLE_MANDATE_COLS@ + GET_DURABLE_MANDATE_FOR_UPDATE_IN_TX_TAIL@));
        lemma_within(
            st@.sql,
            seq![],
            GET_DURABLE_MANDATE_FOR_UPDATE_IN_TX_HEAD@,
            DURABLE_MANDATE_COLS@ + GET_DURABLE_MANDATE_FOR_UPDATE_IN_TX_TAIL@,
        );
        assert(st@.sql =~= (GET_DURABLE_MANDATE_FOR_UPDATE_IN_TX_HEAD@ + DURABLE_MANDATE_COLS@) + GET_DURABLE_MANDATE_FOR_UPDATE_IN_TX_TAIL@);
        lemma_within(
            st@.sql,
            GET_DURABLE_MANDATE_FOR_UPDATE_IN_TX_HEAD@ + DURABLE_MANDATE_COLS@,
            GET_DURABLE_MANDATE_FOR_UPDATE_IN_TX_TAIL@,
            seq![],
        );
    }
    st
}

pub const UPDATE_DURABLE_MANDATE_IN_TX_HEAD: &'static str = "UPDATE durable_mandates SET
            imperative = COALESCE($2, imperative),
            target = COALESCE($3, target),
            polarity = COALESCE($4, polarity),
            updated_at = NOW()
         WHERE id = $1 AND retired_at IS NULL
         RETURNING ";

/// Changes the given fields of a mandate that is in force, within the
/// transaction of the caller; no row comes back if there is none.
pub fn update_durable_mandate_in_tx(
    id: i64,
    imperative: Option<&str>,
    target: Option<&str>,
    polarity: Option<&str>,
) -> (st: Statement)
    ensures
        st@ == fetches_optional(
            UPDATE_DURABLE_MANDATE_IN_TX_HEAD@ + DURABLE_MANDATE_COLS@,
            seq![
                BindView::BigInt(id),
                BindView::OptText(opt_str(imperative)),
                BindView::OptText(opt_str(target)),
                BindView::OptText(opt_str(polarity)),
            ],
        ),
        opens(st@.sql, "UPDATE durable_mandates"@),
        takes(st@, "WHERE id = "@, BindView::BigInt(id)),
        takes(st@, "COALESCE("@, BindView::OptText(opt_str(imperative))),
        takes(st@, "COALESCE("@, BindView::OptText(opt_str(target))),
        takes(st@, "COALESCE("@, BindView::OptText(opt_str(polarity))),
{
    let st = Statement::optional(followed(UPDATE_DURABLE_MANDATE_IN_TX_HEAD, DURABLE_MANDATE_COLS).as_str())
        .int8(id)
        .opt_text(imperative)
        .opt_text(target)
        .opt_text(polarity);
    proof {
        update_durable_mandate_in_tx_head_text();
        durable_mandate_cols_text();
        assert(st@.sql =~= UPDATE_DURABLE_MANDATE_IN_TX_HEAD@ + (DURABLE_MANDATE_COLS@));
        lemma_within(st@.sql, seq![], UPDATE_DURABLE_MANDATE_IN_TX_HEAD@, DURABLE_MANDATE_COLS@);
    }
    st
}

pub const RETIRE_DURABLE_MANDATE_IN_TX_HEAD: &'static str = "UPDATE durable_mandates SET retired_at = NOW(), updated_at = NOW()
         WHERE id = $1 AND retired_at IS NULL
         RETURNING ";

/// Retires a mandate that is in force, within the transaction of the caller; no
/// row comes back if there is none.
pub fn retire_durable_mandate_in_tx(id: i64) -> (st: Statement)
    ensures
        st@ == fetches_optional(
            RETIRE_DURABLE_MANDATE_IN_TX_HEAD@ + DURABLE_MANDATE_COLS@,
            seq![
                BindView::BigInt(id),
            ],
        ),
        opens(st@.sql, "UPDATE durable_mandates"@),
        takes(st@, "WHERE id = "@, BindView::BigInt(id)),
{
    let st = Statement::optional(followed(RETIRE_DURABLE_MANDATE_IN_TX_HEAD, DURABLE_MANDATE_COLS).as_str())
        .int8(id);
    proof {
        retire_durable_mandate_in_tx_head_text();
        durable_mandate_cols_text();
        assert(st@.sql =~= RETIRE_DURABLE_MANDATE_IN_TX_HEAD@ + (DURABLE_MANDATE_COLS@));
        lemma_within(st@.sql, seq![], RETIRE_DURABLE_MANDATE_IN_TX_HEAD@, DURABLE_MANDATE_COLS@);
    }
    st
}

pub const LIST_ACTIVE_DURABLE_MANDATES_HEAD: &'static str = "SELECT ";

pub const LIST_ACTIVE_DURABLE_MANDATES_TAIL: &'static str = " FROM durable_mandates
         WHERE retired_at IS NULL
           AND ($1::text IS NULL OR scope = $1)
           AND ($2::int  IS NULL OR project_id = $2)
         ORDER BY promoted_at DESC";

/// The mandates in force, optionally of one scope or project, the newest first.
pub fn list_active_durable_mandates(
    scope: Option<&str>,
    project_id: Option<i32>,
) -> (st: Statement)
    ensures
        st@ == fetches_all(
            joined(
                LIST_ACTIVE_DURABLE_MANDATES_HEAD@,
                DURABLE_MANDATE_COLS@,
                LIST_ACTIVE_DURABLE_MANDATES_TAIL@,
            ),
            seq![
                BindView::OptText(opt_str(scope)),
                BindView::OptInt(project_id),
            ],
        ),
        opens(st@.sql, "SELECT"@),
        takes(st@, "scope = "@, BindView::OptText(opt_str(scope))),
        takes(st@, "project_id = "@, BindView::OptInt(project_id)),
        says(st@.sql, "WHERE retired_at IS NULL"@),
        says(st@.sql, "ORDER BY promoted_at DESC"@),
        says(st@.sql, "FROM durable_mandates"@),
{
    let st = Statement::all(
        join(
            LIST_ACTIVE_DURABLE_MANDATES_HEAD,
            DURABLE_MANDATE_COLS,
            LIST_ACTIVE_DURABLE_MANDATES_TAIL,
        ).as_str(),
    )
        .opt_text(scope)
        .opt_int4(project_id);
    proof {
        list_active_durable_mandates_head_text();
        durable_mandate_cols_text();
        list_active_durable_mandates_tail_text();
        assert(st@.sql =~= LIST_ACTIVE_DURABLE_MANDATES_HEAD@ + (DURABLE_MANDATE_COLS@ + LIST_ACTIVE_DURABLE_MANDATES_TAIL@));
        lemma_within(
            st@.sql,
            seq![],
            LIST_ACTIVE_DURABLE_MANDATES_HEAD@,
            DURABLE_MANDATE_COLS@ + LIST_ACTIVE_DURABLE_MANDATES_TAIL@,
        );
        assert(st@.sql =~= (LIST_ACTIVE_DURABLE_MANDATES_HEAD@ + DURABLE_MANDATE_COLS@) + LIST_ACTIVE_DURABLE_MANDATES_TAIL@);
        lemma_within(
            st@.sql,
            LIST_ACTIVE_DURABLE_MANDATES_HEAD@ + DURABLE_MANDATE_COLS@,
            LIST_ACTIVE_DURABLE_MANDATES_TAIL@,
            seq![],
        );
    }
    st
}

} // verus!
