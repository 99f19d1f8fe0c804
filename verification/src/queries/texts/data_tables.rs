//! What the statements of `data_tables` say.
use vstd::prelude::*;

use crate::meaning::{
    ends_plainly, item, lined_up_at, lines_up, mentions, opens, part_at, past, past_blanks, says,
};
use crate::queries::data_tables::{
    ADD_COLUMN_SQL, COLUMN_COLS, COUNT_ROWS_SQL, CREATE_TABLE_SQL, DELETE_ROWS_SQL,
    DELETE_ROW_BY_ID_SQL, DELETE_TABLE_SQL, DROP_COLUMN_SQL, GET_ROW_SQL, GET_TABLE_BY_NAME_TAIL,
    GET_TABLE_TAIL, INSERT_ROWS_SQL, LIST_COLUMNS_TAIL, LIST_TABLES_SQL, RENAME_COLUMN_SQL,
    RENAME_ROW_KEY_SQL, SEARCH_TABLES_TAIL, SELECT_ROWS_SQL, SET_SCHEMA_MODE_SQL,
    SET_TABLE_EMBEDDING_SQL, TABLE_COLS, UPDATE_COLUMN_SQL, UPDATE_ROWS_SQL, UPDATE_ROW_BY_ID_SQL,
    UPDATE_TABLE_META_SQL,
};

verus! {

/// What the text of [`INSERT_ROWS_SQL`] says.
pub proof fn insert_rows_text()
    ensures
        opens(INSERT_ROWS_SQL@, "INSERT INTO data_table_rows"@),
        lines_up(INSERT_ROWS_SQL@, "INSERT INTO data_table_rows"@, "table_id"@, "SELECT "@, 1),
        lines_up(INSERT_ROWS_SQL@, "INSERT INTO data_table_rows"@, "created_by"@, "SELECT "@, 3),
        lines_up(INSERT_ROWS_SQL@, "INSERT INTO data_table_rows"@, "source"@, "SELECT "@, 4),
        mentions(INSERT_ROWS_SQL@, "UNNEST("@, 2),
        says(INSERT_ROWS_SQL@, "FROM UNNEST"@),
{
    reveal_strlit(
        "INSERT INTO data_table_rows (table_id, data, created_by, source)
         SELECT $1, j::jsonb, $3, $4 FROM UNNEST($2::text[]) AS j
         RETURNING id",
    );
    reveal_strlit("FROM UNNEST");
    reveal_strlit("INSERT INTO data_table_rows");
    reveal_strlit("SELECT ");
    reveal_strlit("UNNEST(");
    reveal_strlit("created_by");
    reveal_strlit("source");
    reveal_strlit("table_id");
    let t = INSERT_ROWS_SQL@;
    assert(part_at(t, 0, "INSERT INTO data_table_rows"@));
    reveal_with_fuel(past, 12);
    reveal_with_fuel(past_blanks, 2);
    assert(past(t, 27, '(') == 29);
    assert(item(t, 29, 0) == 29);
    assert(item(t, 29, 1) == 39);
    assert(item(t, 29, 2) == 45);
    assert(item(t, 29, 3) == 57);
    assert(item(t, 81, 0) == 81);
    assert(item(t, 81, 1) == 85);
    assert(item(t, 81, 2) == 95);
    assert(item(t, 81, 3) == 99);
    assert(lined_up_at(t, "INSERT INTO data_table_rows"@, "table_id"@, "SELECT "@, 1, 0, 74, 0));
    assert(lined_up_at(t, "INSERT INTO data_table_rows"@, "created_by"@, "SELECT "@, 3, 0, 74, 2));
    assert(lined_up_at(t, "INSERT INTO data_table_rows"@, "source"@, "SELECT "@, 4, 0, 74, 3));
    assert(part_at(t, 107, "UNNEST("@));
    assert(part_at(t, 102, "FROM UNNEST"@));
}

/// What the text of [`SET_TABLE_EMBEDDING_SQL`] says.
pub proof fn set_table_embedding_text()
    ensures
        opens(SET_TABLE_EMBEDDING_SQL@, "UPDATE data_tables"@),
        mentions(SET_TABLE_EMBEDDING_SQL@, "WHERE id = "@, 1),
        mentions(SET_TABLE_EMBEDDING_SQL@, "embedding = "@, 2),
        mentions(SET_TABLE_EMBEDDING_SQL@, "embedding_signature = "@, 3),
{
    reveal_strlit(
        "UPDATE data_tables SET embedding = $2, embedding_signature = $3, updated_at = now()
         WHERE id = $1",
    );
    reveal_strlit("UPDATE data_tables");
    reveal_strlit("WHERE id = ");
    reveal_strlit("embedding = ");
    reveal_strlit("embedding_signature = ");
    let t = SET_TABLE_EMBEDDING_SQL@;
    assert(part_at(t, 0, "UPDATE data_tables"@));
    assert(part_at(t, 93, "WHERE id = "@));
    assert(part_at(t, 23, "embedding = "@));
    assert(part_at(t, 39, "embedding_signature = "@));
}

/// What the text of [`CREATE_TABLE_SQL`] says.
pub proof fn create_table_text()
    ensures
        opens(CREATE_TABLE_SQL@, "INSERT INTO data_tables"@),
        lines_up(CREATE_TABLE_SQL@, "INSERT INTO data_tables"@, "project_id"@, "VALUES ("@, 1),
        lines_up(CREATE_TABLE_SQL@, "INSERT INTO data_tables"@, "name"@, "VALUES ("@, 2),
        lines_up(CREATE_TABLE_SQL@, "INSERT INTO data_tables"@, "description"@, "VALUES ("@, 3),
        lines_up(CREATE_TABLE_SQL@, "INSERT INTO data_tables"@, "schema_mode"@, "VALUES ("@, 4),
        lines_up(CREATE_TABLE_SQL@, "INSERT INTO data_tables"@, "created_by"@, "VALUES ("@, 5),
{
    reveal_strlit(
        "INSERT INTO data_tables (project_id, name, description, schema_mode, created_by)
         VALUES ($1, $2, $3, $4, $5) RETURNING id",
    );
    reveal_strlit("INSERT INTO data_tables");
    reveal_strlit("VALUES (");
    reveal_strlit("created_by");
    reveal_strlit("description");
    reveal_strlit("name");
    reveal_strlit("project_id");
    reveal_strlit("schema_mode");
    let t = CREATE_TABLE_SQL@;
    assert(part_at(t, 0, "INSERT INTO data_tables"@));
    reveal_with_fuel(past, 13);
    reveal_with_fuel(past_blanks, 2);
    assert(past(t, 23, '(') == 25);
    assert(item(t, 25, 0) == 25);
    assert(item(t, 25, 1) == 37);
    assert(item(t, 25, 2) == 43);
    assert(item(t, 25, 3) == 56);
    assert(item(t, 25, 4) == 69);
    assert(item(t, 98, 0) == 98);
    assert(item(t, 98, 1) == 102);
    assert(item(t, 98, 2) == 106);
    assert(item(t, 98, 3) == 110);
    assert(item(t, 98, 4) == 114);
    assert(lined_up_at(t, "INSERT INTO data_tables"@, "project_id"@, "VALUES ("@, 1, 0, 90, 0));
    assert(lined_up_at(t, "INSERT INTO data_tables"@, "name"@, "VALUES ("@, 2, 0, 90, 1));
    assert(lined_up_at(t, "INSERT INTO data_tables"@, "description"@, "VALUES ("@, 3, 0, 90, 2));
    assert(lined_up_at(t, "INSERT INTO data_tables"@, "schema_mode"@, "VALUES ("@, 4, 0, 90, 3));
    assert(lined_up_at(t, "INSERT INTO data_tables"@, "created_by"@, "VALUES ("@, 5, 0, 90, 4));
}

/// What the text of [`LIST_TABLES_SQL`] says.
pub proof fn list_tables_text()
    ensures
        opens(LIST_TABLES_SQL@, "SELECT"@),
        mentions(LIST_TABLES_SQL@, "t.project_id = "@, 1),
        mentions(LIST_TABLES_SQL@, "LIMIT "@, 2),
        says(LIST_TABLES_SQL@, "ORDER BY t.name"@),
        says(LIST_TABLES_SQL@, "FROM data_table_rows"@),
{
    reveal_strlit(
        "SELECT t.id, t.project_id, t.name, t.description, t.schema_mode, t.created_by,
                t.created_at, t.updated_at,
                (SELECT COUNT(*) FROM data_table_rows r WHERE r.table_id = t.id) AS row_count,
                (SELECT COUNT(*) FROM data_table_columns c WHERE c.table_id = t.id) AS column_count
         FROM data_tables t
         WHERE ($1::int IS NULL OR t.project_id = $1)
         ORDER BY t.name
         LIMIT $2",
    );
    reveal_strlit("FROM data_table_rows");
    reveal_strlit("LIMIT ");
    reveal_strlit("ORDER BY t.name");
    reveal_strlit("SELECT");
    reveal_strlit("t.project_id = ");
    let t = LIST_TABLES_SQL@;
    assert(part_at(t, 0, "SELECT"@));
    assert(part_at(t, 381, "t.project_id = "@));
    assert(part_at(t, 434, "LIMIT "@));
    assert(part_at(t, 409, "ORDER BY t.name"@));
    assert(part_at(t, 156, "FROM data_table_rows"@));
}

/// What the text of [`UPDATE_TABLE_META_SQL`] says.
pub proof fn update_table_meta_text()
    ensures
        opens(UPDATE_TABLE_META_SQL@, "UPDATE data_tables"@),
        mentions(UPDATE_TABLE_META_SQL@, "WHERE id = "@, 1),
        mentions(UPDATE_TABLE_META_SQL@, "COALESCE("@, 2),
        mentions(UPDATE_TABLE_META_SQL@, "COALESCE("@, 3),
{
    reveal_strlit(
        "UPDATE data_tables
         SET name = COALESCE($2, name),
             description = COALESCE($3, description),
             updated_at = now()
         WHERE id = $1",
    );
    reveal_strlit("COALESCE(");
    reveal_strlit("UPDATE data_tables");
    reveal_strlit("WHERE id = ");
    let t = UPDATE_TABLE_META_SQL@;
    assert(part_at(t, 0, "UPDATE data_tables"@));
    assert(part_at(t, 154, "WHERE id = "@));
    assert(part_at(t, 39, "COALESCE("@));
    assert(part_at(t, 86, "COALESCE("@));
}

/// What the text of [`SET_SCHEMA_MODE_SQL`] says.
pub proof fn set_schema_mode_text()
    ensures
        opens(SET_SCHEMA_MODE_SQL@, "UPDATE data_tables"@),
        mentions(SET_SCHEMA_MODE_SQL@, "now() WHERE id = "@, 1),
        mentions(SET_SCHEMA_MODE_SQL@, "schema_mode = "@, 2),
{
    reveal_strlit(
        "UPDATE data_tables SET schema_mode = $2, updated_at = now() WHERE id = $1",
    );
    reveal_strlit("UPDATE data_tables");
    reveal_strlit("now() WHERE id = ");
    reveal_strlit("schema_mode = ");
    let t = SET_SCHEMA_MODE_SQL@;
    assert(part_at(t, 0, "UPDATE data_tables"@));
    assert(part_at(t, 54, "now() WHERE id = "@));
    assert(part_at(t, 23, "schema_mode = "@));
}

/// What the text of [`DELETE_TABLE_SQL`] says.
pub proof fn delete_table_text()
    ensures
        opens(DELETE_TABLE_SQL@, "DELETE FROM data_tables"@),
        mentions(DELETE_TABLE_SQL@, "data_tables WHERE id = "@, 1),
{
    reveal_strlit(
        "DELETE FROM data_tables WHERE id = $1",
    );
    reveal_strlit("DELETE FROM data_tables");
    reveal_strlit("data_tables WHERE id = ");
    let t = DELETE_TABLE_SQL@;
    assert(part_at(t, 0, "DELETE FROM data_tables"@));
    assert(part_at(t, 12, "data_tables WHERE id = "@));
}

/// What the text of [`ADD_COLUMN_SQL`] says.
pub proof fn add_column_text()
    ensures
        opens(ADD_COLUMN_SQL@, "INSERT INTO data_table_columns"@),
        lines_up(ADD_COLUMN_SQL@, "INSERT INTO data_table_columns"@, "table_id"@, "VALUES ("@, 1),
        lines_up(ADD_COLUMN_SQL@, "INSERT INTO data_table_columns"@, "name"@, "VALUES ("@, 2),
        lines_up(ADD_COLUMN_SQL@, "INSERT INTO data_table_columns"@, "data_type"@, "VALUES ("@, 3),
        lines_up(ADD_COLUMN_SQL@, "INSERT INTO data_table_columns"@, "required"@, "VALUES ("@, 4),
        lines_up(
            ADD_COLUMN_SQL@,
            "INSERT INTO data_table_columns"@,
            "default_json"@,
            "VALUES ("@,
            5,
        ),
        lines_up(ADD_COLUMN_SQL@, "INSERT INTO data_table_columns"@, "position"@, "VALUES ("@, 6),
        lines_up(
            ADD_COLUMN_SQL@,
            "INSERT INTO data_table_columns"@,
            "description"@,
            "VALUES ("@,
            7,
        ),
{
    reveal_strlit(
        "INSERT INTO data_table_columns
            (table_id, name, data_type, required, default_json, position, description)
         VALUES ($1, $2, $3, $4, $5, $6, $7) RETURNING id",
    );
    reveal_strlit("INSERT INTO data_table_columns");
    reveal_strlit("VALUES (");
    reveal_strlit("data_type");
    reveal_strlit("default_json");
    reveal_strlit("description");
    reveal_strlit("name");
    reveal_strlit("position");
    reveal_strlit("required");
    reveal_strlit("table_id");
    let t = ADD_COLUMN_SQL@;
    assert(part_at(t, 0, "INSERT INTO data_table_columns"@));
    reveal_with_fuel(past, 15);
    reveal_with_fuel(past_blanks, 2);
    assert(past(t, 30, '(') == 44);
    assert(item(t, 44, 0) == 44);
    assert(item(t, 44, 1) == 54);
    assert(item(t, 44, 2) == 60);
    assert(item(t, 44, 3) == 71);
    assert(item(t, 44, 4) == 81);
    assert(item(t, 44, 5) == 95);
    assert(item(t, 44, 6) == 105);
    assert(item(t, 135, 0) == 135);
    assert(item(t, 135, 1) == 139);
    assert(item(t, 135, 2) == 143);
    assert(item(t, 135, 3) == 147);
    assert(item(t, 135, 4) == 151);
    assert(item(t, 135, 5) == 155);
    assert(item(t, 135, 6) == 159);
    assert(lined_up_at(
        t,
        "INSERT INTO data_table_columns"@,
        "table_id"@,
        "VALUES ("@,
        1,
        0,
        127,
        0,
    ));
    assert(lined_up_at(t, "INSERT INTO data_table_columns"@, "name"@, "VALUES ("@, 2, 0, 127, 1));
    assert(lined_up_at(
        t,
        "INSERT INTO data_table_columns"@,
        "data_type"@,
        "VALUES ("@,
        3,
        0,
        127,
        2,
    ));
    assert(lined_up_at(
        t,
        "INSERT INTO data_table_columns"@,
        "required"@,
        "VALUES ("@,
        4,
        0,
        127,
        3,
    ));
    assert(lined_up_at(
        t,
        "INSERT INTO data_table_columns"@,
        "default_json"@,
        "VALUES ("@,
        5,
        0,
        127,
        4,
    ));
    assert(lined_up_at(
        t,
        "INSERT INTO data_table_columns"@,
        "position"@,
        "VALUES ("@,
        6,
        0,
        127,
        5,
    ));
    assert(lined_up_at(
        t,
        "INSERT INTO data_table_columns"@,
        "description"@,
        "VALUES ("@,
        7,
        0,
        127,
        6,
    ));
}

/// What the text of [`DROP_COLUMN_SQL`] says.
pub proof fn drop_column_text()
    ensures
        opens(DROP_COLUMN_SQL@, "DELETE FROM data_table_columns"@),
        mentions(DROP_COLUMN_SQL@, "table_id = "@, 1),
        mentions(DROP_COLUMN_SQL@, "name = "@, 2),
{
    reveal_strlit(
        "DELETE FROM data_table_columns WHERE table_id = $1 AND name = $2",
    );
    reveal_strlit("DELETE FROM data_table_columns");
    reveal_strlit("name = ");
    reveal_strlit("table_id = ");
    let t = DROP_COLUMN_SQL@;
    assert(part_at(t, 0, "DELETE FROM data_table_columns"@));
    assert(part_at(t, 37, "table_id = "@));
    assert(part_at(t, 55, "name = "@));
}

/// What the text of [`UPDATE_COLUMN_SQL`] says.
pub proof fn update_column_text()
    ensures
        opens(UPDATE_COLUMN_SQL@, "UPDATE data_table_columns"@),
        mentions(UPDATE_COLUMN_SQL@, "table_id = "@, 1),
        mentions(UPDATE_COLUMN_SQL@, "name = "@, 2),
        mentions(UPDATE_COLUMN_SQL@, "COALESCE("@, 3),
        mentions(UPDATE_COLUMN_SQL@, "CASE WHEN "@, 4),
        mentions(UPDATE_COLUMN_SQL@, "$4 THEN "@, 5),
{
    reveal_strlit(
        "UPDATE data_table_columns
         SET required = COALESCE($3, required),
             default_json = CASE WHEN $4 THEN $5 ELSE default_json END
         WHERE table_id = $1 AND name = $2",
    );
    reveal_strlit("$4 THEN ");
    reveal_strlit("CASE WHEN ");
    reveal_strlit("COALESCE(");
    reveal_strlit("UPDATE data_table_columns");
    reveal_strlit("name = ");
    reveal_strlit("table_id = ");
    let t = UPDATE_COLUMN_SQL@;
    assert(part_at(t, 0, "UPDATE data_table_columns"@));
    assert(part_at(t, 160, "table_id = "@));
    assert(part_at(t, 178, "name = "@));
    assert(part_at(t, 50, "COALESCE("@));
    assert(part_at(t, 102, "CASE WHEN "@));
    assert(part_at(t, 112, "$4 THEN "@));
}

/// What the text of [`RENAME_COLUMN_SQL`] says.
pub proof fn rename_column_text()
    ensures
        opens(RENAME_COLUMN_SQL@, "UPDATE data_table_columns"@),
        mentions(RENAME_COLUMN_SQL@, "table_id = "@, 1),
        mentions(RENAME_COLUMN_SQL@, "name = "@, 2),
        mentions(RENAME_COLUMN_SQL@, "name = "@, 3),
{
    reveal_strlit(
        "UPDATE data_table_columns SET name = $3 WHERE table_id = $1 AND name = $2",
    );
    reveal_strlit("UPDATE data_table_columns");
    reveal_strlit("name = ");
    reveal_strlit("table_id = ");
    let t = RENAME_COLUMN_SQL@;
    assert(part_at(t, 0, "UPDATE data_table_columns"@));
    assert(part_at(t, 46, "table_id = "@));
    assert(part_at(t, 64, "name = "@));
    assert(part_at(t, 30, "name = "@));
}

/// What the text of [`RENAME_ROW_KEY_SQL`] says.
pub proof fn rename_row_key_text()
    ensures
        opens(RENAME_ROW_KEY_SQL@, "UPDATE data_table_rows"@),
        mentions(RENAME_ROW_KEY_SQL@, "table_id = "@, 1),
        mentions(RENAME_ROW_KEY_SQL@, "data - "@, 2),
        mentions(RENAME_ROW_KEY_SQL@, "jsonb_build_object("@, 3),
{
    reveal_strlit(
        "UPDATE data_table_rows
         SET data = (data - $2) || jsonb_build_object($3, data -> $2), updated_at = now()
         WHERE table_id = $1 AND data ? $2",
    );
    reveal_strlit("UPDATE data_table_rows");
    reveal_strlit("data - ");
    reveal_strlit("jsonb_build_object(");
    reveal_strlit("table_id = ");
    let t = RENAME_ROW_KEY_SQL@;
    assert(part_at(t, 0, "UPDATE data_table_rows"@));
    assert(part_at(t, 128, "table_id = "@));
    assert(part_at(t, 44, "data - "@));
    assert(part_at(t, 58, "jsonb_build_object("@));
}

/// What the text of [`GET_ROW_SQL`] says.
pub proof fn get_row_text()
    ensures
        opens(GET_ROW_SQL@, "SELECT"@),
        mentions(GET_ROW_SQL@, "table_id = "@, 1),
        mentions(GET_ROW_SQL@, "$1 AND id = "@, 2),
        says(GET_ROW_SQL@, "FROM data_table_rows"@),
{
    reveal_strlit(
        "SELECT id, data::text AS data_text, created_by, source, created_at, updated_at
         FROM data_table_rows WHERE table_id = $1 AND id = $2",
    );
    reveal_strlit("$1 AND id = ");
    reveal_strlit("FROM data_table_rows");
    reveal_strlit("SELECT");
    reveal_strlit("table_id = ");
    let t = GET_ROW_SQL@;
    assert(part_at(t, 0, "SELECT"@));
    assert(part_at(t, 115, "table_id = "@));
    assert(part_at(t, 126, "$1 AND id = "@));
    assert(part_at(t, 88, "FROM data_table_rows"@));
}

/// What the text of [`UPDATE_ROW_BY_ID_SQL`] says.
pub proof fn update_row_by_id_text()
    ensures
        opens(UPDATE_ROW_BY_ID_SQL@, "UPDATE data_table_rows"@),
        mentions(UPDATE_ROW_BY_ID_SQL@, "table_id = "@, 1),
        mentions(UPDATE_ROW_BY_ID_SQL@, "$1 AND id = "@, 2),
        mentions(UPDATE_ROW_BY_ID_SQL@, "data || "@, 3),
{
    reveal_strlit(
        "UPDATE data_table_rows SET data = data || $3::jsonb, updated_at = now()
         WHERE table_id = $1 AND id = $2",
    );
    reveal_strlit("$1 AND id = ");
    reveal_strlit("UPDATE data_table_rows");
    reveal_strlit("data || ");
    reveal_strlit("table_id = ");
    let t = UPDATE_ROW_BY_ID_SQL@;
    assert(part_at(t, 0, "UPDATE data_table_rows"@));
    assert(part_at(t, 87, "table_id = "@));
    assert(part_at(t, 98, "$1 AND id = "@));
    assert(part_at(t, 34, "data || "@));
}

/// What the text of [`DELETE_ROW_BY_ID_SQL`] says.
pub proof fn delete_row_by_id_text()
    ensures
        opens(DELETE_ROW_BY_ID_SQL@, "DELETE FROM data_table_rows"@),
        mentions(DELETE_ROW_BY_ID_SQL@, "table_id = "@, 1),
        mentions(DELETE_ROW_BY_ID_SQL@, "$1 AND id = "@, 2),
{
    reveal_strlit(
        "DELETE FROM data_table_rows WHERE table_id = $1 AND id = $2",
    );
    reveal_strlit("$1 AND id = ");
    reveal_strlit("DELETE FROM data_table_rows");
    reveal_strlit("table_id = ");
    let t = DELETE_ROW_BY_ID_SQL@;
    assert(part_at(t, 0, "DELETE FROM data_table_rows"@));
    assert(part_at(t, 34, "table_id = "@));
    assert(part_at(t, 45, "$1 AND id = "@));
}

/// What the text of [`TABLE_COLS`] says.
pub proof fn table_cols_text()
    ensures
        ends_plainly(TABLE_COLS@),
{
    reveal_strlit(
        "id, project_id, name, description, schema_mode, created_by, created_at, updated_at",
    );
    let t = TABLE_COLS@;
}

/// What the text of [`COLUMN_COLS`] says.
pub proof fn column_cols_text()
    ensures
        ends_plainly(COLUMN_COLS@),
{
    reveal_strlit(
        "id, table_id, name, data_type, required, default_json, position, description",
    );
    let t = COLUMN_COLS@;
}

/// What the text of [`COUNT_ROWS_SQL`] says.
pub proof fn count_rows_text()
    ensures
        opens(COUNT_ROWS_SQL@, "SELECT COUNT(*) FROM data_table_rows"@),
        ends_plainly(COUNT_ROWS_SQL@),
{
    reveal_strlit(
        "SELECT COUNT(*) FROM data_table_rows WHERE table_id = ",
    );
    reveal_strlit("SELECT COUNT(*) FROM data_table_rows");
    let t = COUNT_ROWS_SQL@;
    assert(part_at(t, 0, "SELECT COUNT(*) FROM data_table_rows"@));
}

/// What the text of [`SELECT_ROWS_SQL`] says.
pub proof fn select_rows_text()
    ensures
        opens(SELECT_ROWS_SQL@, "SELECT"@),
        says(SELECT_ROWS_SQL@, "FROM data_table_rows"@),
        ends_plainly(SELECT_ROWS_SQL@),
{
    reveal_strlit(
        "SELECT id, data::text AS data_text, created_by, source, created_at, updated_at
         FROM data_table_rows WHERE table_id = ",
    );
    reveal_strlit("FROM data_table_rows");
    reveal_strlit("SELECT");
    let t = SELECT_ROWS_SQL@;
    assert(part_at(t, 0, "SELECT"@));
    assert(part_at(t, 88, "FROM data_table_rows"@));
}

/// What the text of [`DELETE_ROWS_SQL`] says.
pub proof fn delete_rows_text()
    ensures
        opens(DELETE_ROWS_SQL@, "DELETE FROM data_table_rows"@),
        ends_plainly(DELETE_ROWS_SQL@),
{
    reveal_strlit(
        "DELETE FROM data_table_rows WHERE table_id = ",
    );
    reveal_strlit("DELETE FROM data_table_rows");
    let t = DELETE_ROWS_SQL@;
    assert(part_at(t, 0, "DELETE FROM data_table_rows"@));
}

/// What the text of [`UPDATE_ROWS_SQL`] says.
pub proof fn update_rows_text()
    ensures
        opens(UPDATE_ROWS_SQL@, "UPDATE data_table_rows"@),
        ends_plainly(UPDATE_ROWS_SQL@),
{
    reveal_strlit(
        "UPDATE data_table_rows SET data = data || ",
    );
    reveal_strlit("UPDATE data_table_rows");
    let t = UPDATE_ROWS_SQL@;
    assert(part_at(t, 0, "UPDATE data_table_rows"@));
}

/// What the text of [`GET_TABLE_TAIL`] says.
pub proof fn get_table_tail_text()
    ensures
        mentions(GET_TABLE_TAIL@, "data_tables WHERE id = "@, 1),
        says(GET_TABLE_TAIL@, "FROM data_tables"@),
{
    reveal_strlit(
        " FROM data_tables WHERE id = $1",
    );
    reveal_strlit("FROM data_tables");
    reveal_strlit("data_tables WHERE id = ");
    let t = GET_TABLE_TAIL@;
    assert(part_at(t, 6, "data_tables WHERE id = "@));
    assert(part_at(t, 1, "FROM data_tables"@));
}

/// What the text of [`GET_TABLE_BY_NAME_TAIL`] says.
pub proof fn get_table_by_name_tail_text()
    ensures
        mentions(GET_TABLE_BY_NAME_TAIL@, "name = "@, 1),
        mentions(GET_TABLE_BY_NAME_TAIL@, "project_id IS NOT DISTINCT FROM "@, 2),
        says(GET_TABLE_BY_NAME_TAIL@, "FROM data_tables"@),
{
    reveal_strlit(
        " FROM data_tables
         WHERE name = $1 AND project_id IS NOT DISTINCT FROM $2",
    );
    reveal_strlit("FROM data_tables");
    reveal_strlit("name = ");
    reveal_strlit("project_id IS NOT DISTINCT FROM ");
    let t = GET_TABLE_BY_NAME_TAIL@;
    assert(part_at(t, 33, "name = "@));
    assert(part_at(t, 47, "project_id IS NOT DISTINCT FROM "@));
    assert(part_at(t, 1, "FROM data_tables"@));
}

/// What the text of [`LIST_COLUMNS_TAIL`] says.
pub proof fn list_columns_tail_text()
    ensures
        mentions(LIST_COLUMNS_TAIL@, "table_id = "@, 1),
        says(LIST_COLUMNS_TAIL@, "ORDER BY position, id"@),
        says(LIST_COLUMNS_TAIL@, "FROM data_table_columns"@),
        ends_plainly(LIST_COLUMNS_TAIL@),
{
    reveal_strlit(
        " FROM data_table_columns WHERE table_id = $1 ORDER BY position, id",
    );
    reveal_strlit("FROM data_table_columns");
    reveal_strlit("ORDER BY position, id");
    reveal_strlit("table_id = ");
    let t = LIST_COLUMNS_TAIL@;
    assert(part_at(t, 31, "table_id = "@));
    assert(part_at(t, 45, "ORDER BY position, id"@));
    assert(part_at(t, 1, "FROM data_table_columns"@));
}

/// What the text of [`SEARCH_TABLES_TAIL`] says.
pub proof fn search_tables_tail_text()
    ensures
        mentions(SEARCH_TABLES_TAIL@, "embedding <=> "@, 1),
        mentions(SEARCH_TABLES_TAIL@, "project_id = "@, 2),
        mentions(SEARCH_TABLES_TAIL@, "LIMIT "@, 3),
        says(SEARCH_TABLES_TAIL@, "FROM data_tables"@),
{
    reveal_strlit(
        ", 1.0 - (embedding <=> $1) AS similarity
         FROM data_tables
         WHERE embedding IS NOT NULL AND ($2::int IS NULL OR project_id = $2)
         ORDER BY embedding <=> $1
         LIMIT $3",
    );
    reveal_strlit("FROM data_tables");
    reveal_strlit("LIMIT ");
    reveal_strlit("embedding <=> ");
    reveal_strlit("project_id = ");
    let t = SEARCH_TABLES_TAIL@;
    assert(part_at(t, 9, "embedding <=> "@));
    assert(part_at(t, 128, "project_id = "@));
    assert(part_at(t, 189, "LIMIT "@));
    assert(part_at(t, 50, "FROM data_tables"@));
}

} // verus!
