//! What the statements of `advisories` say.
use vstd::prelude::*;

use crate::meaning::{mentions, opens, part_at, says, takes};
use crate::queries::advisories::{
    stores_advisories, VulnAdvisoryRow, BULK_INSERT_VULN_ADVISORIES_SQL, CLEAR_VULN_ADVISORIES_SQL,
    LOAD_VULN_ADVISORIES_SQL,
};
use crate::statement::{opt_text, BindView};

verus! {

/// What the text of [`CLEAR_VULN_ADVISORIES_SQL`] says.
pub proof fn clear_vuln_advisories_text()
    ensures
        opens(CLEAR_VULN_ADVISORIES_SQL@, "DELETE FROM vuln_advisories"@),
{
    reveal_strlit(
        "DELETE FROM vuln_advisories",
    );
    reveal_strlit("DELETE FROM vuln_advisories");
    let t = CLEAR_VULN_ADVISORIES_SQL@;
    assert(part_at(t, 0, "DELETE FROM vuln_advisories"@));
}

/// What the text of [`BULK_INSERT_VULN_ADVISORIES_SQL`] says.
pub proof fn bulk_insert_vuln_advisories_text()
    ensures
        opens(BULK_INSERT_VULN_ADVISORIES_SQL@, "INSERT INTO vuln_advisories"@),
        mentions(BULK_INSERT_VULN_ADVISORIES_SQL@, "$1::text[], "@, 2),
        mentions(BULK_INSERT_VULN_ADVISORIES_SQL@, "$1::text[], $2::text[], "@, 3),
        mentions(BULK_INSERT_VULN_ADVISORIES_SQL@, "$2::text[], $3::text[], "@, 4),
        mentions(BULK_INSERT_VULN_ADVISORIES_SQL@, "$5::text[], "@, 6),
        mentions(BULK_INSERT_VULN_ADVISORIES_SQL@, "$5::text[], $6::text[], "@, 7),
        mentions(BULK_INSERT_VULN_ADVISORIES_SQL@, "$6::text[], $7::text[], "@, 8),
        says(BULK_INSERT_VULN_ADVISORIES_SQL@, "FROM UNNEST"@),
{
    reveal_strlit(
        "INSERT INTO vuln_advisories
            (advisory_id, ecosystem, package, introduced, fixed, last_affected, severity, summary)
         SELECT * FROM UNNEST(
             $1::text[], $2::text[], $3::text[], $4::text[],
             $5::text[], $6::text[], $7::text[], $8::text[]
         )",
    );
    reveal_strlit("$1::text[], ");
    reveal_strlit("$1::text[], $2::text[], ");
    reveal_strlit("$2::text[], $3::text[], ");
    reveal_strlit("$5::text[], ");
    reveal_strlit("$5::text[], $6::text[], ");
    reveal_strlit("$6::text[], $7::text[], ");
    reveal_strlit("FROM UNNEST");
    reveal_strlit("INSERT INTO vuln_advisories");
    let t = BULK_INSERT_VULN_ADVISORIES_SQL@;
    assert(part_at(t, 0, "INSERT INTO vuln_advisories"@));
    assert(part_at(t, 171, "$1::text[], "@));
    assert(part_at(t, 171, "$1::text[], $2::text[], "@));
    assert(part_at(t, 183, "$2::text[], $3::text[], "@));
    assert(part_at(t, 232, "$5::text[], "@));
    assert(part_at(t, 232, "$5::text[], $6::text[], "@));
    assert(part_at(t, 244, "$6::text[], $7::text[], "@));
    assert(part_at(t, 145, "FROM UNNEST"@));
}

/// What the text of [`LOAD_VULN_ADVISORIES_SQL`] says.
pub proof fn load_vuln_advisories_text()
    ensures
        opens(LOAD_VULN_ADVISORIES_SQL@, "SELECT"@),
        mentions(LOAD_VULN_ADVISORIES_SQL@, "ecosystem = "@, 1),
        mentions(LOAD_VULN_ADVISORIES_SQL@, "package = ANY("@, 2),
        says(LOAD_VULN_ADVISORIES_SQL@, "FROM vuln_advisories"@),
{
    reveal_strlit(
        "SELECT advisory_id, ecosystem, package, introduced, fixed, last_affected, severity, summary
         FROM vuln_advisories
         WHERE ecosystem = $1 AND package = ANY($2)",
    );
    reveal_strlit("FROM vuln_advisories");
    reveal_strlit("SELECT");
    reveal_strlit("ecosystem = ");
    reveal_strlit("package = ANY(");
    let t = LOAD_VULN_ADVISORIES_SQL@;
    assert(part_at(t, 0, "SELECT"@));
    assert(part_at(t, 137, "ecosystem = "@));
    assert(part_at(t, 156, "package = ANY("@));
    assert(part_at(t, 101, "FROM vuln_advisories"@));
}

/// Each argument of [`stores_advisories`] is what the text names in its place.
pub proof fn law_stores_advisories_stands_for_its_values(rows: Seq<VulnAdvisoryRow>)
    ensures
        opens(stores_advisories(rows).sql, "INSERT INTO vuln_advisories"@),
        takes(
            stores_advisories(rows),
            "$1::text[], "@,
            BindView::TextArray(rows.map_values(|r: VulnAdvisoryRow| r.ecosystem@)),
        ),
        takes(
            stores_advisories(rows),
            "$1::text[], $2::text[], "@,
            BindView::TextArray(rows.map_values(|r: VulnAdvisoryRow| r.package@)),
        ),
        takes(
            stores_advisories(rows),
            "$2::text[], $3::text[], "@,
            BindView::OptTextArray(rows.map_values(|r: VulnAdvisoryRow| opt_text(r.introduced))),
        ),
        takes(
            stores_advisories(rows),
            "$5::text[], "@,
            BindView::OptTextArray(rows.map_values(|r: VulnAdvisoryRow| opt_text(r.last_affected))),
        ),
        takes(
            stores_advisories(rows),
            "$5::text[], $6::text[], "@,
            BindView::OptTextArray(rows.map_values(|r: VulnAdvisoryRow| opt_text(r.severity))),
        ),
        takes(
            stores_advisories(rows),
            "$6::text[], $7::text[], "@,
            BindView::OptTextArray(rows.map_values(|r: VulnAdvisoryRow| opt_text(r.summary))),
        ),
        says(stores_advisories(rows).sql, "FROM UNNEST"@),
{
    bulk_insert_vuln_advisories_text();
    assert(stores_advisories(rows).sql == BULK_INSERT_VULN_ADVISORIES_SQL@);
}

} // verus!
