//! Known vulnerabilities of packages.
use vstd::prelude::*;

use crate::meaning::{opens, says, takes};
use crate::queries::texts::advisories::{
    clear_vuln_advisories_text, law_stores_advisories_stands_for_its_values,
    load_vuln_advisories_text,
};
use crate::statement::{
    copy_opt_text, executes, fetches_all, opt_text, opt_texts, texts, Bind, BindView, Statement,
    StatementView,
};

verus! {

/// A vulnerable range of versions of a package.
#[derive(Debug, Clone)]
pub struct VulnAdvisoryRow {
    pub advisory_id: String,
    pub ecosystem: String,
    pub package: String,
    pub introduced: Option<String>,
    pub fixed: Option<String>,
    pub last_affected: Option<String>,
    pub severity: Option<String>,
    pub summary: Option<String>,
}

pub const CLEAR_VULN_ADVISORIES_SQL: &'static str = "DELETE FROM vuln_advisories";

/// Deletes all advisories.
pub fn clear_vuln_advisories() -> (st: Statement)
    ensures
        st@ == executes(CLEAR_VULN_ADVISORIES_SQL@, seq![]),
        opens(st@.sql, "DELETE FROM vuln_advisories"@),
{
    proof {
        clear_vuln_advisories_text();
    }
    let st = Statement::execute(CLEAR_VULN_ADVISORIES_SQL);
    assert(st@.sql == CLEAR_VULN_ADVISORIES_SQL@);
    st
}

pub const BULK_INSERT_VULN_ADVISORIES_SQL: &'static str = "INSERT INTO vuln_advisories
            (advisory_id, ecosystem, package, introduced, fixed, last_affected, severity, summary)
         SELECT * FROM UNNEST(
             $1::text[], $2::text[], $3::text[], $4::text[],
             $5::text[], $6::text[], $7::text[], $8::text[]
         )";

/// Storing advisories, column by column.
pub open spec fn stores_advisories(rows: Seq<VulnAdvisoryRow>) -> StatementView {
    executes(
        BULK_INSERT_VULN_ADVISORIES_SQL@,
        seq![
            BindView::TextArray(rows.map_values(|r: VulnAdvisoryRow| r.advisory_id@)),
            BindView::TextArray(rows.map_values(|r: VulnAdvisoryRow| r.ecosystem@)),
            BindView::TextArray(rows.map_values(|r: VulnAdvisoryRow| r.package@)),
            BindView::OptTextArray(rows.map_values(|r: VulnAdvisoryRow| opt_text(r.introduced))),
            BindView::OptTextArray(rows.map_values(|r: VulnAdvisoryRow| opt_text(r.fixed))),
            BindView::OptTextArray(rows.map_values(|r: VulnAdvisoryRow| opt_text(r.last_affected))),
            BindView::OptTextArray(rows.map_values(|r: VulnAdvisoryRow| opt_text(r.severity))),
            BindView::OptTextArray(rows.map_values(|r: VulnAdvisoryRow| opt_text(r.summary))),
        ],
    )
}

/// Stores advisories. No rows: nothing to send.
pub fn bulk_insert_vuln_advisories(rows: &[VulnAdvisoryRow]) -> (r: Option<Statement>)
    ensures
        r is None <==> rows.len() == 0,
        r matches Some(st) ==> st@ == stores_advisories(rows@),
        r matches Some(st) ==> opens(st@.sql, "INSERT INTO vuln_advisories"@),
        r matches Some(st) ==> takes(
            st@,
            "$1::text[], "@,
            BindView::TextArray(rows@.map_values(|r: VulnAdvisoryRow| r.ecosystem@)),
        ),
        r matches Some(st) ==> takes(
            st@,
            "$1::text[], $2::text[], "@,
            BindView::TextArray(rows@.map_values(|r: VulnAdvisoryRow| r.package@)),
        ),
        r matches Some(st) ==> takes(
            st@,
            "$2::text[], $3::text[], "@,
            BindView::OptTextArray(rows@.map_values(|r: VulnAdvisoryRow| opt_text(r.introduced))),
        ),
        r matches Some(st) ==> takes(
            st@,
            "$5::text[], "@,
            BindView::OptTextArray(rows@.map_values(|r: VulnAdvisoryRow| opt_text(r.last_affected))),
        ),
        r matches Some(st) ==> takes(
            st@,
            "$5::text[], $6::text[], "@,
            BindView::OptTextArray(rows@.map_values(|r: VulnAdvisoryRow| opt_text(r.severity))),
        ),
        r matches Some(st) ==> takes(
            st@,
            "$6::text[], $7::text[], "@,
            BindView::OptTextArray(rows@.map_values(|r: VulnAdvisoryRow| opt_text(r.summary))),
        ),
{
    proof {
        law_stores_advisories_stands_for_its_values(rows@);
    }
    if rows.len() == 0 {
        return None;
    }
    let mut ids: Vec<String> = Vec::new();
    let mut ecosystems: Vec<String> = Vec::new();
    let mut packages: Vec<String> = Vec::new();
    let mut introduced: Vec<Option<String>> = Vec::new();
    let mut fixed: Vec<Option<String>> = Vec::new();
    let mut last_affected: Vec<Option<String>> = Vec::new();
    let mut severity: Vec<Option<String>> = Vec::new();
    let mut summary: Vec<Option<String>> = Vec::new();
    let mut i: usize = 0;
    while i < rows.len()
        invariant
            i <= rows.len(),
            ids.len() == i,
            forall|j: int|
                0 <= j < i ==> (#[trigger] ids@[j])@ == rows@[j].advisory_id@,
            ecosystems.len() == i,
            forall|j: int|
                0 <= j < i ==> (#[trigger] ecosystems@[j])@ == rows@[j].ecosystem@,
            packages.len() == i,
            forall|j: int|
                0 <= j < i ==> (#[trigger] packages@[j])@ == rows@[j].package@,
            introduced.len() == i,
            forall|j: int|
                0 <= j < i ==> opt_text(#[trigger] introduced@[j]) == opt_text(rows@[j].introduced),
            fixed.len() == i,
            forall|j: int|
                0 <= j < i ==> opt_text(#[trigger] fixed@[j]) == opt_text(rows@[j].fixed),
            last_affected.len() == i,
            forall|j: int|
                0 <= j < i ==> opt_text(#[trigger] last_affected@[j]) == opt_text(
                    rows@[j].last_affected,
                ),
            severity.len() == i,
            forall|j: int|
                0 <= j < i ==> opt_text(#[trigger] severity@[j]) == opt_text(rows@[j].severity),
            summary.len() == i,
            forall|j: int|
                0 <= j < i ==> opt_text(#[trigger] summary@[j]) == opt_text(rows@[j].summary),
        decreases rows.len() - i,
    {
        ids.push(String::from_str(rows[i].advisory_id.as_str()));
        ecosystems.push(String::from_str(rows[i].ecosystem.as_str()));
        packages.push(String::from_str(rows[i].package.as_str()));
        introduced.push(copy_opt_text(&rows[i].introduced));
        fixed.push(copy_opt_text(&rows[i].fixed));
        last_affected.push(copy_opt_text(&rows[i].last_affected));
        severity.push(copy_opt_text(&rows[i].severity));
        summary.push(copy_opt_text(&rows[i].summary));
        i = i + 1;
    }
    assert(texts(ids@) =~= rows@.map_values(|r: VulnAdvisoryRow| r.advisory_id@));
    assert(texts(ecosystems@) =~= rows@.map_values(|r: VulnAdvisoryRow| r.ecosystem@));
    assert(texts(packages@) =~= rows@.map_values(|r: VulnAdvisoryRow| r.package@));
    assert(opt_texts(introduced@) =~= rows@.map_values(
        |r: VulnAdvisoryRow| opt_text(r.introduced),
    ));
    assert(opt_texts(fixed@) =~= rows@.map_values(|r: VulnAdvisoryRow| opt_text(r.fixed)));
    assert(opt_texts(last_affected@) =~= rows@.map_values(
        |r: VulnAdvisoryRow| opt_text(r.last_affected),
    ));
    assert(opt_texts(severity@) =~= rows@.map_values(|r: VulnAdvisoryRow| opt_text(r.severity)));
    assert(opt_texts(summary@) =~= rows@.map_values(|r: VulnAdvisoryRow| opt_text(r.summary)));
    let st = Statement::execute(BULK_INSERT_VULN_ADVISORIES_SQL)
        .bind(Bind::TextArray(ids))
        .bind(Bind::TextArray(ecosystems))
        .bind(Bind::TextArray(packages))
        .bind(Bind::OptTextArray(introduced))
        .bind(Bind::OptTextArray(fixed))
        .bind(Bind::OptTextArray(last_affected))
        .bind(Bind::OptTextArray(severity))
        .bind(Bind::OptTextArray(summary));
    assert(st@ =~= stores_advisories(rows@));
    Some(st)
}

pub const LOAD_VULN_ADVISORIES_SQL: &'static str = "SELECT advisory_id, ecosystem, package, introduced, fixed, last_affected, severity, summary
         FROM vuln_advisories
         WHERE ecosystem = $1 AND package = ANY($2)";

/// The advisories of some packages. No packages: nothing to send, and there is
/// none.
pub fn load_vuln_advisories(ecosystem: &str, packages: &[String]) -> (r: Option<Statement>)
    ensures
        r is None <==> packages.len() == 0,
        r matches Some(st) ==> st@ == fetches_all(
            LOAD_VULN_ADVISORIES_SQL@,
            seq![
                BindView::Text(ecosystem@),
                BindView::TextArray(texts(packages@)),
            ],
        ),
        r matches Some(st) ==> opens(st@.sql, "SELECT"@),
        r matches Some(st) ==> takes(st@, "ecosystem = "@, BindView::Text(ecosystem@)),
        r matches Some(st) ==> takes(st@, "package = ANY("@, BindView::TextArray(texts(packages@))),
        r matches Some(st) ==> says(st@.sql, "FROM vuln_advisories"@),
{
    proof {
        load_vuln_advisories_text();
    }
    if packages.len() == 0 {
        return None;
    }
    let st = Statement::all(LOAD_VULN_ADVISORIES_SQL).text(ecosystem).texts(packages);
    assert(st@.sql == LOAD_VULN_ADVISORIES_SQL@);
    Some(st)
}

} // verus!
