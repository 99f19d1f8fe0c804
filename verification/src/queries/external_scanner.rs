//! Findings of outside security scanners.
use vstd::prelude::*;

use crate::meaning::{fills, opens, says, takes};
use crate::queries::texts::external_scanner::{
    insert_scanner_run_text, mark_unseen_resolved_text, project_languages_text,
    query_scanner_findings_text, scanner_finding_counts_text, upsert_scanner_finding_text,
    upsert_scanner_sbom_text,
};
use crate::statement::{
    executes, fetches_all, fetches_one, opt_list, opt_str, opt_text, texts, BindView, Statement,
};

verus! {

pub const PROJECT_LANGUAGES_SQL: &'static str = "SELECT DISTINCT language FROM indexed_files
          WHERE project_id = $1 AND language IS NOT NULL";

/// The languages of a project, each once.
pub fn project_languages(project_id: i32) -> (st: Statement)
    ensures
        st@ == fetches_all(PROJECT_LANGUAGES_SQL@, seq![BindView::Int(project_id)]),
        opens(st@.sql, "SELECT DISTINCT"@),
        takes(st@, "project_id = "@, BindView::Int(project_id)),
        says(st@.sql, "FROM indexed_files"@),
{
    proof {
        project_languages_text();
    }
    let st = Statement::all(PROJECT_LANGUAGES_SQL).int4(project_id);
    assert(st@.sql == PROJECT_LANGUAGES_SQL@);
    st
}

pub const INSERT_SCANNER_RUN_SQL: &'static str = "INSERT INTO external_scanner_runs
            (project_id, scanner, status, exit_code, duration_ms,
             findings_count, tool_version, detail, finished_at)
         VALUES ($1,$2,$3,$4,$5,$6,$7,$8, now())
         RETURNING id";

/// Records a run of a scanner.
pub fn insert_scanner_run(
    project_id: i32,
    scanner: &str,
    status: &str,
    exit_code: Option<i32>,
    duration_ms: i64,
    findings_count: i32,
    tool_version: Option<&str>,
    detail: Option<&str>,
) -> (st: Statement)
    ensures
        st@ == fetches_one(
            INSERT_SCANNER_RUN_SQL@,
            seq![
                BindView::Int(project_id),
                BindView::Text(scanner@),
                BindView::Text(status@),
                BindView::OptInt(exit_code),
                BindView::BigInt(duration_ms),
                BindView::Int(findings_count),
                BindView::OptText(opt_str(tool_version)),
                BindView::OptText(opt_str(detail)),
            ],
        ),
        opens(st@.sql, "INSERT INTO external_scanner_runs"@),
        fills(
            st@,
            "INSERT INTO external_scanner_runs"@,
            "project_id"@,
            "VALUES ("@,
            BindView::Int(project_id),
        ),
        fills(
            st@,
            "INSERT INTO external_scanner_runs"@,
            "scanner"@,
            "VALUES ("@,
            BindView::Text(scanner@),
        ),
        fills(
            st@,
            "INSERT INTO external_scanner_runs"@,
            "status"@,
            "VALUES ("@,
            BindView::Text(status@),
        ),
        fills(
            st@,
            "INSERT INTO external_scanner_runs"@,
            "exit_code"@,
            "VALUES ("@,
            BindView::OptInt(exit_code),
        ),
        fills(
            st@,
            "INSERT INTO external_scanner_runs"@,
            "duration_ms"@,
            "VALUES ("@,
            BindView::BigInt(duration_ms),
        ),
        fills(
            st@,
            "INSERT INTO external_scanner_runs"@,
            "findings_count"@,
            "VALUES ("@,
            BindView::Int(findings_count),
        ),
        fills(
            st@,
            "INSERT INTO external_scanner_runs"@,
            "tool_version"@,
            "VALUES ("@,
            BindView::OptText(opt_str(tool_version)),
        ),
        fills(
            st@,
            "INSERT INTO external_scanner_runs"@,
            "detail"@,
            "VALUES ("@,
            BindView::OptText(opt_str(detail)),
        ),
{
    proof {
        insert_scanner_run_text();
    }
    let st = Statement::one(INSERT_SCANNER_RUN_SQL)
        .int4(project_id)
        .text(scanner)
        .text(status)
        .opt_int4(exit_code)
        .int8(duration_ms)
        .int4(findings_count)
        .opt_text(tool_version)
        .opt_text(detail);
    assert(st@.sql == INSERT_SCANNER_RUN_SQL@);
    st
}

pub const UPSERT_SCANNER_FINDING_SQL: &'static str = "INSERT INTO external_scanner_findings
            (project_id, run_id, scanner, rule_id, severity, file_path, line,
             title, message, raw, fingerprint, provenance_key, status, last_seen_at)
         VALUES ($1,$2,$3,$4,$5,$6,$7,$8,$9,$10,$11,$12,'open', now())
         ON CONFLICT (fingerprint) DO UPDATE SET
            run_id = EXCLUDED.run_id,
            severity = EXCLUDED.severity,
            rule_id = EXCLUDED.rule_id,
            title = EXCLUDED.title,
            message = EXCLUDED.message,
            raw = EXCLUDED.raw,
            status = 'open',
            last_seen_at = now()";

/// Records a finding, or opens the one with its fingerprint again. The caller
/// supplies value 0, `raw`.
pub fn upsert_scanner_finding(
    project_id: i32,
    run_id: i64,
    scanner: &str,
    rule_id: Option<&str>,
    severity: &str,
    file_path: Option<&str>,
    line: Option<i32>,
    title: &str,
    message: Option<&str>,
    fingerprint: &str,
    provenance_key: &str,
) -> (st: Statement)
    ensures
        st@ == executes(
            UPSERT_SCANNER_FINDING_SQL@,
            seq![
                BindView::Int(project_id),
                BindView::BigInt(run_id),
                BindView::Text(scanner@),
                BindView::OptText(opt_str(rule_id)),
                BindView::Text(severity@),
                BindView::OptText(opt_str(file_path)),
                BindView::OptInt(line),
                BindView::Text(title@),
                BindView::OptText(opt_str(message)),
                BindView::Supplied(0),
                BindView::Text(fingerprint@),
                BindView::Text(provenance_key@),
            ],
        ),
        opens(st@.sql, "INSERT INTO external_scanner_findings"@),
        fills(
            st@,
            "INSERT INTO external_scanner_findings"@,
            "project_id"@,
            "VALUES ("@,
            BindView::Int(project_id),
        ),
        fills(
            st@,
            "INSERT INTO external_scanner_findings"@,
            "run_id"@,
            "VALUES ("@,
            BindView::BigInt(run_id),
        ),
        fills(
            st@,
            "INSERT INTO external_scanner_findings"@,
            "scanner"@,
            "VALUES ("@,
            BindView::Text(scanner@),
        ),
        fills(
            st@,
            "INSERT INTO external_scanner_findings"@,
            "rule_id"@,
            "VALUES ("@,
            BindView::OptText(opt_str(rule_id)),
        ),
        fills(
            st@,
            "INSERT INTO external_scanner_findings"@,
            "severity"@,
            "VALUES ("@,
            BindView::Text(severity@),
        ),
        fills(
            st@,
            "INSERT INTO external_scanner_findings"@,
            "file_path"@,
            "VALUES ("@,
            BindView::OptText(opt_str(file_path)),
        ),
        fills(
            st@,
            "INSERT INTO external_scanner_findings"@,
            "line"@,
            "VALUES ("@,
            BindView::OptInt(line),
        ),
        fills(
            st@,
            "INSERT INTO external_scanner_findings"@,
            "title"@,
            "VALUES ("@,
            BindView::Text(title@),
        ),
        fills(
            st@,
            "INSERT INTO external_scanner_findings"@,
            "message"@,
            "VALUES ("@,
            BindView::OptText(opt_str(message)),
        ),
        fills(
            st@,
            "INSERT INTO external_scanner_findings"@,
            "raw"@,
            "VALUES ("@,
            BindView::Supplied(0),
        ),
        fills(
            st@,
            "INSERT INTO external_scanner_findings"@,
            "fingerprint"@,
            "VALUES ("@,
            BindView::Text(fingerprint@),
        ),
        fills(
            st@,
            "INSERT INTO external_scanner_findings"@,
            "provenance_key"@,
            "VALUES ("@,
            BindView::Text(provenance_key@),
        ),
        says(st@.sql, "ON CONFLICT (fingerprint) DO UPDATE SET"@),
{
    proof {
        upsert_scanner_finding_text();
    }
    let st = Statement::execute(UPSERT_SCANNER_FINDING_SQL)
        .int4(project_id)
        .int8(run_id)
        .text(scanner)
        .opt_text(rule_id)
        .text(severity)
        .opt_text(file_path)
        .opt_int4(line)
        .text(title)
        .opt_text(message)
        .supplied(0)
        .text(fingerprint)
        .text(provenance_key);
    assert(st@.sql == UPSERT_SCANNER_FINDING_SQL@);
    st
}

pub const MARK_UNSEEN_RESOLVED_SQL: &'static str = "UPDATE external_scanner_findings
            SET status = 'resolved'
          WHERE project_id = $1 AND scanner = $2 AND status = 'open'
            AND NOT (fingerprint = ANY($3))";

/// Marks the open findings of a scanner as resolved, all but those with given
/// fingerprints; with none given, all.
pub fn mark_unseen_resolved(project_id: i32, scanner: &str, seen: &[String]) -> (st: Statement)
    ensures
        st@ == executes(
            MARK_UNSEEN_RESOLVED_SQL@,
            seq![
                BindView::Int(project_id),
                BindView::Text(scanner@),
                BindView::TextArray(texts(seen@)),
            ],
        ),
        opens(st@.sql, "UPDATE external_scanner_findings"@),
        takes(st@, "project_id = "@, BindView::Int(project_id)),
        takes(st@, "scanner = "@, BindView::Text(scanner@)),
        takes(st@, "fingerprint = ANY("@, BindView::TextArray(texts(seen@))),
{
    proof {
        mark_unseen_resolved_text();
    }
    let st = Statement::execute(MARK_UNSEEN_RESOLVED_SQL).int4(project_id).text(scanner).texts(seen);
    assert(st@.sql == MARK_UNSEEN_RESOLVED_SQL@);
    st
}

pub const QUERY_SCANNER_FINDINGS_SQL: &'static str = "SELECT id, project_id, scanner, rule_id, severity, file_path, line,
                title, message, fingerprint, provenance_key, status,
                first_seen_at, last_seen_at
           FROM external_scanner_findings
          WHERE ($1::int IS NULL OR project_id = $1)
            AND ($2::text[] IS NULL OR scanner = ANY($2))
            AND ($3::text IS NULL OR status = $3)
            AND (CASE severity
                    WHEN 'critical' THEN 4 WHEN 'high' THEN 3
                    WHEN 'medium' THEN 2 WHEN 'low' THEN 1 ELSE 0 END) >= $4
          ORDER BY (CASE severity
                    WHEN 'critical' THEN 4 WHEN 'high' THEN 3
                    WHEN 'medium' THEN 2 WHEN 'low' THEN 1 ELSE 0 END) DESC,
                   last_seen_at DESC
          LIMIT $5";

/// Findings, optionally of one project, some scanners or one status, from a
/// severity on, the most severe first.
pub fn query_scanner_findings(
    project_id: Option<i32>,
    scanners: Option<&[String]>,
    min_severity_rank: i32,
    status: Option<&str>,
    limit: i64,
) -> (st: Statement)
    ensures
        st@ == fetches_all(
            QUERY_SCANNER_FINDINGS_SQL@,
            seq![
                BindView::OptInt(project_id),
                BindView::MaybeTextArray(opt_list(scanners)),
                BindView::OptText(opt_str(status)),
                BindView::Int(min_severity_rank),
                BindView::BigInt(limit),
            ],
        ),
        opens(st@.sql, "SELECT"@),
        takes(st@, "project_id = "@, BindView::OptInt(project_id)),
        takes(st@, "scanner = ANY("@, BindView::MaybeTextArray(opt_list(scanners))),
        takes(st@, "status = "@, BindView::OptText(opt_str(status))),
        takes(st@, "END) >= "@, BindView::Int(min_severity_rank)),
        takes(st@, "LIMIT "@, BindView::BigInt(limit)),
        says(st@.sql, "AND (CASE severity"@),
        says(st@.sql, "ORDER BY (CASE severity"@),
        says(st@.sql, "FROM external_scanner_findings"@),
{
    proof {
        query_scanner_findings_text();
    }
    let st = Statement::all(QUERY_SCANNER_FINDINGS_SQL)
        .opt_int4(project_id)
        .maybe_texts(scanners)
        .opt_text(status)
        .int4(min_severity_rank)
        .int8(limit);
    assert(st@.sql == QUERY_SCANNER_FINDINGS_SQL@);
    st
}

pub const SCANNER_FINDING_COUNTS_SQL: &'static str = "SELECT scanner, severity, COUNT(*)::bigint
           FROM external_scanner_findings
          WHERE ($1::int IS NULL OR project_id = $1)
            AND ($2::text IS NULL OR status = $2)
          GROUP BY scanner, severity
          ORDER BY scanner, severity";

/// How many findings each scanner has of each severity.
pub fn scanner_finding_counts(project_id: Option<i32>, status: Option<&str>) -> (st: Statement)
    ensures
        st@ == fetches_all(
            SCANNER_FINDING_COUNTS_SQL@,
            seq![
                BindView::OptInt(project_id),
                BindView::OptText(opt_str(status)),
            ],
        ),
        opens(st@.sql, "SELECT"@),
        takes(st@, "project_id = "@, BindView::OptInt(project_id)),
        takes(st@, "status = "@, BindView::OptText(opt_str(status))),
        says(st@.sql, "GROUP BY scanner, severity"@),
        says(st@.sql, "ORDER BY scanner, severity"@),
        says(st@.sql, "FROM external_scanner_findings"@),
{
    proof {
        scanner_finding_counts_text();
    }
    let st = Statement::all(SCANNER_FINDING_COUNTS_SQL).opt_int4(project_id).opt_text(status);
    assert(st@.sql == SCANNER_FINDING_COUNTS_SQL@);
    st
}

pub const UPSERT_SCANNER_SBOM_SQL: &'static str = "INSERT INTO external_scanner_sbom (project_id, scanner, format, sbom, generated_at)
         VALUES ($1,$2,$3,$4, now())
         ON CONFLICT (project_id, scanner, format)
         DO UPDATE SET sbom = EXCLUDED.sbom, generated_at = now()";

/// Stores the list of components of a project. The caller supplies value 0,
/// `sbom`.
pub fn upsert_scanner_sbom(project_id: i32, scanner: &str, format: &str) -> (st: Statement)
    ensures
        st@ == executes(
            UPSERT_SCANNER_SBOM_SQL@,
            seq![
                BindView::Int(project_id),
                BindView::Text(scanner@),
                BindView::Text(format@),
                BindView::Supplied(0),
            ],
        ),
        opens(st@.sql, "INSERT INTO external_scanner_sbom"@),
        fills(
            st@,
            "INSERT INTO external_scanner_sbom"@,
            "project_id"@,
            "VALUES ("@,
            BindView::Int(project_id),
        ),
        fills(
            st@,
            "INSERT INTO external_scanner_sbom"@,
            "scanner"@,
            "VALUES ("@,
            BindView::Text(scanner@),
        ),
        fills(
            st@,
            "INSERT INTO external_scanner_sbom"@,
            "format"@,
            "VALUES ("@,
            BindView::Text(format@),
        ),
        fills(
            st@,
            "INSERT INTO external_scanner_sbom"@,
            "sbom"@,
            "VALUES ("@,
            BindView::Supplied(0),
        ),
        says(st@.sql, "ON CONFLICT (project_id, scanner, format)"@),
{
    proof {
        upsert_scanner_sbom_text();
    }
    let st = Statement::execute(UPSERT_SCANNER_SBOM_SQL)
        .int4(project_id)
        .text(scanner)
        .text(format)
        .supplied(0);
    assert(st@.sql == UPSERT_SCANNER_SBOM_SQL@);
    st
}

} // verus!
