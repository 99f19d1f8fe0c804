//! What the statements of `external_scanner` say.
use vstd::prelude::*;

use crate::meaning::{
    item, lined_up_at, lines_up, mentions, opens, part_at, past, past_blanks, says,
};
use crate::queries::external_scanner::{
    INSERT_SCANNER_RUN_SQL, MARK_UNSEEN_RESOLVED_SQL, PROJECT_LANGUAGES_SQL,
    QUERY_SCANNER_FINDINGS_SQL, SCANNER_FINDING_COUNTS_SQL, UPSERT_SCANNER_FINDING_SQL,
    UPSERT_SCANNER_SBOM_SQL,
};

verus! {

/// What the text of [`PROJECT_LANGUAGES_SQL`] says.
pub proof fn project_languages_text()
    ensures
        opens(PROJECT_LANGUAGES_SQL@, "SELECT DISTINCT"@),
        mentions(PROJECT_LANGUAGES_SQL@, "project_id = "@, 1),
        says(PROJECT_LANGUAGES_SQL@, "FROM indexed_files"@),
{
    reveal_strlit(
        "SELECT DISTINCT language FROM indexed_files
          WHERE project_id = $1 AND language IS NOT NULL",
    );
    reveal_strlit("FROM indexed_files");
    reveal_strlit("SELECT DISTINCT");
    reveal_strlit("project_id = ");
    let t = PROJECT_LANGUAGES_SQL@;
    assert(part_at(t, 0, "SELECT DISTINCT"@));
    assert(part_at(t, 60, "project_id = "@));
    assert(part_at(t, 25, "FROM indexed_files"@));
}

/// What the text of [`INSERT_SCANNER_RUN_SQL`] says.
pub proof fn insert_scanner_run_text()
    ensures
        opens(INSERT_SCANNER_RUN_SQL@, "INSERT INTO external_scanner_runs"@),
        lines_up(
            INSERT_SCANNER_RUN_SQL@,
            "INSERT INTO external_scanner_runs"@,
            "project_id"@,
            "VALUES ("@,
            1,
        ),
        lines_up(
            INSERT_SCANNER_RUN_SQL@,
            "INSERT INTO external_scanner_runs"@,
            "scanner"@,
            "VALUES ("@,
            2,
        ),
        lines_up(
            INSERT_SCANNER_RUN_SQL@,
            "INSERT INTO external_scanner_runs"@,
            "status"@,
            "VALUES ("@,
            3,
        ),
        lines_up(
            INSERT_SCANNER_RUN_SQL@,
            "INSERT INTO external_scanner_runs"@,
            "exit_code"@,
            "VALUES ("@,
            4,
        ),
        lines_up(
            INSERT_SCANNER_RUN_SQL@,
            "INSERT INTO external_scanner_runs"@,
            "duration_ms"@,
            "VALUES ("@,
            5,
        ),
        lines_up(
            INSERT_SCANNER_RUN_SQL@,
            "INSERT INTO external_scanner_runs"@,
            "findings_count"@,
            "VALUES ("@,
            6,
        ),
        lines_up(
            INSERT_SCANNER_RUN_SQL@,
            "INSERT INTO external_scanner_runs"@,
            "tool_version"@,
            "VALUES ("@,
            7,
        ),
        lines_up(
            INSERT_SCANNER_RUN_SQL@,
            "INSERT INTO external_scanner_runs"@,
            "detail"@,
            "VALUES ("@,
            8,
        ),
{
    reveal_strlit(
        "INSERT INTO external_scanner_runs
            (project_id, scanner, status, exit_code, duration_ms,
             findings_count, tool_version, detail, finished_at)
         VALUES ($1,$2,$3,$4,$5,$6,$7,$8, now())
         RETURNING id",
    );
    reveal_strlit("INSERT INTO external_scanner_runs");
    reveal_strlit("VALUES (");
    reveal_strlit("detail");
    reveal_strlit("duration_ms");
    reveal_strlit("exit_code");
    reveal_strlit("findings_count");
    reveal_strlit("project_id");
    reveal_strlit("scanner");
    reveal_strlit("status");
    reveal_strlit("tool_version");
    let t = INSERT_SCANNER_RUN_SQL@;
    assert(part_at(t, 0, "INSERT INTO external_scanner_runs"@));
    reveal_with_fuel(past, 16);
    reveal_with_fuel(past_blanks, 15);
    assert(past(t, 33, '(') == 47);
    assert(item(t, 47, 0) == 47);
    assert(item(t, 47, 1) == 59);
    assert(item(t, 47, 2) == 68);
    assert(item(t, 47, 3) == 76);
    assert(item(t, 47, 4) == 87);
    assert(item(t, 47, 5) == 113);
    assert(item(t, 47, 6) == 129);
    assert(item(t, 47, 7) == 143);
    assert(item(t, 181, 0) == 181);
    assert(item(t, 181, 1) == 184);
    assert(item(t, 181, 2) == 187);
    assert(item(t, 181, 3) == 190);
    assert(item(t, 181, 4) == 193);
    assert(item(t, 181, 5) == 196);
    assert(item(t, 181, 6) == 199);
    assert(item(t, 181, 7) == 202);
    assert(lined_up_at(
        t,
        "INSERT INTO external_scanner_runs"@,
        "project_id"@,
        "VALUES ("@,
        1,
        0,
        173,
        0,
    ));
    assert(lined_up_at(
        t,
        "INSERT INTO external_scanner_runs"@,
        "scanner"@,
        "VALUES ("@,
        2,
        0,
        173,
        1,
    ));
    assert(lined_up_at(
        t,
        "INSERT INTO external_scanner_runs"@,
        "status"@,
        "VALUES ("@,
        3,
        0,
        173,
        2,
    ));
    assert(lined_up_at(
        t,
        "INSERT INTO external_scanner_runs"@,
        "exit_code"@,
        "VALUES ("@,
        4,
        0,
        173,
        3,
    ));
    assert(lined_up_at(
        t,
        "INSERT INTO external_scanner_runs"@,
        "duration_ms"@,
        "VALUES ("@,
        5,
        0,
        173,
        4,
    ));
    assert(lined_up_at(
        t,
        "INSERT INTO external_scanner_runs"@,
        "findings_count"@,
        "VALUES ("@,
        6,
        0,
        173,
        5,
    ));
    assert(lined_up_at(
        t,
        "INSERT INTO external_scanner_runs"@,
        "tool_version"@,
        "VALUES ("@,
        7,
        0,
        173,
        6,
    ));
    assert(lined_up_at(
        t,
        "INSERT INTO external_scanner_runs"@,
        "detail"@,
        "VALUES ("@,
        8,
        0,
        173,
        7,
    ));
}

/// What the text of [`UPSERT_SCANNER_FINDING_SQL`] says.
#[verifier::rlimit(50)]
pub proof fn upsert_scanner_finding_text()
    ensures
        opens(UPSERT_SCANNER_FINDING_SQL@, "INSERT INTO external_scanner_findings"@),
        lines_up(
            UPSERT_SCANNER_FINDING_SQL@,
            "INSERT INTO external_scanner_findings"@,
            "project_id"@,
            "VALUES ("@,
            1,
        ),
        lines_up(
            UPSERT_SCANNER_FINDING_SQL@,
            "INSERT INTO external_scanner_findings"@,
            "run_id"@,
            "VALUES ("@,
            2,
        ),
        lines_up(
            UPSERT_SCANNER_FINDING_SQL@,
            "INSERT INTO external_scanner_findings"@,
            "scanner"@,
            "VALUES ("@,
            3,
        ),
        lines_up(
            UPSERT_SCANNER_FINDING_SQL@,
            "INSERT INTO external_scanner_findings"@,
            "rule_id"@,
            "VALUES ("@,
            4,
        ),
        lines_up(
            UPSERT_SCANNER_FINDING_SQL@,
            "INSERT INTO external_scanner_findings"@,
            "severity"@,
            "VALUES ("@,
            5,
        ),
        lines_up(
            UPSERT_SCANNER_FINDING_SQL@,
            "INSERT INTO external_scanner_findings"@,
            "file_path"@,
            "VALUES ("@,
            6,
        ),
        lines_up(
            UPSERT_SCANNER_FINDING_SQL@,
            "INSERT INTO external_scanner_findings"@,
            "line"@,
            "VALUES ("@,
            7,
        ),
        lines_up(
            UPSERT_SCANNER_FINDING_SQL@,
            "INSERT INTO external_scanner_findings"@,
            "title"@,
            "VALUES ("@,
            8,
        ),
        lines_up(
            UPSERT_SCANNER_FINDING_SQL@,
            "INSERT INTO external_scanner_findings"@,
            "message"@,
            "VALUES ("@,
            9,
        ),
        lines_up(
            UPSERT_SCANNER_FINDING_SQL@,
            "INSERT INTO external_scanner_findings"@,
            "raw"@,
            "VALUES ("@,
            10,
        ),
        lines_up(
            UPSERT_SCANNER_FINDING_SQL@,
            "INSERT INTO external_scanner_findings"@,
            "fingerprint"@,
            "VALUES ("@,
            11,
        ),
        lines_up(
            UPSERT_SCANNER_FINDING_SQL@,
            "INSERT INTO external_scanner_findings"@,
            "provenance_key"@,
            "VALUES ("@,
            12,
        ),
        says(UPSERT_SCANNER_FINDING_SQL@, "ON CONFLICT (fingerprint) DO UPDATE SET"@),
        says(UPSERT_SCANNER_FINDING_SQL@, "run_id = EXCLUDED.run_id"@),
        says(UPSERT_SCANNER_FINDING_SQL@, "severity = EXCLUDED.severity"@),
        says(UPSERT_SCANNER_FINDING_SQL@, "rule_id = EXCLUDED.rule_id"@),
        says(UPSERT_SCANNER_FINDING_SQL@, "title = EXCLUDED.title"@),
        says(UPSERT_SCANNER_FINDING_SQL@, "message = EXCLUDED.message"@),
        says(UPSERT_SCANNER_FINDING_SQL@, "raw = EXCLUDED.raw"@),
{
    reveal_strlit(
        "INSERT INTO external_scanner_findings
            (project_id, run_id, scanner, rule_id, severity, file_path, line,
             title, message, raw, fingerprint, provenance_key, status, last_seen_at)
         VALUES ($1,$2,$3,$4,$5,$6,$7,$8,$9,$10,$11,$12,'open', now())
         ON CONFLICT (fingerprint) DO UPDATE SET
            run_id = EXCLUDED.run_id,
            severity = EXCLUDED.severity,
            rule_id = EXCLUDED.rule_id,
            title = EXCLUDED.title,
            message = EXCLUDED.message,
            raw = EXCLUDED.raw,
            status = 'open',
            last_seen_at = now()",
    );
    reveal_strlit("INSERT INTO external_scanner_findings");
    reveal_strlit("ON CONFLICT (fingerprint) DO UPDATE SET");
    reveal_strlit("VALUES (");
    reveal_strlit("file_path");
    reveal_strlit("fingerprint");
    reveal_strlit("line");
    reveal_strlit("message");
    reveal_strlit("message = EXCLUDED.message");
    reveal_strlit("project_id");
    reveal_strlit("provenance_key");
    reveal_strlit("raw");
    reveal_strlit("raw = EXCLUDED.raw");
    reveal_strlit("rule_id");
    reveal_strlit("rule_id = EXCLUDED.rule_id");
    reveal_strlit("run_id");
    reveal_strlit("run_id = EXCLUDED.run_id");
    reveal_strlit("scanner");
    reveal_strlit("severity");
    reveal_strlit("severity = EXCLUDED.severity");
    reveal_strlit("title");
    reveal_strlit("title = EXCLUDED.title");
    let t = UPSERT_SCANNER_FINDING_SQL@;
    assert(part_at(t, 0, "INSERT INTO external_scanner_findings"@));
    reveal_with_fuel(past, 15);
    reveal_with_fuel(past_blanks, 15);
    assert(past(t, 37, '(') == 51);
    assert(item(t, 51, 0) == 51);
    assert(item(t, 51, 1) == 63);
    assert(item(t, 51, 2) == 71);
    assert(item(t, 51, 3) == 80);
    assert(item(t, 51, 4) == 89);
    assert(item(t, 51, 5) == 99);
    assert(item(t, 51, 6) == 110);
    assert(item(t, 51, 7) == 129);
    assert(item(t, 51, 8) == 136);
    assert(item(t, 51, 9) == 145);
    assert(item(t, 51, 10) == 150);
    assert(item(t, 51, 11) == 163);
    assert(item(t, 218, 0) == 218);
    assert(item(t, 218, 1) == 221);
    assert(item(t, 218, 2) == 224);
    assert(item(t, 218, 3) == 227);
    assert(item(t, 218, 4) == 230);
    assert(item(t, 218, 5) == 233);
    assert(item(t, 218, 6) == 236);
    assert(item(t, 218, 7) == 239);
    assert(item(t, 218, 8) == 242);
    assert(item(t, 218, 9) == 245);
    assert(item(t, 218, 10) == 249);
    assert(item(t, 218, 11) == 253);
    assert(lined_up_at(
        t,
        "INSERT INTO external_scanner_findings"@,
        "project_id"@,
        "VALUES ("@,
        1,
        0,
        210,
        0,
    ));
    assert(lined_up_at(
        t,
        "INSERT INTO external_scanner_findings"@,
        "run_id"@,
        "VALUES ("@,
        2,
        0,
        210,
        1,
    ));
    assert(lined_up_at(
        t,
        "INSERT INTO external_scanner_findings"@,
        "scanner"@,
        "VALUES ("@,
        3,
        0,
        210,
        2,
    ));
    assert(lined_up_at(
        t,
        "INSERT INTO external_scanner_findings"@,
        "rule_id"@,
        "VALUES ("@,
        4,
        0,
        210,
        3,
    ));
    assert(lined_up_at(
        t,
        "INSERT INTO external_scanner_findings"@,
        "severity"@,
        "VALUES ("@,
        5,
        0,
        210,
        4,
    ));
    assert(lined_up_at(
        t,
        "INSERT INTO external_scanner_findings"@,
        "file_path"@,
        "VALUES ("@,
        6,
        0,
        210,
        5,
    ));
    assert(lined_up_at(
        t,
        "INSERT INTO external_scanner_findings"@,
        "line"@,
        "VALUES ("@,
        7,
        0,
        210,
        6,
    ));
    assert(lined_up_at(
        t,
        "INSERT INTO external_scanner_findings"@,
        "title"@,
        "VALUES ("@,
        8,
        0,
        210,
        7,
    ));
    assert(lined_up_at(
        t,
        "INSERT INTO external_scanner_findings"@,
        "message"@,
        "VALUES ("@,
        9,
        0,
        210,
        8,
    ));
    assert(lined_up_at(
        t,
        "INSERT INTO external_scanner_findings"@,
        "raw"@,
        "VALUES ("@,
        10,
        0,
        210,
        9,
    ));
    assert(lined_up_at(
        t,
        "INSERT INTO external_scanner_findings"@,
        "fingerprint"@,
        "VALUES ("@,
        11,
        0,
        210,
        10,
    ));
    assert(lined_up_at(
        t,
        "INSERT INTO external_scanner_findings"@,
        "provenance_key"@,
        "VALUES ("@,
        12,
        0,
        210,
        11,
    ));
    assert(part_at(t, 281, "ON CONFLICT (fingerprint) DO UPDATE SET"@));
    assert(part_at(t, 333, "run_id = EXCLUDED.run_id"@));
    assert(part_at(t, 371, "severity = EXCLUDED.severity"@));
    assert(part_at(t, 413, "rule_id = EXCLUDED.rule_id"@));
    assert(part_at(t, 453, "title = EXCLUDED.title"@));
    assert(part_at(t, 489, "message = EXCLUDED.message"@));
    assert(part_at(t, 529, "raw = EXCLUDED.raw"@));
}

/// What the text of [`MARK_UNSEEN_RESOLVED_SQL`] says.
pub proof fn mark_unseen_resolved_text()
    ensures
        opens(MARK_UNSEEN_RESOLVED_SQL@, "UPDATE external_scanner_findings"@),
        mentions(MARK_UNSEEN_RESOLVED_SQL@, "project_id = "@, 1),
        mentions(MARK_UNSEEN_RESOLVED_SQL@, "scanner = "@, 2),
        mentions(MARK_UNSEEN_RESOLVED_SQL@, "fingerprint = ANY("@, 3),
{
    reveal_strlit(
        "UPDATE external_scanner_findings
            SET status = 'resolved'
          WHERE project_id = $1 AND scanner = $2 AND status = 'open'
            AND NOT (fingerprint = ANY($3))",
    );
    reveal_strlit("UPDATE external_scanner_findings");
    reveal_strlit("fingerprint = ANY(");
    reveal_strlit("project_id = ");
    reveal_strlit("scanner = ");
    let t = MARK_UNSEEN_RESOLVED_SQL@;
    assert(part_at(t, 0, "UPDATE external_scanner_findings"@));
    assert(part_at(t, 85, "project_id = "@));
    assert(part_at(t, 105, "scanner = "@));
    assert(part_at(t, 159, "fingerprint = ANY("@));
}

/// What the text of [`QUERY_SCANNER_FINDINGS_SQL`] says.
#[verifier::rlimit(50)]
pub proof fn query_scanner_findings_text()
    ensures
        opens(QUERY_SCANNER_FINDINGS_SQL@, "SELECT"@),
        mentions(QUERY_SCANNER_FINDINGS_SQL@, "project_id = "@, 1),
        mentions(QUERY_SCANNER_FINDINGS_SQL@, "scanner = ANY("@, 2),
        mentions(QUERY_SCANNER_FINDINGS_SQL@, "status = "@, 3),
        mentions(QUERY_SCANNER_FINDINGS_SQL@, "END) >= "@, 4),
        mentions(QUERY_SCANNER_FINDINGS_SQL@, "LIMIT "@, 5),
        says(QUERY_SCANNER_FINDINGS_SQL@, "AND (CASE severity"@),
        says(QUERY_SCANNER_FINDINGS_SQL@, "ORDER BY (CASE severity"@),
        says(QUERY_SCANNER_FINDINGS_SQL@, "FROM external_scanner_findings"@),
{
    reveal_strlit(
        "SELECT id, project_id, scanner, rule_id, severity, file_path, line,
                title, message, fingerprint, provenance_key, status,
                first_seen_at, last_seen_at
           FROM external_scanner_findings
          WHERE ($1::int IS NULL OR project_id = $1)
            AND ($2::text[] IS NULL OR scanner = ANY($2))
            AND ($3::text IS NULL OR status = $3)
            AND (CASE severity
                    WHEN 'critical' THEN 4 WHEN 'high' THEN 3
                    WHEN 'medium' THEN 2 WHEN 'low' THEN 1 ELSE 0 END) >= $4
          ORDER BY (CASE severity
                    WHEN 'critical' THEN 4 WHEN 'high' THEN 3
                    WHEN 'medium' THEN 2 WHEN 'low' THEN 1 ELSE 0 END) DESC,
                   last_seen_at DESC
          LIMIT $5",
    );
    reveal_strlit("AND (CASE severity");
    reveal_strlit("END) >= ");
    reveal_strlit("FROM external_scanner_findings");
    reveal_strlit("LIMIT ");
    reveal_strlit("ORDER BY (CASE severity");
    reveal_strlit("SELECT");
    reveal_strlit("project_id = ");
    reveal_strlit("scanner = ANY(");
    reveal_strlit("status = ");
    let t = QUERY_SCANNER_FINDINGS_SQL@;
    assert(part_at(t, 0, "SELECT"@));
    assert(part_at(t, 259, "project_id = "@));
    assert(part_at(t, 315, "scanner = ANY("@));
    assert(part_at(t, 371, "status = "@));
    assert(part_at(t, 543, "END) >= "@));
    assert(part_at(t, 774, "LIMIT "@));
    assert(part_at(t, 396, "AND (CASE severity"@));
    assert(part_at(t, 564, "ORDER BY (CASE severity"@));
    assert(part_at(t, 192, "FROM external_scanner_findings"@));
}

/// What the text of [`SCANNER_FINDING_COUNTS_SQL`] says.
pub proof fn scanner_finding_counts_text()
    ensures
        opens(SCANNER_FINDING_COUNTS_SQL@, "SELECT"@),
        mentions(SCANNER_FINDING_COUNTS_SQL@, "project_id = "@, 1),
        mentions(SCANNER_FINDING_COUNTS_SQL@, "status = "@, 2),
        says(SCANNER_FINDING_COUNTS_SQL@, "GROUP BY scanner, severity"@),
        says(SCANNER_FINDING_COUNTS_SQL@, "ORDER BY scanner, severity"@),
        says(SCANNER_FINDING_COUNTS_SQL@, "FROM external_scanner_findings"@),
{
    reveal_strlit(
        "SELECT scanner, severity, COUNT(*)::bigint
           FROM external_scanner_findings
          WHERE ($1::int IS NULL OR project_id = $1)
            AND ($2::text IS NULL OR status = $2)
          GROUP BY scanner, severity
          ORDER BY scanner, severity",
    );
    reveal_strlit("FROM external_scanner_findings");
    reveal_strlit("GROUP BY scanner, severity");
    reveal_strlit("ORDER BY scanner, severity");
    reveal_strlit("SELECT");
    reveal_strlit("project_id = ");
    reveal_strlit("status = ");
    let t = SCANNER_FINDING_COUNTS_SQL@;
    assert(part_at(t, 0, "SELECT"@));
    assert(part_at(t, 121, "project_id = "@));
    assert(part_at(t, 175, "status = "@));
    assert(part_at(t, 198, "GROUP BY scanner, severity"@));
    assert(part_at(t, 235, "ORDER BY scanner, severity"@));
    assert(part_at(t, 54, "FROM external_scanner_findings"@));
}

/// What the text of [`UPSERT_SCANNER_SBOM_SQL`] says.
pub proof fn upsert_scanner_sbom_text()
    ensures
        opens(UPSERT_SCANNER_SBOM_SQL@, "INSERT INTO external_scanner_sbom"@),
        lines_up(
            UPSERT_SCANNER_SBOM_SQL@,
            "INSERT INTO external_scanner_sbom"@,
            "project_id"@,
            "VALUES ("@,
            1,
        ),
        lines_up(
            UPSERT_SCANNER_SBOM_SQL@,
            "INSERT INTO external_scanner_sbom"@,
            "scanner"@,
            "VALUES ("@,
            2,
        ),
        lines_up(
            UPSERT_SCANNER_SBOM_SQL@,
            "INSERT INTO external_scanner_sbom"@,
            "format"@,
            "VALUES ("@,
            3,
        ),
        lines_up(
            UPSERT_SCANNER_SBOM_SQL@,
            "INSERT INTO external_scanner_sbom"@,
            "sbom"@,
            "VALUES ("@,
            4,
        ),
        says(UPSERT_SCANNER_SBOM_SQL@, "ON CONFLICT (project_id, scanner, format)"@),
        says(UPSERT_SCANNER_SBOM_SQL@, "sbom = EXCLUDED.sbom"@),
{
    reveal_strlit(
        "INSERT INTO external_scanner_sbom (project_id, scanner, format, sbom, generated_at)
         VALUES ($1,$2,$3,$4, now())
         ON CONFLICT (project_id, scanner, format)
         DO UPDATE SET sbom = EXCLUDED.sbom, generated_at = now()",
    );
    reveal_strlit("INSERT INTO external_scanner_sbom");
    reveal_strlit("ON CONFLICT (project_id, scanner, format)");
    reveal_strlit("VALUES (");
    reveal_strlit("format");
    reveal_strlit("project_id");
    reveal_strlit("sbom");
    reveal_strlit("sbom = EXCLUDED.sbom");
    reveal_strlit("scanner");
    let t = UPSERT_SCANNER_SBOM_SQL@;
    assert(part_at(t, 0, "INSERT INTO external_scanner_sbom"@));
    reveal_with_fuel(past, 12);
    reveal_with_fuel(past_blanks, 2);
    assert(past(t, 33, '(') == 35);
    assert(item(t, 35, 0) == 35);
    assert(item(t, 35, 1) == 47);
    assert(item(t, 35, 2) == 56);
    assert(item(t, 35, 3) == 64);
    assert(item(t, 101, 0) == 101);
    assert(item(t, 101, 1) == 104);
    assert(item(t, 101, 2) == 107);
    assert(item(t, 101, 3) == 110);
    assert(lined_up_at(
        t,
        "INSERT INTO external_scanner_sbom"@,
        "project_id"@,
        "VALUES ("@,
        1,
        0,
        93,
        0,
    ));
    assert(lined_up_at(
        t,
        "INSERT INTO external_scanner_sbom"@,
        "scanner"@,
        "VALUES ("@,
        2,
        0,
        93,
        1,
    ));
    assert(lined_up_at(
        t,
        "INSERT INTO external_scanner_sbom"@,
        "format"@,
        "VALUES ("@,
        3,
        0,
        93,
        2,
    ));
    assert(lined_up_at(t, "INSERT INTO external_scanner_sbom"@, "sbom"@, "VALUES ("@, 4, 0, 93, 3));
    assert(part_at(t, 130, "ON CONFLICT (project_id, scanner, format)"@));
    assert(part_at(t, 195, "sbom = EXCLUDED.sbom"@));
}

} // verus!
