//! What the statements of `similarity` say.
use vstd::prelude::*;

use crate::meaning::{
    differs, ends_plainly, fills, item, lemma_nowhere, lemma_within, lined_up_at, lines_up,
    mentions, nowhere, opens, part_at, past, past_blanks, says, takes,
};
use crate::queries::similarity::{
    duplicates_query, similar_files_query, stores_pair, PairView, CLEAR_SIMILARITY_TABLE_SQL,
    COMPARE_FILES_1, COMPARE_FILES_2, COMPARE_FILES_3, COMPARE_WITHIN_1, COMPARE_WITHIN_2,
    COMPARE_WITHIN_3, COMPARE_WITHIN_4, COMPARE_WITHIN_5, COUNT_SIMILARITY_PAIRS_SQL,
    CROSS_PROJECT_NEIGHBORS_1, CROSS_PROJECT_NEIGHBORS_2, CROSS_PROJECT_NEIGHBORS_3,
    CROSS_PROJECT_NEIGHBORS_4, DUPLICATES_BY_LANGUAGE_SQL, DUPLICATES_SQL,
    FIND_CHUNK_SIMILARITY_PAIRS_SQL, FIND_PATTERN_ABSTRACTION_PAIRS_SQL, INSERT_SIMILARITY_PAIR_SQL,
    MAX_CHUNK_ID_SQL, SAME_REPO_1, SAME_REPO_2, SIMILAR_FILES_1, SIMILAR_FILES_2,
    SIMILAR_FILES_IN_PROJECT_1, SIMILAR_FILES_IN_PROJECT_2, TOP_SIMILAR_FILE_PAIRS_SQL,
};
use crate::statement::BindView;
use crate::text::digit;

verus! {

/// What the text of [`INSERT_SIMILARITY_PAIR_SQL`] says.
#[verifier::rlimit(50)]
pub proof fn insert_similarity_pair_text()
    ensures
        opens(INSERT_SIMILARITY_PAIR_SQL@, "INSERT INTO cross_project_similarities"@),
        lines_up(
            INSERT_SIMILARITY_PAIR_SQL@,
            "INSERT INTO cross_project_similarities"@,
            "chunk_id_a"@,
            "VALUES ("@,
            1,
        ),
        lines_up(
            INSERT_SIMILARITY_PAIR_SQL@,
            "INSERT INTO cross_project_similarities"@,
            "file_id_a"@,
            "VALUES ("@,
            2,
        ),
        lines_up(
            INSERT_SIMILARITY_PAIR_SQL@,
            "INSERT INTO cross_project_similarities"@,
            "project_id_a"@,
            "VALUES ("@,
            3,
        ),
        lines_up(
            INSERT_SIMILARITY_PAIR_SQL@,
            "INSERT INTO cross_project_similarities"@,
            "chunk_id_b"@,
            "VALUES ("@,
            4,
        ),
        lines_up(
            INSERT_SIMILARITY_PAIR_SQL@,
            "INSERT INTO cross_project_similarities"@,
            "file_id_b"@,
            "VALUES ("@,
            5,
        ),
        lines_up(
            INSERT_SIMILARITY_PAIR_SQL@,
            "INSERT INTO cross_project_similarities"@,
            "project_id_b"@,
            "VALUES ("@,
            6,
        ),
        lines_up(
            INSERT_SIMILARITY_PAIR_SQL@,
            "INSERT INTO cross_project_similarities"@,
            "chunk_similarity"@,
            "VALUES ("@,
            7,
        ),
        lines_up(
            INSERT_SIMILARITY_PAIR_SQL@,
            "INSERT INTO cross_project_similarities"@,
            "path_a"@,
            "VALUES ("@,
            8,
        ),
        lines_up(
            INSERT_SIMILARITY_PAIR_SQL@,
            "INSERT INTO cross_project_similarities"@,
            "path_b"@,
            "VALUES ("@,
            9,
        ),
        lines_up(
            INSERT_SIMILARITY_PAIR_SQL@,
            "INSERT INTO cross_project_similarities"@,
            "project_name_a"@,
            "VALUES ("@,
            10,
        ),
        lines_up(
            INSERT_SIMILARITY_PAIR_SQL@,
            "INSERT INTO cross_project_similarities"@,
            "project_name_b"@,
            "VALUES ("@,
            11,
        ),
        lines_up(
            INSERT_SIMILARITY_PAIR_SQL@,
            "INSERT INTO cross_project_similarities"@,
            "language"@,
            "VALUES ("@,
            12,
        ),
        says(INSERT_SIMILARITY_PAIR_SQL@, "ON CONFLICT (chunk_id_a, chunk_id_b) DO UPDATE SET"@),
{
    reveal_strlit(
        "INSERT INTO cross_project_similarities
                (chunk_id_a, file_id_a, project_id_a, chunk_id_b, file_id_b, project_id_b,
                 chunk_similarity, path_a, path_b, project_name_a, project_name_b, language)
             VALUES ($1, $2, $3, $4, $5, $6, $7, $8, $9, $10, $11, $12)
             ON CONFLICT (chunk_id_a, chunk_id_b) DO UPDATE SET
                chunk_similarity = GREATEST(cross_project_similarities.chunk_similarity, EXCLUDED.chunk_similarity)",
    );
    reveal_strlit("INSERT INTO cross_project_similarities");
    reveal_strlit("ON CONFLICT (chunk_id_a, chunk_id_b) DO UPDATE SET");
    reveal_strlit("VALUES (");
    reveal_strlit("chunk_id_a");
    reveal_strlit("chunk_id_b");
    reveal_strlit("chunk_similarity");
    reveal_strlit("file_id_a");
    reveal_strlit("file_id_b");
    reveal_strlit("language");
    reveal_strlit("path_a");
    reveal_strlit("path_b");
    reveal_strlit("project_id_a");
    reveal_strlit("project_id_b");
    reveal_strlit("project_name_a");
    reveal_strlit("project_name_b");
    let t = INSERT_SIMILARITY_PAIR_SQL@;
    assert(part_at(t, 0, "INSERT INTO cross_project_similarities"@));
    reveal_with_fuel(past, 19);
    reveal_with_fuel(past_blanks, 19);
    assert(past(t, 38, '(') == 56);
    assert(item(t, 56, 0) == 56);
    assert(item(t, 56, 1) == 68);
    assert(item(t, 56, 2) == 79);
    assert(item(t, 56, 3) == 93);
    assert(item(t, 56, 4) == 105);
    assert(item(t, 56, 5) == 116);
    assert(item(t, 56, 6) == 147);
    assert(item(t, 56, 7) == 165);
    assert(item(t, 56, 8) == 173);
    assert(item(t, 56, 9) == 181);
    assert(item(t, 56, 10) == 197);
    assert(item(t, 56, 11) == 213);
    assert(item(t, 244, 0) == 244);
    assert(item(t, 244, 1) == 248);
    assert(item(t, 244, 2) == 252);
    assert(item(t, 244, 3) == 256);
    assert(item(t, 244, 4) == 260);
    assert(item(t, 244, 5) == 264);
    assert(item(t, 244, 6) == 268);
    assert(item(t, 244, 7) == 272);
    assert(item(t, 244, 8) == 276);
    assert(item(t, 244, 9) == 280);
    assert(item(t, 244, 10) == 285);
    assert(item(t, 244, 11) == 290);
    assert(lined_up_at(
        t,
        "INSERT INTO cross_project_similarities"@,
        "chunk_id_a"@,
        "VALUES ("@,
        1,
        0,
        236,
        0,
    ));
    assert(lined_up_at(
        t,
        "INSERT INTO cross_project_similarities"@,
        "file_id_a"@,
        "VALUES ("@,
        2,
        0,
        236,
        1,
    ));
    assert(lined_up_at(
        t,
        "INSERT INTO cross_project_similarities"@,
        "project_id_a"@,
        "VALUES ("@,
        3,
        0,
        236,
        2,
    ));
    assert(lined_up_at(
        t,
        "INSERT INTO cross_project_similarities"@,
        "chunk_id_b"@,
        "VALUES ("@,
        4,
        0,
        236,
        3,
    ));
    assert(lined_up_at(
        t,
        "INSERT INTO cross_project_similarities"@,
        "file_id_b"@,
        "VALUES ("@,
        5,
        0,
        236,
        4,
    ));
    assert(lined_up_at(
        t,
        "INSERT INTO cross_project_similarities"@,
        "project_id_b"@,
        "VALUES ("@,
        6,
        0,
        236,
        5,
    ));
    assert(lined_up_at(
        t,
        "INSERT INTO cross_project_similarities"@,
        "chunk_similarity"@,
        "VALUES ("@,
        7,
        0,
        236,
        6,
    ));
    assert(lined_up_at(
        t,
        "INSERT INTO cross_project_similarities"@,
        "path_a"@,
        "VALUES ("@,
        8,
        0,
        236,
        7,
    ));
    assert(lined_up_at(
        t,
        "INSERT INTO cross_project_similarities"@,
        "path_b"@,
        "VALUES ("@,
        9,
        0,
        236,
        8,
    ));
    assert(lined_up_at(
        t,
        "INSERT INTO cross_project_similarities"@,
        "project_name_a"@,
        "VALUES ("@,
        10,
        0,
        236,
        9,
    ));
    assert(lined_up_at(
        t,
        "INSERT INTO cross_project_similarities"@,
        "project_name_b"@,
        "VALUES ("@,
        11,
        0,
        236,
        10,
    ));
    assert(lined_up_at(
        t,
        "INSERT INTO cross_project_similarities"@,
        "language"@,
        "VALUES ("@,
        12,
        0,
        236,
        11,
    ));
    assert(part_at(t, 308, "ON CONFLICT (chunk_id_a, chunk_id_b) DO UPDATE SET"@));
}

/// What the text of [`CLEAR_SIMILARITY_TABLE_SQL`] says.
pub proof fn clear_similarity_table_text()
    ensures
        opens(CLEAR_SIMILARITY_TABLE_SQL@, "TRUNCATE cross_project_similarities"@),
{
    reveal_strlit(
        "TRUNCATE cross_project_similarities",
    );
    reveal_strlit("TRUNCATE cross_project_similarities");
    let t = CLEAR_SIMILARITY_TABLE_SQL@;
    assert(part_at(t, 0, "TRUNCATE cross_project_similarities"@));
}

/// What the text of [`COUNT_SIMILARITY_PAIRS_SQL`] says.
pub proof fn count_similarity_pairs_text()
    ensures
        opens(COUNT_SIMILARITY_PAIRS_SQL@, "SELECT COUNT(*) FROM cross_project_similarities"@),
{
    reveal_strlit(
        "SELECT COUNT(*) FROM cross_project_similarities",
    );
    reveal_strlit("SELECT COUNT(*) FROM cross_project_similarities");
    let t = COUNT_SIMILARITY_PAIRS_SQL@;
    assert(part_at(t, 0, "SELECT COUNT(*) FROM cross_project_similarities"@));
}

/// What the text of [`TOP_SIMILAR_FILE_PAIRS_SQL`] says.
#[verifier::rlimit(50)]
pub proof fn top_similar_file_pairs_text()
    ensures
        opens(TOP_SIMILAR_FILE_PAIRS_SQL@, "SELECT"@),
        mentions(TOP_SIMILAR_FILE_PAIRS_SQL@, "LIMIT "@, 1),
        says(TOP_SIMILAR_FILE_PAIRS_SQL@, "GROUP BY s.file_id_a, s.path_a, s.project_name_a"@),
        says(TOP_SIMILAR_FILE_PAIRS_SQL@, "ORDER BY avg_similarity DESC"@),
        says(TOP_SIMILAR_FILE_PAIRS_SQL@, "FROM cross_project_similarities"@),
{
    reveal_strlit(
        "SELECT s.file_id_a, s.path_a, s.project_name_a,
                s.file_id_b, s.path_b, s.project_name_b,
                s.language,
                AVG(s.chunk_similarity) as avg_similarity,
                MAX(s.chunk_similarity) as max_similarity,
                COUNT(*) as matching_chunks
         FROM cross_project_similarities s
         GROUP BY s.file_id_a, s.path_a, s.project_name_a,
                  s.file_id_b, s.path_b, s.project_name_b, s.language
         ORDER BY avg_similarity DESC
         LIMIT $1",
    );
    reveal_strlit("FROM cross_project_similarities");
    reveal_strlit("GROUP BY s.file_id_a, s.path_a, s.project_name_a");
    reveal_strlit("LIMIT ");
    reveal_strlit("ORDER BY avg_similarity DESC");
    reveal_strlit("SELECT");
    let t = TOP_SIMILAR_FILE_PAIRS_SQL@;
    assert(part_at(t, 0, "SELECT"@));
    assert(part_at(t, 514, "LIMIT "@));
    assert(part_at(t, 347, "GROUP BY s.file_id_a, s.path_a, s.project_name_a"@));
    assert(part_at(t, 476, "ORDER BY avg_similarity DESC"@));
    assert(part_at(t, 304, "FROM cross_project_similarities"@));
}

/// What the text of [`MAX_CHUNK_ID_SQL`] says.
pub proof fn max_chunk_id_text()
    ensures
        opens(MAX_CHUNK_ID_SQL@, "SELECT"@),
        says(MAX_CHUNK_ID_SQL@, "FROM file_chunks"@),
{
    reveal_strlit(
        "SELECT MAX(id) FROM file_chunks",
    );
    reveal_strlit("FROM file_chunks");
    reveal_strlit("SELECT");
    let t = MAX_CHUNK_ID_SQL@;
    assert(part_at(t, 0, "SELECT"@));
    assert(part_at(t, 15, "FROM file_chunks"@));
}

/// What the text of [`DUPLICATES_BY_LANGUAGE_SQL`] says.
#[verifier::rlimit(100)]
pub proof fn duplicates_by_language_text()
    ensures
        opens(DUPLICATES_BY_LANGUAGE_SQL@, "SELECT"@),
        mentions(DUPLICATES_BY_LANGUAGE_SQL@, "s.chunk_similarity >= "@, 1),
        mentions(DUPLICATES_BY_LANGUAGE_SQL@, "LIMIT "@, 2),
        mentions(DUPLICATES_BY_LANGUAGE_SQL@, "s.language = "@, 3),
        mentions(DUPLICATES_BY_LANGUAGE_SQL@, "AND ("@, 4),
        says(DUPLICATES_BY_LANGUAGE_SQL@, "AND s.project_id_a != s.project_id_b"@),
        says(DUPLICATES_BY_LANGUAGE_SQL@, "WHERE pa.id = s.project_id_a"@),
        says(DUPLICATES_BY_LANGUAGE_SQL@, "AND pb.id = s.project_id_b"@),
        says(
            DUPLICATES_BY_LANGUAGE_SQL@,
            "GROUP BY s.file_id_a, s.path_a, s.project_name_a, s.project_id_a"@,
        ),
        says(DUPLICATES_BY_LANGUAGE_SQL@, "ORDER BY avg_similarity DESC"@),
        says(DUPLICATES_BY_LANGUAGE_SQL@, "FROM cross_project_similarities"@),
{
    reveal_strlit(
        "SELECT s.file_id_a, s.path_a, s.project_name_a, s.project_id_a,
                    s.file_id_b, s.path_b, s.project_name_b, s.project_id_b,
                    s.language,
                    AVG(s.chunk_similarity) as avg_similarity,
                    MAX(s.chunk_similarity) as max_similarity,
                    COUNT(*) as matching_chunks
             FROM cross_project_similarities s
             WHERE s.chunk_similarity >= $1
               AND s.language = $3
               AND s.project_id_a != s.project_id_b
               AND ($4 OR NOT EXISTS (
        SELECT 1 FROM projects pa, projects pb
        WHERE pa.id = s.project_id_a
          AND pb.id = s.project_id_b
          AND (
              (pa.git_common_dir IS NOT NULL AND pa.git_common_dir = pb.git_common_dir)
              OR
              (pa.git_root_commits IS NOT NULL AND pa.git_root_commits = pb.git_root_commits)
          )
    ))
             GROUP BY s.file_id_a, s.path_a, s.project_name_a, s.project_id_a,
                      s.file_id_b, s.path_b, s.project_name_b, s.project_id_b,
                      s.language
             HAVING AVG(s.chunk_similarity) >= $1
             ORDER BY avg_similarity DESC
             LIMIT $2",
    );
    reveal_strlit("AND (");
    reveal_strlit("AND pb.id = s.project_id_b");
    reveal_strlit("AND s.project_id_a != s.project_id_b");
    reveal_strlit("FROM cross_project_similarities");
    reveal_strlit("GROUP BY s.file_id_a, s.path_a, s.project_name_a, s.project_id_a");
    reveal_strlit("LIMIT ");
    reveal_strlit("ORDER BY avg_similarity DESC");
    reveal_strlit("SELECT");
    reveal_strlit("WHERE pa.id = s.project_id_a");
    reveal_strlit("s.chunk_similarity >= ");
    reveal_strlit("s.language = ");
    let t = DUPLICATES_BY_LANGUAGE_SQL@;
    assert(part_at(t, 0, "SELECT"@));
    assert(part_at(t, 413, "s.chunk_similarity >= "@));
    assert(part_at(t, 1215, "LIMIT "@));
    assert(part_at(t, 457, "s.language = "@));
    assert(part_at(t, 540, "AND ("@));
    assert(part_at(t, 488, "AND s.project_id_a != s.project_id_b"@));
    assert(part_at(t, 619, "WHERE pa.id = s.project_id_a"@));
    assert(part_at(t, 658, "AND pb.id = s.project_id_b"@));
    assert(part_at(t, 932, "GROUP BY s.file_id_a, s.path_a, s.project_name_a, s.project_id_a"@));
    assert(part_at(t, 1173, "ORDER BY avg_similarity DESC"@));
    assert(part_at(t, 360, "FROM cross_project_similarities"@));
}

/// What the text of [`DUPLICATES_SQL`] says.
#[verifier::rlimit(50)]
pub proof fn duplicates_text()
    ensures
        opens(DUPLICATES_SQL@, "SELECT"@),
        mentions(DUPLICATES_SQL@, "s.chunk_similarity >= "@, 1),
        mentions(DUPLICATES_SQL@, "LIMIT "@, 2),
        mentions(DUPLICATES_SQL@, "AND ("@, 3),
        says(DUPLICATES_SQL@, "AND s.project_id_a != s.project_id_b"@),
        says(DUPLICATES_SQL@, "WHERE pa.id = s.project_id_a"@),
        says(DUPLICATES_SQL@, "AND pb.id = s.project_id_b"@),
        says(DUPLICATES_SQL@, "GROUP BY s.file_id_a, s.path_a, s.project_name_a, s.project_id_a"@),
        says(DUPLICATES_SQL@, "ORDER BY avg_similarity DESC"@),
        says(DUPLICATES_SQL@, "FROM cross_project_similarities"@),
{
    reveal_strlit(
        "SELECT s.file_id_a, s.path_a, s.project_name_a, s.project_id_a,
                    s.file_id_b, s.path_b, s.project_name_b, s.project_id_b,
                    s.language,
                    AVG(s.chunk_similarity) as avg_similarity,
                    MAX(s.chunk_similarity) as max_similarity,
                    COUNT(*) as matching_chunks
             FROM cross_project_similarities s
             WHERE s.chunk_similarity >= $1
               AND s.project_id_a != s.project_id_b
               AND ($3 OR NOT EXISTS (
        SELECT 1 FROM projects pa, projects pb
        WHERE pa.id = s.project_id_a
          AND pb.id = s.project_id_b
          AND (
              (pa.git_common_dir IS NOT NULL AND pa.git_common_dir = pb.git_common_dir)
              OR
              (pa.git_root_commits IS NOT NULL AND pa.git_root_commits = pb.git_root_commits)
          )
    ))
             GROUP BY s.file_id_a, s.path_a, s.project_name_a, s.project_id_a,
                      s.file_id_b, s.path_b, s.project_name_b, s.project_id_b,
                      s.language
             HAVING AVG(s.chunk_similarity) >= $1
             ORDER BY avg_similarity DESC
             LIMIT $2",
    );
    reveal_strlit("AND (");
    reveal_strlit("AND pb.id = s.project_id_b");
    reveal_strlit("AND s.project_id_a != s.project_id_b");
    reveal_strlit("FROM cross_project_similarities");
    reveal_strlit("GROUP BY s.file_id_a, s.path_a, s.project_name_a, s.project_id_a");
    reveal_strlit("LIMIT ");
    reveal_strlit("ORDER BY avg_similarity DESC");
    reveal_strlit("SELECT");
    reveal_strlit("WHERE pa.id = s.project_id_a");
    reveal_strlit("s.chunk_similarity >= ");
    let t = DUPLICATES_SQL@;
    assert(part_at(t, 0, "SELECT"@));
    assert(part_at(t, 413, "s.chunk_similarity >= "@));
    assert(part_at(t, 1180, "LIMIT "@));
    assert(part_at(t, 505, "AND ("@));
    assert(part_at(t, 453, "AND s.project_id_a != s.project_id_b"@));
    assert(part_at(t, 584, "WHERE pa.id = s.project_id_a"@));
    assert(part_at(t, 623, "AND pb.id = s.project_id_b"@));
    assert(part_at(t, 897, "GROUP BY s.file_id_a, s.path_a, s.project_name_a, s.project_id_a"@));
    assert(part_at(t, 1138, "ORDER BY avg_similarity DESC"@));
    assert(part_at(t, 360, "FROM cross_project_similarities"@));
}

/// What the text of [`FIND_CHUNK_SIMILARITY_PAIRS_SQL`] says.
#[verifier::rlimit(50)]
pub proof fn find_chunk_similarity_pairs_text()
    ensures
        opens(FIND_CHUNK_SIMILARITY_PAIRS_SQL@, "SELECT"@),
        mentions(FIND_CHUNK_SIMILARITY_PAIRS_SQL@, "s.chunk_similarity >= "@, 1),
        mentions(FIND_CHUNK_SIMILARITY_PAIRS_SQL@, "s.language = "@, 2),
        mentions(FIND_CHUNK_SIMILARITY_PAIRS_SQL@, "s.project_id_a = ANY("@, 3),
        mentions(FIND_CHUNK_SIMILARITY_PAIRS_SQL@, "s.project_name_a = "@, 4),
        mentions(FIND_CHUNK_SIMILARITY_PAIRS_SQL@, "AND ("@, 5),
        mentions(FIND_CHUNK_SIMILARITY_PAIRS_SQL@, "LIMIT "@, 6),
        says(FIND_CHUNK_SIMILARITY_PAIRS_SQL@, "AND s.project_id_a != s.project_id_b"@),
        says(FIND_CHUNK_SIMILARITY_PAIRS_SQL@, "WHERE pa.id = s.project_id_a"@),
        says(FIND_CHUNK_SIMILARITY_PAIRS_SQL@, "AND pb.id = s.project_id_b"@),
        says(
            FIND_CHUNK_SIMILARITY_PAIRS_SQL@,
            "ORDER BY s.chunk_similarity DESC, s.chunk_id_a ASC, s.chunk_id_b ASC"@,
        ),
        says(FIND_CHUNK_SIMILARITY_PAIRS_SQL@, "FROM cross_project_similarities"@),
{
    reveal_strlit(
        "SELECT s.chunk_id_a, s.chunk_id_b,
                s.file_id_a, s.file_id_b,
                s.path_a, s.path_b,
                s.project_id_a, s.project_id_b,
                s.project_name_a, s.project_name_b,
                s.language,
                s.chunk_similarity AS similarity
         FROM cross_project_similarities s
         WHERE s.chunk_similarity >= $1
           AND s.project_id_a != s.project_id_b
           AND ($2::text IS NULL OR s.language = $2)
           AND (cardinality($3::int[]) = 0
                OR (s.project_id_a = ANY($3) AND s.project_id_b = ANY($3)))
           AND ($4::text IS NULL OR s.project_name_a = $4 OR s.project_name_b = $4)
           AND ($5 OR NOT EXISTS (
                   SELECT 1 FROM projects pa, projects pb
                   WHERE pa.id = s.project_id_a
                     AND pb.id = s.project_id_b
                     AND ((pa.git_common_dir IS NOT NULL AND pa.git_common_dir = pb.git_common_dir)
                          OR (pa.git_root_commits IS NOT NULL AND pa.git_root_commits = pb.git_root_commits))
                ))
         ORDER BY s.chunk_similarity DESC, s.chunk_id_a ASC, s.chunk_id_b ASC
         LIMIT $6",
    );
    reveal_strlit("AND (");
    reveal_strlit("AND pb.id = s.project_id_b");
    reveal_strlit("AND s.project_id_a != s.project_id_b");
    reveal_strlit("FROM cross_project_similarities");
    reveal_strlit("LIMIT ");
    reveal_strlit("ORDER BY s.chunk_similarity DESC, s.chunk_id_a ASC, s.chunk_id_b ASC");
    reveal_strlit("SELECT");
    reveal_strlit("WHERE pa.id = s.project_id_a");
    reveal_strlit("s.chunk_similarity >= ");
    reveal_strlit("s.language = ");
    reveal_strlit("s.project_id_a = ANY(");
    reveal_strlit("s.project_name_a = ");
    let t = FIND_CHUNK_SIMILARITY_PAIRS_SQL@;
    assert(part_at(t, 0, "SELECT"@));
    assert(part_at(t, 348, "s.chunk_similarity >= "@));
    assert(part_at(t, 457, "s.language = "@));
    assert(part_at(t, 537, "s.project_id_a = ANY("@));
    assert(part_at(t, 629, "s.project_name_a = "@));
    assert(part_at(t, 688, "AND ("@));
    assert(part_at(t, 1182, "LIMIT "@));
    assert(part_at(t, 384, "AND s.project_id_a != s.project_id_b"@));
    assert(part_at(t, 789, "WHERE pa.id = s.project_id_a"@));
    assert(part_at(t, 839, "AND pb.id = s.project_id_b"@));
    assert(part_at(
        t,
        1104,
        "ORDER BY s.chunk_similarity DESC, s.chunk_id_a ASC, s.chunk_id_b ASC"@,
    ));
    assert(part_at(t, 299, "FROM cross_project_similarities"@));
}

/// What the text of [`FIND_PATTERN_ABSTRACTION_PAIRS_SQL`] says.
#[verifier::rlimit(100)]
pub proof fn find_pattern_abstraction_pairs_text()
    ensures
        opens(FIND_PATTERN_ABSTRACTION_PAIRS_SQL@, "SELECT"@),
        mentions(FIND_PATTERN_ABSTRACTION_PAIRS_SQL@, "s.chunk_similarity >= "@, 1),
        mentions(FIND_PATTERN_ABSTRACTION_PAIRS_SQL@, "s.chunk_similarity < "@, 2),
        mentions(FIND_PATTERN_ABSTRACTION_PAIRS_SQL@, "cta_a.membership_score >= "@, 3),
        mentions(FIND_PATTERN_ABSTRACTION_PAIRS_SQL@, "s.language = "@, 4),
        mentions(FIND_PATTERN_ABSTRACTION_PAIRS_SQL@, "s.project_id_a = ANY("@, 5),
        mentions(FIND_PATTERN_ABSTRACTION_PAIRS_SQL@, "s.project_name_a = "@, 6),
        mentions(FIND_PATTERN_ABSTRACTION_PAIRS_SQL@, "AND ("@, 7),
        mentions(FIND_PATTERN_ABSTRACTION_PAIRS_SQL@, "LIMIT "@, 8),
        says(FIND_PATTERN_ABSTRACTION_PAIRS_SQL@, "AND cta_b.topic_id = cta_a.topic_id"@),
        says(FIND_PATTERN_ABSTRACTION_PAIRS_SQL@, "AND s.project_id_a != s.project_id_b"@),
        says(FIND_PATTERN_ABSTRACTION_PAIRS_SQL@, "WHERE pa.id = s.project_id_a"@),
        says(FIND_PATTERN_ABSTRACTION_PAIRS_SQL@, "AND pb.id = s.project_id_b"@),
        says(
            FIND_PATTERN_ABSTRACTION_PAIRS_SQL@,
            "ORDER BY cta_a.topic_id, s.chunk_similarity DESC, s.chunk_id_a ASC, s.chunk_id_b ASC"@,
        ),
        says(FIND_PATTERN_ABSTRACTION_PAIRS_SQL@, "FROM cross_project_similarities"@),
        says(
            FIND_PATTERN_ABSTRACTION_PAIRS_SQL@,
            "JOIN chunk_topic_assignments cta_a ON cta_a.chunk_id = s.chunk_id_a"@,
        ),
        says(
            FIND_PATTERN_ABSTRACTION_PAIRS_SQL@,
            "JOIN chunk_topic_assignments cta_b ON cta_b.chunk_id = s.chunk_id_b"@,
        ),
        says(FIND_PATTERN_ABSTRACTION_PAIRS_SQL@, "JOIN code_topics ct ON ct.id = cta_a.topic_id"@),
{
    reveal_strlit(
        "SELECT s.chunk_id_a, s.chunk_id_b,
                s.file_id_a, s.file_id_b,
                s.path_a, s.path_b,
                s.project_id_a, s.project_id_b,
                s.project_name_a, s.project_name_b,
                s.language,
                s.chunk_similarity AS similarity,
                cta_a.topic_id,
                ct.label AS topic_label,
                ct.keywords AS topic_keywords,
                cta_a.membership_score AS membership_a,
                cta_b.membership_score AS membership_b
         FROM cross_project_similarities s
         JOIN chunk_topic_assignments cta_a ON cta_a.chunk_id = s.chunk_id_a
         JOIN chunk_topic_assignments cta_b ON cta_b.chunk_id = s.chunk_id_b
                                            AND cta_b.topic_id = cta_a.topic_id
         JOIN code_topics ct ON ct.id = cta_a.topic_id
         WHERE s.chunk_similarity >= $1 AND s.chunk_similarity < $2
           AND s.project_id_a != s.project_id_b
           AND cta_a.membership_score >= $3
           AND cta_b.membership_score >= $3
           AND ($4::text IS NULL OR s.language = $4)
           AND (cardinality($5::int[]) = 0
                OR (s.project_id_a = ANY($5) AND s.project_id_b = ANY($5)))
           AND ($6::text IS NULL OR s.project_name_a = $6 OR s.project_name_b = $6)
           AND ($7 OR NOT EXISTS (
                   SELECT 1 FROM projects pa, projects pb
                   WHERE pa.id = s.project_id_a
                     AND pb.id = s.project_id_b
                     AND ((pa.git_common_dir IS NOT NULL AND pa.git_common_dir = pb.git_common_dir)
                          OR (pa.git_root_commits IS NOT NULL AND pa.git_root_commits = pb.git_root_commits))
                ))
         ORDER BY cta_a.topic_id, s.chunk_similarity DESC, s.chunk_id_a ASC, s.chunk_id_b ASC
         LIMIT $8",
    );
    reveal_strlit("AND (");
    reveal_strlit("AND cta_b.topic_id = cta_a.topic_id");
    reveal_strlit("AND pb.id = s.project_id_b");
    reveal_strlit("AND s.project_id_a != s.project_id_b");
    reveal_strlit("FROM cross_project_similarities");
    reveal_strlit("JOIN chunk_topic_assignments cta_a ON cta_a.chunk_id = s.chunk_id_a");
    reveal_strlit("JOIN chunk_topic_assignments cta_b ON cta_b.chunk_id = s.chunk_id_b");
    reveal_strlit("JOIN code_topics ct ON ct.id = cta_a.topic_id");
    reveal_strlit("LIMIT ");
    reveal_strlit("ORDER BY cta_a.topic_id, s.chunk_similarity DESC, s.chunk_id_a ASC, s.chunk_id_b ASC");
    reveal_strlit("SELECT");
    reveal_strlit("WHERE pa.id = s.project_id_a");
    reveal_strlit("cta_a.membership_score >= ");
    reveal_strlit("s.chunk_similarity < ");
    reveal_strlit("s.chunk_similarity >= ");
    reveal_strlit("s.language = ");
    reveal_strlit("s.project_id_a = ANY(");
    reveal_strlit("s.project_name_a = ");
    let t = FIND_PATTERN_ABSTRACTION_PAIRS_SQL@;
    assert(part_at(t, 0, "SELECT"@));
    assert(part_at(t, 869, "s.chunk_similarity >= "@));
    assert(part_at(t, 898, "s.chunk_similarity < "@));
    assert(part_at(t, 985, "cta_a.membership_score >= "@));
    assert(part_at(t, 1094, "s.language = "@));
    assert(part_at(t, 1174, "s.project_id_a = ANY("@));
    assert(part_at(t, 1266, "s.project_name_a = "@));
    assert(part_at(t, 1325, "AND ("@));
    assert(part_at(t, 1835, "LIMIT "@));
    assert(part_at(t, 763, "AND cta_b.topic_id = cta_a.topic_id"@));
    assert(part_at(t, 933, "AND s.project_id_a != s.project_id_b"@));
    assert(part_at(t, 1426, "WHERE pa.id = s.project_id_a"@));
    assert(part_at(t, 1476, "AND pb.id = s.project_id_b"@));
    assert(part_at(
        t,
        1741,
        "ORDER BY cta_a.topic_id, s.chunk_similarity DESC, s.chunk_id_a ASC, s.chunk_id_b ASC"@,
    ));
    assert(part_at(t, 531, "FROM cross_project_similarities"@));
    assert(part_at(t, 574, "JOIN chunk_topic_assignments cta_a ON cta_a.chunk_id = s.chunk_id_a"@));
    assert(part_at(t, 651, "JOIN chunk_topic_assignments cta_b ON cta_b.chunk_id = s.chunk_id_b"@));
    assert(part_at(t, 808, "JOIN code_topics ct ON ct.id = cta_a.topic_id"@));
}

/// What the text of [`COMPARE_FILES_1`] says.
pub proof fn compare_files_1_text()
    ensures
        opens(COMPARE_FILES_1@, "SELECT"@),
        ends_plainly(COMPARE_FILES_1@),
{
    reveal_strlit(
        "SELECT ca.id as chunk_id_a, ca.content as content_a,
                ca.start_line as start_line_a, ca.end_line as end_line_a,
                cb.id as chunk_id_b, cb.content as content_b,
                cb.start_line as start_line_b, cb.end_line as end_line_b,
                1 - (ca.",
    );
    reveal_strlit("SELECT");
    let t = COMPARE_FILES_1@;
    assert(part_at(t, 0, "SELECT"@));
}

/// What the text of [`COMPARE_FILES_2`] says.
pub proof fn compare_files_2_text()
    ensures
        ends_plainly(COMPARE_FILES_2@),
{
    reveal_strlit(
        " <=> cb.",
    );
    let t = COMPARE_FILES_2@;
}

/// What the text of [`COMPARE_FILES_3`] says.
pub proof fn compare_files_3_text()
    ensures
        mentions(COMPARE_FILES_3@, "ca.file_id = "@, 1),
        mentions(COMPARE_FILES_3@, "cb.file_id = "@, 2),
        says(COMPARE_FILES_3@, "ORDER BY similarity DESC"@),
        says(COMPARE_FILES_3@, "FROM file_chunks"@),
        says(COMPARE_FILES_3@, "JOIN file_chunks cb"@),
        ends_plainly(COMPARE_FILES_3@),
{
    reveal_strlit(
        ") as similarity
         FROM file_chunks ca
         CROSS JOIN file_chunks cb
         WHERE ca.file_id = $1 AND cb.file_id = $2
         ORDER BY similarity DESC",
    );
    reveal_strlit("FROM file_chunks");
    reveal_strlit("JOIN file_chunks cb");
    reveal_strlit("ORDER BY similarity DESC");
    reveal_strlit("ca.file_id = ");
    reveal_strlit("cb.file_id = ");
    let t = COMPARE_FILES_3@;
    assert(part_at(t, 95, "ca.file_id = "@));
    assert(part_at(t, 115, "cb.file_id = "@));
    assert(part_at(t, 140, "ORDER BY similarity DESC"@));
    assert(part_at(t, 25, "FROM file_chunks"@));
    assert(part_at(t, 60, "JOIN file_chunks cb"@));
}

/// What the text of [`COMPARE_WITHIN_1`] says.
pub proof fn compare_within_1_text()
    ensures
        opens(COMPARE_WITHIN_1@, "SELECT"@),
        ends_plainly(COMPARE_WITHIN_1@),
{
    reveal_strlit(
        "SELECT ca.id AS chunk_id_a, ca.content AS content_a,
                ca.start_line AS start_line_a, ca.end_line AS end_line_a,
                cb.id AS chunk_id_b, cb.content AS content_b,
                cb.start_line AS start_line_b, cb.end_line AS end_line_b,
                1 - (ca.",
    );
    reveal_strlit("SELECT");
    let t = COMPARE_WITHIN_1@;
    assert(part_at(t, 0, "SELECT"@));
}

/// What the text of [`COMPARE_WITHIN_2`] says.
pub proof fn compare_within_2_text()
    ensures
        ends_plainly(COMPARE_WITHIN_2@),
{
    reveal_strlit(
        " <=> cb.",
    );
    let t = COMPARE_WITHIN_2@;
}

/// What the text of [`COMPARE_WITHIN_3`] says.
pub proof fn compare_within_3_text()
    ensures
        mentions(COMPARE_WITHIN_3@, "ca.file_id = "@, 1),
        says(COMPARE_WITHIN_3@, "AND 1 - (ca."@),
        says(COMPARE_WITHIN_3@, "FROM file_chunks"@),
        says(COMPARE_WITHIN_3@, "JOIN file_chunks cb"@),
        ends_plainly(COMPARE_WITHIN_3@),
{
    reveal_strlit(
        ") AS similarity
         FROM file_chunks ca
         JOIN file_chunks cb
              ON ca.file_id = cb.file_id AND ca.id < cb.id
         WHERE ca.file_id = $1
           AND 1 - (ca.",
    );
    reveal_strlit("AND 1 - (ca.");
    reveal_strlit("FROM file_chunks");
    reveal_strlit("JOIN file_chunks cb");
    reveal_strlit("ca.file_id = ");
    let t = COMPARE_WITHIN_3@;
    assert(part_at(t, 148, "ca.file_id = "@));
    assert(part_at(t, 175, "AND 1 - (ca."@));
    assert(part_at(t, 25, "FROM file_chunks"@));
    assert(part_at(t, 54, "JOIN file_chunks cb"@));
}

/// What the text of [`COMPARE_WITHIN_4`] says.
pub proof fn compare_within_4_text()
    ensures
        ends_plainly(COMPARE_WITHIN_4@),
{
    reveal_strlit(
        " <=> cb.",
    );
    let t = COMPARE_WITHIN_4@;
}

/// What the text of [`COMPARE_WITHIN_5`] says.
pub proof fn compare_within_5_text()
    ensures
        mentions(COMPARE_WITHIN_5@, ") >= "@, 2),
        says(COMPARE_WITHIN_5@, "ORDER BY similarity DESC"@),
        ends_plainly(COMPARE_WITHIN_5@),
{
    reveal_strlit(
        ") >= $2
         ORDER BY similarity DESC",
    );
    reveal_strlit(") >= ");
    reveal_strlit("ORDER BY similarity DESC");
    let t = COMPARE_WITHIN_5@;
    assert(part_at(t, 0, ") >= "@));
    assert(part_at(t, 17, "ORDER BY similarity DESC"@));
}

/// What the text of [`CROSS_PROJECT_NEIGHBORS_1`] says.
pub proof fn cross_project_neighbors_1_text()
    ensures
        opens(CROSS_PROJECT_NEIGHBORS_1@, "WITH"@),
        ends_plainly(CROSS_PROJECT_NEIGHBORS_1@),
{
    reveal_strlit(
        "WITH batch AS (
            SELECT c.id, c.file_id, c.",
    );
    reveal_strlit("WITH");
    let t = CROSS_PROJECT_NEIGHBORS_1@;
    assert(part_at(t, 0, "WITH"@));
}

/// What the text of [`CROSS_PROJECT_NEIGHBORS_2`] says.
#[verifier::rlimit(50)]
pub proof fn cross_project_neighbors_2_text()
    ensures
        mentions(CROSS_PROJECT_NEIGHBORS_2@, "c.id > "@, 1),
        mentions(CROSS_PROJECT_NEIGHBORS_2@, "LIMIT "@, 2),
        says(CROSS_PROJECT_NEIGHBORS_2@, "ORDER BY c.id"@),
        says(CROSS_PROJECT_NEIGHBORS_2@, "FROM file_chunks"@),
        says(CROSS_PROJECT_NEIGHBORS_2@, "JOIN indexed_files f ON f.id = c.file_id"@),
        says(CROSS_PROJECT_NEIGHBORS_2@, "JOIN projects p ON p.id = f.project_id"@),
        says(CROSS_PROJECT_NEIGHBORS_2@, "CROSS JOIN LATERAL ("@),
        ends_plainly(CROSS_PROJECT_NEIGHBORS_2@),
{
    reveal_strlit(
        " AS embedding, f.project_id, f.path, f.language,
                   p.name as project_name,
                   p.git_common_dir as git_common_dir_b,
                   p.git_root_commits as git_root_commits_b
            FROM file_chunks c
            JOIN indexed_files f ON f.id = c.file_id
            JOIN projects p ON p.id = f.project_id
            WHERE c.id > $1
            ORDER BY c.id
            LIMIT $2
        )
        SELECT b.id as chunk_id_a, b.file_id as file_id_a, b.project_id as project_id_a,
               b.path as path_a, b.project_name as project_name_a, b.language,
               nn.chunk_id_b, nn.file_id_b, nn.project_id_b, nn.path_b, nn.project_name_b,
               nn.similarity
        FROM batch b
        CROSS JOIN LATERAL (
            SELECT c2.id as chunk_id_b, c2.file_id as file_id_b, f2.project_id as project_id_b,
                   f2.path as path_b, p2.name as project_name_b,
                   1 - (c2.",
    );
    reveal_strlit("CROSS JOIN LATERAL (");
    reveal_strlit("FROM file_chunks");
    reveal_strlit("JOIN indexed_files f ON f.id = c.file_id");
    reveal_strlit("JOIN projects p ON p.id = f.project_id");
    reveal_strlit("LIMIT ");
    reveal_strlit("ORDER BY c.id");
    reveal_strlit("c.id > ");
    let t = CROSS_PROJECT_NEIGHBORS_2@;
    assert(part_at(t, 362, "c.id > "@));
    assert(part_at(t, 410, "LIMIT "@));
    assert(part_at(t, 384, "ORDER BY c.id"@));
    assert(part_at(t, 221, "FROM file_chunks"@));
    assert(part_at(t, 252, "JOIN indexed_files f ON f.id = c.file_id"@));
    assert(part_at(t, 305, "JOIN projects p ON p.id = f.project_id"@));
    assert(part_at(t, 746, "CROSS JOIN LATERAL ("@));
}

/// What the text of [`CROSS_PROJECT_NEIGHBORS_3`] says.
#[verifier::rlimit(50)]
pub proof fn cross_project_neighbors_3_text()
    ensures
        says(CROSS_PROJECT_NEIGHBORS_3@, "WHERE f2.project_id != b.project_id"@),
        says(CROSS_PROJECT_NEIGHBORS_3@, "AND p2.git_common_dir = b.git_common_dir_b"@),
        says(CROSS_PROJECT_NEIGHBORS_3@, "AND p2.git_root_commits = b.git_root_commits_b"@),
        says(CROSS_PROJECT_NEIGHBORS_3@, "ORDER BY c2."@),
        says(CROSS_PROJECT_NEIGHBORS_3@, "FROM file_chunks"@),
        says(CROSS_PROJECT_NEIGHBORS_3@, "JOIN indexed_files f2 ON f2.id = c2.file_id"@),
        says(CROSS_PROJECT_NEIGHBORS_3@, "JOIN projects p2 ON p2.id = f2.project_id"@),
        ends_plainly(CROSS_PROJECT_NEIGHBORS_3@),
{
    reveal_strlit(
        " <=> b.embedding) as similarity
            FROM file_chunks c2
            JOIN indexed_files f2 ON f2.id = c2.file_id
            JOIN projects p2 ON p2.id = f2.project_id
            WHERE f2.project_id != b.project_id
              AND NOT (
                  p2.git_common_dir IS NOT NULL
                  AND p2.git_common_dir = b.git_common_dir_b
              )
              AND NOT (
                  p2.git_root_commits IS NOT NULL
                  AND p2.git_root_commits = b.git_root_commits_b
              )
            ORDER BY c2.",
    );
    reveal_strlit("AND p2.git_common_dir = b.git_common_dir_b");
    reveal_strlit("AND p2.git_root_commits = b.git_root_commits_b");
    reveal_strlit("FROM file_chunks");
    reveal_strlit("JOIN indexed_files f2 ON f2.id = c2.file_id");
    reveal_strlit("JOIN projects p2 ON p2.id = f2.project_id");
    reveal_strlit("ORDER BY c2.");
    reveal_strlit("WHERE f2.project_id != b.project_id");
    let t = CROSS_PROJECT_NEIGHBORS_3@;
    assert(part_at(t, 186, "WHERE f2.project_id != b.project_id"@));
    assert(part_at(t, 312, "AND p2.git_common_dir = b.git_common_dir_b"@));
    assert(part_at(t, 463, "AND p2.git_root_commits = b.git_root_commits_b"@));
    assert(part_at(t, 538, "ORDER BY c2."@));
    assert(part_at(t, 44, "FROM file_chunks"@));
    assert(part_at(t, 76, "JOIN indexed_files f2 ON f2.id = c2.file_id"@));
    assert(part_at(t, 132, "JOIN projects p2 ON p2.id = f2.project_id"@));
}

/// What the text of [`CROSS_PROJECT_NEIGHBORS_4`] says.
pub proof fn cross_project_neighbors_4_text()
    ensures
        mentions(CROSS_PROJECT_NEIGHBORS_4@, "LIMIT "@, 3),
        mentions(CROSS_PROJECT_NEIGHBORS_4@, "nn.similarity >= "@, 4),
{
    reveal_strlit(
        " <=> b.embedding
            LIMIT $3
        ) nn
        WHERE nn.similarity >= $4",
    );
    reveal_strlit("LIMIT ");
    reveal_strlit("nn.similarity >= ");
    let t = CROSS_PROJECT_NEIGHBORS_4@;
    assert(part_at(t, 29, "LIMIT "@));
    assert(part_at(t, 65, "nn.similarity >= "@));
}

/// What the text of [`SAME_REPO_1`] says.
pub proof fn same_repo_1_text()
    ensures
        ends_plainly(SAME_REPO_1@),
{
    reveal_strlit(
        "(",
    );
    let t = SAME_REPO_1@;
}

/// What the text of [`SAME_REPO_2`] says.
#[verifier::rlimit(50)]
pub proof fn same_repo_2_text()
    ensures
        mentions(SAME_REPO_2@, "seed.id = "@, 1),
        says(SAME_REPO_2@, "AND pa.id = seed.project_id"@),
        says(SAME_REPO_2@, "FROM projects"@),
        opens(SAME_REPO_2@, " OR NOT EXISTS ("@),
        ends_plainly(SAME_REPO_2@),
{
    reveal_strlit(
        " OR NOT EXISTS (
            SELECT 1 FROM projects pa, projects pb, indexed_files seed
            WHERE seed.id = $1
              AND pa.id = seed.project_id
              AND pb.id = (CASE WHEN s.file_id_a = $1 THEN s.project_id_b ELSE s.project_id_a END)
              AND (
                  (pa.git_common_dir IS NOT NULL AND pa.git_common_dir = pb.git_common_dir)
                  OR
                  (pa.git_root_commits IS NOT NULL AND pa.git_root_commits = pb.git_root_commits)
              )
         ))",
    );
    reveal_strlit("AND pa.id = seed.project_id");
    reveal_strlit("FROM projects");
    reveal_strlit("seed.id = ");
    reveal_strlit(" OR NOT EXISTS (");
    let t = SAME_REPO_2@;
    assert(part_at(t, 0, " OR NOT EXISTS ("@));
    assert(part_at(t, 106, "seed.id = "@));
    assert(part_at(t, 133, "AND pa.id = seed.project_id"@));
    assert(part_at(t, 38, "FROM projects"@));
}

/// What the text of [`SIMILAR_FILES_IN_PROJECT_1`] says.
#[verifier::rlimit(50)]
pub proof fn similar_files_in_project_1_text()
    ensures
        opens(SIMILAR_FILES_IN_PROJECT_1@, "SELECT"@),
        mentions(SIMILAR_FILES_IN_PROJECT_1@, "s.file_id_a = "@, 1),
        mentions(SIMILAR_FILES_IN_PROJECT_1@, "s.chunk_similarity >= "@, 2),
        mentions(SIMILAR_FILES_IN_PROJECT_1@, "END) = "@, 4),
        says(SIMILAR_FILES_IN_PROJECT_1@, "FROM cross_project_similarities"@),
        ends_plainly(SIMILAR_FILES_IN_PROJECT_1@),
{
    reveal_strlit(
        "SELECT
                CASE WHEN s.file_id_a = $1 THEN s.file_id_a ELSE s.file_id_b END as file_id_a,
                CASE WHEN s.file_id_a = $1 THEN s.path_a ELSE s.path_b END as path_a,
                CASE WHEN s.file_id_a = $1 THEN s.project_name_a ELSE s.project_name_b END as project_name_a,
                CASE WHEN s.file_id_a = $1 THEN s.file_id_b ELSE s.file_id_a END as file_id_b,
                CASE WHEN s.file_id_a = $1 THEN s.path_b ELSE s.path_a END as path_b,
                CASE WHEN s.file_id_a = $1 THEN s.project_name_b ELSE s.project_name_a END as project_name_b,
                s.language,
                AVG(s.chunk_similarity) as avg_similarity,
                MAX(s.chunk_similarity) as max_similarity,
                COUNT(*) as matching_chunks
             FROM cross_project_similarities s
             WHERE (s.file_id_a = $1 OR s.file_id_b = $1)
               AND s.chunk_similarity >= $2
               AND (CASE WHEN s.file_id_a = $1 THEN s.project_name_b ELSE s.project_name_a END) = $4
               AND ",
    );
    reveal_strlit("END) = ");
    reveal_strlit("FROM cross_project_similarities");
    reveal_strlit("SELECT");
    reveal_strlit("s.chunk_similarity >= ");
    reveal_strlit("s.file_id_a = ");
    let t = SIMILAR_FILES_IN_PROJECT_1@;
    assert(part_at(t, 0, "SELECT"@));
    assert(part_at(t, 33, "s.file_id_a = "@));
    assert(part_at(t, 903, "s.chunk_similarity >= "@));
    assert(part_at(t, 1019, "END) = "@));
    assert(part_at(t, 792, "FROM cross_project_similarities"@));
}

/// What the text of [`SIMILAR_FILES_IN_PROJECT_2`] says.
pub proof fn similar_files_in_project_2_text()
    ensures
        mentions(SIMILAR_FILES_IN_PROJECT_2@, "LIMIT "@, 3),
        says(
            SIMILAR_FILES_IN_PROJECT_2@,
            "GROUP BY file_id_a, path_a, project_name_a, file_id_b, path_b, project_name_b, s.language"@,
        ),
        says(SIMILAR_FILES_IN_PROJECT_2@, "ORDER BY avg_similarity DESC"@),
{
    reveal_strlit(
        "
             GROUP BY file_id_a, path_a, project_name_a, file_id_b, path_b, project_name_b, s.language
             ORDER BY avg_similarity DESC
             LIMIT $3",
    );
    reveal_strlit("GROUP BY file_id_a, path_a, project_name_a, file_id_b, path_b, project_name_b, s.language");
    reveal_strlit("LIMIT ");
    reveal_strlit("ORDER BY avg_similarity DESC");
    let t = SIMILAR_FILES_IN_PROJECT_2@;
    assert(part_at(t, 159, "LIMIT "@));
    assert(part_at(
        t,
        14,
        "GROUP BY file_id_a, path_a, project_name_a, file_id_b, path_b, project_name_b, s.language"@,
    ));
    assert(part_at(t, 117, "ORDER BY avg_similarity DESC"@));
}

/// What the text of [`SIMILAR_FILES_1`] says.
#[verifier::rlimit(50)]
pub proof fn similar_files_1_text()
    ensures
        opens(SIMILAR_FILES_1@, "SELECT"@),
        mentions(SIMILAR_FILES_1@, "s.file_id_a = "@, 1),
        mentions(SIMILAR_FILES_1@, "s.chunk_similarity >= "@, 2),
        says(SIMILAR_FILES_1@, "FROM cross_project_similarities"@),
        ends_plainly(SIMILAR_FILES_1@),
{
    reveal_strlit(
        "SELECT
                CASE WHEN s.file_id_a = $1 THEN s.file_id_a ELSE s.file_id_b END as file_id_a,
                CASE WHEN s.file_id_a = $1 THEN s.path_a ELSE s.path_b END as path_a,
                CASE WHEN s.file_id_a = $1 THEN s.project_name_a ELSE s.project_name_b END as project_name_a,
                CASE WHEN s.file_id_a = $1 THEN s.file_id_b ELSE s.file_id_a END as file_id_b,
                CASE WHEN s.file_id_a = $1 THEN s.path_b ELSE s.path_a END as path_b,
                CASE WHEN s.file_id_a = $1 THEN s.project_name_b ELSE s.project_name_a END as project_name_b,
                s.language,
                AVG(s.chunk_similarity) as avg_similarity,
                MAX(s.chunk_similarity) as max_similarity,
                COUNT(*) as matching_chunks
             FROM cross_project_similarities s
             WHERE (s.file_id_a = $1 OR s.file_id_b = $1)
               AND s.chunk_similarity >= $2
               AND ",
    );
    reveal_strlit("FROM cross_project_similarities");
    reveal_strlit("SELECT");
    reveal_strlit("s.chunk_similarity >= ");
    reveal_strlit("s.file_id_a = ");
    let t = SIMILAR_FILES_1@;
    assert(part_at(t, 0, "SELECT"@));
    assert(part_at(t, 33, "s.file_id_a = "@));
    assert(part_at(t, 903, "s.chunk_similarity >= "@));
    assert(part_at(t, 792, "FROM cross_project_similarities"@));
}

/// What the text of [`SIMILAR_FILES_2`] says.
pub proof fn similar_files_2_text()
    ensures
        mentions(SIMILAR_FILES_2@, "LIMIT "@, 3),
        says(
            SIMILAR_FILES_2@,
            "GROUP BY file_id_a, path_a, project_name_a, file_id_b, path_b, project_name_b, s.language"@,
        ),
        says(SIMILAR_FILES_2@, "ORDER BY avg_similarity DESC"@),
{
    reveal_strlit(
        "
             GROUP BY file_id_a, path_a, project_name_a, file_id_b, path_b, project_name_b, s.language
             ORDER BY avg_similarity DESC
             LIMIT $3",
    );
    reveal_strlit("GROUP BY file_id_a, path_a, project_name_a, file_id_b, path_b, project_name_b, s.language");
    reveal_strlit("LIMIT ");
    reveal_strlit("ORDER BY avg_similarity DESC");
    let t = SIMILAR_FILES_2@;
    assert(part_at(t, 159, "LIMIT "@));
    assert(part_at(
        t,
        14,
        "GROUP BY file_id_a, path_a, project_name_a, file_id_b, path_b, project_name_b, s.language"@,
    ));
    assert(part_at(t, 117, "ORDER BY avg_similarity DESC"@));
}

/// Each argument of [`stores_pair`] is what the text names in its place.
pub proof fn law_stores_pair_stands_for_its_values(p: PairView)
    ensures
        opens(stores_pair(p).sql, "INSERT INTO cross_project_similarities"@),
        fills(
            stores_pair(p),
            "INSERT INTO cross_project_similarities"@,
            "chunk_id_a"@,
            "VALUES ("@,
            BindView::BigInt(p.a.chunk_id),
        ),
        fills(
            stores_pair(p),
            "INSERT INTO cross_project_similarities"@,
            "file_id_a"@,
            "VALUES ("@,
            BindView::BigInt(p.a.file_id),
        ),
        fills(
            stores_pair(p),
            "INSERT INTO cross_project_similarities"@,
            "project_id_a"@,
            "VALUES ("@,
            BindView::Int(p.a.project_id),
        ),
        fills(
            stores_pair(p),
            "INSERT INTO cross_project_similarities"@,
            "chunk_id_b"@,
            "VALUES ("@,
            BindView::BigInt(p.b.chunk_id),
        ),
        fills(
            stores_pair(p),
            "INSERT INTO cross_project_similarities"@,
            "file_id_b"@,
            "VALUES ("@,
            BindView::BigInt(p.b.file_id),
        ),
        fills(
            stores_pair(p),
            "INSERT INTO cross_project_similarities"@,
            "project_id_b"@,
            "VALUES ("@,
            BindView::Int(p.b.project_id),
        ),
        fills(
            stores_pair(p),
            "INSERT INTO cross_project_similarities"@,
            "chunk_similarity"@,
            "VALUES ("@,
            BindView::Supplied(0),
        ),
        fills(
            stores_pair(p),
            "INSERT INTO cross_project_similarities"@,
            "path_a"@,
            "VALUES ("@,
            BindView::Text(p.a.path),
        ),
        fills(
            stores_pair(p),
            "INSERT INTO cross_project_similarities"@,
            "path_b"@,
            "VALUES ("@,
            BindView::Text(p.b.path),
        ),
        fills(
            stores_pair(p),
            "INSERT INTO cross_project_similarities"@,
            "project_name_a"@,
            "VALUES ("@,
            BindView::Text(p.a.project_name),
        ),
        fills(
            stores_pair(p),
            "INSERT INTO cross_project_similarities"@,
            "project_name_b"@,
            "VALUES ("@,
            BindView::Text(p.b.project_name),
        ),
        fills(
            stores_pair(p),
            "INSERT INTO cross_project_similarities"@,
            "language"@,
            "VALUES ("@,
            BindView::Text(p.language),
        ),
        says(stores_pair(p).sql, "ON CONFLICT (chunk_id_a, chunk_id_b) DO UPDATE SET"@),
{
    insert_similarity_pair_text();
    assert(stores_pair(p).sql == INSERT_SIMILARITY_PAIR_SQL@);
}

#[verifier::rlimit(100)]
proof fn duplicates_lacks()
    ensures
        !says(DUPLICATES_SQL@, "s.language = "@),
        DUPLICATES_SQL@.len() > 0,
        DUPLICATES_SQL@[0] == 'S',
{
    reveal_strlit(
        "SELECT s.file_id_a, s.path_a, s.project_name_a, s.project_id_a,
                    s.file_id_b, s.path_b, s.project_name_b, s.project_id_b,
                    s.language,
                    AVG(s.chunk_similarity) as avg_similarity,
                    MAX(s.chunk_similarity) as max_similarity,
                    COUNT(*) as matching_chunks
             FROM cross_project_similarities s
             WHERE s.chunk_similarity >= $1
               AND s.project_id_a != s.project_id_b
               AND ($3 OR NOT EXISTS (
        SELECT 1 FROM projects pa, projects pb
        WHERE pa.id = s.project_id_a
          AND pb.id = s.project_id_b
          AND (
              (pa.git_common_dir IS NOT NULL AND pa.git_common_dir = pb.git_common_dir)
              OR
              (pa.git_root_commits IS NOT NULL AND pa.git_root_commits = pb.git_root_commits)
          )
    ))
             GROUP BY s.file_id_a, s.path_a, s.project_name_a, s.project_id_a,
                      s.file_id_b, s.path_b, s.project_name_b, s.project_id_b,
                      s.language
             HAVING AVG(s.chunk_similarity) >= $1
             ORDER BY avg_similarity DESC
             LIMIT $2",
    );
    reveal_strlit("s.language = ");
    assert(nowhere(DUPLICATES_SQL@, "s.language = "@, 0, 1188)) by {
        reveal_with_fuel(nowhere, 12);
        reveal_with_fuel(differs, 11);
    }
    lemma_nowhere(DUPLICATES_SQL@, "s.language = "@);
}

/// Where a language is given, duplicates are asked for in that language and no
/// other; else there is no condition on it.
pub proof fn law_duplicates_are_of_the_language(
    language: Option<Seq<char>>,
    limit: i32,
    include_same_repo: bool,
)
    ensures
        language is Some ==> opens(
            duplicates_query(language, limit, include_same_repo).sql,
            "SELECT"@,
        ),
        language is Some ==> takes(
            duplicates_query(language, limit, include_same_repo),
            "s.chunk_similarity >= "@,
            BindView::Supplied(0),
        ),
        language is Some ==> takes(
            duplicates_query(language, limit, include_same_repo),
            "LIMIT "@,
            BindView::Int(limit),
        ),
        language is Some ==> takes(
            duplicates_query(language, limit, include_same_repo),
            "s.language = "@,
            BindView::Text(language->0),
        ),
        language is Some ==> takes(
            duplicates_query(language, limit, include_same_repo),
            "AND ("@,
            BindView::Bool(include_same_repo),
        ),
        language is Some ==> says(
            duplicates_query(language, limit, include_same_repo).sql,
            "AND s.project_id_a != s.project_id_b"@,
        ),
        language is Some ==> says(
            duplicates_query(language, limit, include_same_repo).sql,
            "WHERE pa.id = s.project_id_a"@,
        ),
        language is Some ==> says(
            duplicates_query(language, limit, include_same_repo).sql,
            "AND pb.id = s.project_id_b"@,
        ),
        language is Some ==> says(
            duplicates_query(language, limit, include_same_repo).sql,
            "GROUP BY s.file_id_a, s.path_a, s.project_name_a, s.project_id_a"@,
        ),
        language is Some ==> says(
            duplicates_query(language, limit, include_same_repo).sql,
            "ORDER BY avg_similarity DESC"@,
        ),
        language is Some ==> says(
            duplicates_query(language, limit, include_same_repo).sql,
            "FROM cross_project_similarities"@,
        ),
        language is None ==> opens(
            duplicates_query(language, limit, include_same_repo).sql,
            "SELECT"@,
        ),
        language is None ==> takes(
            duplicates_query(language, limit, include_same_repo),
            "s.chunk_similarity >= "@,
            BindView::Supplied(0),
        ),
        language is None ==> takes(
            duplicates_query(language, limit, include_same_repo),
            "LIMIT "@,
            BindView::Int(limit),
        ),
        language is None ==> takes(
            duplicates_query(language, limit, include_same_repo),
            "AND ("@,
            BindView::Bool(include_same_repo),
        ),
        language is None ==> says(
            duplicates_query(language, limit, include_same_repo).sql,
            "AND s.project_id_a != s.project_id_b"@,
        ),
        language is None ==> says(
            duplicates_query(language, limit, include_same_repo).sql,
            "WHERE pa.id = s.project_id_a"@,
        ),
        language is None ==> says(
            duplicates_query(language, limit, include_same_repo).sql,
            "AND pb.id = s.project_id_b"@,
        ),
        language is None ==> says(
            duplicates_query(language, limit, include_same_repo).sql,
            "GROUP BY s.file_id_a, s.path_a, s.project_name_a, s.project_id_a"@,
        ),
        language is None ==> says(
            duplicates_query(language, limit, include_same_repo).sql,
            "ORDER BY avg_similarity DESC"@,
        ),
        language is None ==> says(
            duplicates_query(language, limit, include_same_repo).sql,
            "FROM cross_project_similarities"@,
        ),
        language is None ==> !says(duplicates_query(language, limit, include_same_repo).sql, "s.language = "@),
{
    duplicates_lacks();
    if language is Some {
        duplicates_by_language_text();
        assert(duplicates_query(language, limit, include_same_repo).sql == DUPLICATES_BY_LANGUAGE_SQL@);
    }
    if language is None {
        duplicates_text();
        assert(duplicates_query(language, limit, include_same_repo).sql == DUPLICATES_SQL@);
    }
}

/// Duplicates in two languages are asked for by two statements.
pub proof fn law_duplicates_differ_by_language(
    a: Option<Seq<char>>,
    b: Option<Seq<char>>,
    limit: i32,
    include_same_repo: bool,
)
    requires
        a != b,
    ensures
        duplicates_query(a, limit, include_same_repo) != duplicates_query(
            b,
            limit,
            include_same_repo,
        ),
{
    let x = duplicates_query(a, limit, include_same_repo);
    let y = duplicates_query(b, limit, include_same_repo);
    if a is Some && b is Some {
        assert(x.binds[2] == BindView::Text(a->0));
        assert(y.binds[2] == BindView::Text(b->0));
    } else if a is Some {
        assert(x.binds.len() == 4 && y.binds.len() == 3);
    } else {
        assert(x.binds.len() == 3 && y.binds.len() == 4);
    }
}

/// Files similar to a file are those paired with it, in the project that is given,
/// if one is.
#[verifier::rlimit(100)]
pub proof fn law_similar_files_keep_what_is_asked_for(
    file_id: i64,
    limit: i32,
    target_project: Option<Seq<char>>,
    include_same_repo: bool,
)
    ensures
        target_project is Some ==> opens(
            similar_files_query(file_id, limit, target_project, include_same_repo).sql,
            "SELECT"@,
        ),
        target_project is Some ==> takes(
            similar_files_query(file_id, limit, target_project, include_same_repo),
            "s.file_id_a = "@,
            BindView::BigInt(file_id),
        ),
        target_project is Some ==> takes(
            similar_files_query(file_id, limit, target_project, include_same_repo),
            "s.chunk_similarity >= "@,
            BindView::Supplied(0),
        ),
        target_project is Some ==> takes(
            similar_files_query(file_id, limit, target_project, include_same_repo),
            "END) = "@,
            BindView::Text(target_project->0),
        ),
        target_project is Some ==> says(
            similar_files_query(file_id, limit, target_project, include_same_repo).sql,
            "FROM cross_project_similarities"@,
        ),
        target_project is Some ==> takes(
            similar_files_query(file_id, limit, target_project, include_same_repo),
            "seed.id = "@,
            BindView::BigInt(file_id),
        ),
        target_project is Some ==> says(
            similar_files_query(file_id, limit, target_project, include_same_repo).sql,
            "AND pa.id = seed.project_id"@,
        ),
        target_project is Some ==> says(
            similar_files_query(file_id, limit, target_project, include_same_repo).sql,
            "FROM projects"@,
        ),
        target_project is Some ==> takes(
            similar_files_query(file_id, limit, target_project, include_same_repo),
            "LIMIT "@,
            BindView::Int(limit),
        ),
        target_project is Some ==> says(
            similar_files_query(file_id, limit, target_project, include_same_repo).sql,
            "GROUP BY file_id_a, path_a, project_name_a, file_id_b, path_b, project_name_b, s.language"@,
        ),
        target_project is Some ==> says(
            similar_files_query(file_id, limit, target_project, include_same_repo).sql,
            "ORDER BY avg_similarity DESC"@,
        ),
        target_project is None ==> opens(
            similar_files_query(file_id, limit, target_project, include_same_repo).sql,
            "SELECT"@,
        ),
        target_project is None ==> takes(
            similar_files_query(file_id, limit, target_project, include_same_repo),
            "s.file_id_a = "@,
            BindView::BigInt(file_id),
        ),
        target_project is None ==> takes(
            similar_files_query(file_id, limit, target_project, include_same_repo),
            "s.chunk_similarity >= "@,
            BindView::Supplied(0),
        ),
        target_project is None ==> says(
            similar_files_query(file_id, limit, target_project, include_same_repo).sql,
            "FROM cross_project_similarities"@,
        ),
        target_project is None ==> takes(
            similar_files_query(file_id, limit, target_project, include_same_repo),
            "seed.id = "@,
            BindView::BigInt(file_id),
        ),
        target_project is None ==> says(
            similar_files_query(file_id, limit, target_project, include_same_repo).sql,
            "AND pa.id = seed.project_id"@,
        ),
        target_project is None ==> says(
            similar_files_query(file_id, limit, target_project, include_same_repo).sql,
            "FROM projects"@,
        ),
        target_project is None ==> takes(
            similar_files_query(file_id, limit, target_project, include_same_repo),
            "LIMIT "@,
            BindView::Int(limit),
        ),
        target_project is None ==> says(
            similar_files_query(file_id, limit, target_project, include_same_repo).sql,
            "GROUP BY file_id_a, path_a, project_name_a, file_id_b, path_b, project_name_b, s.language"@,
        ),
        target_project is None ==> says(
            similar_files_query(file_id, limit, target_project, include_same_repo).sql,
            "ORDER BY avg_similarity DESC"@,
        ),
{
    if target_project is Some {
        let st = similar_files_query(file_id, limit, target_project, include_same_repo);
        similar_files_in_project_1_text();
        same_repo_1_text();
        same_repo_2_text();
        similar_files_in_project_2_text();
        assert(st.sql =~= SIMILAR_FILES_IN_PROJECT_1@ + (SAME_REPO_1@ + "$5"@ + SAME_REPO_2@ + SIMILAR_FILES_IN_PROJECT_2@));
        lemma_within(
            st.sql,
            seq![],
            SIMILAR_FILES_IN_PROJECT_1@,
            SAME_REPO_1@ + "$5"@ + SAME_REPO_2@ + SIMILAR_FILES_IN_PROJECT_2@,
        );
        assert(st.sql =~= (SIMILAR_FILES_IN_PROJECT_1@ + SAME_REPO_1@ + "$5"@) + SAME_REPO_2@ + (SIMILAR_FILES_IN_PROJECT_2@));
        lemma_within(
            st.sql,
            SIMILAR_FILES_IN_PROJECT_1@ + SAME_REPO_1@ + "$5"@,
            SAME_REPO_2@,
            SIMILAR_FILES_IN_PROJECT_2@,
        );
        assert(st.sql =~= (SIMILAR_FILES_IN_PROJECT_1@ + SAME_REPO_1@ + "$5"@ + SAME_REPO_2@) + SIMILAR_FILES_IN_PROJECT_2@);
        lemma_within(
            st.sql,
            SIMILAR_FILES_IN_PROJECT_1@ + SAME_REPO_1@ + "$5"@ + SAME_REPO_2@,
            SIMILAR_FILES_IN_PROJECT_2@,
            seq![],
        );
    }
    if target_project is None {
        let st = similar_files_query(file_id, limit, target_project, include_same_repo);
        similar_files_1_text();
        same_repo_1_text();
        same_repo_2_text();
        similar_files_2_text();
        assert(st.sql =~= SIMILAR_FILES_1@ + (SAME_REPO_1@ + "$4"@ + SAME_REPO_2@ + SIMILAR_FILES_2@));
        lemma_within(
            st.sql,
            seq![],
            SIMILAR_FILES_1@,
            SAME_REPO_1@ + "$4"@ + SAME_REPO_2@ + SIMILAR_FILES_2@,
        );
        assert(st.sql =~= (SIMILAR_FILES_1@ + SAME_REPO_1@ + "$4"@) + SAME_REPO_2@ + (SIMILAR_FILES_2@));
        lemma_within(
            st.sql,
            SIMILAR_FILES_1@ + SAME_REPO_1@ + "$4"@,
            SAME_REPO_2@,
            SIMILAR_FILES_2@,
        );
        assert(st.sql =~= (SIMILAR_FILES_1@ + SAME_REPO_1@ + "$4"@ + SAME_REPO_2@) + SIMILAR_FILES_2@);
        lemma_within(
            st.sql,
            SIMILAR_FILES_1@ + SAME_REPO_1@ + "$4"@ + SAME_REPO_2@,
            SIMILAR_FILES_2@,
            seq![],
        );
    }
}

/// A clause that drops pairs within one repository asks first for its flag.
pub proof fn same_repo_flag_text(sql: Seq<char>, head: Seq<char>, flag: Seq<char>, tail: Seq<char>, n: nat)
    requires
        sql == head + (SAME_REPO_1@ + flag + SAME_REPO_2@) + tail,
        n < 10,
        flag.len() == 2,
        flag[0] == '$',
        flag[1] == digit(n as int),
    ensures
        mentions(sql, "("@, n),
{
    same_repo_2_text();
    reveal_strlit("(");
    reveal_strlit(" OR NOT EXISTS (");
    let i = head.len() as int;
    let rest = SAME_REPO_2@;
    assert(rest.subrange(0, 16)[0] == rest[0]);
    assert(sql[i] == '(');
    assert(sql[i + 1] == '$');
    assert(sql[i + 2] == flag[1]);
    assert(sql[i + 3] == rest[0]);
    assert(part_at(sql, i, "("@));
}

/// Files of the same repository as the seed are listed only where the flag
/// says so: the clause that drops them starts with the flag.
pub proof fn law_files_of_the_same_repository_need_the_flag(
    file_id: i64,
    limit: i32,
    target_project: Option<Seq<char>>,
    include_same_repo: bool,
)
    ensures
        takes(
            similar_files_query(file_id, limit, target_project, include_same_repo),
            "("@,
            BindView::Bool(include_same_repo),
        ),
        says(
            similar_files_query(file_id, limit, target_project, include_same_repo).sql,
            " OR NOT EXISTS ("@,
        ),
{
    let st = similar_files_query(file_id, limit, target_project, include_same_repo);
    same_repo_2_text();
    reveal_strlit("$5");
    reveal_strlit("$4");
    let (head, flag, tail) = if target_project is Some {
        (SIMILAR_FILES_IN_PROJECT_1@, "$5"@, SIMILAR_FILES_IN_PROJECT_2@)
    } else {
        (SIMILAR_FILES_1@, "$4"@, SIMILAR_FILES_2@)
    };
    assert(st.sql == head + (SAME_REPO_1@ + flag + SAME_REPO_2@) + tail);
    if target_project is Some {
        same_repo_flag_text(st.sql, head, flag, tail, 5);
    } else {
        same_repo_flag_text(st.sql, head, flag, tail, 4);
    }
    let before = head + SAME_REPO_1@ + flag;
    assert(st.sql =~= before + SAME_REPO_2@ + tail);
    lemma_within(st.sql, before, SAME_REPO_2@, tail);
    assert(says(SAME_REPO_2@, " OR NOT EXISTS ("@));
}

} // verus!
