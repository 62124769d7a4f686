//! Which statements are answered with rows, and what the tags of the others say.

use vstd::prelude::*;

use crate::command::{beginning, is_non_query, tag_for, CommandTagView};

verus! {

proof fn lemma_letters(upper: Seq<char>, words: &str)
    ensures
        words@.is_prefix_of(upper) ==> words@.len() <= upper.len() && forall|k: int|
            0 <= k < words@.len() ==> upper[k] == #[trigger] words@[k],
{
    if words@.is_prefix_of(upper) {
        assert forall|k: int| 0 <= k < words@.len() implies upper[k] == #[trigger] words@[k] by {
            assert(upper.subrange(0, words@.len() as int)[k] == upper[k]);
        }
    }
}

/// A statement with columns is answered with its rows unless its capitals begin with the
/// words of one of the five for which a dummy query is prepared.
pub proof fn dummy_queries_are_these_five(upper: Seq<char>)
    ensures
        is_non_query(upper) <==> "COPY"@.is_prefix_of(upper) || "CREATE SCHEMA"@.is_prefix_of(upper)
            || "DROP SCHEMA"@.is_prefix_of(upper) || "REFRESH MATERIALIZED VIEW"@.is_prefix_of(
            upper,
        ) || "COMMENT"@.is_prefix_of(upper),
{
}

/// So a statement that reads or changes rows, and one that shows a setting, is answered
/// with the rows it yields.
pub proof fn rows_are_sent_for_reads_and_changes(upper: Seq<char>)
    requires
        "SELECT"@.is_prefix_of(upper) || "WITH"@.is_prefix_of(upper)
            || "VALUES"@.is_prefix_of(upper)
            || "INSERT"@.is_prefix_of(upper) || "UPDATE"@.is_prefix_of(upper)
            || "DELETE"@.is_prefix_of(upper) || "SHOW"@.is_prefix_of(upper)
            || "EXPLAIN"@.is_prefix_of(upper),
    ensures
        !is_non_query(upper),
{
    reveal_strlit("SELECT");
    reveal_strlit("WITH");
    reveal_strlit("VALUES");
    reveal_strlit("INSERT");
    reveal_strlit("UPDATE");
    reveal_strlit("DELETE");
    reveal_strlit("SHOW");
    reveal_strlit("EXPLAIN");
    reveal_strlit("COPY");
    reveal_strlit("CREATE SCHEMA");
    reveal_strlit("DROP SCHEMA");
    reveal_strlit("REFRESH MATERIALIZED VIEW");
    reveal_strlit("COMMENT");
    lemma_letters(upper, "SELECT");
    lemma_letters(upper, "WITH");
    lemma_letters(upper, "VALUES");
    lemma_letters(upper, "INSERT");
    lemma_letters(upper, "UPDATE");
    lemma_letters(upper, "DELETE");
    lemma_letters(upper, "SHOW");
    lemma_letters(upper, "EXPLAIN");
    lemma_letters(upper, "COPY");
    lemma_letters(upper, "CREATE SCHEMA");
    lemma_letters(upper, "DROP SCHEMA");
    lemma_letters(upper, "REFRESH MATERIALIZED VIEW");
    lemma_letters(upper, "COMMENT");
    assert("SELECT"@[0] == 'S' && "WITH"@[0] == 'W' && "VALUES"@[0] == 'V');
    assert("INSERT"@[0] == 'I' && "UPDATE"@[0] == 'U' && "SHOW"@[0] == 'S' && "EXPLAIN"@[0] == 'E');
    assert("DELETE"@[0] == 'D' && "DELETE"@[1] == 'E');
    assert("COPY"@[0] == 'C' && "CREATE SCHEMA"@[0] == 'C' && "COMMENT"@[0] == 'C');
    assert("REFRESH MATERIALIZED VIEW"@[0] == 'R');
    assert("DROP SCHEMA"@[0] == 'D' && "DROP SCHEMA"@[1] == 'R');
}

/// The beginning of a text is the text as far as it goes.
pub proof fn the_beginning_is_the_text_so_far(text: Seq<char>, limit: nat, i: int)
    ensures
        text.len() <= limit ==> beginning(text, limit as int) == text,
        text.len() > limit ==> beginning(text, limit as int).len() == limit,
        0 <= i < limit && i < text.len() ==> beginning(text, limit as int)[i] == text[i],
{
    assert(text.len() == limit ==> text.take(limit as int) =~= text);
}

/// A tag names the command that the statement begins with, and gives the number of rows
/// for those that change or copy rows; what begins with none of these words is reported as
/// done.
pub proof fn tags_name_the_command(upper: Seq<char>, n: usize)
    ensures
        "INSERT"@.is_prefix_of(upper) ==> tag_for(upper, n) == (CommandTagView {
            command: "INSERT"@,
            oid: Some(0u32),
            rows: Some(n),
        }),
        "UPDATE"@.is_prefix_of(upper) ==> tag_for(upper, n) == (CommandTagView {
            command: "UPDATE"@,
            oid: None,
            rows: Some(n),
        }),
        "DELETE"@.is_prefix_of(upper) ==> tag_for(upper, n) == (CommandTagView {
            command: "DELETE"@,
            oid: None,
            rows: Some(n),
        }),
        "TRUNCATE"@.is_prefix_of(upper) ==> tag_for(upper, n) == (CommandTagView {
            command: "DELETE"@,
            oid: None,
            rows: Some(n),
        }),
        "COPY"@.is_prefix_of(upper) ==> tag_for(upper, n) == (CommandTagView {
            command: "COPY"@,
            oid: None,
            rows: Some(n),
        }),
        "CREATE VIEW"@.is_prefix_of(upper) ==> tag_for(upper, n) == (CommandTagView {
            command: "CREATE VIEW"@,
            oid: None,
            rows: None,
        }),
        "CREATE INDEX"@.is_prefix_of(upper) ==> tag_for(upper, n) == (CommandTagView {
            command: "CREATE INDEX"@,
            oid: None,
            rows: None,
        }),
        "CREATE SCHEMA"@.is_prefix_of(upper) ==> tag_for(upper, n) == (CommandTagView {
            command: "CREATE SCHEMA"@,
            oid: None,
            rows: None,
        }),
        "CREATE EXTENSION"@.is_prefix_of(upper) ==> tag_for(upper, n) == (CommandTagView {
            command: "CREATE EXTENSION"@,
            oid: None,
            rows: None,
        }),
        "DROP VIEW"@.is_prefix_of(upper) ==> tag_for(upper, n) == (CommandTagView {
            command: "DROP VIEW"@,
            oid: None,
            rows: None,
        }),
        "DROP INDEX"@.is_prefix_of(upper) ==> tag_for(upper, n) == (CommandTagView {
            command: "DROP INDEX"@,
            oid: None,
            rows: None,
        }),
        "DROP SCHEMA"@.is_prefix_of(upper) ==> tag_for(upper, n) == (CommandTagView {
            command: "DROP SCHEMA"@,
            oid: None,
            rows: None,
        }),
        "ALTER"@.is_prefix_of(upper) ==> tag_for(upper, n) == (CommandTagView {
            command: "ALTER TABLE"@,
            oid: None,
            rows: None,
        }),
        "BEGIN"@.is_prefix_of(upper) ==> tag_for(upper, n) == (CommandTagView {
            command: "BEGIN"@,
            oid: None,
            rows: None,
        }),
        "START"@.is_prefix_of(upper) ==> tag_for(upper, n) == (CommandTagView {
            command: "BEGIN"@,
            oid: None,
            rows: None,
        }),
        "COMMIT"@.is_prefix_of(upper) ==> tag_for(upper, n) == (CommandTagView {
            command: "COMMIT"@,
            oid: None,
            rows: None,
        }),
        "ROLLBACK"@.is_prefix_of(upper) ==> tag_for(upper, n) == (CommandTagView {
            command: "ROLLBACK"@,
            oid: None,
            rows: None,
        }),
        "SAVEPOINT"@.is_prefix_of(upper) ==> tag_for(upper, n) == (CommandTagView {
            command: "SAVEPOINT"@,
            oid: None,
            rows: None,
        }),
        "RELEASE"@.is_prefix_of(upper) ==> tag_for(upper, n) == (CommandTagView {
            command: "RELEASE"@,
            oid: None,
            rows: None,
        }),
        "SET"@.is_prefix_of(upper) ==> tag_for(upper, n) == (CommandTagView {
            command: "SET"@,
            oid: None,
            rows: None,
        }),
        "COMMENT"@.is_prefix_of(upper) ==> tag_for(upper, n) == (CommandTagView {
            command: "COMMENT"@,
            oid: None,
            rows: None,
        }),
        "CREATE"@.is_prefix_of(upper) && !"CREATE VIEW"@.is_prefix_of(upper)
            && !"CREATE INDEX"@.is_prefix_of(upper) && !"CREATE SCHEMA"@.is_prefix_of(upper)
            && !"CREATE EXTENSION"@.is_prefix_of(upper) ==> tag_for(upper, n) == (CommandTagView {
            command: "CREATE TABLE"@,
            oid: None,
            rows: None,
        }),
        "DROP"@.is_prefix_of(upper) && !"DROP VIEW"@.is_prefix_of(upper)
            && !"DROP INDEX"@.is_prefix_of(upper)
            && !"DROP SCHEMA"@.is_prefix_of(upper) ==> tag_for(upper, n) == (CommandTagView {
            command: "DROP TABLE"@,
            oid: None,
            rows: None,
        }),
        !"INSERT"@.is_prefix_of(upper)
            && !"UPDATE"@.is_prefix_of(upper)
            && !"DELETE"@.is_prefix_of(upper)
            && !"TRUNCATE"@.is_prefix_of(upper)
            && !"COPY"@.is_prefix_of(upper)
            && !"ALTER"@.is_prefix_of(upper)
            && !"BEGIN"@.is_prefix_of(upper)
            && !"START"@.is_prefix_of(upper)
            && !"COMMIT"@.is_prefix_of(upper)
            && !"ROLLBACK"@.is_prefix_of(upper)
            && !"SAVEPOINT"@.is_prefix_of(upper)
            && !"RELEASE"@.is_prefix_of(upper)
            && !"SET"@.is_prefix_of(upper)
            && !"COMMENT"@.is_prefix_of(upper)
            && !"CREATE"@.is_prefix_of(upper)
            && !"DROP"@.is_prefix_of(upper) ==> tag_for(upper, n) == (CommandTagView {
            command: "OK"@,
            oid: None,
            rows: None,
        }),
{
    reveal_strlit("INSERT");
    reveal_strlit("UPDATE");
    reveal_strlit("DELETE");
    reveal_strlit("TRUNCATE");
    reveal_strlit("COPY");
    reveal_strlit("CREATE VIEW");
    reveal_strlit("CREATE INDEX");
    reveal_strlit("CREATE SCHEMA");
    reveal_strlit("CREATE EXTENSION");
    reveal_strlit("DROP VIEW");
    reveal_strlit("DROP INDEX");
    reveal_strlit("DROP SCHEMA");
    reveal_strlit("ALTER");
    reveal_strlit("BEGIN");
    reveal_strlit("START");
    reveal_strlit("COMMIT");
    reveal_strlit("ROLLBACK");
    reveal_strlit("SAVEPOINT");
    reveal_strlit("RELEASE");
    reveal_strlit("SET");
    reveal_strlit("COMMENT");
    reveal_strlit("CREATE");
    reveal_strlit("DROP");
    lemma_letters(upper, "INSERT");
    lemma_letters(upper, "UPDATE");
    lemma_letters(upper, "DELETE");
    lemma_letters(upper, "TRUNCATE");
    lemma_letters(upper, "COPY");
    lemma_letters(upper, "CREATE VIEW");
    lemma_letters(upper, "CREATE INDEX");
    lemma_letters(upper, "CREATE SCHEMA");
    lemma_letters(upper, "CREATE EXTENSION");
    lemma_letters(upper, "DROP VIEW");
    lemma_letters(upper, "DROP INDEX");
    lemma_letters(upper, "DROP SCHEMA");
    lemma_letters(upper, "ALTER");
    lemma_letters(upper, "BEGIN");
    lemma_letters(upper, "START");
    lemma_letters(upper, "COMMIT");
    lemma_letters(upper, "ROLLBACK");
    lemma_letters(upper, "SAVEPOINT");
    lemma_letters(upper, "RELEASE");
    lemma_letters(upper, "SET");
    lemma_letters(upper, "COMMENT");
    lemma_letters(upper, "CREATE");
    lemma_letters(upper, "DROP");
    assert("INSERT"@[0] == 'I' && "INSERT"@[1] == 'N' && "INSERT"@[2] == 'S'
        && "INSERT"@[3] == 'E' && "INSERT"@[4] == 'R' && "INSERT"@[5] == 'T');
    assert("UPDATE"@[0] == 'U' && "UPDATE"@[1] == 'P' && "UPDATE"@[2] == 'D'
        && "UPDATE"@[3] == 'A' && "UPDATE"@[4] == 'T' && "UPDATE"@[5] == 'E');
    assert("DELETE"@[0] == 'D' && "DELETE"@[1] == 'E' && "DELETE"@[2] == 'L'
        && "DELETE"@[3] == 'E' && "DELETE"@[4] == 'T' && "DELETE"@[5] == 'E');
    assert("TRUNCATE"@[0] == 'T' && "TRUNCATE"@[1] == 'R' && "TRUNCATE"@[2] == 'U'
        && "TRUNCATE"@[3] == 'N' && "TRUNCATE"@[4] == 'C' && "TRUNCATE"@[5] == 'A'
        && "TRUNCATE"@[6] == 'T' && "TRUNCATE"@[7] == 'E');
    assert("COPY"@[0] == 'C' && "COPY"@[1] == 'O' && "COPY"@[2] == 'P' && "COPY"@[3] == 'Y');
    assert("CREATE VIEW"@[0] == 'C' && "CREATE VIEW"@[1] == 'R' && "CREATE VIEW"@[2] == 'E'
        && "CREATE VIEW"@[3] == 'A' && "CREATE VIEW"@[4] == 'T' && "CREATE VIEW"@[5] == 'E'
        && "CREATE VIEW"@[6] == ' ' && "CREATE VIEW"@[7] == 'V');
    assert("CREATE INDEX"@[0] == 'C' && "CREATE INDEX"@[1] == 'R' && "CREATE INDEX"@[2] == 'E'
        && "CREATE INDEX"@[3] == 'A' && "CREATE INDEX"@[4] == 'T' && "CREATE INDEX"@[5] == 'E'
        && "CREATE INDEX"@[6] == ' ' && "CREATE INDEX"@[7] == 'I');
    assert("CREATE SCHEMA"@[0] == 'C' && "CREATE SCHEMA"@[1] == 'R' && "CREATE SCHEMA"@[2] == 'E'
        && "CREATE SCHEMA"@[3] == 'A' && "CREATE SCHEMA"@[4] == 'T' && "CREATE SCHEMA"@[5] == 'E'
        && "CREATE SCHEMA"@[6] == ' ' && "CREATE SCHEMA"@[7] == 'S');
    assert("CREATE EXTENSION"@[0] == 'C' && "CREATE EXTENSION"@[1] == 'R'
        && "CREATE EXTENSION"@[2] == 'E' && "CREATE EXTENSION"@[3] == 'A'
        && "CREATE EXTENSION"@[4] == 'T' && "CREATE EXTENSION"@[5] == 'E'
        && "CREATE EXTENSION"@[6] == ' ' && "CREATE EXTENSION"@[7] == 'E');
    assert("DROP VIEW"@[0] == 'D' && "DROP VIEW"@[1] == 'R' && "DROP VIEW"@[2] == 'O'
        && "DROP VIEW"@[3] == 'P' && "DROP VIEW"@[4] == ' ' && "DROP VIEW"@[5] == 'V'
        && "DROP VIEW"@[6] == 'I' && "DROP VIEW"@[7] == 'E');
    assert("DROP INDEX"@[0] == 'D' && "DROP INDEX"@[1] == 'R' && "DROP INDEX"@[2] == 'O'
        && "DROP INDEX"@[3] == 'P' && "DROP INDEX"@[4] == ' ' && "DROP INDEX"@[5] == 'I'
        && "DROP INDEX"@[6] == 'N' && "DROP INDEX"@[7] == 'D');
    assert("DROP SCHEMA"@[0] == 'D' && "DROP SCHEMA"@[1] == 'R' && "DROP SCHEMA"@[2] == 'O'
        && "DROP SCHEMA"@[3] == 'P' && "DROP SCHEMA"@[4] == ' ' && "DROP SCHEMA"@[5] == 'S'
        && "DROP SCHEMA"@[6] == 'C' && "DROP SCHEMA"@[7] == 'H');
    assert("ALTER"@[0] == 'A' && "ALTER"@[1] == 'L' && "ALTER"@[2] == 'T' && "ALTER"@[3] == 'E'
        && "ALTER"@[4] == 'R');
    assert("BEGIN"@[0] == 'B' && "BEGIN"@[1] == 'E' && "BEGIN"@[2] == 'G' && "BEGIN"@[3] == 'I'
        && "BEGIN"@[4] == 'N');
    assert("START"@[0] == 'S' && "START"@[1] == 'T' && "START"@[2] == 'A' && "START"@[3] == 'R'
        && "START"@[4] == 'T');
    assert("COMMIT"@[0] == 'C' && "COMMIT"@[1] == 'O' && "COMMIT"@[2] == 'M'
        && "COMMIT"@[3] == 'M' && "COMMIT"@[4] == 'I' && "COMMIT"@[5] == 'T');
    assert("ROLLBACK"@[0] == 'R' && "ROLLBACK"@[1] == 'O' && "ROLLBACK"@[2] == 'L'
        && "ROLLBACK"@[3] == 'L' && "ROLLBACK"@[4] == 'B' && "ROLLBACK"@[5] == 'A'
        && "ROLLBACK"@[6] == 'C' && "ROLLBACK"@[7] == 'K');
    assert("SAVEPOINT"@[0] == 'S' && "SAVEPOINT"@[1] == 'A' && "SAVEPOINT"@[2] == 'V'
        && "SAVEPOINT"@[3] == 'E' && "SAVEPOINT"@[4] == 'P' && "SAVEPOINT"@[5] == 'O'
        && "SAVEPOINT"@[6] == 'I' && "SAVEPOINT"@[7] == 'N');
    assert("RELEASE"@[0] == 'R' && "RELEASE"@[1] == 'E' && "RELEASE"@[2] == 'L'
        && "RELEASE"@[3] == 'E' && "RELEASE"@[4] == 'A' && "RELEASE"@[5] == 'S'
        && "RELEASE"@[6] == 'E');
    assert("SET"@[0] == 'S' && "SET"@[1] == 'E' && "SET"@[2] == 'T');
    assert("COMMENT"@[0] == 'C' && "COMMENT"@[1] == 'O' && "COMMENT"@[2] == 'M'
        && "COMMENT"@[3] == 'M' && "COMMENT"@[4] == 'E' && "COMMENT"@[5] == 'N'
        && "COMMENT"@[6] == 'T');
    assert("CREATE"@[0] == 'C' && "CREATE"@[1] == 'R' && "CREATE"@[2] == 'E'
        && "CREATE"@[3] == 'A' && "CREATE"@[4] == 'T' && "CREATE"@[5] == 'E');
    assert("DROP"@[0] == 'D' && "DROP"@[1] == 'R' && "DROP"@[2] == 'O' && "DROP"@[3] == 'P');
}

} // verus!
