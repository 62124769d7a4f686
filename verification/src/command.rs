//! How the server reports that a statement is done.

use vstd::prelude::*;
use vstd::utf8::is_ascii_chars;

use crate::text::{
    ascii_upper, ascii_upper_char, begins_with, capitalises_ascii, chars_of, is_white_space,
    lemma_trim_end, lemma_trim_start, to_uppercase, trim, trim_end, trim_start, trimmed, uppercase,
};

verus! {

/// Whether the capitalised statement `upper` begins with the words `words`.
pub open spec fn begins(upper: Seq<char>, words: &str) -> bool {
    words@.is_prefix_of(upper)
}

/// Whether the capitalised statement `upper` is answered with a command tag
/// though it is prepared as a query.
pub open spec fn is_non_query(upper: Seq<char>) -> bool {
    ||| begins(upper, "COPY")
    ||| begins(upper, "CREATE SCHEMA")
    ||| begins(upper, "DROP SCHEMA")
    ||| begins(upper, "REFRESH MATERIALIZED VIEW")
    ||| begins(upper, "COMMENT")
}

/// Whether a capitalised statement is answered with a command tag though it is
/// prepared as a query.
pub fn capitalised_is_non_query(upper: &str) -> (r: bool)
    ensures
        r == is_non_query(upper@),
        r <==> "COPY"@.is_prefix_of(upper@) || "CREATE SCHEMA"@.is_prefix_of(upper@)
            || "DROP SCHEMA"@.is_prefix_of(upper@) || "REFRESH MATERIALIZED VIEW"@.is_prefix_of(
            upper@,
        ) || "COMMENT"@.is_prefix_of(upper@),
{
    let chars = chars_of(upper);
    begins_with(&chars, "COPY") || begins_with(&chars, "CREATE SCHEMA") || begins_with(
        &chars,
        "DROP SCHEMA",
    ) || begins_with(&chars, "REFRESH MATERIALIZED VIEW") || begins_with(&chars, "COMMENT")
}

/// Statements for which a dummy query is prepared, but which should produce a
/// command tag and not a result set.
pub fn is_pg_non_query(sql: &str) -> (r: bool)
    ensures
        r == is_non_query(uppercase(trimmed(sql@))),
        r <==> ({
            let upper = uppercase(trimmed(sql@));
            "COPY"@.is_prefix_of(upper) || "CREATE SCHEMA"@.is_prefix_of(upper)
                || "DROP SCHEMA"@.is_prefix_of(upper)
                || "REFRESH MATERIALIZED VIEW"@.is_prefix_of(upper)
                || "COMMENT"@.is_prefix_of(upper)
        }),
        is_ascii_chars(trimmed(sql@)) ==> r == is_non_query(ascii_upper(trimmed(sql@))),
        is_ascii_chars(beginning(trimmed(sql@), 25)) ==> r == is_non_query(
            ascii_upper(beginning(trimmed(sql@), 25)),
        ),
{
    let upper = to_uppercase(trim(sql).as_str());
    proof {
        let text = trimmed(sql@);
        if is_ascii_chars(beginning(text, 25)) {
            lemma_ascii_beginning(text, upper@, 25);
            lemma_non_queries_alike(upper@, ascii_upper(beginning(text, 25)));
        }
    }
    capitalised_is_non_query(upper.as_str())
}

/// Whether a prepared statement is run for its effect and answered with a command
/// tag: it yields no columns, or only those of a dummy query.
pub fn is_command(num_columns: usize, sql: &str) -> (r: bool)
    ensures
        r == (num_columns == 0 || is_non_query(uppercase(trimmed(sql@)))),
        r <==> ({
            let upper = uppercase(trimmed(sql@));
            num_columns == 0 || "COPY"@.is_prefix_of(upper) || "CREATE SCHEMA"@.is_prefix_of(upper)
                || "DROP SCHEMA"@.is_prefix_of(upper)
                || "REFRESH MATERIALIZED VIEW"@.is_prefix_of(upper)
                || "COMMENT"@.is_prefix_of(upper)
        }),
        is_ascii_chars(trimmed(sql@)) ==> r == (num_columns == 0 || is_non_query(
            ascii_upper(trimmed(sql@)),
        )),
        is_ascii_chars(beginning(trimmed(sql@), 25)) ==> r == (num_columns == 0 || is_non_query(
            ascii_upper(beginning(trimmed(sql@), 25)),
        )),
{
    num_columns == 0 || is_pg_non_query(sql)
}

/// The tag that tells a client which command was completed, and how many rows it
/// affected where that is of interest.
#[derive(Debug, PartialEq, Eq)]
pub struct CommandTag {
    pub command: String,
    pub oid: Option<u32>,
    pub rows: Option<usize>,
}

/// What a [`CommandTag`] says.
pub struct CommandTagView {
    pub command: Seq<char>,
    pub oid: Option<u32>,
    pub rows: Option<usize>,
}

impl View for CommandTag {
    type V = CommandTagView;

    open spec fn view(&self) -> CommandTagView {
        CommandTagView { command: self.command@, oid: self.oid, rows: self.rows }
    }
}

/// The tag of a command.
pub open spec fn tag(command: Seq<char>, oid: Option<u32>, rows: Option<usize>) -> CommandTagView {
    CommandTagView { command, oid, rows }
}

/// The tag for the capitalised statement `upper`.
pub open spec fn tag_for(upper: Seq<char>, affected_rows: usize) -> CommandTagView {
    if begins(upper, "INSERT") {
        tag("INSERT"@, Some(0), Some(affected_rows))
    } else if begins(upper, "UPDATE") {
        tag("UPDATE"@, None, Some(affected_rows))
    } else if begins(upper, "DELETE") || begins(upper, "TRUNCATE") {
        tag("DELETE"@, None, Some(affected_rows))
    } else if begins(upper, "CREATE VIEW") {
        tag("CREATE VIEW"@, None, None)
    } else if begins(upper, "CREATE INDEX") {
        tag("CREATE INDEX"@, None, None)
    } else if begins(upper, "CREATE SCHEMA") {
        tag("CREATE SCHEMA"@, None, None)
    } else if begins(upper, "CREATE EXTENSION") {
        tag("CREATE EXTENSION"@, None, None)
    } else if begins(upper, "CREATE") {
        tag("CREATE TABLE"@, None, None)
    } else if begins(upper, "DROP VIEW") {
        tag("DROP VIEW"@, None, None)
    } else if begins(upper, "DROP INDEX") {
        tag("DROP INDEX"@, None, None)
    } else if begins(upper, "DROP SCHEMA") {
        tag("DROP SCHEMA"@, None, None)
    } else if begins(upper, "DROP") {
        tag("DROP TABLE"@, None, None)
    } else if begins(upper, "ALTER") {
        tag("ALTER TABLE"@, None, None)
    } else if begins(upper, "BEGIN") || begins(upper, "START") {
        tag("BEGIN"@, None, None)
    } else if begins(upper, "COMMIT") {
        tag("COMMIT"@, None, None)
    } else if begins(upper, "ROLLBACK") {
        tag("ROLLBACK"@, None, None)
    } else if begins(upper, "SAVEPOINT") {
        tag("SAVEPOINT"@, None, None)
    } else if begins(upper, "RELEASE") {
        tag("RELEASE"@, None, None)
    } else if begins(upper, "SET") {
        tag("SET"@, None, None)
    } else if begins(upper, "COPY") {
        tag("COPY"@, None, Some(affected_rows))
    } else if begins(upper, "COMMENT") {
        tag("COMMENT"@, None, None)
    } else {
        tag("OK"@, None, None)
    }
}

proof fn lemma_one_beginning(upper: Seq<char>, a: &str, b: &str, k: int)
    requires
        begins(upper, a),
        0 <= k < a@.len(),
        k < b@.len(),
        a@[k] != b@[k],
    ensures
        !begins(upper, b),
{
    if begins(upper, b) {
        assert(a@[k] == upper.subrange(0, a@.len() as int)[k]);
        assert(b@[k] == upper.subrange(0, b@.len() as int)[k]);
    }
}

/// The statements that change or copy rows are the ones whose rows are counted.
pub proof fn rows_are_counted_for_changes_and_copies(upper: Seq<char>, affected_rows: usize)
    ensures
        tag_for(upper, affected_rows).rows == if begins(upper, "INSERT") || begins(upper, "UPDATE")
            || begins(upper, "DELETE") || begins(upper, "TRUNCATE") || begins(upper, "COPY") {
            Some(affected_rows)
        } else {
            None
        },
{
    if begins(upper, "COPY") {
        reveal_strlit("COPY");
        reveal_strlit("CREATE VIEW");
        reveal_strlit("CREATE INDEX");
        reveal_strlit("CREATE SCHEMA");
        reveal_strlit("CREATE EXTENSION");
        reveal_strlit("CREATE");
        reveal_strlit("DROP VIEW");
        reveal_strlit("DROP INDEX");
        reveal_strlit("DROP SCHEMA");
        reveal_strlit("DROP");
        reveal_strlit("ALTER");
        reveal_strlit("BEGIN");
        reveal_strlit("START");
        reveal_strlit("COMMIT");
        reveal_strlit("ROLLBACK");
        reveal_strlit("SAVEPOINT");
        reveal_strlit("RELEASE");
        reveal_strlit("SET");
        lemma_one_beginning(upper, "COPY", "CREATE VIEW", 1);
        lemma_one_beginning(upper, "COPY", "CREATE INDEX", 1);
        lemma_one_beginning(upper, "COPY", "CREATE SCHEMA", 1);
        lemma_one_beginning(upper, "COPY", "CREATE EXTENSION", 1);
        lemma_one_beginning(upper, "COPY", "CREATE", 1);
        lemma_one_beginning(upper, "COPY", "DROP VIEW", 0);
        lemma_one_beginning(upper, "COPY", "DROP INDEX", 0);
        lemma_one_beginning(upper, "COPY", "DROP SCHEMA", 0);
        lemma_one_beginning(upper, "COPY", "DROP", 0);
        lemma_one_beginning(upper, "COPY", "ALTER", 0);
        lemma_one_beginning(upper, "COPY", "BEGIN", 0);
        lemma_one_beginning(upper, "COPY", "START", 0);
        lemma_one_beginning(upper, "COPY", "COMMIT", 2);
        lemma_one_beginning(upper, "COPY", "ROLLBACK", 0);
        lemma_one_beginning(upper, "COPY", "SAVEPOINT", 0);
        lemma_one_beginning(upper, "COPY", "RELEASE", 0);
        lemma_one_beginning(upper, "COPY", "SET", 0);
    }
}

/// The tag of a statement whose rows are not counted does not depend on their number.
pub proof fn other_tags_do_not_depend_on_rows(upper: Seq<char>, n: usize, m: usize)
    requires
        !begins(upper, "INSERT"),
        !begins(upper, "UPDATE"),
        !begins(upper, "DELETE"),
        !begins(upper, "TRUNCATE"),
        !begins(upper, "COPY"),
    ensures
        tag_for(upper, n) == tag_for(upper, m),
{
}

proof fn lemma_capitals_keep_white_space(c: char)
    ensures
        is_white_space(ascii_upper_char(c)) == is_white_space(c),
        ascii_upper_char(ascii_upper_char(c)) == ascii_upper_char(c),
{
    if 'a' <= c <= 'z' {
        assert('A' <= ascii_upper_char(c) <= 'Z');
    }
}

/// Capitalising and trimming a statement once more, after both, changes nothing.
pub proof fn trimmed_capitals_are_settled(query: Seq<char>)
    ensures
        ascii_upper(trimmed(ascii_upper(trimmed(query)))) == ascii_upper(trimmed(query)),
{
    let text = trimmed(query);
    let upper = ascii_upper(text);
    lemma_trim_start(query);
    lemma_trim_end(trim_start(query));
    assert forall|i: int| 0 <= i < text.len() implies ascii_upper_char(#[trigger] upper[i])
        == upper[i] && is_white_space(upper[i]) == is_white_space(text[i]) by {
        lemma_capitals_keep_white_space(text[i]);
    }
    if text.len() > 0 {
        assert(text[0] == trim_start(query).subrange(0, text.len() as int)[0]);
        assert(!is_white_space(upper[0]));
        assert(!is_white_space(upper[text.len() - 1]));
    }
    assert(trimmed(upper) == upper);
    assert(ascii_upper(upper) =~= upper);
}

/// The tag of a statement depends on its capitals without the white space around them
/// alone, if only the letters of ASCII have capitals: these in place of the statement
/// get the same tag.
pub proof fn tag_depends_on_trimmed_capitals(query: Seq<char>, affected_rows: usize)
    ensures
        tag_for(ascii_upper(trimmed(ascii_upper(trimmed(query)))), affected_rows) == tag_for(
            ascii_upper(trimmed(query)),
            affected_rows,
        ),
{
    trimmed_capitals_are_settled(query);
}

/// The first `limit` characters of `text`, or all of it where it has fewer.
pub open spec fn beginning(text: Seq<char>, limit: int) -> Seq<char> {
    if text.len() < limit {
        text
    } else {
        text.take(limit)
    }
}

/// Whether `words` are at most `limit` characters, and do not end in white space.
pub open spec fn are_words(words: Seq<char>, limit: int) -> bool {
    0 < words.len() <= limit && !is_white_space(words.last())
}

/// Whether two capitalised statements begin with the same words of at most `limit`
/// characters.
pub open spec fn begin_alike(a: Seq<char>, b: Seq<char>, limit: int) -> bool {
    forall|words: &str| are_words(words@, limit) ==> #[trigger] begins(a, words) == begins(b, words)
}

proof fn lemma_tags_alike(a: Seq<char>, b: Seq<char>, affected_rows: usize)
    requires
        begin_alike(a, b, 16),
    ensures
        tag_for(a, affected_rows) == tag_for(b, affected_rows),
{
    reveal_strlit("INSERT");
    reveal_strlit("UPDATE");
    reveal_strlit("DELETE");
    reveal_strlit("TRUNCATE");
    reveal_strlit("CREATE VIEW");
    reveal_strlit("CREATE INDEX");
    reveal_strlit("CREATE SCHEMA");
    reveal_strlit("CREATE EXTENSION");
    reveal_strlit("CREATE");
    reveal_strlit("DROP VIEW");
    reveal_strlit("DROP INDEX");
    reveal_strlit("DROP SCHEMA");
    reveal_strlit("DROP");
    reveal_strlit("ALTER");
    reveal_strlit("BEGIN");
    reveal_strlit("START");
    reveal_strlit("COMMIT");
    reveal_strlit("ROLLBACK");
    reveal_strlit("SAVEPOINT");
    reveal_strlit("RELEASE");
    reveal_strlit("SET");
    reveal_strlit("COPY");
    reveal_strlit("COMMENT");
}

proof fn lemma_non_queries_alike(a: Seq<char>, b: Seq<char>)
    requires
        begin_alike(a, b, 25),
    ensures
        is_non_query(a) == is_non_query(b),
{
    reveal_strlit("COPY");
    reveal_strlit("CREATE SCHEMA");
    reveal_strlit("DROP SCHEMA");
    reveal_strlit("REFRESH MATERIALIZED VIEW");
    reveal_strlit("COMMENT");
}

proof fn lemma_longer_beginning(words: Seq<char>, a: Seq<char>, b: Seq<char>)
    requires
        words.is_prefix_of(a),
        a.is_prefix_of(b),
    ensures
        words.is_prefix_of(b),
{
    assert(words =~= a.subrange(0, words.len() as int));
    assert(a =~= b.subrange(0, a.len() as int));
    assert(words =~= b.subrange(0, words.len() as int));
}

/// A statement and a beginning of it that is long enough begin alike.
proof fn lemma_common_beginning(head: Seq<char>, a: Seq<char>, limit: int)
    requires
        head.is_prefix_of(a),
        head.len() >= limit || head == a,
    ensures
        begin_alike(a, head, limit),
{
    assert forall|words: &str| are_words(words@, limit) implies #[trigger] begins(a, words)
        == begins(head, words) by {
        if begins(head, words) {
            lemma_longer_beginning(words@, head, a);
        }
        if begins(a, words) {
            assert(words@ =~= a.subrange(0, words@.len() as int));
            assert(head =~= a.subrange(0, head.len() as int));
            assert(words@ =~= head.subrange(0, words@.len() as int));
        }
    }
}

/// The capitals of a statement whose first `limit` characters are in ASCII begin like
/// the capitals of those.
proof fn lemma_ascii_beginning(text: Seq<char>, upper: Seq<char>, limit: int)
    requires
        limit >= 0,
        capitalises_ascii(text, upper),
        is_ascii_chars(beginning(text, limit)),
    ensures
        begin_alike(upper, ascii_upper(beginning(text, limit)), limit),
        ascii_upper(beginning(text, limit)).is_prefix_of(upper),
        text.len() < limit ==> upper == ascii_upper(text),
{
    let head = beginning(text, limit);
    assert(text.take(head.len() as int) =~= head);
    lemma_common_beginning(ascii_upper(head), upper, limit);
}

proof fn lemma_words_outlive_trimming(words: Seq<char>, s: Seq<char>)
    requires
        words.is_prefix_of(s),
        words.len() > 0,
        !is_white_space(words.last()),
    ensures
        words.is_prefix_of(trim_end(s)),
    decreases s.len(),
{
    assert(words =~= s.subrange(0, words.len() as int));
    if is_white_space(s.last()) {
        assert(words.len() < s.len());
        assert(words =~= s.drop_last().subrange(0, words.len() as int));
        lemma_words_outlive_trimming(words, s.drop_last());
    }
}

/// A statement whose first sixteen characters are in ASCII gets the same tag as its
/// capitals: `upper` are the capitals of the statement without the white space around
/// it, and `again` those of `upper`, as far as ASCII settles both.
pub proof fn capitals_get_the_tag_of_the_statement(
    query: Seq<char>,
    upper: Seq<char>,
    again: Seq<char>,
    affected_rows: usize,
)
    requires
        is_ascii_chars(beginning(trimmed(query), 16)),
        capitalises_ascii(trimmed(query), upper),
        capitalises_ascii(trimmed(upper), again),
    ensures
        tag_for(again, affected_rows) == tag_for(upper, affected_rows),
{
    let text = trimmed(query);
    let head = ascii_upper(beginning(text, 16));
    let kept = trimmed(upper);
    lemma_ascii_beginning(text, upper, 16);
    assert(head =~= upper.subrange(0, head.len() as int));
    assert forall|i: int| 0 <= i < head.len() implies ascii_upper_char(#[trigger] head[i])
        == head[i] && (head[i] as int) < 128 && is_white_space(head[i]) == is_white_space(text[i]) by {
        lemma_capitals_keep_white_space(text[i]);
    }
    if text.len() > 0 {
        lemma_trim_start(query);
        lemma_trim_end(trim_start(query));
        assert(text[0] == trim_start(query).subrange(0, text.len() as int)[0]);
        assert(upper[0] == head[0]);
        assert(trim_start(upper) == upper);
    } else {
        assert(upper =~= text);
    }
    lemma_trim_end(upper);
    assert(kept =~= upper.subrange(0, kept.len() as int));
    assert forall|words: &str| are_words(words@, 16) implies #[trigger] begins(upper, words)
        == begins(kept, words) by {
        if begins(upper, words) {
            lemma_words_outlive_trimming(words@, upper);
        }
        if begins(kept, words) {
            lemma_longer_beginning(words@, kept, upper);
        }
    }
    let first = beginning(kept, 16);
    assert(first.len() <= head.len());
    assert(first =~= head.subrange(0, first.len() as int));
    assert forall|i: int| 0 <= i < first.len() implies #[trigger] first[i] == head[i] by {}
    assert(is_ascii_chars(first));
    assert(ascii_upper(first) =~= first);
    lemma_ascii_beginning(kept, again, 16);
    lemma_common_beginning(first, kept, 16);
    assert forall|words: &str| are_words(words@, 16) implies #[trigger] begins(again, words)
        == begins(upper, words) by {
        assert(begins(kept, words) == begins(first, words));
    }
    lemma_tags_alike(again, upper, affected_rows);
}

fn new_tag(command: &str, oid: Option<u32>, rows: Option<usize>) -> (r: CommandTag)
    ensures
        r@ == tag(command@, oid, rows),
{
    CommandTag { command: command.to_owned(), oid, rows }
}

/// The tag for a capitalised statement.
pub fn capitalised_command_tag(upper: &str, affected_rows: usize) -> (r: CommandTag)
    ensures
        r@ == tag_for(upper@, affected_rows),
{
    let chars = chars_of(upper);
    if begins_with(&chars, "INSERT") {
        new_tag("INSERT", Some(0), Some(affected_rows))
    } else if begins_with(&chars, "UPDATE") {
        new_tag("UPDATE", None, Some(affected_rows))
    } else if begins_with(&chars, "DELETE") || begins_with(&chars, "TRUNCATE") {
        new_tag("DELETE", None, Some(affected_rows))
    } else if begins_with(&chars, "CREATE VIEW") {
        new_tag("CREATE VIEW", None, None)
    } else if begins_with(&chars, "CREATE INDEX") {
        new_tag("CREATE INDEX", None, None)
    } else if begins_with(&chars, "CREATE SCHEMA") {
        new_tag("CREATE SCHEMA", None, None)
    } else if begins_with(&chars, "CREATE EXTENSION") {
        new_tag("CREATE EXTENSION", None, None)
    } else if begins_with(&chars, "CREATE") {
        new_tag("CREATE TABLE", None, None)
    } else if begins_with(&chars, "DROP VIEW") {
        new_tag("DROP VIEW", None, None)
    } else if begins_with(&chars, "DROP INDEX") {
        new_tag("DROP INDEX", None, None)
    } else if begins_with(&chars, "DROP SCHEMA") {
        new_tag("DROP SCHEMA", None, None)
    } else if begins_with(&chars, "DROP") {
        new_tag("DROP TABLE", None, None)
    } else if begins_with(&chars, "ALTER") {
        new_tag("ALTER TABLE", None, None)
    } else if begins_with(&chars, "BEGIN") || begins_with(&chars, "START") {
        new_tag("BEGIN", None, None)
    } else if begins_with(&chars, "COMMIT") {
        new_tag("COMMIT", None, None)
    } else if begins_with(&chars, "ROLLBACK") {
        new_tag("ROLLBACK", None, None)
    } else if begins_with(&chars, "SAVEPOINT") {
        new_tag("SAVEPOINT", None, None)
    } else if begins_with(&chars, "RELEASE") {
        new_tag("RELEASE", None, None)
    } else if begins_with(&chars, "SET") {
        new_tag("SET", None, None)
    } else if begins_with(&chars, "COPY") {
        new_tag("COPY", None, Some(affected_rows))
    } else if begins_with(&chars, "COMMENT") {
        new_tag("COMMENT", None, None)
    } else {
        new_tag("OK", None, None)
    }
}

/// The tag that reports the completion of `query`.
pub fn command_tag(query: &str, affected_rows: usize) -> (r: CommandTag)
    ensures
        r@ == tag_for(uppercase(trimmed(query@)), affected_rows),
        is_ascii_chars(trimmed(query@)) ==> r@ == tag_for(
            ascii_upper(trimmed(query@)),
            affected_rows,
        ),
        is_ascii_chars(beginning(trimmed(query@), 16)) ==> r@ == tag_for(
            ascii_upper(beginning(trimmed(query@), 16)),
            affected_rows,
        ),
        capitalises_ascii(trimmed(query@), uppercase(trimmed(query@))),
{
    let upper = to_uppercase(trim(query).as_str());
    proof {
        let text = trimmed(query@);
        if is_ascii_chars(beginning(text, 16)) {
            lemma_ascii_beginning(text, upper@, 16);
            lemma_tags_alike(upper@, ascii_upper(beginning(text, 16)), affected_rows);
        }
    }
    capitalised_command_tag(upper.as_str(), affected_rows)
}

/// The tag that reports the completion of `query` after the engine counted
/// `n_change` changed rows.
pub fn completion_tag(query: &str, n_change: i64) -> (r: CommandTag)
    ensures
        r@ == tag_for(uppercase(trimmed(query@)), n_change as usize),
        is_ascii_chars(trimmed(query@)) ==> r@ == tag_for(
            ascii_upper(trimmed(query@)),
            n_change as usize,
        ),
        is_ascii_chars(beginning(trimmed(query@), 16)) ==> r@ == tag_for(
            ascii_upper(beginning(trimmed(query@), 16)),
            n_change as usize,
        ),
{
    command_tag(query, n_change as usize)
}

} // verus!
