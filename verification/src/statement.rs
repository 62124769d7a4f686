//! The statements of a query string, and the statements that are refused before
//! the engine sees them.

use vstd::prelude::*;

use crate::error::{SessionError, SessionErrorView};
use crate::text::{
    ascii_lower, begins_with, chars_of, contains_text, joined, occurs_in, to_ascii_lower, trim,
    trimmed, utf8_text,
};

verus! {

/// What a list of strings says.
pub open spec fn texts(list: Seq<String>) -> Seq<Seq<char>> {
    Seq::new(list.len(), |i: int| list[i]@)
}

/// The statements of `sql`, from what the parser made of it: those it found, or
/// the whole of it where the parser refused it or found none in a text that is
/// not blank.
pub open spec fn statements_of(
    sql: Seq<char>,
    parsed: Result<Seq<Seq<char>>, Seq<char>>,
) -> Seq<Seq<char>> {
    match parsed {
        Ok(found) => if found.len() == 0 && trimmed(sql).len() > 0 {
            seq![trimmed(sql)]
        } else {
            found
        },
        Err(_) => seq![trimmed(sql)],
    }
}

/// What the parser made of a query string.
pub open spec fn split_view(parsed: Result<Vec<String>, String>) -> Result<
    Seq<Seq<char>>,
    Seq<char>,
> {
    match parsed {
        Ok(found) => Ok(texts(found@)),
        Err(e) => Err(e@),
    }
}

/// The statements of a query string, from what the parser made of it.
pub fn split_statements(sql: &str, parsed: Result<Vec<String>, String>) -> (r: Result<
    Vec<String>,
    SessionError,
>)
    ensures
        r is Ok,
        texts(r->Ok_0@) == statements_of(sql@, split_view(parsed)),
{
    let whole = trim(sql);
    let statements = match parsed {
        Ok(found) => {
            if found.len() == 0 && !whole.as_str().is_empty() {
                vec![whole]
            } else {
                found
            }
        },
        Err(_) => vec![whole],
    };
    assert(texts(statements@) =~= statements_of(sql@, split_view(parsed)));
    Ok(statements)
}

/// Those of `statements` that are not blank, in order.
pub open spec fn not_blank(statements: Seq<Seq<char>>) -> Seq<Seq<char>>
    decreases statements.len(),
{
    if statements.len() == 0 {
        Seq::empty()
    } else {
        let before = not_blank(statements.drop_last());
        if trimmed(statements.last()).len() > 0 {
            before.push(statements.last())
        } else {
            before
        }
    }
}

/// Every statement that is not blank is kept, and no other.
pub proof fn kept_statements_are_those_not_blank(statements: Seq<Seq<char>>, statement: Seq<char>)
    ensures
        not_blank(statements).contains(statement) <==> statements.contains(statement) && trimmed(
            statement,
        ).len() > 0,
    decreases statements.len(),
{
    if statements.len() > 0 {
        let before = statements.drop_last();
        let last = statements.last();
        kept_statements_are_those_not_blank(before, statement);
        assert(statements =~= before.push(last));
        lemma_push_adds_one(before, last, statement);
        lemma_push_adds_one(not_blank(before), last, statement);
    }
}

proof fn lemma_push_adds_one(list: Seq<Seq<char>>, last: Seq<char>, x: Seq<char>)
    ensures
        list.push(last).contains(x) <==> list.contains(x) || x == last,
{
    let longer = list.push(last);
    if list.contains(x) {
        let i = choose|i: int| 0 <= i < list.len() && list[i] == x;
        assert(longer[i] == x);
    }
    if longer.contains(x) && x != last {
        let i = choose|i: int| 0 <= i < longer.len() && longer[i] == x;
        assert(list[i] == x);
    }
    assert(longer[list.len() as int] == last);
}

/// A query that is not blank has a statement, whatever the parser makes of it.
pub proof fn every_query_has_a_statement(
    sql: Seq<char>,
    parsed: Result<Seq<Seq<char>>, Seq<char>>,
)
    requires
        trimmed(sql).len() > 0,
    ensures
        statements_of(sql, parsed).len() > 0,
{
}

/// Hands out the statements of a query string one by one.
pub struct PgQueryRunner {
    stmts: Vec<String>,
    index: usize,
}

impl PgQueryRunner {
    /// The statements that are still to come.
    pub closed spec fn pending(self) -> Seq<Seq<char>> {
        texts(self.stmts@).skip(self.index as int)
    }

    /// The runner has not gone past its last statement, and none of its
    /// statements is blank.
    pub closed spec fn well_formed(self) -> bool {
        &&& self.index <= self.stmts@.len()
        &&& forall|i: int|
            0 <= i < self.stmts@.len() ==> trimmed((#[trigger] self.stmts@[i])@).len() > 0
    }

    /// A runner over the statements of `sql`, from what the parser made of it.
    pub fn new(sql: &str, parsed: Result<Vec<String>, String>) -> (r: PgQueryRunner)
        ensures
            r.well_formed(),
            r.pending() == not_blank(statements_of(sql@, split_view(parsed))),
    {
        let ghost found = statements_of(sql@, split_view(parsed));
        let mut stmts: Vec<String> = Vec::new();
        match split_statements(sql, parsed) {
            Ok(statements) => {
                let mut i: usize = 0;
                while i < statements.len()
                    invariant
                        i <= statements@.len(),
                        texts(statements@) == found,
                        texts(stmts@) == not_blank(found.take(i as int)),
                        forall|j: int|
                            0 <= j < stmts@.len() ==> trimmed((#[trigger] stmts@[j])@).len() > 0,
                    decreases statements.len() - i,
                {
                    proof {
                        assert(found.take(i + 1).drop_last() =~= found.take(i as int));
                        assert(found[i as int] == statements@[i as int]@);
                    }
                    if !trim(statements[i].as_str()).as_str().is_empty() {
                        let ghost before = stmts@;
                        stmts.push(statements[i].clone());
                        assert(texts(stmts@) =~= texts(before).push(found[i as int]));
                    }
                    i = i + 1;
                }
                assert(found.take(found.len() as int) =~= found);
            },
            Err(_) => {},
        }
        let runner = PgQueryRunner { stmts, index: 0 };
        assert(texts(stmts@).skip(0) =~= texts(stmts@));
        runner
    }

    /// The next statement, if there is one.
    pub fn next_statement(&mut self) -> (r: Option<String>)
        requires
            old(self).well_formed(),
        ensures
            final(self).well_formed(),
            match r {
                Some(sql) => {
                    &&& old(self).pending().len() > 0
                    &&& sql@ == old(self).pending()[0]
                    &&& trimmed(sql@).len() > 0
                    &&& final(self).pending() == old(self).pending().drop_first()
                },
                None => old(self).pending().len() == 0 && final(self).pending().len() == 0,
            },
    {
        if self.index >= self.stmts.len() {
            return None;
        }
        let sql = self.stmts[self.index].clone();
        self.index = self.index + 1;
        assert(self.pending() =~= old(self).pending().drop_first());
        Some(sql)
    }
}

/// The text of a query that comes as bytes; bytes that are not UTF-8 are an empty
/// query.
pub fn query_text(sql: &[u8]) -> (r: String)
    ensures
        r@ == (if vstd::utf8::valid_utf8(sql@) {
            vstd::utf8::decode_utf8(sql@)
        } else {
            Seq::empty()
        }),
{
    match utf8_text(sql) {
        Ok(text) => text.to_owned(),
        Err(_) => String::new(),
    }
}

/// The statement to prepare for a query, if it is not blank.
pub fn query(sql: &str) -> (r: Option<String>)
    ensures
        match r {
            Some(text) => trimmed(sql@).len() > 0 && text@ == trimmed(sql@),
            None => trimmed(sql@).len() == 0,
        },
{
    let text = trim(sql);
    if text.as_str().is_empty() {
        None
    } else {
        Some(text)
    }
}

/// The statement that gives a pragma a value.
pub fn pragma_update(name: &str, value: &str) -> (r: String)
    ensures
        r@ == "PRAGMA "@ + name@ + " = "@ + value@,
{
    let mut sql = joined("PRAGMA ", name);
    sql.append(" = ");
    sql.append(value);
    sql
}

/// Whether `sql` mentions the table `name` of the engine's own catalog, in any
/// case of its letters.
pub open spec fn mentions(sql: Seq<char>, name: &str) -> bool {
    occurs_in(ascii_lower(sql), name@)
}

/// The error for a table that clients do not get to see.
pub open spec fn no_such_table(name: &str) -> SessionErrorView {
    SessionErrorView::ParseError("no such table: "@ + name@)
}

/// Why `sql` is refused for the tables of the engine's own catalog that it
/// mentions, if it is.
pub open spec fn catalog_refusal(sql: Seq<char>) -> Option<SessionErrorView> {
    if mentions(sql, "sqlite_master") {
        Some(no_such_table("sqlite_master"))
    } else if mentions(sql, "sqlite_schema") {
        Some(no_such_table("sqlite_schema"))
    } else {
        None
    }
}

/// Refuse a statement that mentions a table of the engine's own catalog.
pub fn reject_sqlite_catalog_access(sql: &str) -> (r: Result<(), SessionError>)
    ensures
        match r {
            Ok(_) => catalog_refusal(sql@) is None,
            Err(e) => catalog_refusal(sql@) == Some(e@),
        },
{
    let lower = to_ascii_lower(sql);
    if contains_text(&lower, "sqlite_master") {
        return Err(SessionError::ParseError(joined("no such table: ", "sqlite_master")));
    }
    if contains_text(&lower, "sqlite_schema") {
        return Err(SessionError::ParseError(joined("no such table: ", "sqlite_schema")));
    }
    Ok(())
}

/// What a compiled statement writes to.
pub enum WriteTarget {
    Insert(String),
    Delete(String),
    Update(String),
    Nothing,
}

impl WriteTarget {
    /// The name of the table and the words for what is done to it.
    pub open spec fn table_and_verb(self) -> Option<(Seq<char>, Seq<char>)> {
        match self {
            WriteTarget::Insert(table) => Some((table@, "insert into"@)),
            WriteTarget::Delete(table) => Some((table@, "delete from"@)),
            WriteTarget::Update(table) => Some((table@, "update"@)),
            WriteTarget::Nothing => None,
        }
    }
}

/// Why a statement is refused for what it writes to, if it is. `catalog_table`
/// says whether the table belongs to the catalog that clients see.
pub open spec fn write_refusal(target: WriteTarget, catalog_table: bool) -> Option<
    SessionErrorView,
> {
    match target.table_and_verb() {
        Some((table, verb)) => if catalog_table {
            Some(
                SessionErrorView::ParseError(
                    "cannot "@ + verb + " pg_catalog table \""@ + table + "\""@,
                ),
            )
        } else {
            None
        },
        None => None,
    }
}

fn catalog_write(verb: &str, table: &str) -> (r: SessionError)
    ensures
        r@ == SessionErrorView::ParseError(
            "cannot "@ + verb@ + " pg_catalog table \""@ + table@ + "\""@,
        ),
{
    let mut message = joined("cannot ", verb);
    message.append(" pg_catalog table \"");
    message.append(table);
    message.append("\"");
    SessionError::ParseError(message)
}

/// Refuse a statement that writes to a table of the catalog that clients see.
pub fn reject_catalog_dml(target: &WriteTarget, catalog_table: bool) -> (r: Result<
    (),
    SessionError,
>)
    ensures
        match r {
            Ok(_) => write_refusal(*target, catalog_table) is None,
            Err(e) => write_refusal(*target, catalog_table) == Some(e@),
        },
        r is Err <==> catalog_table && !(*target is Nothing),
{
    if !catalog_table {
        return Ok(());
    }
    match target {
        WriteTarget::Insert(table) => Err(catalog_write("insert into", table.as_str())),
        WriteTarget::Delete(table) => Err(catalog_write("delete from", table.as_str())),
        WriteTarget::Update(table) => Err(catalog_write("update", table.as_str())),
        WriteTarget::Nothing => Ok(()),
    }
}

/// Whether a table belongs to the engine.
pub open spec fn is_internal_table(name: Seq<char>) -> bool {
    "__turso_internal_"@.is_prefix_of(name)
}

/// Whether one of the tables that a statement names belongs to the engine.
pub open spec fn names_internal_table(relations: Seq<String>) -> bool {
    exists|i: int| 0 <= i < relations.len() && is_internal_table((#[trigger] relations[i])@)
}

/// Whether one of the tables that a statement names belongs to the engine.
pub fn uses_internal_table(relations: &Vec<String>) -> (r: bool)
    ensures
        r == names_internal_table(relations@),
{
    let mut i: usize = 0;
    while i < relations.len()
        invariant
            i <= relations@.len(),
            forall|j: int| 0 <= j < i ==> !is_internal_table((#[trigger] relations@[j])@),
        decreases relations.len() - i,
    {
        let chars = chars_of(relations[i].as_str());
        if begins_with(&chars, "__turso_internal_") {
            return true;
        }
        i = i + 1;
    }
    false
}

} // verus!
