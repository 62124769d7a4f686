//! What a copy hands on of the rows of its file, the statement that inserts them, and how
//! one step follows another.

use vstd::prelude::*;

use crate::copy::{
    bound_value, insert_statement, null_text, placeholders, quoted_columns, row_width, step_after,
    target_columns, target_table, unreadable_file, value_delimiter, CopyFrom, CopyStep,
};
use crate::error::SessionErrorView;
use crate::value::BindValueView;

verus! {

/// The texts of a row are bound letter for letter, and nothing but a missing value is bound
/// as one.
pub proof fn texts_are_bound_as_they_stand(value: Option<String>)
    ensures
        value matches Some(text) ==> bound_value(value) == BindValueView::Text(text@),
        value is None <==> bound_value(value) == BindValueView::Null,
{
}

/// Two texts that differ in any letter are bound as different values.
pub proof fn different_texts_are_bound_differently(a: Option<String>, b: Option<String>)
    requires
        bound_value(a) == bound_value(b),
    ensures
        a is Some <==> b is Some,
        a is Some ==> a->Some_0@ == b->Some_0@,
{
}

/// A file that cannot be read is reported by its name and the reason.
pub proof fn unreadable_files_are_named(filename: Seq<char>, reason: Seq<char>)
    ensures
        unreadable_file(filename, reason) == SessionErrorView::ParseError(
            "COPY FROM: cannot read '"@ + filename + "': "@ + reason,
        ),
{
}

/// The table is named between double quotes, behind its schema where the statement gives
/// one.
pub proof fn the_table_is_named_in_quotes(stmt: CopyFrom)
    ensures
        stmt.schema_name is None ==> target_table(stmt) == seq!['"'] + stmt.table_name@ + seq!['"'],
        stmt.schema_name matches Some(schema) ==> target_table(stmt) == seq!['"'] + schema@ + seq![
            '"',
            '.',
            '"',
        ] + stmt.table_name@ + seq!['"'],
{
    reveal_strlit("\"");
    reveal_strlit("\".\"");
    assert("\""@ =~= seq!['"']);
    assert("\".\""@ =~= seq!['"', '.', '"']);
}

/// Each further column of a list stands between double quotes behind a comma.
pub proof fn columns_are_listed_in_quotes(columns: Seq<String>, n: nat)
    ensures
        quoted_columns(columns, 0) == Seq::<char>::empty(),
        quoted_columns(columns, 1) == seq!['"'] + columns[0]@ + seq!['"'],
        n > 0 ==> quoted_columns(columns, n as int + 1) == quoted_columns(columns, n as int) + seq![
            ',',
            ' ',
            '"',
        ] + columns[n as int]@ + seq!['"'],
{
    reveal_strlit("\"");
    reveal_strlit(", ");
    assert("\""@ =~= seq!['"']);
    assert(", "@ =~= seq![',', ' ']);
    if n > 0 {
        let before = quoted_columns(columns, n as int);
        let column = columns[n as int]@;
        assert(before + ", "@ + ("\""@ + column + "\""@) =~= before + seq![',', ' ', '"'] + column
            + seq!['"']);
    }
}

/// A list of `n` placeholders has a question mark at every third place and a comma and a
/// space between two of them.
pub proof fn there_is_a_placeholder_for_each_value(n: nat)
    requires
        n > 0,
    ensures
        placeholders(0) == Seq::<char>::empty(),
        placeholders(n as int).len() == 3 * n - 2,
        forall|i: int|
            0 <= i < 3 * n - 2 ==> #[trigger] placeholders(n as int)[i] == if i % 3 == 0 {
                '?'
            } else if i % 3 == 1 {
                ','
            } else {
                ' '
            },
    decreases n,
{
    reveal_strlit("?");
    reveal_strlit(", ");
    if n > 1 {
        there_is_a_placeholder_for_each_value((n - 1) as nat);
        let before = placeholders(n - 1);
        let all = placeholders(n as int);
        assert(all == before + ", "@ + "?"@);
        assert forall|i: int| 0 <= i < 3 * n - 2 implies #[trigger] all[i] == if i % 3 == 0 {
            '?'
        } else if i % 3 == 1 {
            ','
        } else {
            ' '
        } by {
            if i < before.len() {
                assert(all[i] == before[i]);
            } else {
                assert(i == 3 * n - 5 || i == 3 * n - 4 || i == 3 * n - 3);
            }
        }
    }
}

/// Where the statement names columns, the insert names them and has a value for each;
/// otherwise it has one for each column of the table.
pub proof fn the_insert_has_a_value_for_each_column(stmt: CopyFrom, table_columns: nat)
    ensures
        stmt.columns is None ==> {
            &&& row_width(stmt, table_columns) == table_columns
            &&& target_columns(stmt).len() == 0
            &&& insert_statement(stmt, table_columns) == "INSERT INTO "@ + target_table(stmt)
                + " VALUES ("@ + placeholders(table_columns as int) + ")"@
        },
        stmt.columns matches Some(columns) ==> {
            &&& row_width(stmt, table_columns) == columns@.len()
            &&& target_columns(stmt) == " ("@ + quoted_columns(columns@, columns@.len() as int)
                + ")"@
            &&& insert_statement(stmt, table_columns) == "INSERT INTO "@ + target_table(stmt)
                + " ("@ + quoted_columns(columns@, columns@.len() as int) + ") VALUES ("@
                + placeholders(columns@.len() as int) + ")"@
        },
{
    reveal_strlit("");
    reveal_strlit(")");
    reveal_strlit(" VALUES (");
    reveal_strlit(") VALUES (");
    let table = "INSERT INTO "@ + target_table(stmt);
    match stmt.columns {
        None => {
            assert(table + ""@ =~= table);
        },
        Some(columns) => {
            let list = quoted_columns(columns@, columns@.len() as int);
            assert(")"@ + " VALUES ("@ =~= ") VALUES ("@);
            assert(table + (" ("@ + list + ")"@) + " VALUES ("@ =~= table + " ("@ + list
                + ") VALUES ("@);
        },
    }
}

/// The values of a row are parted by the first character of the delimiter, or by a tab, and
/// a missing value is written as the statement says, or as a backslash and an N.
pub proof fn values_are_told_apart(stmt: CopyFrom)
    ensures
        stmt.delimiter is None ==> value_delimiter(stmt) == '\t',
        stmt.delimiter matches Some(text) ==> value_delimiter(stmt) == if text@.len() == 0 {
            '\t'
        } else {
            text@[0]
        },
        stmt.null_string is None ==> null_text(stmt) == seq!['\\', 'N'],
        stmt.null_string matches Some(text) ==> null_text(stmt) == text@,
{
    reveal_strlit("\\N");
    assert("\\N"@ =~= seq!['\\', 'N']);
}

/// A copy inserts one row after another between the begin and the commit of a transaction,
/// and rolls it back at the first step that fails.
pub proof fn steps_follow_one_another(succeeded: bool, rows: usize, i: usize)
    ensures
        step_after(CopyStep::Begin, true, rows) == CopyStep::PrepareInsert,
        step_after(CopyStep::Begin, false, rows) == CopyStep::Fail,
        rows > 0 ==> step_after(CopyStep::PrepareInsert, true, rows) == CopyStep::InsertRow(0),
        step_after(CopyStep::PrepareInsert, true, 0) == CopyStep::Commit,
        i + 1 < rows ==> step_after(CopyStep::InsertRow(i), true, rows) == CopyStep::InsertRow(
            (i + 1) as usize,
        ),
        i + 1 >= rows ==> step_after(CopyStep::InsertRow(i), true, rows) == CopyStep::Commit,
        step_after(CopyStep::Commit, true, rows) == CopyStep::Succeed(rows),
        step_after(CopyStep::PrepareInsert, false, rows) == CopyStep::Rollback,
        step_after(CopyStep::InsertRow(i), false, rows) == CopyStep::Rollback,
        step_after(CopyStep::Commit, false, rows) == CopyStep::Rollback,
        step_after(CopyStep::Rollback, succeeded, rows) == CopyStep::Fail,
        step_after(CopyStep::Succeed(i), succeeded, rows) == CopyStep::Succeed(i),
        step_after(CopyStep::Fail, succeeded, rows) == CopyStep::Fail,
{
}

} // verus!
