//! `COPY .. FROM`: reading the rows of a file into a table, all of them or none.

use vstd::prelude::*;

use crate::error::{SessionError, SessionErrorView};
use crate::text::{chars_of, joined};
use crate::value::{BindValue, BindValueView};

verus! {

/// A `COPY .. FROM` a file.
pub struct CopyFrom {
    pub filename: String,
    pub schema_name: Option<String>,
    pub table_name: String,
    pub columns: Option<Vec<String>>,
    pub delimiter: Option<String>,
    pub null_string: Option<String>,
    pub header: bool,
}

/// The error for a file that cannot be read.
pub open spec fn unreadable_file(filename: Seq<char>, reason: Seq<char>) -> SessionErrorView {
    SessionErrorView::ParseError("COPY FROM: cannot read '"@ + filename + "': "@ + reason)
}

/// What was read of the file to copy from.
pub fn copy_data(stmt: &CopyFrom, read: Result<String, String>) -> (r: Result<String, SessionError>)
    ensures
        match read {
            Ok(data) => r == Ok::<String, SessionError>(data),
            Err(reason) => r is Err && r->Err_0@ == unreadable_file(stmt.filename@, reason@),
        },
{
    match read {
        Ok(data) => Ok(data),
        Err(reason) => {
            let mut message = joined("COPY FROM: cannot read '", stmt.filename.as_str());
            message.append("': ");
            message.append(reason.as_str());
            Err(SessionError::ParseError(message))
        },
    }
}

/// The table as it stands in the statement that inserts into it.
pub open spec fn target_table(stmt: CopyFrom) -> Seq<char> {
    match stmt.schema_name {
        Some(schema) => "\""@ + schema@ + "\".\""@ + stmt.table_name@ + "\""@,
        None => "\""@ + stmt.table_name@ + "\""@,
    }
}

/// The first `n` of `columns`, each between double quotes, with commas between
/// them.
pub open spec fn quoted_columns(columns: Seq<String>, n: int) -> Seq<char>
    decreases n,
{
    if n <= 0 {
        Seq::empty()
    } else {
        let column = "\""@ + columns[n - 1]@ + "\""@;
        if n == 1 {
            column
        } else {
            quoted_columns(columns, n - 1) + ", "@ + column
        }
    }
}

/// `n` question marks with commas between them.
pub open spec fn placeholders(n: int) -> Seq<char>
    decreases n,
{
    if n <= 0 {
        Seq::empty()
    } else if n == 1 {
        "?"@
    } else {
        placeholders(n - 1) + ", "@ + "?"@
    }
}

/// The columns that the statement names, in the statement that inserts.
pub open spec fn target_columns(stmt: CopyFrom) -> Seq<char> {
    match stmt.columns {
        Some(columns) => " ("@ + quoted_columns(columns@, columns@.len() as int) + ")"@,
        None => ""@,
    }
}

/// How many values a row has: one for each column that the statement names, or
/// for each column of the table.
pub open spec fn row_width(stmt: CopyFrom, table_columns: nat) -> nat {
    match stmt.columns {
        Some(columns) => columns@.len(),
        None => table_columns,
    }
}

/// The statement that inserts one row.
pub open spec fn insert_statement(stmt: CopyFrom, table_columns: nat) -> Seq<char> {
    "INSERT INTO "@ + target_table(stmt) + target_columns(stmt) + " VALUES ("@ + placeholders(
        row_width(stmt, table_columns) as int,
    ) + ")"@
}

/// The character that parts the values of a row.
pub open spec fn value_delimiter(stmt: CopyFrom) -> char {
    match stmt.delimiter {
        Some(text) => if text@.len() > 0 {
            text@[0]
        } else {
            '\t'
        },
        None => '\t',
    }
}

/// The text that stands for a missing value.
pub open spec fn null_text(stmt: CopyFrom) -> Seq<char> {
    match stmt.null_string {
        Some(text) => text@,
        None => "\\N"@,
    }
}

/// How the rows of a file are read and inserted.
#[derive(Debug, PartialEq, Eq)]
pub struct CopyPlan {
    pub insert_sql: String,
    pub num_columns: usize,
    pub delimiter: char,
    pub null_string: String,
}

fn quoted(name: &str) -> (r: String)
    ensures
        r@ == "\""@ + name@ + "\""@,
{
    let mut text = joined("\"", name);
    text.append("\"");
    text
}

fn column_list(columns: &Vec<String>) -> (r: String)
    ensures
        r@ == quoted_columns(columns@, columns@.len() as int),
{
    let mut list = String::new();
    let mut i: usize = 0;
    while i < columns.len()
        invariant
            i <= columns@.len(),
            list@ == quoted_columns(columns@, i as int),
        decreases columns.len() - i,
    {
        if i > 0 {
            list.append(", ");
        }
        list.append(quoted(columns[i].as_str()).as_str());
        i = i + 1;
    }
    list
}

fn placeholder_list(n: usize) -> (r: String)
    ensures
        r@ == placeholders(n as int),
{
    let mut list = String::new();
    let mut i: usize = 0;
    while i < n
        invariant
            i <= n,
            list@ == placeholders(i as int),
        decreases n - i,
    {
        if i > 0 {
            list.append(", ");
        }
        list.append("?");
        i = i + 1;
    }
    list
}

fn first_char_or_tab(text: &Option<String>) -> (r: char)
    ensures
        r == match *text {
            Some(s) => if s@.len() > 0 {
                s@[0]
            } else {
                '\t'
            },
            None => '\t',
        },
{
    match text {
        Some(s) => {
            let chars = chars_of(s.as_str());
            if chars.len() > 0 {
                chars[0]
            } else {
                '\t'
            }
        },
        None => '\t',
    }
}

/// How to copy into a table with the columns `column_names`.
pub fn copy_plan(stmt: &CopyFrom, column_names: &Vec<String>) -> (r: Result<CopyPlan, SessionError>)
    ensures
        match r {
            Ok(plan) => {
                &&& column_names@.len() > 0
                &&& plan.insert_sql@ == insert_statement(*stmt, column_names@.len())
                &&& plan.num_columns == row_width(*stmt, column_names@.len())
                &&& plan.delimiter == value_delimiter(*stmt)
                &&& plan.null_string@ == null_text(*stmt)
            },
            Err(e) => {
                &&& column_names@.len() == 0
                &&& e@ == SessionErrorView::ParseError(
                    "COPY FROM: table '"@ + stmt.table_name@ + "' not found or has no columns"@,
                )
            },
        },
{
    if column_names.len() == 0 {
        let mut message = joined("COPY FROM: table '", stmt.table_name.as_str());
        message.append("' not found or has no columns");
        return Err(SessionError::ParseError(message));
    }
    let table = match &stmt.schema_name {
        Some(schema) => {
            let mut text = quoted(schema.as_str());
            text.append(".");
            text.append(quoted(stmt.table_name.as_str()).as_str());
            proof {
                reveal_strlit("\"");
                reveal_strlit(".");
                reveal_strlit("\".\"");
                assert(text@ =~= target_table(*stmt));
            }
            text
        },
        None => quoted(stmt.table_name.as_str()),
    };
    let num_columns: usize = match &stmt.columns {
        Some(columns) => columns.len(),
        None => column_names.len(),
    };
    let columns = match &stmt.columns {
        Some(columns) => {
            let mut text = joined(" (", column_list(columns).as_str());
            text.append(")");
            text
        },
        None => "".to_owned(),
    };
    let mut insert_sql = joined("INSERT INTO ", table.as_str());
    insert_sql.append(columns.as_str());
    insert_sql.append(" VALUES (");
    insert_sql.append(placeholder_list(num_columns).as_str());
    insert_sql.append(")");
    let null_string = match &stmt.null_string {
        Some(text) => text.clone(),
        None => "\\N".to_owned(),
    };
    Ok(CopyPlan { insert_sql, num_columns, delimiter: first_char_or_tab(&stmt.delimiter), null_string })
}

/// The rows to insert, from the rows of the file: a file with a header has its
/// first row left out.
pub fn rows_to_insert(stmt: &CopyFrom, rows: Vec<Vec<Option<String>>>) -> (r: Vec<
    Vec<Option<String>>,
>)
    ensures
        r@ == (if stmt.header && rows@.len() > 0 {
            rows@.drop_first()
        } else {
            rows@
        }),
{
    let mut rows = rows;
    if stmt.header && rows.len() > 0 {
        let ghost all = rows@;
        rows.remove(0);
        assert(rows@ =~= all.drop_first());
    }
    rows
}

/// A value for a parameter of the statement that inserts.
#[derive(Debug, PartialEq, Eq)]
pub struct RowBinding {
    pub index: usize,
    pub value: BindValue,
}

/// The value that a value of a row is bound as.
pub open spec fn bound_value(value: Option<String>) -> BindValueView {
    match value {
        Some(text) => BindValueView::Text(text@),
        None => BindValueView::Null,
    }
}

/// The values of a row for the parameters of the statement that inserts, which are
/// counted from one.
pub fn row_bindings(row: &Vec<Option<String>>) -> (r: Vec<RowBinding>)
    ensures
        r@.len() == row@.len(),
        forall|i: int|
            0 <= i < r@.len() ==> (#[trigger] r@[i]).index == i + 1 && r@[i].value@ == bound_value(
                row@[i],
            ),
        forall|i: int|
            0 <= i < r@.len() ==> match row@[i] {
                Some(text) => (#[trigger] r@[i]).value matches BindValue::Text(bound) && bound@
                    == text@,
                None => r@[i].value == BindValue::Null,
            },
{
    let mut bindings: Vec<RowBinding> = Vec::new();
    let mut i: usize = 0;
    while i < row.len()
        invariant
            i <= row@.len(),
            bindings@.len() == i,
            forall|j: int|
                0 <= j < i ==> (#[trigger] bindings@[j]).index == j + 1 && bindings@[j].value@
                    == bound_value(row@[j]),
            forall|j: int|
                0 <= j < i ==> match row@[j] {
                    Some(text) => (#[trigger] bindings@[j]).value matches BindValue::Text(bound)
                        && bound@ == text@,
                    None => bindings@[j].value == BindValue::Null,
                },
        decreases row.len() - i,
    {
        let value = match &row[i] {
            Some(text) => BindValue::Text(text.clone()),
            None => BindValue::Null,
        };
        bindings.push(RowBinding { index: i + 1, value });
        i = i + 1;
    }
    bindings
}

/// What is to be done next in a copy.
#[derive(Clone, Copy, Debug, PartialEq, Eq, Structural)]
pub enum CopyStep {
    /// Begin a transaction.
    Begin,
    /// Prepare the statement that inserts.
    PrepareInsert,
    /// Bind this row, run the statement and make it ready for the next row.
    InsertRow(usize),
    /// Commit the transaction.
    Commit,
    /// Roll the transaction back.
    Rollback,
    /// Report the number of rows.
    Succeed(usize),
    /// Report the first error.
    Fail,
}

/// What follows `step` in a copy of `rows` rows.
pub open spec fn step_after(step: CopyStep, succeeded: bool, rows: usize) -> CopyStep {
    match step {
        CopyStep::Begin => if succeeded {
            CopyStep::PrepareInsert
        } else {
            CopyStep::Fail
        },
        CopyStep::PrepareInsert => if !succeeded {
            CopyStep::Rollback
        } else if rows > 0 {
            CopyStep::InsertRow(0)
        } else {
            CopyStep::Commit
        },
        CopyStep::InsertRow(i) => if !succeeded {
            CopyStep::Rollback
        } else if i + 1 < rows {
            CopyStep::InsertRow((i + 1) as usize)
        } else {
            CopyStep::Commit
        },
        CopyStep::Commit => if succeeded {
            CopyStep::Succeed(rows)
        } else {
            CopyStep::Rollback
        },
        CopyStep::Rollback => CopyStep::Fail,
        CopyStep::Succeed(n) => CopyStep::Succeed(n),
        CopyStep::Fail => CopyStep::Fail,
    }
}

/// What follows `step` in a copy of `rows` rows, from whether the step succeeded.
pub fn handle_pg_copy_from(step: CopyStep, succeeded: bool, rows: usize) -> (r: CopyStep)
    ensures
        r == step_after(step, succeeded, rows),
{
    match step {
        CopyStep::Begin => {
            if succeeded {
                CopyStep::PrepareInsert
            } else {
                CopyStep::Fail
            }
        },
        CopyStep::PrepareInsert => {
            if !succeeded {
                CopyStep::Rollback
            } else if rows > 0 {
                CopyStep::InsertRow(0)
            } else {
                CopyStep::Commit
            }
        },
        CopyStep::InsertRow(i) => {
            if !succeeded {
                CopyStep::Rollback
            } else if i < rows && i + 1 < rows {
                CopyStep::InsertRow(i + 1)
            } else {
                CopyStep::Commit
            }
        },
        CopyStep::Commit => {
            if succeeded {
                CopyStep::Succeed(rows)
            } else {
                CopyStep::Rollback
            }
        },
        CopyStep::Rollback => CopyStep::Fail,
        CopyStep::Succeed(n) => CopyStep::Succeed(n),
        CopyStep::Fail => CopyStep::Fail,
    }
}

/// The step that a copy of `rows` rows has come to after steps with the results
/// `results`.
pub open spec fn step_reached(results: Seq<bool>, rows: usize) -> CopyStep
    decreases results.len(),
{
    if results.len() == 0 {
        CopyStep::Begin
    } else {
        step_after(step_reached(results.drop_last(), rows), results.last(), rows)
    }
}

/// The step that a copy of `rows` rows has come to after `n` steps that all
/// succeeded.
pub open spec fn smooth_step(n: int, rows: usize) -> CopyStep {
    if n <= 0 {
        CopyStep::Begin
    } else if n == 1 {
        CopyStep::PrepareInsert
    } else if n < rows + 2 {
        CopyStep::InsertRow((n - 2) as usize)
    } else if n == rows + 2 {
        CopyStep::Commit
    } else {
        CopyStep::Succeed(rows)
    }
}

/// While every step succeeds, a copy begins a transaction, prepares the statement,
/// inserts each row once and in order, commits, and reports the number of rows.
pub proof fn smooth_copy_inserts_every_row(results: Seq<bool>, rows: usize)
    requires
        forall|i: int| 0 <= i < results.len() ==> #[trigger] results[i],
    ensures
        step_reached(results, rows) == smooth_step(results.len() as int, rows),
    decreases results.len(),
{
    if results.len() > 0 {
        smooth_copy_inserts_every_row(results.drop_last(), rows);
        assert(results.last());
    }
}

/// A copy reports success only where every step up to the commit succeeded.
pub proof fn success_means_every_step_succeeded(results: Seq<bool>, rows: usize)
    requires
        step_reached(results, rows) is Succeed,
    ensures
        step_reached(results, rows) == CopyStep::Succeed(rows),
        results.len() >= rows + 3,
        forall|i: int| 0 <= i < rows + 3 ==> #[trigger] results[i],
    decreases results.len(),
{
    let before = results.drop_last();
    lemma_open_copy(before, rows);
    if step_reached(before, rows) is Succeed {
        success_means_every_step_succeeded(before, rows);
        assert forall|i: int| 0 <= i < rows + 3 implies #[trigger] results[i] by {
            assert(before[i]);
        }
    } else {
        assert forall|i: int| 0 <= i < rows + 3 implies #[trigger] results[i] by {
            if i < before.len() {
                assert(before[i]);
            }
        }
    }
}

/// Whether the step lies between the begin of the transaction and its end.
pub open spec fn is_open(step: CopyStep) -> bool {
    step is Begin || step is PrepareInsert || step is InsertRow || step is Commit
}

proof fn lemma_open_copy(results: Seq<bool>, rows: usize)
    ensures
        is_open(step_reached(results, rows)) ==> {
            &&& step_reached(results, rows) == smooth_step(results.len() as int, rows)
            &&& results.len() < rows + 3
            &&& forall|i: int| 0 <= i < results.len() ==> #[trigger] results[i]
        },
    decreases results.len(),
{
    if results.len() > 0 {
        let before = results.drop_last();
        lemma_open_copy(before, rows);
        if is_open(step_reached(results, rows)) {
            assert(is_open(step_reached(before, rows)));
            assert forall|i: int| 0 <= i < results.len() implies #[trigger] results[i] by {
                if i < before.len() {
                    assert(before[i]);
                }
            }
        }
    }
}

/// A copy that reports an error either could not begin its transaction or went
/// through a rollback.
pub proof fn failed_copy_rolls_back(results: Seq<bool>, rows: usize)
    requires
        step_reached(results, rows) is Fail,
    ensures
        !results[0] || exists|n: int|
            0 <= n < results.len() && #[trigger] step_reached(results.take(n), rows) is Rollback,
    decreases results.len(),
{
    let before = results.drop_last();
    lemma_open_copy(before, rows);
    assert(before =~= results.take(results.len() - 1));
    match step_reached(before, rows) {
        CopyStep::Fail => {
            failed_copy_rolls_back(before, rows);
            if before[0] {
                let n = choose|n: int|
                    0 <= n < before.len() && #[trigger] step_reached(before.take(n), rows)
                        is Rollback;
                assert(before.take(n) =~= results.take(n));
            }
        },
        CopyStep::Rollback => {
            assert(step_reached(results.take(results.len() - 1), rows) is Rollback);
        },
        _ => {
            assert(before.len() == 0);
        },
    }
}

/// Every copy comes to its end, whatever its steps result in.
pub proof fn copy_ends(results: Seq<bool>, rows: usize)
    requires
        results.len() >= rows + 4,
    ensures
        step_reached(results, rows) is Succeed || step_reached(results, rows) is Fail,
    decreases results.len(),
{
    let before = results.drop_last();
    lemma_open_copy(before, rows);
    if results.len() > rows + 4 {
        copy_ends(before, rows);
    }
}

/// The number of rows that a copy reports to the engine.
pub fn copied_rows(rows: usize) -> (r: i64)
    ensures
        r == rows as i64,
        rows <= i64::MAX ==> r as int == rows as int,
{
    rows as i64
}

} // verus!
