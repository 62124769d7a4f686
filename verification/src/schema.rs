//! Schemas: each is a database file of its own that is attached under the name
//! of the schema.

use vstd::prelude::*;
use vstd::utf8::is_ascii_chars;

use crate::error::{SessionError, SessionErrorView};
use crate::statement::texts;
use crate::text::{
    after_prefix, ascii_lower, chars_of, is_white_space, joined, lemma_trim_end, lowercase,
    lowers_ascii, same, string_of, strip_prefix, to_lowercase, trim, trim_end, trim_start, trimmed,
    white_space,
};
use crate::value::Value;

verus! {

/// `s` with every single quote doubled, as it stands between single quotes in a
/// statement.
pub open spec fn doubled_quotes(s: Seq<char>) -> Seq<char>
    decreases s.len(),
{
    if s.len() == 0 {
        s
    } else if s.last() == '\'' {
        doubled_quotes(s.drop_last()).push('\'').push('\'')
    } else {
        doubled_quotes(s.drop_last()).push(s.last())
    }
}

/// `text` with every single quote doubled.
pub fn double_quotes(text: &str) -> (r: String)
    ensures
        r@ == doubled_quotes(text@),
{
    let chars = chars_of(text);
    let mut out = String::new();
    let mut i: usize = 0;
    while i < chars.len()
        invariant
            i <= chars@.len(),
            out@ == doubled_quotes(chars@.take(i as int)),
        decreases chars.len() - i,
    {
        assert(chars@.take(i + 1).drop_last() =~= chars@.take(i as int));
        if chars[i] == '\'' {
            out.push('\'');
        }
        out.push(chars[i]);
        i = i + 1;
    }
    assert(chars@.take(chars@.len() as int) =~= chars@);
    out
}

/// What a statement means by `s` between single quotes, if no quote in it stands
/// alone: two quotes mean one.
pub open spec fn quoted_meaning(s: Seq<char>) -> Option<Seq<char>>
    decreases s.len(),
{
    if s.len() == 0 {
        Some(s)
    } else if s.last() != '\'' {
        match quoted_meaning(s.drop_last()) {
            Some(before) => Some(before.push(s.last())),
            None => None,
        }
    } else if s.len() >= 2 && s[s.len() - 2] == '\'' {
        match quoted_meaning(s.drop_last().drop_last()) {
            Some(before) => Some(before.push('\'')),
            None => None,
        }
    } else {
        None
    }
}

/// A text whose quotes were doubled means the text again when it stands between
/// single quotes.
pub proof fn doubled_quotes_mean_the_text(s: Seq<char>)
    ensures
        quoted_meaning(doubled_quotes(s)) == Some(s),
    decreases s.len(),
{
    if s.len() > 0 {
        doubled_quotes_mean_the_text(s.drop_last());
        let before = doubled_quotes(s.drop_last());
        assert(s.drop_last().push(s.last()) =~= s);
        if s.last() == '\'' {
            assert(before.push('\'').push('\'').drop_last().drop_last() =~= before);
        } else {
            assert(before.push(s.last()).drop_last() =~= before);
        }
    }
}

/// A `CREATE SCHEMA`.
pub struct CreateSchema {
    pub name: String,
    pub if_not_exists: bool,
}

/// A `DROP SCHEMA`.
pub struct DropSchema {
    pub name: String,
    pub if_exists: bool,
    pub cascade: bool,
}

/// A schema that is to be looked up: its name, and the statement whose rows tell
/// whether it is attached.
#[derive(Debug, PartialEq, Eq)]
pub struct SchemaLookup {
    pub name: String,
    pub query: String,
}

/// The statement that yields a row if a schema is attached.
pub open spec fn lookup_query(name: Seq<char>) -> Seq<char> {
    "SELECT 1 FROM pragma_database_list WHERE name = '"@ + doubled_quotes(name) + "'"@
}

/// The statement that yields a row if a schema is attached.
pub fn schema_exists(schema_name: &str) -> (r: String)
    ensures
        r@ == lookup_query(schema_name@),
{
    let mut sql = joined(
        "SELECT 1 FROM pragma_database_list WHERE name = '",
        double_quotes(schema_name).as_str(),
    );
    sql.append("'");
    sql
}

/// The error for a schema that is there already.
pub open spec fn schema_exists_error(name: Seq<char>) -> SessionErrorView {
    SessionErrorView::ParseError("schema \""@ + name + "\" already exists"@)
}

/// The error for a schema that is not there.
pub open spec fn no_schema_error(name: Seq<char>) -> SessionErrorView {
    SessionErrorView::ParseError("schema \""@ + name + "\" does not exist"@)
}

fn quoted_schema_error(name: &str, what: &str) -> (r: SessionError)
    ensures
        r@ == SessionErrorView::ParseError("schema \""@ + name@ + what@),
{
    let mut message = joined("schema \"", name);
    message.append(what);
    SessionError::ParseError(message)
}

/// How to begin to create the schema `name`: the schema `public` is always there,
/// any other is to be looked up first.
pub open spec fn create_begins(
    name: Seq<char>,
    if_not_exists: bool,
    r: Result<Option<SchemaLookup>, SessionError>,
) -> bool {
    match r {
        Ok(None) => name == "public"@ && if_not_exists,
        Ok(Some(lookup)) => {
            &&& name != "public"@
            &&& lookup.name@ == name
            &&& lookup.query@ == lookup_query(name)
        },
        Err(e) => name == "public"@ && !if_not_exists && e@ == schema_exists_error(name),
    }
}

/// Begin to create the schema whose name, in small letters, is `name`: nothing is
/// left to do, or the schema is to be looked up.
pub fn begin_create_schema(name: &str, if_not_exists: bool) -> (r: Result<
    Option<SchemaLookup>,
    SessionError,
>)
    ensures
        create_begins(name@, if_not_exists, r),
{
    if same(name, "public") {
        if if_not_exists {
            return Ok(None);
        }
        return Err(quoted_schema_error(name, "\" already exists"));
    }
    Ok(Some(SchemaLookup { name: name.to_owned(), query: schema_exists(name) }))
}

/// Begin to carry out a `CREATE SCHEMA`. Schema names are kept in small letters.
pub fn handle_pg_create_schema(stmt: &CreateSchema) -> (r: Result<
    Option<SchemaLookup>,
    SessionError,
>)
    ensures
        create_begins(lowercase(stmt.name@), stmt.if_not_exists, r),
        is_ascii_chars(stmt.name@) ==> create_begins(
            ascii_lower(stmt.name@),
            stmt.if_not_exists,
            r,
        ),
{
    let name = to_lowercase(stmt.name.as_str());
    begin_create_schema(name.as_str(), stmt.if_not_exists)
}

/// The statement that attaches the file at `path` as a schema.
pub open spec fn attach_statement(path: Seq<char>, name: Seq<char>) -> Seq<char> {
    "ATTACH '"@ + doubled_quotes(path) + "' AS \""@ + name + "\""@
}

/// Go on to create a schema that was looked up: the statement that attaches the
/// file at `path`, or nothing where the schema is there and may be.
pub fn finish_create_schema(name: &str, if_not_exists: bool, exists: bool, path: &str) -> (r: Result<
    Option<String>,
    SessionError,
>)
    ensures
        match r {
            Ok(Some(sql)) => !exists && sql@ == attach_statement(path@, name@),
            Ok(None) => exists && if_not_exists,
            Err(e) => exists && !if_not_exists && e@ == schema_exists_error(name@),
        },
{
    if exists {
        if if_not_exists {
            return Ok(None);
        }
        return Err(quoted_schema_error(name, "\" already exists"));
    }
    let mut sql = joined("ATTACH '", double_quotes(path).as_str());
    sql.append("' AS \"");
    sql.append(name);
    sql.append("\"");
    Ok(Some(sql))
}

/// The name of the file that holds a schema.
pub open spec fn file_name_of(schema_name: Seq<char>) -> Seq<char> {
    "turso-postgres-schema-"@ + schema_name + ".db"@
}

/// The name of the file that holds a schema.
pub fn schema_file_name(schema_name: &str) -> (r: String)
    ensures
        r@ == file_name_of(schema_name@),
{
    let mut name = joined("turso-postgres-schema-", schema_name);
    name.append(".db");
    name
}

/// Where the file of a schema lies.
#[derive(Debug, PartialEq, Eq)]
pub enum SchemaFile {
    /// At this path.
    At(String),
    /// Under this name, in the directory of the main database file.
    Beside(String),
}

/// Where the file of a schema lies, if the main database is at `main_path`.
pub fn schema_file_path(main_path: &str, schema_name: &str) -> (r: SchemaFile)
    ensures
        match r {
            SchemaFile::At(name) => main_path@ == ":memory:"@ && name@ == file_name_of(schema_name@),
            SchemaFile::Beside(name) => main_path@ != ":memory:"@ && name@ == file_name_of(
                schema_name@,
            ),
        },
{
    let name = schema_file_name(schema_name);
    if same(main_path, ":memory:") {
        SchemaFile::At(name)
    } else {
        SchemaFile::Beside(name)
    }
}

/// What to do first for a `DROP SCHEMA`.
#[derive(Debug, PartialEq, Eq)]
pub enum DropSchemaStep {
    /// Drop the tables of the schema `public`.
    Public,
    /// Look the schema up.
    Look(SchemaLookup),
}

/// How to begin to drop the schema `name`.
pub open spec fn drop_begins(name: Seq<char>, step: DropSchemaStep) -> bool {
    match step {
        DropSchemaStep::Public => name == "public"@,
        DropSchemaStep::Look(lookup) => {
            &&& name != "public"@
            &&& lookup.name@ == name
            &&& lookup.query@ == lookup_query(name)
        },
    }
}

/// Begin to drop the schema whose name, in small letters, is `name`.
pub fn begin_drop_schema(name: &str) -> (r: DropSchemaStep)
    ensures
        drop_begins(name@, r),
{
    if same(name, "public") {
        return DropSchemaStep::Public;
    }
    DropSchemaStep::Look(SchemaLookup { name: name.to_owned(), query: schema_exists(name) })
}

/// Begin to carry out a `DROP SCHEMA`. Schema names are kept in small letters.
pub fn handle_pg_drop_schema(stmt: &DropSchema) -> (r: DropSchemaStep)
    ensures
        drop_begins(lowercase(stmt.name@), r),
        is_ascii_chars(stmt.name@) ==> drop_begins(ascii_lower(stmt.name@), r),
{
    let name = to_lowercase(stmt.name.as_str());
    begin_drop_schema(name.as_str())
}

/// How to drop a schema that is there: whether its tables go first, and the
/// statement that detaches its file.
#[derive(Debug, PartialEq, Eq)]
pub struct DetachPlan {
    pub drop_tables: bool,
    pub detach: String,
}

/// Go on to drop a schema that was looked up.
pub fn finish_drop_schema(name: &str, if_exists: bool, cascade: bool, exists: bool) -> (r: Result<
    Option<DetachPlan>,
    SessionError,
>)
    ensures
        match r {
            Ok(Some(plan)) => {
                &&& exists
                &&& plan.drop_tables == cascade
                &&& plan.detach@ == "DETACH \""@ + name@ + "\""@
            },
            Ok(None) => !exists && if_exists,
            Err(e) => !exists && !if_exists && e@ == no_schema_error(name@),
        },
{
    if !exists {
        if if_exists {
            return Ok(None);
        }
        return Err(quoted_schema_error(name, "\" does not exist"));
    }
    let mut detach = joined("DETACH \"", name);
    detach.append("\"");
    Ok(Some(DetachPlan { drop_tables: cascade, detach }))
}

/// The statement that drops a table of the main database.
pub open spec fn drop_statement(table: Seq<char>) -> Seq<char> {
    "DROP TABLE \""@ + table + "\""@
}

/// The statement that drops a table of a schema.
pub open spec fn drop_statement_in(schema: Seq<char>, table: Seq<char>) -> Seq<char> {
    "DROP TABLE \""@ + schema + "\".\""@ + table + "\""@
}

/// Drop the schema `public`: the statements that drop its tables. It keeps its
/// tables, and the statement is refused, unless it says to drop what depends on
/// the schema.
pub fn handle_pg_drop_schema_public(cascade: bool, table_names: &Vec<String>) -> (r: Result<
    Vec<String>,
    SessionError,
>)
    ensures
        match r {
            Ok(statements) => {
                &&& cascade || table_names@.len() == 0
                &&& texts(statements@) == Seq::new(
                    table_names@.len(),
                    |i: int| drop_statement(table_names@[i]@),
                )
            },
            Err(e) => {
                &&& !cascade && table_names@.len() > 0
                &&& e@ == SessionErrorView::ParseError(
                    "cannot drop schema \"public\" because other objects depend on it"@,
                )
            },
        },
{
    if !cascade && table_names.len() > 0 {
        return Err(
            SessionError::ParseError(
                "cannot drop schema \"public\" because other objects depend on it".to_owned(),
            ),
        );
    }
    let mut statements: Vec<String> = Vec::new();
    let mut i: usize = 0;
    while i < table_names.len()
        invariant
            i <= table_names@.len(),
            statements@.len() == i,
            forall|j: int|
                0 <= j < i ==> (#[trigger] statements@[j])@ == drop_statement(table_names@[j]@),
        decreases table_names.len() - i,
    {
        let mut sql = joined("DROP TABLE \"", table_names[i].as_str());
        sql.append("\"");
        statements.push(sql);
        i = i + 1;
    }
    assert(texts(statements@) =~= Seq::new(
        table_names@.len(),
        |i: int| drop_statement(table_names@[i]@),
    ));
    Ok(statements)
}

/// The statements that drop the tables of a schema.
pub fn drop_all_tables_in_schema(schema_name: &str, table_names: &Vec<String>) -> (r: Vec<String>)
    ensures
        texts(r@) == Seq::new(
            table_names@.len(),
            |i: int| drop_statement_in(schema_name@, table_names@[i]@),
        ),
{
    let mut statements: Vec<String> = Vec::new();
    let mut i: usize = 0;
    while i < table_names.len()
        invariant
            i <= table_names@.len(),
            statements@.len() == i,
            forall|j: int|
                0 <= j < i ==> (#[trigger] statements@[j])@ == drop_statement_in(
                    schema_name@,
                    table_names@[j]@,
                ),
        decreases table_names.len() - i,
    {
        let mut sql = joined("DROP TABLE \"", schema_name);
        sql.append("\".\"");
        sql.append(table_names[i].as_str());
        sql.append("\"");
        statements.push(sql);
        i = i + 1;
    }
    assert(texts(statements@) =~= Seq::new(
        table_names@.len(),
        |i: int| drop_statement_in(schema_name@, table_names@[i]@),
    ));
    statements
}

/// The statement whose rows name the tables of the main database, or of a schema,
/// that are neither the engine's nor its catalog's.
pub fn list_user_tables(schema_name: &Option<String>) -> (r: String)
    ensures
        ({
            let filter =
                " WHERE type='table' AND name NOT LIKE 'sqlite_%' AND name NOT LIKE '__turso_internal_%'"@;
            r@ == match *schema_name {
                Some(name) => "SELECT name FROM \""@ + name@ + "\".sqlite_schema"@ + filter,
                None => "SELECT name FROM sqlite_schema"@ + filter,
            }
        }),
{
    let mut sql = match schema_name {
        Some(name) => {
            let mut from = joined("SELECT name FROM \"", name.as_str());
            from.append("\".sqlite_schema");
            from
        },
        None => "SELECT name FROM sqlite_schema".to_owned(),
    };
    sql.append(
        " WHERE type='table' AND name NOT LIKE 'sqlite_%' AND name NOT LIKE '__turso_internal_%'",
    );
    sql
}

/// The statement whose rows describe the columns of a table.
pub fn get_table_columns(table_name: &str, schema_name: &Option<String>) -> (r: String)
    ensures
        r@ == match *schema_name {
            Some(schema) => "PRAGMA \""@ + schema@ + "\".table_info('"@ + table_name@ + "')"@,
            None => "PRAGMA table_info('"@ + table_name@ + "')"@,
        },
{
    let mut sql = match schema_name {
        Some(schema) => {
            let mut pragma = joined("PRAGMA \"", schema.as_str());
            pragma.append("\".table_info('");
            pragma
        },
        None => "PRAGMA table_info('".to_owned(),
    };
    sql.append(table_name);
    sql.append("')");
    sql
}

/// The texts in column `column` of `rows`, other values left out.
pub open spec fn texts_in_column(rows: Seq<Vec<Value>>, column: int) -> Seq<Seq<char>>
    decreases rows.len(),
{
    if rows.len() == 0 {
        Seq::empty()
    } else {
        let before = texts_in_column(rows.drop_last(), column);
        let row = rows.last()@;
        if column < row.len() && row[column] is Text {
            before.push(row[column]->Text_0@)
        } else {
            before
        }
    }
}

/// The texts in a column of the rows that a statement yielded, other values left
/// out.
pub fn text_column(rows: &Vec<Vec<Value>>, column: usize) -> (r: Vec<String>)
    ensures
        texts(r@) == texts_in_column(rows@, column as int),
{
    let mut out: Vec<String> = Vec::new();
    let mut i: usize = 0;
    assert(texts(out@) =~= texts_in_column(rows@.take(0), column as int));
    while i < rows.len()
        invariant
            i <= rows@.len(),
            texts(out@) == texts_in_column(rows@.take(i as int), column as int),
        decreases rows.len() - i,
    {
        assert(rows@.take(i + 1).drop_last() =~= rows@.take(i as int));
        if column < rows[i].len() {
            if let Value::Text(text) = &rows[i][column] {
                let ghost before = out@;
                out.push(text.clone());
                assert(texts(out@) =~= texts(before).push(text@));
            }
        }
        i = i + 1;
    }
    assert(rows@.take(rows@.len() as int) =~= rows@);
    out
}

/// Whether a name without quotes ends before `c`.
pub open spec fn ends_word(c: char) -> bool {
    is_white_space(c) || c == ';'
}

/// The name without quotes that `s` begins with: its characters up to the first white
/// space or semicolon.
pub open spec fn first_word(s: Seq<char>) -> Seq<char>
    decreases s.len(),
{
    if s.len() == 0 || ends_word(s[0]) {
        Seq::empty()
    } else {
        seq![s[0]] + first_word(s.drop_first())
    }
}

/// The name that `s` holds up to a closing double quote, if there is one. Two double
/// quotes within the name mean one.
pub open spec fn quoted_name(s: Seq<char>) -> Option<Seq<char>>
    decreases s.len(),
{
    if s.len() == 0 {
        None
    } else if s[0] != '"' {
        match quoted_name(s.drop_first()) {
            Some(rest) => Some(seq![s[0]] + rest),
            None => None,
        }
    } else if s.len() > 1 && s[1] == '"' {
        match quoted_name(s.skip(2)) {
            Some(rest) => Some(seq!['"'] + rest),
            None => None,
        }
    } else {
        Some(Seq::empty())
    }
}

/// The name that `s` begins with, in double quotes or not.
pub open spec fn first_name(s: Seq<char>) -> Option<Seq<char>> {
    if s.len() > 0 && s[0] == '"' {
        quoted_name(s.drop_first())
    } else {
        Some(first_word(s))
    }
}

/// What follows the words `if exists` in `s`, whatever white space parts them, or `s`
/// itself where it does not begin with them.
pub open spec fn after_if_exists(s: Seq<char>) -> Seq<char> {
    match after_prefix(s, "if"@) {
        Some(behind) => if behind.len() > 0 && is_white_space(behind[0]) {
            match after_prefix(trimmed(behind), "exists"@) {
                Some(rest) => trimmed(rest),
                None => s,
            }
        } else {
            s
        },
        None => s,
    }
}

/// The schema whose name the statement `lower` in small letters drops, if it is a
/// `DROP SCHEMA` for a schema other than `public`.
pub open spec fn dropped_schema(lower: Seq<char>) -> Option<Seq<char>> {
    match after_prefix(lower, "drop schema"@) {
        Some(rest) => match first_name(after_if_exists(trimmed(rest))) {
            Some(name) => if name.len() == 0 || name == "public"@ {
                None
            } else {
                Some(name)
            },
            None => None,
        },
        None => None,
    }
}

fn word_at_start(chars: &Vec<char>) -> (r: String)
    ensures
        r@ == first_word(chars@),
{
    let mut end: usize = 0;
    let ghost s = chars@;
    assert(s.skip(0) =~= s);
    assert(s.take(0) + first_word(s) =~= first_word(s));
    while end < chars.len() && !white_space(chars[end]) && chars[end] != ';'
        invariant
            end <= chars@.len(),
            s == chars@,
            s.take(end as int) + first_word(s.skip(end as int)) == first_word(s),
        decreases chars.len() - end,
    {
        proof {
            assert(s.skip(end as int).drop_first() =~= s.skip(end + 1));
            assert(s.take(end as int) + (seq![s[end as int]] + first_word(s.skip(end + 1)))
                =~= s.take(end + 1) + first_word(s.skip(end + 1)));
        }
        end = end + 1;
    }
    assert(s.take(end as int) + Seq::<char>::empty() =~= s.subrange(0, end as int));
    string_of(chars, 0, end)
}

/// Whether `whole` is the name made up of `read` and `rest`, if the latter is there.
spec fn continues(whole: Option<Seq<char>>, read: Seq<char>, rest: Option<Seq<char>>) -> bool {
    match rest {
        Some(name) => whole == Some(read + name),
        None => whole is None,
    }
}

fn name_in_quotes(chars: &Vec<char>, from: usize) -> (r: Option<String>)
    requires
        from <= chars@.len(),
    ensures
        match r {
            Some(name) => quoted_name(chars@.skip(from as int)) == Some(name@),
            None => quoted_name(chars@.skip(from as int)) is None,
        },
{
    let ghost s = chars@;
    let ghost whole = quoted_name(s.skip(from as int));
    let mut name = String::new();
    let mut i: usize = from;
    proof {
        if let Some(all) = whole {
            assert(name@ + all =~= all);
        }
    }
    while i < chars.len()
        invariant
            i <= chars@.len(),
            s == chars@,
            whole == quoted_name(s.skip(from as int)),
            continues(whole, name@, quoted_name(s.skip(i as int))),
        decreases chars.len() - i,
    {
        let ghost before = name@;
        let c = chars[i];
        if c == '"' {
            if chars.len() - i < 2 || chars[i + 1] != '"' {
                assert(before + Seq::<char>::empty() =~= before);
                return Some(name);
            }
            assert(s.skip(i as int).skip(2) =~= s.skip(i + 2));
            i = i + 1;
        } else {
            assert(s.skip(i as int).drop_first() =~= s.skip(i + 1));
        }
        name.push(c);
        i = i + 1;
        proof {
            if let Some(rest) = quoted_name(s.skip(i as int)) {
                assert(before + (seq![c] + rest) =~= name@ + rest);
            }
        }
    }
    None
}

fn skip_if_exists(text: String) -> (r: String)
    ensures
        r@ == after_if_exists(text@),
{
    let behind = match strip_prefix(text.as_str(), "if") {
        Some(behind) => behind,
        None => {
            return text;
        },
    };
    let chars = chars_of(behind.as_str());
    if chars.len() == 0 || !white_space(chars[0]) {
        return text;
    }
    match strip_prefix(trim(behind.as_str()).as_str(), "exists") {
        Some(rest) => trim(rest.as_str()),
        None => text,
    }
}

/// The schema that a statement in small letters, without white space around it,
/// drops.
pub fn dropped_schema_name(lower: &str) -> (r: Option<String>)
    ensures
        match r {
            Some(name) => dropped_schema(lower@) == Some(name@),
            None => dropped_schema(lower@) is None,
        },
{
    let rest = match strip_prefix(lower, "drop schema") {
        Some(rest) => trim(rest.as_str()),
        None => {
            return None;
        },
    };
    let chars = chars_of(skip_if_exists(rest).as_str());
    let name = if chars.len() > 0 && chars[0] == '"' {
        assert(chars@.skip(1) =~= chars@.drop_first());
        match name_in_quotes(&chars, 1) {
            Some(name) => name,
            None => {
                return None;
            },
        }
    } else {
        word_at_start(&chars)
    };
    if name.as_str().is_empty() || same(name.as_str(), "public") {
        None
    } else {
        Some(name)
    }
}

/// Which file is to be deleted after the statement `lower`, in small letters,
/// succeeded.
pub open spec fn is_file_to_delete(db_file: Seq<char>, lower: Seq<char>, r: Option<String>) -> bool {
    match r {
        Some(file) => {
            &&& db_file != ":memory:"@
            &&& dropped_schema(lower) is Some
            &&& file@ == file_name_of(dropped_schema(lower)->0)
        },
        None => db_file == ":memory:"@ || dropped_schema(lower) is None,
    }
}

/// The name of the file to delete, in the directory of the database file, after
/// `query` succeeded: that of the schema it dropped. There is none for a database
/// in memory.
pub fn cleanup_dropped_schema_file(db_file: &str, query: &str) -> (r: Option<String>)
    ensures
        is_file_to_delete(db_file@, lowercase(trimmed(query@)), r),
        is_ascii_chars(trimmed(query@)) ==> is_file_to_delete(
            db_file@,
            ascii_lower(trimmed(query@)),
            r,
        ),
        lowers_ascii(trimmed(query@), lowercase(trimmed(query@))),
{
    let lower = to_lowercase(trim(query).as_str());
    if same(db_file, ":memory:") {
        return None;
    }
    match dropped_schema_name(lower.as_str()) {
        Some(name) => Some(schema_file_name(name.as_str())),
        None => None,
    }
}

/// Whether `s` is a name that needs no quotes.
pub open spec fn is_one_word(s: Seq<char>) -> bool {
    &&& s.len() > 0 && s[0] != '"'
    &&& forall|i: int| 0 <= i < s.len() ==> !ends_word(#[trigger] s[i])
}

/// Whether a name without quotes ends where `s` begins.
pub open spec fn is_apart(s: Seq<char>) -> bool {
    s.len() == 0 || ends_word(s[0])
}

/// `name` with every double quote doubled, as it stands between double quotes.
pub open spec fn doubled_double_quotes(name: Seq<char>) -> Seq<char>
    decreases name.len(),
{
    if name.len() == 0 {
        name
    } else if name[0] == '"' {
        seq!['"', '"'] + doubled_double_quotes(name.drop_first())
    } else {
        seq![name[0]] + doubled_double_quotes(name.drop_first())
    }
}

/// `name` in double quotes.
pub open spec fn in_quotes(name: Seq<char>) -> Seq<char> {
    seq!['"'] + doubled_double_quotes(name) + seq!['"']
}

/// Whether `word` is how `name` is written in a statement, in quotes or not, if `tail`
/// follows it.
pub open spec fn is_written(word: Seq<char>, name: Seq<char>, tail: Seq<char>) -> bool {
    ||| word == name && is_one_word(name) && is_apart(tail)
    ||| word == in_quotes(name) && (tail.len() == 0 || tail[0] != '"')
}

proof fn lemma_first_word(word: Seq<char>, tail: Seq<char>)
    requires
        forall|i: int| 0 <= i < word.len() ==> !ends_word(#[trigger] word[i]),
        is_apart(tail),
    ensures
        first_word(word + tail) == word,
    decreases word.len(),
{
    if word.len() == 0 {
        assert(word + tail =~= tail);
        assert(first_word(tail) =~= word);
    } else {
        let rest = word.drop_first();
        assert((word + tail)[0] == word[0]);
        assert((word + tail).drop_first() =~= rest + tail);
        assert forall|i: int| 0 <= i < rest.len() implies !ends_word(#[trigger] rest[i]) by {
            assert(rest[i] == word[i + 1]);
        }
        lemma_first_word(rest, tail);
        assert(seq![word[0]] + rest =~= word);
    }
}

proof fn lemma_quoted_name(name: Seq<char>, tail: Seq<char>)
    requires
        tail.len() == 0 || tail[0] != '"',
    ensures
        quoted_name(doubled_double_quotes(name) + seq!['"'] + tail) == Some(name),
    decreases name.len(),
{
    let s = doubled_double_quotes(name) + seq!['"'] + tail;
    if name.len() == 0 {
        assert(s =~= seq!['"'] + tail);
        assert(name =~= Seq::<char>::empty());
    } else {
        let rest = name.drop_first();
        lemma_quoted_name(rest, tail);
        let behind = doubled_double_quotes(rest) + seq!['"'] + tail;
        if name[0] == '"' {
            assert(s.skip(2) =~= behind);
        } else {
            assert(s.drop_first() =~= behind);
        }
        assert(seq![name[0]] + rest =~= name);
    }
}

proof fn lemma_written_name(word: Seq<char>, name: Seq<char>, tail: Seq<char>)
    requires
        is_written(word, name, tail),
    ensures
        first_name(word + tail) == Some(name),
        word.len() > 0 && !is_white_space(word[0]) && !is_white_space(word.last()),
{
    if word == in_quotes(name) {
        lemma_quoted_name(name, tail);
        assert((word + tail).drop_first() =~= doubled_double_quotes(name) + seq!['"'] + tail);
    }
    if word == name && is_one_word(name) && is_apart(tail) {
        lemma_first_word(name, tail);
        assert(!ends_word(word[0]));
        assert(!ends_word(word[word.len() - 1]));
    }
}

proof fn lemma_trimmed_end(head: Seq<char>, tail: Seq<char>) -> (kept: Seq<char>)
    requires
        head.len() > 0,
        !is_white_space(head.last()),
    ensures
        kept.is_prefix_of(tail),
        trim_end(head + tail) == head + kept,
    decreases tail.len(),
{
    if tail.len() == 0 {
        assert(head + tail =~= head);
        assert(tail =~= tail.subrange(0, 0));
        tail
    } else {
        assert((head + tail).last() == tail.last());
        if is_white_space(tail.last()) {
            assert((head + tail).drop_last() =~= head + tail.drop_last());
            let kept = lemma_trimmed_end(head, tail.drop_last());
            assert(kept =~= tail.subrange(0, kept.len() as int)) by {
                assert(kept =~= tail.drop_last().subrange(0, kept.len() as int));
            }
            kept
        } else {
            assert(tail =~= tail.subrange(0, tail.len() as int));
            tail
        }
    }
}

/// Whether `s` holds nothing but white space.
pub open spec fn is_space(s: Seq<char>) -> bool {
    forall|i: int| 0 <= i < s.len() ==> is_white_space(#[trigger] s[i])
}

proof fn lemma_space_goes(space: Seq<char>, rest: Seq<char>)
    requires
        is_space(space),
        rest.len() > 0,
        !is_white_space(rest[0]),
    ensures
        trim_start(space + rest) == rest,
    decreases space.len(),
{
    if space.len() == 0 {
        assert(space + rest =~= rest);
    } else {
        assert((space + rest).drop_first() =~= space.drop_first() + rest);
        assert((space + rest)[0] == space[0]);
        assert forall|i: int| 0 <= i < space.drop_first().len() implies is_white_space(
            #[trigger] space.drop_first()[i],
        ) by {
            assert(space.drop_first()[i] == space[i + 1]);
        }
        lemma_space_goes(space.drop_first(), rest);
    }
}

proof fn lemma_trimmed_after_space(space: Seq<char>, head: Seq<char>, tail: Seq<char>) -> (kept: Seq<
    char,
>)
    requires
        is_space(space),
        head.len() > 0,
        !is_white_space(head[0]),
        !is_white_space(head.last()),
    ensures
        kept.is_prefix_of(tail),
        trimmed(space + head + tail) == head + kept,
{
    assert(space + head + tail =~= space + (head + tail));
    assert((head + tail)[0] == head[0]);
    lemma_space_goes(space, head + tail);
    lemma_trimmed_end(head, tail)
}

proof fn lemma_still_written(word: Seq<char>, name: Seq<char>, tail: Seq<char>, kept: Seq<char>)
    requires
        is_written(word, name, tail),
        kept.is_prefix_of(tail),
    ensures
        is_written(word, name, kept),
{
    if kept.len() > 0 {
        assert(kept[0] == tail.subrange(0, kept.len() as int)[0]);
    }
}

proof fn lemma_shorter_trim_start(a: Seq<char>, b: Seq<char>)
    requires
        a.is_prefix_of(b),
        trim_start(a).len() > 0,
    ensures
        trim_start(a).is_prefix_of(trim_start(b)),
    decreases a.len(),
{
    assert(a[0] == b.subrange(0, a.len() as int)[0]);
    if is_white_space(a[0]) {
        assert(a.drop_first() =~= b.drop_first().subrange(0, a.len() - 1)) by {
            assert(a =~= b.subrange(0, a.len() as int));
        }
        lemma_shorter_trim_start(a.drop_first(), b.drop_first());
    }
}

proof fn lemma_exists_was_there(kept: Seq<char>, tail: Seq<char>)
    requires
        kept.is_prefix_of(tail),
        "exists"@.is_prefix_of(trimmed(kept)),
    ensures
        "exists"@.is_prefix_of(trim_start(tail)),
{
    reveal_strlit("exists");
    let start = trim_start(kept);
    lemma_trim_end(start);
    lemma_shorter_trim_start(kept, tail);
    assert("exists"@ =~= trimmed(kept).subrange(0, 6));
    assert(trimmed(kept) =~= start.subrange(0, trimmed(kept).len() as int));
    assert(start =~= trim_start(tail).subrange(0, start.len() as int));
    assert("exists"@ =~= trim_start(tail).subrange(0, 6));
}

/// A statement that drops a schema by its name, in quotes or not, names that schema,
/// whatever white space comes before the name and whatever follows it, unless the name is
/// `if`, stands without quotes, and `exists` follows.
pub proof fn drop_statement_names_the_schema_behind_any_space(
    space: Seq<char>,
    word: Seq<char>,
    name: Seq<char>,
    tail: Seq<char>,
)
    requires
        is_space(space),
        is_written(word, name, tail),
        name.len() > 0,
        name != "public"@,
        word == "if"@ ==> !"exists"@.is_prefix_of(trim_start(tail)),
    ensures
        dropped_schema("drop schema"@ + space + word + tail) == Some(name),
{
    reveal_strlit("if");
    lemma_written_name(word, name, tail);
    let prefix = "drop schema"@;
    let s = "drop schema"@ + space + word + tail;
    assert(prefix =~= s.subrange(0, prefix.len() as int));
    assert(s.skip(prefix.len() as int) =~= space + word + tail);
    let kept = lemma_trimmed_after_space(space, word, tail);
    lemma_still_written(word, name, tail, kept);
    lemma_written_name(word, name, kept);
    let rest = word + kept;
    if "if"@.is_prefix_of(rest) && rest.len() > 2 && is_white_space(rest[2]) {
        assert(rest[0] == rest.subrange(0, 2)[0] && rest[1] == rest.subrange(0, 2)[1]);
        assert(word[0] == 'i');
        assert(word == name && is_one_word(name) && is_apart(tail));
        if word.len() == 1 {
            assert(kept[0] == 'f');
        }
        if word.len() > 2 {
            assert(!ends_word(word[2]));
        }
        assert(word =~= "if"@);
        assert(rest.skip(2) =~= kept);
        if "exists"@.is_prefix_of(trimmed(kept)) {
            lemma_exists_was_there(kept, tail);
        }
    }
    if "if"@.is_prefix_of(rest) {
        assert(rest.skip(2).len() > 0 ==> rest.skip(2)[0] == rest[2]);
    }
}

/// So it does behind a single space.
pub proof fn drop_statement_names_the_schema(word: Seq<char>, name: Seq<char>, tail: Seq<char>)
    requires
        is_written(word, name, tail),
        name.len() > 0,
        name != "public"@,
        word == "if"@ ==> !"exists"@.is_prefix_of(trim_start(tail)),
    ensures
        dropped_schema("drop schema "@ + word + tail) == Some(name),
{
    reveal_strlit("drop schema ");
    reveal_strlit("drop schema");
    assert("drop schema "@ =~= "drop schema"@ + seq![' ']);
    drop_statement_names_the_schema_behind_any_space(seq![' '], word, name, tail);
}

/// So does a statement that says that the schema may be missing, whatever white space parts
/// its words.
pub proof fn cautious_drop_statement_names_the_schema_behind_any_space(
    first: Seq<char>,
    second: Seq<char>,
    third: Seq<char>,
    word: Seq<char>,
    name: Seq<char>,
    tail: Seq<char>,
)
    requires
        is_space(first),
        is_space(second) && second.len() > 0,
        is_space(third),
        is_written(word, name, tail),
        name.len() > 0,
        name != "public"@,
    ensures
        dropped_schema(
            "drop schema"@ + first + "if"@ + second + "exists"@ + third + word + tail,
        ) == Some(name),
{
    reveal_strlit("if");
    reveal_strlit("exists");
    lemma_written_name(word, name, tail);
    let prefix = "drop schema"@;
    let s = "drop schema"@ + first + "if"@ + second + "exists"@ + third + word + tail;
    let exists = "exists"@ + third + word;
    let head = "if"@ + second + exists;
    assert(prefix =~= s.subrange(0, prefix.len() as int));
    assert(s.skip(prefix.len() as int) =~= first + head + tail);
    assert(head.last() == word.last());
    let kept = lemma_trimmed_after_space(first, head, tail);
    let rest = head + kept;
    assert("if"@ =~= rest.subrange(0, 2));
    let behind = second + exists + kept;
    assert(rest.skip(2) =~= behind);
    assert(behind[0] == second[0]);
    assert(exists.last() == word.last());
    let left = lemma_trimmed_after_space(second, exists, kept);
    assert("exists"@ =~= (exists + left).subrange(0, 6));
    assert((exists + left).skip(6) =~= third + word + left);
    let last = lemma_trimmed_after_space(third, word, left);
    lemma_still_written(word, name, tail, kept);
    lemma_still_written(word, name, kept, left);
    lemma_still_written(word, name, left, last);
    lemma_written_name(word, name, last);
}

/// So it does with single spaces.
pub proof fn cautious_drop_statement_names_the_schema(
    word: Seq<char>,
    name: Seq<char>,
    tail: Seq<char>,
)
    requires
        is_written(word, name, tail),
        name.len() > 0,
        name != "public"@,
    ensures
        dropped_schema("drop schema if exists "@ + word + tail) == Some(name),
{
    reveal_strlit("drop schema if exists ");
    reveal_strlit("drop schema");
    reveal_strlit("if");
    reveal_strlit("exists");
    let one = seq![' '];
    assert("drop schema if exists "@ =~= "drop schema"@ + one + "if"@ + one + "exists"@ + one);
    cautious_drop_statement_names_the_schema_behind_any_space(one, one, one, word, name, tail);
}

proof fn lemma_space_is_blank(space: Seq<char>)
    requires
        is_space(space),
    ensures
        trimmed(space).len() == 0,
    decreases space.len(),
{
    if space.len() > 0 {
        assert(is_white_space(space[0]));
        let rest = space.drop_first();
        assert forall|i: int| 0 <= i < rest.len() implies is_white_space(#[trigger] rest[i]) by {
            assert(rest[i] == space[i + 1]);
        }
        lemma_space_is_blank(rest);
    }
}

/// A statement without a name names no schema, whether it says that the schema may be
/// missing or not.
pub proof fn no_name_names_no_schema(first: Seq<char>, second: Seq<char>, third: Seq<char>)
    requires
        is_space(first),
        is_space(second) && second.len() > 0,
        is_space(third),
    ensures
        dropped_schema("drop schema"@ + first) is None,
        dropped_schema("drop schema"@ + first + "if"@ + second + "exists"@ + third) is None,
{
    reveal_strlit("if");
    reveal_strlit("exists");
    let prefix = "drop schema"@;
    let bare = "drop schema"@ + first;
    assert(prefix =~= bare.subrange(0, prefix.len() as int));
    assert(bare.skip(prefix.len() as int) =~= first);
    lemma_space_is_blank(first);
    let s = "drop schema"@ + first + "if"@ + second + "exists"@ + third;
    let head = "if"@ + second + "exists"@;
    assert(prefix =~= s.subrange(0, prefix.len() as int));
    assert(s.skip(prefix.len() as int) =~= first + head + third);
    assert(head.last() == "exists"@[5]);
    let kept = lemma_trimmed_after_space(first, head, third);
    let rest = head + kept;
    assert("if"@ =~= rest.subrange(0, 2));
    assert(rest.skip(2) =~= second + "exists"@ + kept);
    assert(rest.skip(2)[0] == second[0]);
    let left = lemma_trimmed_after_space(second, "exists"@, kept);
    assert("exists"@ =~= ("exists"@ + left).subrange(0, 6));
    assert(("exists"@ + left).skip(6) =~= left);
    assert forall|i: int| 0 <= i < left.len() implies is_white_space(#[trigger] left[i]) by {
        assert(left[i] == kept.subrange(0, left.len() as int)[i]);
        assert(kept[i] == third.subrange(0, kept.len() as int)[i]);
        assert(is_white_space(third[i]));
    }
    lemma_space_is_blank(left);
}

proof fn lemma_open_quote(s: Seq<char>)
    requires
        !s.contains('"'),
    ensures
        quoted_name(s) is None,
    decreases s.len(),
{
    if s.len() > 0 {
        let rest = s.drop_first();
        assert(s.contains(s[0]));
        assert forall|i: int| 0 <= i < rest.len() implies rest[i] != '"' by {
            assert(s[i + 1] == rest[i]);
            assert(s.contains(s[i + 1]));
        }
        lemma_open_quote(rest);
    }
}

/// A statement with a quote that is never closed names no schema.
pub proof fn open_quote_names_no_schema(space: Seq<char>, rest: Seq<char>)
    requires
        is_space(space),
        !rest.contains('"'),
    ensures
        dropped_schema("drop schema"@ + space + seq!['"'] + rest) is None,
{
    reveal_strlit("if");
    let prefix = "drop schema"@;
    let quote = seq!['"'];
    let s = "drop schema"@ + space + quote + rest;
    assert(prefix =~= s.subrange(0, prefix.len() as int));
    assert(s.skip(prefix.len() as int) =~= space + quote + rest);
    let kept = lemma_trimmed_after_space(space, quote, rest);
    let text = quote + kept;
    if "if"@.is_prefix_of(text) {
        assert(text[0] == text.subrange(0, 2)[0]);
    }
    assert(text.drop_first() =~= kept);
    assert forall|i: int| 0 <= i < kept.len() implies kept[i] != '"' by {
        assert(kept[i] == rest.subrange(0, kept.len() as int)[i]);
        assert(rest.contains(rest[i]));
    }
    lemma_open_quote(kept);
}

} // verus!
