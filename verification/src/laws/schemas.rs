//! The statements and answers with which schemas are made and dropped.

use vstd::prelude::*;

use crate::error::{SessionError, SessionErrorView};
use crate::schema::{
    attach_statement, create_begins, doubled_double_quotes, doubled_quotes, drop_begins,
    drop_statement, drop_statement_in, dropped_schema, ends_word, file_name_of, is_file_to_delete,
    lookup_query, no_schema_error, schema_exists_error, texts_in_column, DropSchemaStep,
    SchemaLookup,
};
use crate::text::is_white_space;
use crate::value::Value;

verus! {

/// A text keeps its characters in order when its single quotes are doubled, and no other
/// character changes.
pub proof fn quotes_are_doubled_one_by_one(a: Seq<char>, b: Seq<char>, c: char)
    ensures
        doubled_quotes(Seq::empty()) == Seq::<char>::empty(),
        doubled_quotes(seq![c]) == if c == '\'' {
            seq!['\'', '\'']
        } else {
            seq![c]
        },
        doubled_quotes(a + b) == doubled_quotes(a) + doubled_quotes(b),
    decreases b.len(),
{
    assert(seq![c].drop_last() =~= Seq::<char>::empty());
    assert(doubled_quotes(seq![c].drop_last()) =~= Seq::<char>::empty());
    assert(doubled_quotes(seq![c]) =~= if c == '\'' {
        seq!['\'', '\'']
    } else {
        seq![c]
    });
    if b.len() == 0 {
        assert(a + b =~= a);
        assert(doubled_quotes(a) + doubled_quotes(b) =~= doubled_quotes(a));
    } else {
        assert((a + b).drop_last() =~= a + b.drop_last());
        quotes_are_doubled_one_by_one(a, b.drop_last(), c);
        assert(doubled_quotes(a + b) =~= doubled_quotes(a) + doubled_quotes(b));
    }
}

/// So does a name when its double quotes are doubled.
pub proof fn double_quotes_are_doubled_one_by_one(a: Seq<char>, b: Seq<char>, c: char)
    ensures
        doubled_double_quotes(Seq::empty()) == Seq::<char>::empty(),
        doubled_double_quotes(seq![c]) == if c == '"' {
            seq!['"', '"']
        } else {
            seq![c]
        },
        doubled_double_quotes(a + b) == doubled_double_quotes(a) + doubled_double_quotes(b),
    decreases a.len(),
{
    assert(seq![c].drop_first() =~= Seq::<char>::empty());
    assert(doubled_double_quotes(seq![c].drop_first()) =~= Seq::<char>::empty());
    assert(doubled_double_quotes(seq![c]) =~= if c == '"' {
        seq!['"', '"']
    } else {
        seq![c]
    });
    if a.len() == 0 {
        assert(a + b =~= b);
        assert(doubled_double_quotes(a) + doubled_double_quotes(b) =~= doubled_double_quotes(b));
    } else {
        assert((a + b).drop_first() =~= a.drop_first() + b);
        double_quotes_are_doubled_one_by_one(a.drop_first(), b, c);
        assert(doubled_double_quotes(a + b) =~= doubled_double_quotes(a) + doubled_double_quotes(
            b,
        ));
    }
}

/// A schema is looked up, attached, detached from its tables and found on disk by its own
/// name.
pub proof fn statements_name_the_schema(name: Seq<char>, path: Seq<char>, table: Seq<char>)
    ensures
        lookup_query(name) == "SELECT 1 FROM pragma_database_list WHERE name = '"@ + doubled_quotes(
            name,
        ) + "'"@,
        attach_statement(path, name) == "ATTACH '"@ + doubled_quotes(path) + "' AS \""@ + name
            + "\""@,
        file_name_of(name) == "turso-postgres-schema-"@ + name + ".db"@,
        drop_statement(table) == "DROP TABLE \""@ + table + "\""@,
        drop_statement_in(name, table) == "DROP TABLE \""@ + name + "\".\""@ + table + "\""@,
{
}

/// Two schemas never share a file.
pub proof fn each_schema_has_its_own_file(a: Seq<char>, b: Seq<char>)
    requires
        file_name_of(a) == file_name_of(b),
    ensures
        a == b,
{
    let head = "turso-postgres-schema-"@;
    let tail = ".db"@;
    assert(file_name_of(a).len() == head.len() + a.len() + tail.len());
    assert(file_name_of(b).len() == head.len() + b.len() + tail.len());
    assert forall|i: int| 0 <= i < a.len() implies a[i] == b[i] by {
        assert(file_name_of(a)[head.len() + i] == a[i]);
        assert(file_name_of(b)[head.len() + i] == b[i]);
    }
    assert(a =~= b);
}

/// The refusals quote the name of the schema.
pub proof fn refusals_quote_the_schema(name: Seq<char>)
    ensures
        schema_exists_error(name) == SessionErrorView::ParseError(
            "schema \""@ + name + "\" already exists"@,
        ),
        no_schema_error(name) == SessionErrorView::ParseError(
            "schema \""@ + name + "\" does not exist"@,
        ),
{
}

/// The schema `public` is there from the start: to make it does nothing if it may be there
/// and is refused otherwise. Any other schema is looked up by its name.
pub proof fn public_is_there_from_the_start(
    name: Seq<char>,
    if_not_exists: bool,
    r: Result<Option<SchemaLookup>, SessionError>,
)
    requires
        create_begins(name, if_not_exists, r),
    ensures
        r == Ok::<Option<SchemaLookup>, SessionError>(None) <==> name == "public"@ && if_not_exists,
        r is Err <==> name == "public"@ && !if_not_exists,
        r matches Err(e) ==> e@ == SessionErrorView::ParseError(
            "schema \""@ + name + "\" already exists"@,
        ),
        r matches Ok(Some(lookup)) ==> lookup.name@ == name && lookup.query@
            == "SELECT 1 FROM pragma_database_list WHERE name = '"@ + doubled_quotes(name) + "'"@,
{
}

/// To drop `public` is to drop its tables; any other schema is looked up by its name.
pub proof fn public_is_emptied_and_others_are_looked_up(name: Seq<char>, step: DropSchemaStep)
    requires
        drop_begins(name, step),
    ensures
        step is Public <==> name == "public"@,
        step matches DropSchemaStep::Look(lookup) ==> lookup.name@ == name && lookup.query@
            == "SELECT 1 FROM pragma_database_list WHERE name = '"@ + doubled_quotes(name) + "'"@,
{
}

/// The texts of a column come out row by row: a row with a text there gives that text, and
/// any other gives none.
pub proof fn texts_come_out_row_by_row(
    a: Seq<Vec<Value>>,
    b: Seq<Vec<Value>>,
    row: Vec<Value>,
    column: nat,
)
    ensures
        texts_in_column(Seq::empty(), column as int) == Seq::<Seq<char>>::empty(),
        column >= row@.len() ==> texts_in_column(seq![row], column as int) == Seq::<
            Seq<char>,
        >::empty(),
        column < row@.len() ==> texts_in_column(seq![row], column as int) == match row@[column as int] {
            Value::Text(text) => seq![text@],
            _ => Seq::<Seq<char>>::empty(),
        },
        texts_in_column(a + b, column as int) == texts_in_column(a, column as int)
            + texts_in_column(b, column as int),
    decreases b.len(),
{
    let k = column as int;
    let one = seq![row];
    assert(one.drop_last() =~= Seq::<Vec<Value>>::empty());
    assert(texts_in_column(one.drop_last(), k) =~= Seq::<Seq<char>>::empty());
    assert(one.last() == row);
    if column < row@.len() {
        if let Value::Text(text) = row@[k] {
            assert(texts_in_column(one, k) =~= seq![text@]);
        }
    }
    if b.len() == 0 {
        assert(a + b =~= a);
        assert(texts_in_column(a, k) + texts_in_column(b, k) =~= texts_in_column(a, k));
    } else {
        assert((a + b).drop_last() =~= a + b.drop_last());
        texts_come_out_row_by_row(a, b.drop_last(), row, column);
        assert(texts_in_column(a + b, k) =~= texts_in_column(a, k) + texts_in_column(b, k));
    }
}

/// A statement that does not begin with `drop schema` drops no schema, and none drops
/// `public` or a schema without a name.
pub proof fn only_drop_statements_drop_schemas(lower: Seq<char>)
    ensures
        dropped_schema(lower) is Some ==> "drop schema"@.is_prefix_of(lower),
        dropped_schema(lower) != Some("public"@),
        dropped_schema(lower) matches Some(name) ==> name.len() > 0,
{
}

/// A name without quotes ends before white space and before a semicolon, and nowhere else.
pub proof fn words_end_at_white_space_and_semicolons(c: char)
    ensures
        ends_word(c) <==> is_white_space(c) || c == ';',
{
}

/// The file to delete is that of the dropped schema, and there is none for a database in
/// memory or a statement that drops no schema.
pub proof fn the_file_of_the_dropped_schema_goes(
    db_file: Seq<char>,
    lower: Seq<char>,
    r: Option<String>,
)
    requires
        is_file_to_delete(db_file, lower, r),
    ensures
        r is None <==> db_file == ":memory:"@ || dropped_schema(lower) is None,
        r matches Some(file) ==> file@ == "turso-postgres-schema-"@ + dropped_schema(lower)->0
            + ".db"@,
{
}

} // verus!
