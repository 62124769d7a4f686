use turso_postgres::copy::{
    copied_rows, copy_data, copy_plan, handle_pg_copy_from, row_bindings, rows_to_insert, CopyFrom,
    CopyStep,
};
use turso_postgres::error::SessionError;
use turso_postgres::prepare::{
    noop_statement, prepare_statement, try_prepare_special, CompiledStatement, CreateExtension,
    ParsedStatement, Preparation, PrepareAction, PrepareEvent, Recognised, SetStatement,
    SpecialAction,
};
use turso_postgres::schema::{
    begin_create_schema, begin_drop_schema, cleanup_dropped_schema_file, double_quotes,
    drop_all_tables_in_schema, dropped_schema_name, finish_create_schema, finish_drop_schema,
    get_table_columns, handle_pg_create_schema, handle_pg_drop_schema, handle_pg_drop_schema_public,
    list_user_tables, schema_exists, schema_file_name, schema_file_path, text_column, CreateSchema,
    DetachPlan, DropSchema, DropSchemaStep, SchemaFile, SchemaLookup,
};
use turso_postgres::statement::WriteTarget;
use turso_postgres::value::{BindValue, Value};

fn strings(list: &[&str]) -> Vec<String> {
    list.iter().map(|s| s.to_string()).collect()
}

fn parse_error(message: &str) -> SessionError {
    SessionError::ParseError(message.to_owned())
}

fn create(name: &str, if_not_exists: bool) -> CreateSchema {
    CreateSchema { name: name.to_owned(), if_not_exists }
}

fn drop_of(name: &str) -> DropSchema {
    DropSchema { name: name.to_owned(), if_exists: false, cascade: false }
}

fn lookup(name: &str) -> SchemaLookup {
    SchemaLookup {
        name: name.to_owned(),
        query: format!("SELECT 1 FROM pragma_database_list WHERE name = '{name}'"),
    }
}

#[test]
fn quotes_are_doubled() {
    assert_eq!(double_quotes("it's ''"), "it''s ''''");
    assert_eq!(double_quotes("plain"), "plain");
    assert_eq!(
        schema_exists("o'x"),
        "SELECT 1 FROM pragma_database_list WHERE name = 'o''x'"
    );
}

#[test]
fn schemas_are_created_once() {
    assert_eq!(handle_pg_create_schema(&create("Sales", false)), Ok(Some(lookup("sales"))));
    assert_eq!(handle_pg_create_schema(&create("ÄRGER", false)), Ok(Some(lookup("ärger"))));
    assert_eq!(handle_pg_create_schema(&create("PUBLIC", true)), Ok(None));
    assert_eq!(
        handle_pg_create_schema(&create("Public", false)),
        Err(parse_error("schema \"public\" already exists"))
    );
    assert_eq!(begin_create_schema("Sales", true), Ok(Some(lookup("Sales"))));
    assert_eq!(
        finish_create_schema("sales", false, false, "/data/it's.db"),
        Ok(Some("ATTACH '/data/it''s.db' AS \"sales\"".to_owned()))
    );
    assert_eq!(finish_create_schema("sales", true, true, "p"), Ok(None));
    assert_eq!(
        finish_create_schema("sales", false, true, "p"),
        Err(parse_error("schema \"sales\" already exists"))
    );
}

#[test]
fn schema_files_lie_beside_the_database() {
    assert_eq!(schema_file_name("sales"), "turso-postgres-schema-sales.db");
    assert_eq!(
        schema_file_path(":memory:", "s"),
        SchemaFile::At("turso-postgres-schema-s.db".to_owned())
    );
    assert_eq!(
        schema_file_path("dir/main.db", "s"),
        SchemaFile::Beside("turso-postgres-schema-s.db".to_owned())
    );
}

#[test]
fn schemas_are_dropped_if_they_are_there() {
    assert_eq!(handle_pg_drop_schema(&drop_of("PUBLIC")), DropSchemaStep::Public);
    assert_eq!(handle_pg_drop_schema(&drop_of("Sales")), DropSchemaStep::Look(lookup("sales")));
    assert_eq!(begin_drop_schema("Sales"), DropSchemaStep::Look(lookup("Sales")));
    assert_eq!(
        finish_drop_schema("s", false, true, true),
        Ok(Some(DetachPlan { drop_tables: true, detach: "DETACH \"s\"".to_owned() }))
    );
    assert_eq!(
        finish_drop_schema("s", true, false, true),
        Ok(Some(DetachPlan { drop_tables: false, detach: "DETACH \"s\"".to_owned() }))
    );
    assert_eq!(finish_drop_schema("s", true, true, false), Ok(None));
    assert_eq!(
        finish_drop_schema("s", false, true, false),
        Err(parse_error("schema \"s\" does not exist"))
    );
}

#[test]
fn the_public_schema_keeps_its_tables_unless_told() {
    assert_eq!(
        handle_pg_drop_schema_public(true, &strings(&["a", "b"])),
        Ok(strings(&["DROP TABLE \"a\"", "DROP TABLE \"b\""]))
    );
    assert_eq!(handle_pg_drop_schema_public(false, &vec![]), Ok(vec![]));
    assert_eq!(
        handle_pg_drop_schema_public(false, &strings(&["a"])),
        Err(parse_error("cannot drop schema \"public\" because other objects depend on it"))
    );
    assert_eq!(
        drop_all_tables_in_schema("s", &strings(&["a", "b"])),
        strings(&["DROP TABLE \"s\".\"a\"", "DROP TABLE \"s\".\"b\""])
    );
}

#[test]
fn tables_and_columns_are_asked_for() {
    assert_eq!(
        list_user_tables(&None),
        "SELECT name FROM sqlite_schema WHERE type='table' AND name NOT LIKE 'sqlite_%' \
         AND name NOT LIKE '__turso_internal_%'"
    );
    assert_eq!(
        list_user_tables(&Some("s".to_owned())),
        "SELECT name FROM \"s\".sqlite_schema WHERE type='table' AND name NOT LIKE 'sqlite_%' \
         AND name NOT LIKE '__turso_internal_%'"
    );
    assert_eq!(get_table_columns("t", &None), "PRAGMA table_info('t')");
    assert_eq!(get_table_columns("t", &Some("s".to_owned())), "PRAGMA \"s\".table_info('t')");
    let rows = vec![
        vec![Value::Integer(0), Value::Text("id".to_owned())],
        vec![Value::Integer(1)],
        vec![Value::Integer(2), Value::Null],
        vec![Value::Integer(3), Value::Text("name".to_owned())],
    ];
    assert_eq!(text_column(&rows, 1), strings(&["id", "name"]));
    assert_eq!(text_column(&rows, 0), Vec::<String>::new());
}

#[test]
fn dropped_schemas_are_seen_in_the_query() {
    for (query, name) in [
        ("DROP SCHEMA Sales", "sales"),
        ("  drop schema if exists sales cascade ", "sales"),
        ("drop schema \"Sales\"", "sales"),
        ("DROP SCHEMA sales;", "sales"),
        ("drop schema sales ;", "sales"),
        ("drop schema \"Sales\";", "sales"),
        ("drop schema \"a b\" cascade", "a b"),
        ("drop schema \"a;b\"", "a;b"),
        ("drop schema \"a\"\"b\"", "a\"b"),
        ("drop schema if exists\"s\"", "s"),
        ("drop schema\nIF  EXISTS\ts", "s"),
        ("drop schema \"if exists\"", "if exists"),
    ] {
        assert_eq!(
            cleanup_dropped_schema_file("dir/main.db", query),
            Some(format!("turso-postgres-schema-{name}.db")),
            "{query}"
        );
        assert_eq!(cleanup_dropped_schema_file(":memory:", query), None);
    }
    for query in [
        "drop schema public",
        "drop schema",
        "drop schema \"\"",
        "drop schema \"public\"",
        "drop schema \"open",
        "drop schema ;",
        "drop schema if exists",
        "drop table t",
        "drop  schema s",
        "select 'drop schema s'",
    ] {
        assert_eq!(cleanup_dropped_schema_file("dir/main.db", query), None, "{query}");
    }
    assert_eq!(dropped_schema_name("drop schema if x"), Some("if".to_owned()));
    assert_eq!(dropped_schema_name("DROP SCHEMA x"), None);
}

#[test]
fn ascii_words_settle_the_schema_whatever_follows() {
    for c in '\u{80}'..='\u{1ffff}' {
        assert_eq!(
            cleanup_dropped_schema_file("main.db", &format!("Drop Schema Sales ;{c}")),
            Some("turso-postgres-schema-sales.db".to_owned())
        );
    }
}

#[test]
fn a_dropped_schema_has_the_file_it_was_created_with() {
    let Ok(Some(found)) = handle_pg_create_schema(&create("Sales", false)) else {
        panic!("expected a lookup");
    };
    assert_eq!(
        schema_file_path("dir/main.db", &found.name),
        SchemaFile::Beside(
            cleanup_dropped_schema_file("dir/main.db", "DROP SCHEMA Sales CASCADE").unwrap()
        )
    );
}

fn copy_of() -> CopyFrom {
    CopyFrom {
        filename: "rows.txt".to_owned(),
        schema_name: None,
        table_name: "t".to_owned(),
        columns: None,
        delimiter: None,
        null_string: None,
        header: false,
    }
}

#[test]
fn a_copy_reads_its_file() {
    assert_eq!(copy_data(&copy_of(), Ok("1\t2".to_owned())), Ok("1\t2".to_owned()));
    assert_eq!(
        copy_data(&copy_of(), Err("no such file".to_owned())),
        Err(parse_error("COPY FROM: cannot read 'rows.txt': no such file"))
    );
}

#[test]
fn a_copy_inserts_into_the_columns_of_the_table() {
    let plan = copy_plan(&copy_of(), &strings(&["a", "b", "c"])).unwrap();
    assert_eq!(plan.insert_sql, "INSERT INTO \"t\" VALUES (?, ?, ?)");
    assert_eq!((plan.num_columns, plan.delimiter), (3, '\t'));
    assert_eq!(plan.null_string, "\\N");
    assert_eq!(
        copy_plan(&copy_of(), &vec![]),
        Err(parse_error("COPY FROM: table 't' not found or has no columns"))
    );
}

#[test]
fn a_copy_inserts_into_the_columns_it_names() {
    let stmt = CopyFrom {
        schema_name: Some("s".to_owned()),
        columns: Some(strings(&["b", "a"])),
        delimiter: Some(",;".to_owned()),
        null_string: Some("".to_owned()),
        ..copy_of()
    };
    let plan = copy_plan(&stmt, &strings(&["a", "b", "c"])).unwrap();
    assert_eq!(plan.insert_sql, "INSERT INTO \"s\".\"t\" (\"b\", \"a\") VALUES (?, ?)");
    assert_eq!((plan.num_columns, plan.delimiter), (2, ','));
    assert_eq!(plan.null_string, "");

    let odd = CopyFrom {
        columns: Some(vec![]),
        delimiter: Some("".to_owned()),
        ..copy_of()
    };
    let plan = copy_plan(&odd, &strings(&["a"])).unwrap();
    assert_eq!(plan.insert_sql, "INSERT INTO \"t\" () VALUES ()");
    assert_eq!((plan.num_columns, plan.delimiter), (0, '\t'));
}

#[test]
fn a_header_is_not_a_row() {
    let rows = || vec![vec![Some("id".to_owned())], vec![Some("1".to_owned())], vec![None]];
    let with_header = CopyFrom { header: true, ..copy_of() };
    assert_eq!(rows_to_insert(&with_header, rows()), rows()[1..].to_vec());
    assert_eq!(rows_to_insert(&with_header, vec![]), Vec::<Vec<Option<String>>>::new());
    assert_eq!(rows_to_insert(&copy_of(), rows()), rows());
}

#[test]
fn rows_are_bound_from_one() {
    let bindings = row_bindings(&vec![Some("x".to_owned()), None]);
    assert_eq!(bindings.len(), 2);
    assert_eq!((bindings[0].index, &bindings[0].value), (1, &BindValue::Text("x".to_owned())));
    assert_eq!((bindings[1].index, &bindings[1].value), (2, &BindValue::Null));
}

fn run(results: &[bool], rows: usize) -> Vec<CopyStep> {
    let mut steps = vec![CopyStep::Begin];
    for ok in results {
        steps.push(handle_pg_copy_from(*steps.last().unwrap(), *ok, rows));
    }
    steps
}

#[test]
fn a_copy_is_one_transaction() {
    assert_eq!(
        run(&[true; 6], 2),
        vec![
            CopyStep::Begin,
            CopyStep::PrepareInsert,
            CopyStep::InsertRow(0),
            CopyStep::InsertRow(1),
            CopyStep::Commit,
            CopyStep::Succeed(2),
            CopyStep::Succeed(2),
        ]
    );
    assert_eq!(
        run(&[true; 3], 0),
        vec![
            CopyStep::Begin,
            CopyStep::PrepareInsert,
            CopyStep::Commit,
            CopyStep::Succeed(0),
        ]
    );
    assert_eq!(run(&[false, true], 2), vec![CopyStep::Begin, CopyStep::Fail, CopyStep::Fail]);
    for failing in 1..5 {
        let mut results = vec![true; failing];
        results.extend([false, failing % 2 == 0]);
        let steps = run(&results, 2);
        assert_eq!(steps[steps.len() - 2..], [CopyStep::Rollback, CopyStep::Fail]);
    }
    assert_eq!(copied_rows(12), 12);
}

fn nothing() -> Recognised {
    Recognised {
        create_extension: Ok(None),
        set: None,
        show: None,
        create_schema: None,
        drop_schema: None,
        refresh_matview: false,
        comment_on: false,
        copy_from: None,
    }
}

fn action(recognised: Recognised) -> SpecialAction {
    try_prepare_special(recognised).unwrap().unwrap()
}

#[test]
fn some_statements_are_carried_out_by_the_session() {
    assert!(matches!(try_prepare_special(nothing()), Ok(None)));

    let install = |if_not_exists: bool| {
        action(Recognised { create_extension: Ok(Some(CreateExtension { if_not_exists })), ..nothing() })
    };
    let SpecialAction::PrepareInternalRoot(sql) = install(false) else {
        panic!("expected a statement");
    };
    assert_eq!(
        sql,
        "CREATE TABLE __turso_internal_pgvector_extension \
         (version TEXT NOT NULL DEFAULT '0.8.1')"
    );
    let SpecialAction::PrepareInternalRoot(sql) = install(true) else {
        panic!("expected a statement");
    };
    assert_eq!(
        sql,
        "CREATE TABLE IF NOT EXISTS __turso_internal_pgvector_extension \
         (version TEXT NOT NULL DEFAULT '0.8.1')"
    );

    let set = SetStatement { name: "cache_size".to_owned(), value: "5".to_owned() };
    let SpecialAction::Prepare(sql) = action(Recognised { set: Some(set), ..nothing() }) else {
        panic!("expected a statement");
    };
    assert_eq!(sql, "PRAGMA cache_size = 5");

    let show = Recognised { show: Some("cache_size".to_owned()), ..nothing() };
    let SpecialAction::Prepare(sql) = action(show) else {
        panic!("expected a statement");
    };
    assert_eq!(sql, "PRAGMA cache_size");

    let schema = Recognised { create_schema: Some(create("s", true)), ..nothing() };
    assert!(matches!(action(schema), SpecialAction::CreateSchema(c) if c.name == "s"));
    let schema = Recognised { drop_schema: Some(drop_of("s")), ..nothing() };
    assert!(matches!(action(schema), SpecialAction::DropSchema(d) if d.name == "s"));
    let refresh = Recognised { refresh_matview: true, ..nothing() };
    assert!(matches!(action(refresh), SpecialAction::Nothing));
    let comment = Recognised { comment_on: true, ..nothing() };
    assert!(matches!(action(comment), SpecialAction::Nothing));
    let copy = Recognised { copy_from: Some(copy_of()), ..nothing() };
    assert!(matches!(action(copy), SpecialAction::CopyFrom(c) if c.table_name == "t"));

    let refused = Recognised { create_extension: Err("unknown extension".to_owned()), ..nothing() };
    assert!(matches!(
        try_prepare_special(refused),
        Err(SessionError::ParseError(m)) if m == "unknown extension"
    ));
    assert_eq!(noop_statement(), "SELECT 0 WHERE 0");
}

fn refused(outcome: (Preparation, PrepareAction)) -> SessionError {
    assert!(matches!(outcome.0, Preparation::Decided));
    match outcome.1 {
        PrepareAction::Refuse(e) => e,
        _ => panic!("expected a refusal"),
    }
}

fn received(sql: &str) -> (Preparation, PrepareAction) {
    prepare_statement(Preparation::Received(sql.to_owned()), PrepareEvent::Start)
}

fn parsed_as(statement: ParsedStatement) -> (Preparation, PrepareAction) {
    prepare_statement(
        Preparation::Parsing("select 1".to_owned()),
        PrepareEvent::Parsed(Ok(statement)),
    )
}

fn plain() -> ParsedStatement {
    ParsedStatement {
        recognised: nothing(),
        relations: strings(&["t"]),
        uses_vector: false,
        vector_installed: false,
    }
}

#[test]
fn admitted_statements_get_to_the_engine() {
    let (stage, action) = received("  select 1\n");
    assert!(matches!(action, PrepareAction::Parse(sql) if sql == "select 1"));
    let (stage, action) = prepare_statement(stage, PrepareEvent::Parsed(Ok(plain())));
    assert!(matches!(action, PrepareAction::Compile));
    let compiled = CompiledStatement { target: WriteTarget::Nothing, catalog_table: false };
    let (stage, action) = prepare_statement(stage, PrepareEvent::Compiled(Ok(compiled)));
    assert!(matches!(action, PrepareAction::Prepare(sql) if sql == "select 1"));
    assert!(matches!(stage, Preparation::Decided));
    let (stage, action) = prepare_statement(stage, PrepareEvent::Start);
    assert!(matches!(stage, Preparation::Decided));
    assert!(matches!(action, PrepareAction::Ignore));
}

#[test]
fn other_statements_are_refused() {
    assert_eq!(
        refused(received(" \t")),
        SessionError::InvalidArgument("The supplied SQL string contains no statements".to_owned())
    );
    assert_eq!(
        refused(received("select * from sqlite_master")),
        parse_error("no such table: sqlite_master")
    );
    let syntax = prepare_statement(
        Preparation::Parsing("selct".to_owned()),
        PrepareEvent::Parsed(Err("syntax".to_owned())),
    );
    assert_eq!(refused(syntax), parse_error("syntax"));
    let internal = ParsedStatement { relations: strings(&["__turso_internal_x"]), ..plain() };
    assert_eq!(refused(parsed_as(internal)), parse_error("no such table: internal Turso catalog"));
    let vector = ParsedStatement { uses_vector: true, ..plain() };
    assert_eq!(
        refused(parsed_as(vector)),
        parse_error("type \"vector\" does not exist; run CREATE EXTENSION vector first")
    );
    let vector = ParsedStatement { uses_vector: true, vector_installed: true, ..plain() };
    assert!(matches!(parsed_as(vector).1, PrepareAction::Compile));
    let compile = |compiled: Result<CompiledStatement, String>| {
        prepare_statement(
            Preparation::Compiling("select 1".to_owned()),
            PrepareEvent::Compiled(compiled),
        )
    };
    assert_eq!(refused(compile(Err("unsupported".to_owned()))), parse_error("unsupported"));
    let write = CompiledStatement {
        target: WriteTarget::Update("pg_class".to_owned()),
        catalog_table: true,
    };
    assert_eq!(
        refused(compile(Ok(write))),
        parse_error("cannot update pg_catalog table \"pg_class\"")
    );
}

#[test]
fn special_statements_go_before_other_checks() {
    let copy = ParsedStatement {
        recognised: Recognised { copy_from: Some(copy_of()), ..nothing() },
        relations: strings(&["__turso_internal_x"]),
        uses_vector: true,
        vector_installed: false,
    };
    let (stage, action) = parsed_as(copy);
    assert!(matches!(stage, Preparation::Decided));
    assert!(matches!(action, PrepareAction::Special(SpecialAction::CopyFrom(_))));
}
