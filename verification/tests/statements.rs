use turso_postgres::command::{
    capitalised_command_tag, capitalised_is_non_query, command_tag, completion_tag, is_command,
    is_pg_non_query, CommandTag,
};
use turso_postgres::error::{error_info, SessionError};
use turso_postgres::metadata::{
    contains, infer_vector_assignment_parameters, parameter_metadata, InsertShape, ParameterFacts,
    PgParameterMetadata, RootStatement, UpdateShape, UpdateTarget,
};
use turso_postgres::server::{listening_message, server_step, ServerEvent, ServerStep};
use turso_postgres::statement::{
    pragma_update, query, query_text, reject_catalog_dml, reject_sqlite_catalog_access,
    split_statements, uses_internal_table, PgQueryRunner, WriteTarget,
};

fn strings(list: &[&str]) -> Vec<String> {
    list.iter().map(|s| s.to_string()).collect()
}

fn parse_error(message: &str) -> SessionError {
    SessionError::ParseError(message.to_owned())
}

#[test]
fn statements_are_those_of_the_parser() {
    let split = |sql: &str, parsed: Result<Vec<String>, String>| split_statements(sql, parsed).unwrap();
    assert_eq!(split("a; b", Ok(strings(&["a", "b"]))), strings(&["a", "b"]));
    assert_eq!(split("  what ", Err("syntax".to_owned())), strings(&["what"]));
    assert_eq!(split(" -- note ", Ok(vec![])), strings(&["-- note"]));
    assert_eq!(split("  ", Ok(vec![])), Vec::<String>::new());
    assert_eq!(split("  ", Err("syntax".to_owned())), strings(&[""]));
}

#[test]
fn the_runner_hands_out_statements_in_order() {
    let mut runner = PgQueryRunner::new("a; ;b", Ok(strings(&["a", " \t", "b"])));
    assert_eq!(runner.next_statement(), Some("a".to_owned()));
    assert_eq!(runner.next_statement(), Some("b".to_owned()));
    assert_eq!(runner.next_statement(), None);
    assert_eq!(runner.next_statement(), None);
    let mut blank = PgQueryRunner::new("  ", Err("syntax".to_owned()));
    assert_eq!(blank.next_statement(), None);
}

#[test]
fn queries_are_trimmed() {
    assert_eq!(query("\n SELECT 1 \u{3000}"), Some("SELECT 1".to_owned()));
    assert_eq!(query(" \t\u{a0}"), None);
    assert_eq!(query_text("größe".as_bytes()), "größe");
    assert_eq!(query_text(&[b'a', 0xff]), "");
}

#[test]
fn pragmas_are_written_out() {
    assert_eq!(pragma_update("cache_size", "100"), "PRAGMA cache_size = 100");
}

#[test]
fn the_catalog_of_the_engine_is_hidden() {
    assert_eq!(reject_sqlite_catalog_access("SELECT 1"), Ok(()));
    assert_eq!(
        reject_sqlite_catalog_access("select * from SQLITE_Master"),
        Err(parse_error("no such table: sqlite_master"))
    );
    assert_eq!(
        reject_sqlite_catalog_access("select 'sqlite_schema'"),
        Err(parse_error("no such table: sqlite_schema"))
    );
    assert_eq!(
        reject_sqlite_catalog_access("sqlite_schema sqlite_master"),
        Err(parse_error("no such table: sqlite_master"))
    );
}

#[test]
fn the_catalog_of_clients_is_read_only() {
    let name = "pg_class".to_owned();
    assert_eq!(
        reject_catalog_dml(&WriteTarget::Insert(name.clone()), true),
        Err(parse_error("cannot insert into pg_catalog table \"pg_class\""))
    );
    assert_eq!(
        reject_catalog_dml(&WriteTarget::Delete(name.clone()), true),
        Err(parse_error("cannot delete from pg_catalog table \"pg_class\""))
    );
    assert_eq!(
        reject_catalog_dml(&WriteTarget::Update(name.clone()), true),
        Err(parse_error("cannot update pg_catalog table \"pg_class\""))
    );
    assert_eq!(reject_catalog_dml(&WriteTarget::Update(name), false), Ok(()));
    assert_eq!(reject_catalog_dml(&WriteTarget::Nothing, true), Ok(()));
}

#[test]
fn internal_tables_are_known_by_their_prefix() {
    assert!(uses_internal_table(&strings(&["a", "__turso_internal_pgvector_extension"])));
    assert!(uses_internal_table(&strings(&["__turso_internal_"])));
    assert!(!uses_internal_table(&strings(&["a", "__TURSO_internal_x", "x__turso_internal_"])));
    assert!(!uses_internal_table(&vec![]));
}

fn tag(command: &str, oid: Option<u32>, rows: Option<usize>) -> CommandTag {
    CommandTag { command: command.to_owned(), oid, rows }
}

#[test]
fn commands_are_reported_by_their_first_words() {
    assert_eq!(command_tag("  insert into t values (1)", 3), tag("INSERT", Some(0), Some(3)));
    assert_eq!(command_tag("UPDATE t SET a = 1", 2), tag("UPDATE", None, Some(2)));
    assert_eq!(command_tag("delete from t", 1), tag("DELETE", None, Some(1)));
    assert_eq!(command_tag("TRUNCATE t", 9), tag("DELETE", None, Some(9)));
    assert_eq!(command_tag("copy t from 'f'", 4), tag("COPY", None, Some(4)));
    for (query, command) in [
        ("create view v as select 1", "CREATE VIEW"),
        ("create index i on t(a)", "CREATE INDEX"),
        ("create schema s", "CREATE SCHEMA"),
        ("create extension vector", "CREATE EXTENSION"),
        ("create table t(a int)", "CREATE TABLE"),
        ("create  view v as select 1", "CREATE TABLE"),
        ("drop view v", "DROP VIEW"),
        ("drop index i", "DROP INDEX"),
        ("drop schema s", "DROP SCHEMA"),
        ("drop table t", "DROP TABLE"),
        ("alter table t add b int", "ALTER TABLE"),
        ("begin", "BEGIN"),
        ("start transaction", "BEGIN"),
        ("commit", "COMMIT"),
        ("rollback", "ROLLBACK"),
        ("savepoint a", "SAVEPOINT"),
        ("release a", "RELEASE"),
        ("set a = 1", "SET"),
        ("comment on table t is 'x'", "COMMENT"),
        ("refresh materialized view v", "OK"),
        ("", "OK"),
    ] {
        assert_eq!(command_tag(query, 5), tag(command, None, None), "{query}");
    }
    assert_eq!(capitalised_command_tag("insert", 1), tag("OK", None, None));
    for query in [" insert into t ", "select 1", "Drop Schema s"] {
        assert_eq!(command_tag(query, 5), command_tag(&query.trim().to_uppercase(), 5));
    }
    assert_eq!(completion_tag("insert into t", 7), tag("INSERT", Some(0), Some(7)));
}

#[test]
fn ascii_words_settle_the_tag_whatever_follows() {
    for c in '\u{80}'..='\u{1ffff}' {
        assert_eq!(command_tag(&format!("Insert {c}"), 1), tag("INSERT", Some(0), Some(1)));
        assert!(is_pg_non_query(&format!("Comment {c}")));
    }
    let query = "insert into t values ('größe')";
    assert_eq!(command_tag(query, 2), tag("INSERT", Some(0), Some(2)));
    assert_eq!(command_tag(&query.to_uppercase(), 2), command_tag(query, 2));
}

#[test]
fn some_statements_are_commands_though_they_have_columns() {
    for sql in [
        " copy t from 'f'",
        "Create Schema s",
        "drop schema s",
        "refresh materialized view v",
        "comment on table t is 'x'",
    ] {
        assert!(is_pg_non_query(sql), "{sql}");
        assert!(is_command(1, sql));
    }
    assert!(!is_pg_non_query("select 1"));
    assert!(!is_command(1, "select 1"));
    assert!(is_command(0, "create table t(a int)"));
    assert!(capitalised_is_non_query("COPYRIGHT"));
    assert!(!capitalised_is_non_query("copy"));
}

fn facts(statement: RootStatement, vectors: Vec<usize>, count: usize) -> ParameterFacts {
    ParameterFacts {
        statement,
        vector_parameters: vectors,
        oid_parameters: vec![],
        parameter_count: count,
    }
}

fn items() -> Vec<String> {
    strings(&["bigint", "vector"])
}

#[test]
fn pgvector_parameter_inference_uses_assignment_context() {
    // INSERT INTO items (id, embedding) VALUES ($1, $2)
    let insert = parameter_metadata(Ok(facts(
        RootStatement::Insert(InsertShape {
            table: Some(items()),
            columns: vec![Some("bigint".to_owned()), Some("vector".to_owned())],
            rows: Some(vec![Some(vec![Some(1), Some(2)])]),
        }),
        vec![],
        2,
    )))
    .unwrap();
    assert_eq!(insert.parameter_count, 2);
    assert_eq!(insert.vector_parameters, vec![2]);

    // UPDATE items SET embedding = $2 WHERE id = $1
    let update = parameter_metadata(Ok(facts(
        RootStatement::Update(UpdateShape {
            table: true,
            targets: vec![Some(UpdateTarget {
                column: Some("vector".to_owned()),
                value: Some(2),
            })],
        }),
        vec![],
        2,
    )))
    .unwrap();
    assert_eq!(update.parameter_count, 2);
    assert_eq!(update.vector_parameters, vec![2]);
}

#[test]
fn inference_goes_by_the_columns_of_the_table() {
    let mut found: Vec<usize> = vec![4];
    infer_vector_assignment_parameters(
        &RootStatement::Insert(InsertShape {
            table: Some(items()),
            columns: vec![],
            rows: Some(vec![
                Some(vec![Some(1), Some(3), Some(9)]),
                None,
                Some(vec![Some(2), Some(4)]),
                Some(vec![None, Some(0)]),
                Some(vec![None, Some(-1)]),
                Some(vec![Some(7)]),
            ]),
        }),
        &mut found,
    );
    assert_eq!(found, vec![4, 3]);

    // A column that the table does not have is passed over.
    let mut found: Vec<usize> = vec![];
    infer_vector_assignment_parameters(
        &RootStatement::Insert(InsertShape {
            table: Some(items()),
            columns: vec![None, Some("VECTOR".to_owned())],
            rows: Some(vec![Some(vec![Some(1), Some(2)])]),
        }),
        &mut found,
    );
    assert_eq!(found, vec![1]);

    for nothing in [
        RootStatement::Other,
        RootStatement::Insert(InsertShape { table: None, columns: vec![], rows: Some(vec![]) }),
        RootStatement::Insert(InsertShape { table: Some(items()), columns: vec![], rows: None }),
        RootStatement::Update(UpdateShape {
            table: false,
            targets: vec![Some(UpdateTarget {
                column: Some("vector".to_owned()),
                value: Some(1),
            })],
        }),
        RootStatement::Update(UpdateShape {
            table: true,
            targets: vec![
                None,
                Some(UpdateTarget { column: None, value: Some(1) }),
                Some(UpdateTarget { column: Some("bigint".to_owned()), value: Some(1) }),
                Some(UpdateTarget { column: Some("vector".to_owned()), value: None }),
            ],
        }),
    ] {
        let mut found: Vec<usize> = vec![];
        infer_vector_assignment_parameters(&nothing, &mut found);
        assert_eq!(found, Vec::<usize>::new());
    }
}

#[test]
fn metadata_is_in_order() {
    let metadata = parameter_metadata(Ok(ParameterFacts {
        statement: RootStatement::Update(UpdateShape {
            table: true,
            targets: vec![Some(UpdateTarget {
                column: Some("vector".to_owned()),
                value: Some(2),
            })],
        }),
        vector_parameters: vec![5, 3, 1],
        oid_parameters: vec![9, 8],
        parameter_count: 9,
    }));
    assert_eq!(
        metadata,
        Ok(PgParameterMetadata {
            vector_parameters: vec![1, 2, 3, 5],
            oid_parameters: vec![9, 8],
            parameter_count: 9,
        })
    );
    let metadata = metadata.unwrap();
    assert_eq!(metadata.clone(), metadata);
    assert_eq!(parameter_metadata(Err("syntax".to_owned())), Err(parse_error("syntax")));
    assert!(contains(&vec![1, 2], 2));
    assert!(!contains(&vec![1, 2], 3));
}

#[test]
fn the_server_stops_when_asked() {
    let step = |serve: bool, stop: Option<&str>| ServerStep {
        serve,
        stop: stop.map(|s| s.to_owned()),
    };
    assert_eq!(server_step(ServerEvent::Accepted, 0), step(true, None));
    assert_eq!(server_step(ServerEvent::AcceptFailed, 0), step(false, None));
    assert_eq!(
        server_step(ServerEvent::Accepted, 1),
        step(true, Some("Shutting down PostgreSQL server..."))
    );
    assert_eq!(
        server_step(ServerEvent::CtrlC, 1),
        step(false, Some("\nShutting down PostgreSQL server..."))
    );
    assert_eq!(
        listening_message("127.0.0.1:5432", "my.db"),
        "PostgreSQL server listening on 127.0.0.1:5432 (database: my.db)"
    );
}

#[test]
fn errors_are_internal_to_clients() {
    let error = error_info("boom");
    assert_eq!(
        (error.severity.as_str(), error.code.as_str(), error.message.as_str()),
        ("ERROR", "XX000", "boom")
    );
}
