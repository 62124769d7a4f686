//! How a statement comes to be prepared: which statements the session carries out
//! itself, which it refuses, and which it hands to the engine.

use vstd::prelude::*;

use crate::copy::CopyFrom;
use crate::error::{SessionError, SessionErrorView};
use crate::pgvector::{INSTALLATION_MARKER, VERSION};
use crate::schema::{CreateSchema, DropSchema};
use crate::statement::{
    catalog_refusal, names_internal_table, pragma_update, reject_catalog_dml,
    reject_sqlite_catalog_access, uses_internal_table, write_refusal, WriteTarget,
};
use crate::text::{joined, trim, trimmed};

verus! {

/// A `CREATE EXTENSION vector`.
pub struct CreateExtension {
    pub if_not_exists: bool,
}

/// A `SET`.
pub struct SetStatement {
    pub name: String,
    pub value: String,
}

/// What the parser recognised in a statement of the kinds that the session carries
/// out itself.
pub struct Recognised {
    /// A `CREATE EXTENSION`, or why it is refused.
    pub create_extension: Result<Option<CreateExtension>, String>,
    pub set: Option<SetStatement>,
    /// The setting that a `SHOW` names.
    pub show: Option<String>,
    pub create_schema: Option<CreateSchema>,
    pub drop_schema: Option<DropSchema>,
    pub refresh_matview: bool,
    pub comment_on: bool,
    pub copy_from: Option<CopyFrom>,
}

/// What the session does for a statement that it carries out itself.
pub enum SpecialAction {
    /// Prepare this statement with access to the engine's own tables.
    PrepareInternalRoot(String),
    /// Prepare this statement in the engine's own dialect.
    Prepare(String),
    /// Create a schema, and prepare a statement that does nothing.
    CreateSchema(CreateSchema),
    /// Drop a schema, and prepare a statement that does nothing.
    DropSchema(DropSchema),
    /// Copy from a file, and prepare a statement that does nothing but report the
    /// number of rows.
    CopyFrom(CopyFrom),
    /// Prepare a statement that does nothing.
    Nothing,
}

/// What a [`SpecialAction`] says.
pub enum SpecialActionView {
    PrepareInternalRoot(Seq<char>),
    Prepare(Seq<char>),
    CreateSchema(CreateSchema),
    DropSchema(DropSchema),
    CopyFrom(CopyFrom),
    Nothing,
}

impl View for SpecialAction {
    type V = SpecialActionView;

    open spec fn view(&self) -> SpecialActionView {
        match *self {
            SpecialAction::PrepareInternalRoot(sql) => SpecialActionView::PrepareInternalRoot(sql@),
            SpecialAction::Prepare(sql) => SpecialActionView::Prepare(sql@),
            SpecialAction::CreateSchema(stmt) => SpecialActionView::CreateSchema(stmt),
            SpecialAction::DropSchema(stmt) => SpecialActionView::DropSchema(stmt),
            SpecialAction::CopyFrom(stmt) => SpecialActionView::CopyFrom(stmt),
            SpecialAction::Nothing => SpecialActionView::Nothing,
        }
    }
}

/// The statement that marks the vector extension as installed.
pub open spec fn installation_statement(if_not_exists: bool) -> Seq<char> {
    "CREATE TABLE "@ + (if if_not_exists {
        "IF NOT EXISTS "@
    } else {
        ""@
    }) + INSTALLATION_MARKER@ + " (version TEXT NOT NULL DEFAULT '"@ + VERSION@ + "')"@
}

fn install_extension(if_not_exists: bool) -> (r: String)
    ensures
        r@ == installation_statement(if_not_exists),
{
    let condition = if if_not_exists {
        "IF NOT EXISTS "
    } else {
        ""
    };
    let mut sql = joined("CREATE TABLE ", condition);
    sql.append(INSTALLATION_MARKER);
    sql.append(" (version TEXT NOT NULL DEFAULT '");
    sql.append(VERSION);
    sql.append("')");
    sql
}

/// The statement that is prepared where there is nothing to run.
pub fn noop_statement() -> (r: String)
    ensures
        r@ == "SELECT 0 WHERE 0"@,
{
    "SELECT 0 WHERE 0".to_owned()
}

/// What the session does itself for a statement, if anything, or why it refuses to.
pub open spec fn special_action(recognised: Recognised) -> Result<
    Option<SpecialActionView>,
    SessionErrorView,
> {
    match recognised.create_extension {
        Err(reason) => Err(SessionErrorView::ParseError(reason@)),
        Ok(Some(stmt)) => Ok(
            Some(SpecialActionView::PrepareInternalRoot(installation_statement(stmt.if_not_exists))),
        ),
        Ok(None) => if let Some(stmt) = recognised.set {
            Ok(Some(SpecialActionView::Prepare("PRAGMA "@ + stmt.name@ + " = "@ + stmt.value@)))
        } else if let Some(name) = recognised.show {
            Ok(Some(SpecialActionView::Prepare("PRAGMA "@ + name@)))
        } else if let Some(stmt) = recognised.create_schema {
            Ok(Some(SpecialActionView::CreateSchema(stmt)))
        } else if let Some(stmt) = recognised.drop_schema {
            Ok(Some(SpecialActionView::DropSchema(stmt)))
        } else if recognised.refresh_matview || recognised.comment_on {
            Ok(Some(SpecialActionView::Nothing))
        } else if let Some(stmt) = recognised.copy_from {
            Ok(Some(SpecialActionView::CopyFrom(stmt)))
        } else {
            Ok(None)
        },
    }
}

/// What the session does itself for a statement in which the parser recognised
/// `recognised`.
pub fn try_prepare_special(recognised: Recognised) -> (r: Result<
    Option<SpecialAction>,
    SessionError,
>)
    ensures
        match r {
            Ok(Some(action)) => special_action(recognised) == Ok::<
                Option<SpecialActionView>,
                SessionErrorView,
            >(Some(action@)),
            Ok(None) => special_action(recognised) == Ok::<
                Option<SpecialActionView>,
                SessionErrorView,
            >(None),
            Err(e) => special_action(recognised) == Err::<
                Option<SpecialActionView>,
                SessionErrorView,
            >(e@),
        },
{
    match recognised.create_extension {
        Err(reason) => {
            return Err(SessionError::ParseError(reason));
        },
        Ok(Some(stmt)) => {
            return Ok(
                Some(SpecialAction::PrepareInternalRoot(install_extension(stmt.if_not_exists))),
            );
        },
        Ok(None) => {},
    }
    if let Some(stmt) = recognised.set {
        return Ok(
            Some(SpecialAction::Prepare(pragma_update(stmt.name.as_str(), stmt.value.as_str()))),
        );
    }
    if let Some(name) = recognised.show {
        return Ok(Some(SpecialAction::Prepare(joined("PRAGMA ", name.as_str()))));
    }
    if let Some(stmt) = recognised.create_schema {
        return Ok(Some(SpecialAction::CreateSchema(stmt)));
    }
    if let Some(stmt) = recognised.drop_schema {
        return Ok(Some(SpecialAction::DropSchema(stmt)));
    }
    if recognised.refresh_matview || recognised.comment_on {
        return Ok(Some(SpecialAction::Nothing));
    }
    if let Some(stmt) = recognised.copy_from {
        return Ok(Some(SpecialAction::CopyFrom(stmt)));
    }
    Ok(None)
}

/// A statement as the parser read it.
pub struct ParsedStatement {
    pub recognised: Recognised,
    /// The tables that the statement names.
    pub relations: Vec<String>,
    /// Whether the statement uses the syntax of the vector extension.
    pub uses_vector: bool,
    /// Whether the vector extension is installed.
    pub vector_installed: bool,
}

/// A statement as it was compiled for the engine.
pub struct CompiledStatement {
    pub target: WriteTarget,
    /// Whether the table that it writes to belongs to the catalog that clients see.
    pub catalog_table: bool,
}

/// How far the preparation of a statement has come.
pub enum Preparation {
    /// The statement was not looked at yet.
    Received(String),
    /// The parser reads the statement.
    Parsing(String),
    /// The statement is compiled for the engine.
    Compiling(String),
    /// There is nothing left to decide.
    Decided,
}

/// What the preparation of a statement waits for.
pub enum PrepareEvent {
    Start,
    /// What the parser made of the statement.
    Parsed(Result<ParsedStatement, String>),
    /// What the compiler made of the statement.
    Compiled(Result<CompiledStatement, String>),
}

/// What is to be done next to prepare a statement.
pub enum PrepareAction {
    /// Let the parser read this statement.
    Parse(String),
    /// Carry out a statement of the kinds that the session carries out itself.
    Special(SpecialAction),
    /// Compile the statement that was parsed.
    Compile,
    /// Run what the statement needs first, then prepare it for the engine, with
    /// this as its text.
    Prepare(String),
    /// Refuse the statement.
    Refuse(SessionError),
    /// Nothing: the event does not fit.
    Ignore,
}

/// What a [`PrepareAction`] says.
pub enum PrepareActionView {
    Parse(Seq<char>),
    Special(SpecialActionView),
    Compile,
    Prepare(Seq<char>),
    Refuse(SessionErrorView),
    Ignore,
}

impl View for PrepareAction {
    type V = PrepareActionView;

    open spec fn view(&self) -> PrepareActionView {
        match *self {
            PrepareAction::Parse(sql) => PrepareActionView::Parse(sql@),
            PrepareAction::Special(action) => PrepareActionView::Special(action@),
            PrepareAction::Compile => PrepareActionView::Compile,
            PrepareAction::Prepare(sql) => PrepareActionView::Prepare(sql@),
            PrepareAction::Refuse(e) => PrepareActionView::Refuse(e@),
            PrepareAction::Ignore => PrepareActionView::Ignore,
        }
    }
}

/// What to do with a statement that was received.
pub open spec fn when_received(sql: Seq<char>) -> PrepareActionView {
    let text = trimmed(sql);
    if text.len() == 0 {
        PrepareActionView::Refuse(
            SessionErrorView::InvalidArgument("The supplied SQL string contains no statements"@),
        )
    } else if let Some(e) = catalog_refusal(text) {
        PrepareActionView::Refuse(e)
    } else {
        PrepareActionView::Parse(text)
    }
}

/// What to do with a statement that was parsed.
pub open spec fn when_parsed(parsed: Result<ParsedStatement, String>) -> PrepareActionView {
    match parsed {
        Err(reason) => PrepareActionView::Refuse(SessionErrorView::ParseError(reason@)),
        Ok(statement) => match special_action(statement.recognised) {
            Err(e) => PrepareActionView::Refuse(e),
            Ok(Some(action)) => PrepareActionView::Special(action),
            Ok(None) => if names_internal_table(statement.relations@) {
                PrepareActionView::Refuse(
                    SessionErrorView::ParseError("no such table: internal Turso catalog"@),
                )
            } else if statement.uses_vector && !statement.vector_installed {
                PrepareActionView::Refuse(
                    SessionErrorView::ParseError(
                        "type \"vector\" does not exist; run CREATE EXTENSION vector first"@,
                    ),
                )
            } else {
                PrepareActionView::Compile
            },
        },
    }
}

/// What to do with the statement `sql` that was compiled.
pub open spec fn when_compiled(
    sql: Seq<char>,
    compiled: Result<CompiledStatement, String>,
) -> PrepareActionView {
    match compiled {
        Err(reason) => PrepareActionView::Refuse(SessionErrorView::ParseError(reason@)),
        Ok(statement) => match write_refusal(statement.target, statement.catalog_table) {
            Some(e) => PrepareActionView::Refuse(e),
            None => PrepareActionView::Prepare(sql),
        },
    }
}

/// What to do next to prepare a statement.
pub open spec fn next_action(stage: Preparation, event: PrepareEvent) -> PrepareActionView {
    match (stage, event) {
        (Preparation::Received(sql), PrepareEvent::Start) => when_received(sql@),
        (Preparation::Parsing(_), PrepareEvent::Parsed(parsed)) => when_parsed(parsed),
        (Preparation::Compiling(sql), PrepareEvent::Compiled(compiled)) => when_compiled(
            sql@,
            compiled,
        ),
        _ => PrepareActionView::Ignore,
    }
}

/// How far the preparation has come when `action` is to be done next, if it had
/// come as far as `before`.
pub open spec fn stage_follows(
    before: Preparation,
    action: PrepareActionView,
    after: Preparation,
) -> bool {
    match action {
        PrepareActionView::Parse(sql) => after matches Preparation::Parsing(text) && text@ == sql,
        PrepareActionView::Compile => match before {
            Preparation::Parsing(sql) => after == Preparation::Compiling(sql),
            _ => true,
        },
        PrepareActionView::Ignore => after == before,
        _ => after is Decided,
    }
}

fn act_on_parsed(parsed: Result<ParsedStatement, String>) -> (r: PrepareAction)
    ensures
        r@ == when_parsed(parsed),
{
    let statement = match parsed {
        Ok(statement) => statement,
        Err(reason) => {
            return PrepareAction::Refuse(SessionError::ParseError(reason));
        },
    };
    match try_prepare_special(statement.recognised) {
        Err(e) => {
            return PrepareAction::Refuse(e);
        },
        Ok(Some(action)) => {
            return PrepareAction::Special(action);
        },
        Ok(None) => {},
    }
    if uses_internal_table(&statement.relations) {
        return PrepareAction::Refuse(
            SessionError::ParseError("no such table: internal Turso catalog".to_owned()),
        );
    }
    if statement.uses_vector && !statement.vector_installed {
        return PrepareAction::Refuse(
            SessionError::ParseError(
                "type \"vector\" does not exist; run CREATE EXTENSION vector first".to_owned(),
            ),
        );
    }
    PrepareAction::Compile
}

fn act_on_received(sql: &str) -> (r: PrepareAction)
    ensures
        r@ == when_received(sql@),
{
    let text = trim(sql);
    if text.as_str().is_empty() {
        return PrepareAction::Refuse(
            SessionError::InvalidArgument(
                "The supplied SQL string contains no statements".to_owned(),
            ),
        );
    }
    match reject_sqlite_catalog_access(text.as_str()) {
        Ok(()) => PrepareAction::Parse(text),
        Err(e) => PrepareAction::Refuse(e),
    }
}

/// Take the preparation of a statement one step further.
pub fn prepare_statement(stage: Preparation, event: PrepareEvent) -> (r: (
    Preparation,
    PrepareAction,
))
    ensures
        r.1@ == next_action(stage, event),
        stage_follows(stage, r.1@, r.0),
{
    match (stage, event) {
        (Preparation::Received(sql), PrepareEvent::Start) => {
            match act_on_received(sql.as_str()) {
                PrepareAction::Parse(text) => (
                    Preparation::Parsing(text.clone()),
                    PrepareAction::Parse(text),
                ),
                action => (Preparation::Decided, action),
            }
        },
        (Preparation::Parsing(sql), PrepareEvent::Parsed(parsed)) => {
            match act_on_parsed(parsed) {
                PrepareAction::Compile => (Preparation::Compiling(sql), PrepareAction::Compile),
                action => (Preparation::Decided, action),
            }
        },
        (Preparation::Compiling(sql), PrepareEvent::Compiled(compiled)) => {
            match compiled {
                Err(reason) => (
                    Preparation::Decided,
                    PrepareAction::Refuse(SessionError::ParseError(reason)),
                ),
                Ok(statement) => {
                    match reject_catalog_dml(&statement.target, statement.catalog_table) {
                        Ok(()) => (Preparation::Decided, PrepareAction::Prepare(sql)),
                        Err(e) => (Preparation::Decided, PrepareAction::Refuse(e)),
                    }
                },
            }
        },
        (stage, _) => (stage, PrepareAction::Ignore),
    }
}

/// A statement that gets to the engine is the statement that was received, without
/// the white space around it. It is not blank and mentions no table of the engine's
/// own catalog; it names none of the engine's tables; it uses the vector extension
/// only where that is installed; and it writes to no table of the catalog that
/// clients see.
pub proof fn engine_sees_only_admitted_statements(
    received: Preparation,
    parsing: Preparation,
    compiling: Preparation,
    parsed: Result<ParsedStatement, String>,
    compiled: Result<CompiledStatement, String>,
    sql: Seq<char>,
)
    requires
        received is Received,
        stage_follows(received, next_action(received, PrepareEvent::Start), parsing),
        stage_follows(parsing, next_action(parsing, PrepareEvent::Parsed(parsed)), compiling),
        next_action(compiling, PrepareEvent::Compiled(compiled)) == PrepareActionView::Prepare(sql),
    ensures
        sql == trimmed(received->Received_0@),
        sql.len() > 0,
        catalog_refusal(sql) is None,
        parsed is Ok,
        special_action(parsed->Ok_0.recognised) == Ok::<
            Option<SpecialActionView>,
            SessionErrorView,
        >(None),
        !names_internal_table(parsed->Ok_0.relations@),
        parsed->Ok_0.uses_vector ==> parsed->Ok_0.vector_installed,
        compiled is Ok,
        write_refusal(compiled->Ok_0.target, compiled->Ok_0.catalog_table) is None,
{
}

} // verus!
