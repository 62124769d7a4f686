//! Which statements are carried out, which are refused, and that the rest gets through
//! to the engine.

use vstd::prelude::*;

use crate::copy::CopyFrom;
use crate::error::{SessionError, SessionErrorView};
use crate::prepare::{
    installation_statement, next_action, special_action, stage_follows, CompiledStatement,
    CreateExtension, ParsedStatement, Preparation, PrepareAction, PrepareActionView, PrepareEvent,
    Recognised, SetStatement, SpecialAction, SpecialActionView,
};
use crate::schema::{CreateSchema, DropSchema};
use crate::statement::{
    catalog_refusal, is_internal_table, names_internal_table, not_blank, split_view,
    statements_of, texts, write_refusal, WriteTarget,
};
use crate::text::{ascii_lower, occurs_in, trimmed};

verus! {

/// The statements are those that the parser found, as they are, but the whole query
/// without the white space around it where the parser failed, or found nothing in a
/// query that is not blank.
pub proof fn statements_are_those_found_or_the_whole(
    sql: Seq<char>,
    found: Seq<Seq<char>>,
    reason: Seq<char>,
)
    ensures
        found.len() > 0 || trimmed(sql).len() == 0 ==> statements_of(
            sql,
            Ok::<Seq<Seq<char>>, Seq<char>>(found),
        ) == found,
        found.len() == 0 && trimmed(sql).len() > 0 ==> statements_of(
            sql,
            Ok::<Seq<Seq<char>>, Seq<char>>(found),
        ) == seq![trimmed(sql)],
        statements_of(sql, Err::<Seq<Seq<char>>, Seq<char>>(reason)) == seq![trimmed(sql)],
{
}

/// What the parser found is taken text by text.
pub proof fn found_statements_are_taken_text_by_text(list: Vec<String>, reason: String, i: int)
    ensures
        texts(list@).len() == list@.len(),
        0 <= i < list@.len() ==> texts(list@)[i] == list@[i]@,
        split_view(Ok::<Vec<String>, String>(list)) == Ok::<Seq<Seq<char>>, Seq<char>>(
            texts(list@),
        ),
        split_view(Err::<Vec<String>, String>(reason)) == Err::<Seq<Seq<char>>, Seq<char>>(
            reason@,
        ),
{
}

proof fn lemma_empty_has_no_statement()
    ensures
        not_blank(Seq::<Seq<char>>::empty()) == Seq::<Seq<char>>::empty(),
{
}

/// Leaving out blank statements keeps the others in their order: it can be done part by
/// part, and a single statement stays unless it is blank.
pub proof fn statements_stay_in_order(a: Seq<Seq<char>>, b: Seq<Seq<char>>, s: Seq<char>)
    ensures
        not_blank(a + b) == not_blank(a) + not_blank(b),
        trimmed(s).len() > 0 ==> not_blank(seq![s]) == seq![s],
        trimmed(s).len() == 0 ==> not_blank(seq![s]) == Seq::<Seq<char>>::empty(),
    decreases b.len(),
{
    lemma_empty_has_no_statement();
    assert(seq![s].drop_last() =~= Seq::<Seq<char>>::empty());
    assert(seq![s].last() == s);
    assert(Seq::<Seq<char>>::empty().push(s) =~= seq![s]);
    if b.len() == 0 {
        assert(a + b =~= a);
        assert(not_blank(a) + not_blank(b) =~= not_blank(a));
    } else {
        assert((a + b).drop_last() =~= a + b.drop_last());
        assert((a + b).last() == b.last());
        statements_stay_in_order(a, b.drop_last(), s);
        let rest = not_blank(b.drop_last());
        assert((not_blank(a) + rest).push(b.last()) =~= not_blank(a) + rest.push(b.last()));
    }
}

/// A statement is refused for the engine's own catalog exactly where it mentions one of
/// its two tables, in any case, and for the first of them that it mentions.
pub proof fn catalog_of_the_engine_is_refused(sql: Seq<char>)
    ensures
        occurs_in(ascii_lower(sql), "sqlite_master"@) ==> catalog_refusal(sql) == Some(
            SessionErrorView::ParseError("no such table: "@ + "sqlite_master"@),
        ),
        !occurs_in(ascii_lower(sql), "sqlite_master"@) && occurs_in(
            ascii_lower(sql),
            "sqlite_schema"@,
        ) ==> catalog_refusal(sql) == Some(
            SessionErrorView::ParseError("no such table: "@ + "sqlite_schema"@),
        ),
        !occurs_in(ascii_lower(sql), "sqlite_master"@) && !occurs_in(
            ascii_lower(sql),
            "sqlite_schema"@,
        ) ==> catalog_refusal(sql) is None,
{
}

/// A write is refused exactly where its target is a table of the catalog that clients
/// see: a statement that writes to any other table, or to none, is not refused, whatever
/// it does and whatever the table is called.
pub proof fn writes_are_refused_for_catalog_tables_alone(target: WriteTarget, catalog_table: bool)
    ensures
        write_refusal(target, catalog_table) is Some <==> catalog_table && target
            != WriteTarget::Nothing,
{
}

/// The refusal says what was to be done to which table.
pub proof fn refused_writes_name_verb_and_table(table: String)
    ensures
        write_refusal(WriteTarget::Insert(table), true) == Some(
            SessionErrorView::ParseError(
                "cannot "@ + "insert into"@ + " pg_catalog table \""@ + table@ + "\""@,
            ),
        ),
        write_refusal(WriteTarget::Delete(table), true) == Some(
            SessionErrorView::ParseError(
                "cannot "@ + "delete from"@ + " pg_catalog table \""@ + table@ + "\""@,
            ),
        ),
        write_refusal(WriteTarget::Update(table), true) == Some(
            SessionErrorView::ParseError(
                "cannot "@ + "update"@ + " pg_catalog table \""@ + table@ + "\""@,
            ),
        ),
{
}

/// A statement names a table of the engine exactly where the name of one of its tables is
/// the prefix of those tables with something behind it, or the prefix alone.
pub proof fn tables_of_the_engine_are_known_by_their_prefix(relations: Seq<String>)
    ensures
        names_internal_table(relations) <==> exists|i: int, rest: Seq<char>|
            0 <= i < relations.len() && (#[trigger] relations[i])@ == #[trigger] (
            "__turso_internal_"@ + rest),
{
    if names_internal_table(relations) {
        let i = choose|i: int|
            0 <= i < relations.len() && is_internal_table((#[trigger] relations[i])@);
        let name = relations[i]@;
        let rest = name.skip("__turso_internal_"@.len() as int);
        assert("__turso_internal_"@ =~= name.subrange(0, "__turso_internal_"@.len() as int));
        assert(name =~= "__turso_internal_"@ + rest);
    }
    if exists|i: int, rest: Seq<char>|
        0 <= i < relations.len() && (#[trigger] relations[i])@ == #[trigger] ("__turso_internal_"@
            + rest) {
        let (i, rest) = choose|i: int, rest: Seq<char>|
            0 <= i < relations.len() && (#[trigger] relations[i])@ == #[trigger] (
            "__turso_internal_"@ + rest);
        let name = relations[i]@;
        assert("__turso_internal_"@ =~= name.subrange(0, "__turso_internal_"@.len() as int));
        assert(is_internal_table(relations[i]@));
    }
}

/// The extension is installed by a statement that makes its table, and that minds an
/// existing one unless told otherwise.
pub proof fn extension_is_installed_by_its_table()
    ensures
        installation_statement(false) == "CREATE TABLE "@ + ""@
            + "__turso_internal_pgvector_extension"@ + " (version TEXT NOT NULL DEFAULT '"@
            + "0.8.1"@ + "')"@,
        installation_statement(true) == "CREATE TABLE "@ + "IF NOT EXISTS "@
            + "__turso_internal_pgvector_extension"@ + " (version TEXT NOT NULL DEFAULT '"@
            + "0.8.1"@ + "')"@,
{
}

/// A statement of one of the kinds that the session carries out itself is carried out as
/// what it says: a setting is set or shown by a pragma of the same name and value, and
/// schemas and copies are handed on unchanged.
pub proof fn special_statements_are_carried_out_as_they_say(
    r: Recognised,
    set: SetStatement,
    name: String,
    create: CreateSchema,
    drop: DropSchema,
    copy: CopyFrom,
    extension: CreateExtension,
    reason: String,
)
    ensures
        r.create_extension == Err::<Option<CreateExtension>, String>(reason) ==> special_action(r)
            == Err::<Option<SpecialActionView>, SessionErrorView>(
            SessionErrorView::ParseError(reason@),
        ),
        r.create_extension == Ok::<Option<CreateExtension>, String>(Some(extension))
            ==> special_action(r) == Ok::<Option<SpecialActionView>, SessionErrorView>(
            Some(
                SpecialActionView::PrepareInternalRoot(
                    installation_statement(extension.if_not_exists),
                ),
            ),
        ),
        r.create_extension == Ok::<Option<CreateExtension>, String>(None) ==> {
            let set_none = r.set is None;
            let show_none = set_none && r.show is None;
            let create_none = show_none && r.create_schema is None;
            let drop_none = create_none && r.drop_schema is None;
            let quiet_none = drop_none && !r.refresh_matview && !r.comment_on;
            &&& r.set == Some(set) ==> special_action(r) == Ok::<
                Option<SpecialActionView>,
                SessionErrorView,
            >(Some(SpecialActionView::Prepare("PRAGMA "@ + set.name@ + " = "@ + set.value@)))
            &&& set_none && r.show == Some(name) ==> special_action(r) == Ok::<
                Option<SpecialActionView>,
                SessionErrorView,
            >(Some(SpecialActionView::Prepare("PRAGMA "@ + name@)))
            &&& show_none && r.create_schema == Some(create) ==> special_action(r) == Ok::<
                Option<SpecialActionView>,
                SessionErrorView,
            >(Some(SpecialActionView::CreateSchema(create)))
            &&& create_none && r.drop_schema == Some(drop) ==> special_action(r) == Ok::<
                Option<SpecialActionView>,
                SessionErrorView,
            >(Some(SpecialActionView::DropSchema(drop)))
            &&& drop_none && (r.refresh_matview || r.comment_on) ==> special_action(r) == Ok::<
                Option<SpecialActionView>,
                SessionErrorView,
            >(Some(SpecialActionView::Nothing))
            &&& quiet_none && r.copy_from == Some(copy) ==> special_action(r) == Ok::<
                Option<SpecialActionView>,
                SessionErrorView,
            >(Some(SpecialActionView::CopyFrom(copy)))
            &&& quiet_none && r.copy_from is None ==> special_action(r) == Ok::<
                Option<SpecialActionView>,
                SessionErrorView,
            >(None)
        },
{
}

/// Whether the parser recognised nothing that the session carries out itself.
pub open spec fn is_ordinary(r: Recognised) -> bool {
    &&& r.create_extension == Ok::<Option<CreateExtension>, String>(None)
    &&& r.set is None && r.show is None && r.create_schema is None && r.drop_schema is None
    &&& !r.refresh_matview && !r.comment_on && r.copy_from is None
}

/// A good statement gets through: one that is not blank and mentions no table of the
/// engine's catalog is parsed; if it is an ordinary one, names no table of the engine and
/// needs no missing extension, it is compiled; and if it writes to no table of the catalog
/// that clients see, it is prepared, as the text that was received without the white space
/// around it.
pub proof fn good_statements_get_through(
    received: String,
    parsing: Preparation,
    compiling: Preparation,
    parsed: ParsedStatement,
    compiled: CompiledStatement,
)
    requires
        trimmed(received@).len() > 0,
        !occurs_in(ascii_lower(trimmed(received@)), "sqlite_master"@),
        !occurs_in(ascii_lower(trimmed(received@)), "sqlite_schema"@),
        is_ordinary(parsed.recognised),
        forall|i: int, rest: Seq<char>|
            0 <= i < parsed.relations@.len() ==> (#[trigger] parsed.relations@[i])@
                != #[trigger] ("__turso_internal_"@ + rest),
        parsed.uses_vector ==> parsed.vector_installed,
        !compiled.catalog_table || compiled.target == WriteTarget::Nothing,
        stage_follows(
            Preparation::Received(received),
            next_action(Preparation::Received(received), PrepareEvent::Start),
            parsing,
        ),
        stage_follows(
            parsing,
            next_action(
                parsing,
                PrepareEvent::Parsed(Ok::<ParsedStatement, String>(parsed)),
            ),
            compiling,
        ),
    ensures
        next_action(Preparation::Received(received), PrepareEvent::Start)
            == PrepareActionView::Parse(trimmed(received@)),
        next_action(parsing, PrepareEvent::Parsed(Ok::<ParsedStatement, String>(parsed)))
            == PrepareActionView::Compile,
        next_action(compiling, PrepareEvent::Compiled(Ok::<CompiledStatement, String>(compiled)))
            == PrepareActionView::Prepare(trimmed(received@)),
{
    tables_of_the_engine_are_known_by_their_prefix(parsed.relations@);
}

/// A statement that is blank or mentions the engine's catalog is refused before it is
/// parsed.
pub proof fn bad_texts_are_refused_at_once(received: String)
    ensures
        trimmed(received@).len() == 0 ==> next_action(
            Preparation::Received(received),
            PrepareEvent::Start,
        ) == PrepareActionView::Refuse(
            SessionErrorView::InvalidArgument("The supplied SQL string contains no statements"@),
        ),
        trimmed(received@).len() > 0 && occurs_in(
            ascii_lower(trimmed(received@)),
            "sqlite_master"@,
        ) ==> next_action(Preparation::Received(received), PrepareEvent::Start)
            == PrepareActionView::Refuse(
            SessionErrorView::ParseError("no such table: "@ + "sqlite_master"@),
        ),
        trimmed(received@).len() > 0 && !occurs_in(
            ascii_lower(trimmed(received@)),
            "sqlite_master"@,
        ) && occurs_in(ascii_lower(trimmed(received@)), "sqlite_schema"@) ==> next_action(
            Preparation::Received(received),
            PrepareEvent::Start,
        ) == PrepareActionView::Refuse(
            SessionErrorView::ParseError("no such table: "@ + "sqlite_schema"@),
        ),
{
}

/// A statement that the parser or the compiler refuses is refused with their words; an
/// ordinary one for a table of the engine, then for a missing extension, and at last for
/// a write to the catalog. A special one is carried out, whatever it names.
pub proof fn bad_statements_are_refused_in_this_order(
    sql: String,
    reason: String,
    parsed: ParsedStatement,
    compiled: CompiledStatement,
    action: SpecialActionView,
)
    ensures
        next_action(
            Preparation::Parsing(sql),
            PrepareEvent::Parsed(Err::<ParsedStatement, String>(reason)),
        ) == PrepareActionView::Refuse(SessionErrorView::ParseError(reason@)),
        next_action(
            Preparation::Compiling(sql),
            PrepareEvent::Compiled(Err::<CompiledStatement, String>(reason)),
        ) == PrepareActionView::Refuse(SessionErrorView::ParseError(reason@)),
        is_ordinary(parsed.recognised) && names_internal_table(parsed.relations@) ==> next_action(
            Preparation::Parsing(sql),
            PrepareEvent::Parsed(Ok::<ParsedStatement, String>(parsed)),
        ) == PrepareActionView::Refuse(
            SessionErrorView::ParseError("no such table: internal Turso catalog"@),
        ),
        is_ordinary(parsed.recognised) && !names_internal_table(parsed.relations@)
            && parsed.uses_vector && !parsed.vector_installed ==> next_action(
            Preparation::Parsing(sql),
            PrepareEvent::Parsed(Ok::<ParsedStatement, String>(parsed)),
        ) == PrepareActionView::Refuse(
            SessionErrorView::ParseError(
                "type \"vector\" does not exist; run CREATE EXTENSION vector first"@,
            ),
        ),
        special_action(parsed.recognised) == Ok::<Option<SpecialActionView>, SessionErrorView>(
            Some(action),
        ) ==> next_action(
            Preparation::Parsing(sql),
            PrepareEvent::Parsed(Ok::<ParsedStatement, String>(parsed)),
        ) == PrepareActionView::Special(action),
        special_action(parsed.recognised) matches Err(e) ==> next_action(
            Preparation::Parsing(sql),
            PrepareEvent::Parsed(Ok::<ParsedStatement, String>(parsed)),
        ) == PrepareActionView::Refuse(special_action(parsed.recognised)->Err_0),
        write_refusal(compiled.target, compiled.catalog_table) matches Some(e) ==> next_action(
            Preparation::Compiling(sql),
            PrepareEvent::Compiled(Ok::<CompiledStatement, String>(compiled)),
        ) == PrepareActionView::Refuse(
            write_refusal(compiled.target, compiled.catalog_table)->0,
        ),
{
}

/// Every event is dealt with once and in its turn; any other changes nothing.
pub proof fn events_count_in_their_turn(
    stage: Preparation,
    event: PrepareEvent,
    after: Preparation,
)
    requires
        stage_follows(stage, next_action(stage, event), after),
    ensures
        next_action(stage, event) == PrepareActionView::Ignore <==> !((stage is Received
            && event is Start) || (stage is Parsing && event is Parsed) || (stage is Compiling
            && event is Compiled)),
        next_action(stage, event) == PrepareActionView::Ignore ==> after == stage,
        next_action(stage, event) is Parse ==> after is Parsing && after->Parsing_0@
            == next_action(stage, event)->Parse_0,
        next_action(stage, event) is Compile ==> after is Compiling && after->Compiling_0
            == stage->Parsing_0,
        next_action(stage, event) is Refuse || next_action(stage, event) is Prepare || next_action(
            stage,
            event,
        ) is Special ==> after is Decided,
{
}

/// Views keep what actions hold.
pub proof fn views_keep_the_action(
    sql: String,
    create: CreateSchema,
    drop: DropSchema,
    copy: CopyFrom,
    special: SpecialAction,
    e: SessionError,
)
    ensures
        SpecialAction::PrepareInternalRoot(sql)@ == SpecialActionView::PrepareInternalRoot(sql@),
        SpecialAction::Prepare(sql)@ == SpecialActionView::Prepare(sql@),
        SpecialAction::CreateSchema(create)@ == SpecialActionView::CreateSchema(create),
        SpecialAction::DropSchema(drop)@ == SpecialActionView::DropSchema(drop),
        SpecialAction::CopyFrom(copy)@ == SpecialActionView::CopyFrom(copy),
        SpecialAction::Nothing@ == SpecialActionView::Nothing,
        PrepareAction::Parse(sql)@ == PrepareActionView::Parse(sql@),
        PrepareAction::Special(special)@ == PrepareActionView::Special(special@),
        PrepareAction::Compile@ == PrepareActionView::Compile,
        PrepareAction::Prepare(sql)@ == PrepareActionView::Prepare(sql@),
        PrepareAction::Refuse(e)@ == PrepareActionView::Refuse(e@),
        PrepareAction::Ignore@ == PrepareActionView::Ignore,
{
}

} // verus!
