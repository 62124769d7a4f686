//! Which parameters are taken for vectors: those that a statement assigns, by place or by
//! name, to columns declared as vectors.

use vstd::prelude::*;

use crate::metadata::{
    assigned_to_vector, in_row, in_target, inference_follows_assignments, is_sorted,
    is_vector_type, known_types, target_types, with_assigned, InsertShape, RootStatement, UpdateShape,
};
use crate::text::ascii_lower;

verus! {

/// A column holds vectors if its declared type is the word `vector` in any letters.
pub proof fn vectors_are_declared_by_that_word(declared: Seq<char>)
    ensures
        is_vector_type(declared) <==> ascii_lower(declared) == seq!['v', 'e', 'c', 't', 'o', 'r'],
{
    reveal_strlit("vector");
    assert("vector"@ =~= seq!['v', 'e', 'c', 't', 'o', 'r']);
    assert(ascii_lower("vector"@) =~= "vector"@);
}

/// The columns that a list names keep their order, and those that the table does not have
/// are left out.
pub proof fn unknown_columns_are_left_out(
    a: Seq<Option<String>>,
    b: Seq<Option<String>>,
    column: Option<String>,
)
    ensures
        known_types(Seq::empty()) == Seq::<Seq<char>>::empty(),
        known_types(seq![column]) == match column {
            Some(declared) => seq![declared@],
            None => Seq::<Seq<char>>::empty(),
        },
        known_types(a + b) == known_types(a) + known_types(b),
    decreases b.len(),
{
    let one = seq![column];
    assert(one.drop_last() =~= Seq::<Option<String>>::empty());
    assert(known_types(one.drop_last()) =~= Seq::<Seq<char>>::empty());
    if let Some(declared) = column {
        assert(known_types(one) =~= seq![declared@]);
    }
    if b.len() == 0 {
        assert(a + b =~= a);
        assert(known_types(a) + known_types(b) =~= known_types(a));
    } else {
        assert((a + b).drop_last() =~= a + b.drop_last());
        unknown_columns_are_left_out(a, b.drop_last(), column);
        assert(known_types(a + b) =~= known_types(a) + known_types(b));
    }
}

/// Without a column list an insert fills the columns of the table in their order, with one
/// those that it names.
pub proof fn inserts_fill_the_columns_they_name(
    table: Seq<String>,
    columns: Seq<Option<String>>,
    k: int,
)
    ensures
        columns.len() > 0 ==> target_types(table, columns) == known_types(columns),
        columns.len() == 0 ==> target_types(table, columns).len() == table.len(),
        columns.len() == 0 && 0 <= k < table.len() ==> target_types(table, columns)[k]
            == table[k]@,
{
}

/// Where an insert has no column list, a parameter is added if and only if it stands in some
/// row at the place of a column of the table that is declared as a vector.
pub proof fn inserted_vectors_go_by_their_place(
    parameters: Seq<usize>,
    insert: InsertShape,
    p: usize,
)
    requires
        insert.table is Some,
        insert.rows is Some,
        insert.columns@.len() == 0,
    ensures
        ({
            let table = insert.table->0@;
            let rows = insert.rows->0@;
            with_assigned(parameters, RootStatement::Insert(insert)).contains(p)
                <==> parameters.contains(p) || exists|i: int, k: int|
                #![trigger rows[i], table[k]]
                0 <= i < rows.len() && 0 <= k < table.len() && ascii_lower(table[k]@) == seq![
                    'v',
                    'e',
                    'c',
                    't',
                    'o',
                    'r',
                ] && (rows[i] matches Some(values) && k < values@.len() && (
                values@[k] matches Some(number) && number == p && p > 0))
        }),
{
    let table = insert.table->0@;
    let rows = insert.rows->0@;
    let statement = RootStatement::Insert(insert);
    let targets = target_types(table, insert.columns@);
    inference_follows_assignments(parameters, statement, p);
    assert forall|k: int| 0 <= k < table.len() implies is_vector_type(targets[k]) == (ascii_lower(
        #[trigger] table[k]@,
    ) == seq!['v', 'e', 'c', 't', 'o', 'r']) by {
        vectors_are_declared_by_that_word(table[k]@);
    }
    if assigned_to_vector(statement, p) {
        let (i, k) = choose|i: int, k: int|
            #![trigger in_row(targets, rows, i, k, p)]
            in_row(targets, rows, i, k, p);
        assert(0 <= k < table.len());
        assert(rows[i] is Some && table[k]@ == targets[k]);
    }
    assert forall|i: int, k: int|
        #![trigger rows[i], table[k]]
        0 <= i < rows.len() && 0 <= k < table.len() && ascii_lower(table[k]@) == seq![
            'v',
            'e',
            'c',
            't',
            'o',
            'r',
        ] && (rows[i] matches Some(values) && k < values@.len() && (values@[k] matches Some(number)
            && number == p && p > 0)) implies assigned_to_vector(statement, p) by {
        assert(in_row(targets, rows, i, k, p));
    }
}

/// Where it has one, a parameter is added if and only if it stands in some row at the place
/// of a column that the list names, the unknown ones left out, and that is declared as a
/// vector.
pub proof fn inserted_vectors_go_by_the_columns_named(
    parameters: Seq<usize>,
    insert: InsertShape,
    p: usize,
)
    requires
        insert.table is Some,
        insert.rows is Some,
        insert.columns@.len() > 0,
    ensures
        ({
            let named = known_types(insert.columns@);
            let rows = insert.rows->0@;
            with_assigned(parameters, RootStatement::Insert(insert)).contains(p)
                <==> parameters.contains(p) || exists|i: int, k: int|
                #![trigger rows[i], named[k]]
                0 <= i < rows.len() && 0 <= k < named.len() && ascii_lower(named[k]) == seq![
                    'v',
                    'e',
                    'c',
                    't',
                    'o',
                    'r',
                ] && (rows[i] matches Some(values) && k < values@.len() && (
                values@[k] matches Some(number) && number == p && p > 0))
        }),
{
    let named = known_types(insert.columns@);
    let rows = insert.rows->0@;
    let statement = RootStatement::Insert(insert);
    inference_follows_assignments(parameters, statement, p);
    assert(target_types(insert.table->0@, insert.columns@) == named);
    assert forall|k: int| is_vector_type(#[trigger] named[k]) == (ascii_lower(named[k]) == seq![
        'v',
        'e',
        'c',
        't',
        'o',
        'r',
    ]) by {
        vectors_are_declared_by_that_word(named[k]);
    }
    if assigned_to_vector(statement, p) {
        let (i, k) = choose|i: int, k: int|
            #![trigger in_row(named, rows, i, k, p)]
            in_row(named, rows, i, k, p);
        assert(rows[i] is Some && named[k] == named[k]);
    }
    assert forall|i: int, k: int|
        #![trigger rows[i], named[k]]
        0 <= i < rows.len() && 0 <= k < named.len() && ascii_lower(named[k]) == seq![
            'v',
            'e',
            'c',
            't',
            'o',
            'r',
        ] && (rows[i] matches Some(values) && k < values@.len() && (values@[k] matches Some(number)
            && number == p && p > 0)) implies assigned_to_vector(statement, p) by {
        assert(in_row(named, rows, i, k, p));
    }
}

/// An update adds a parameter if and only if some assignment gives it to a column that is
/// declared as a vector.
pub proof fn updated_vectors_go_by_their_column(
    parameters: Seq<usize>,
    update: UpdateShape,
    p: usize,
)
    requires
        update.table,
    ensures
        with_assigned(parameters, RootStatement::Update(update)).contains(p)
            <==> parameters.contains(p) || exists|i: int|
            0 <= i < update.targets@.len() && (#[trigger] update.targets@[i] matches Some(target)
                && (target.column matches Some(declared) && ascii_lower(declared@) == seq![
                'v',
                'e',
                'c',
                't',
                'o',
                'r',
            ]) && (target.value matches Some(number) && number == p && p > 0)),
{
    let statement = RootStatement::Update(update);
    let targets = update.targets@;
    inference_follows_assignments(parameters, statement, p);
    assert forall|i: int| #[trigger] in_target(targets, i, p) == (0 <= i < targets.len() && (
    targets[i] matches Some(target) && (target.column matches Some(declared) && ascii_lower(
        declared@,
    ) == seq!['v', 'e', 'c', 't', 'o', 'r']) && (target.value matches Some(number) && number == p
        && p > 0))) by {
        if let Some(target) = targets[i] {
            if let Some(declared) = target.column {
                vectors_are_declared_by_that_word(declared@);
            }
        }
    }
    if assigned_to_vector(statement, p) {
        let i = choose|i: int| #[trigger] in_target(targets, i, p);
        assert(targets[i] is Some);
    }
    assert forall|i: int|
        0 <= i < targets.len() && (#[trigger] targets[i] matches Some(target) && (
        target.column matches Some(declared) && ascii_lower(declared@) == seq![
            'v',
            'e',
            'c',
            't',
            'o',
            'r',
        ]) && (target.value matches Some(number) && number == p && p
            > 0)) implies assigned_to_vector(statement, p) by {
        assert(in_target(targets, i, p));
    }
}

/// A statement that assigns nothing, or to no known table, adds no parameter.
pub proof fn other_statements_add_no_vectors(parameters: Seq<usize>, statement: RootStatement)
    requires
        match statement {
            RootStatement::Insert(insert) => insert.table is None || insert.rows is None,
            RootStatement::Update(update) => !update.table,
            RootStatement::Other => true,
        },
    ensures
        with_assigned(parameters, statement) == parameters,
{
}

/// Positions are in order if none is followed by a smaller one.
pub proof fn order_is_ascending(list: Seq<usize>, i: int)
    requires
        is_sorted(list),
        0 <= i < list.len() - 1,
    ensures
        list[i] <= list[i + 1],
{
}

} // verus!
