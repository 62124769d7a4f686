//! The parameters of a statement, and which of them are vectors because they are
//! assigned to a vector column.

use vstd::prelude::*;

use crate::error::{SessionError, SessionErrorView};
use crate::text::{ascii_lower, same_ignoring_ascii_case};

verus! {

/// PostgreSQL parameter positions and inferred wire types for a parsed statement.
#[derive(Debug, PartialEq, Eq)]
pub struct PgParameterMetadata {
    pub vector_parameters: Vec<usize>,
    pub oid_parameters: Vec<usize>,
    pub parameter_count: usize,
}

impl Clone for PgParameterMetadata {
    fn clone(&self) -> (r: PgParameterMetadata)
        ensures
            r.vector_parameters@ == self.vector_parameters@,
            r.oid_parameters@ == self.oid_parameters@,
            r.parameter_count == self.parameter_count,
    {
        PgParameterMetadata {
            vector_parameters: self.vector_parameters.clone(),
            oid_parameters: self.oid_parameters.clone(),
            parameter_count: self.parameter_count,
        }
    }
}

/// An `INSERT` as far as the types of its parameters depend on it.
pub struct InsertShape {
    /// The declared types of the columns of the table, in order; nothing where
    /// the statement names no table that is stored as a tree.
    pub table: Option<Vec<String>>,
    /// For each name in the column list the declared type of the column, if the
    /// table has one of that name.
    pub columns: Vec<Option<String>>,
    /// The lists of values, each with the numbers of the parameters that stand
    /// in it alone; nothing where the rows come from elsewhere.
    pub rows: Option<Vec<Option<Vec<Option<i32>>>>>,
}

/// One assignment of an `UPDATE`.
pub struct UpdateTarget {
    /// The declared type of the column, if the table has it.
    pub column: Option<String>,
    /// The number of the parameter that is assigned.
    pub value: Option<i32>,
}

/// An `UPDATE` as far as the types of its parameters depend on it.
pub struct UpdateShape {
    /// Whether the statement names a table that is stored as a tree.
    pub table: bool,
    pub targets: Vec<Option<UpdateTarget>>,
}

/// What the first statement of a query is.
pub enum RootStatement {
    Insert(InsertShape),
    Update(UpdateShape),
    Other,
}

/// Whether a declared type is that of vectors.
pub open spec fn is_vector_type(declared: Seq<char>) -> bool {
    ascii_lower(declared) == ascii_lower("vector"@)
}

/// The declared types of the columns that a column list names, those left out
/// that the table does not have.
pub open spec fn known_types(columns: Seq<Option<String>>) -> Seq<Seq<char>>
    decreases columns.len(),
{
    if columns.len() == 0 {
        Seq::empty()
    } else {
        match columns.last() {
            Some(declared) => known_types(columns.drop_last()).push(declared@),
            None => known_types(columns.drop_last()),
        }
    }
}

/// The declared types of the columns of a table.
pub open spec fn types_of(columns: Seq<String>) -> Seq<Seq<char>> {
    Seq::new(columns.len(), |i: int| columns[i]@)
}

/// The declared types of the columns that an insert fills, in the order in
/// which its values stand.
pub open spec fn target_types(table: Seq<String>, columns: Seq<Option<String>>) -> Seq<Seq<char>> {
    if columns.len() == 0 {
        types_of(table)
    } else {
        known_types(columns)
    }
}

/// `parameters` with the parameter `value` at its end, if it is one and is not
/// there yet.
pub open spec fn with_parameter(parameters: Seq<usize>, value: Option<i32>) -> Seq<usize> {
    match value {
        Some(number) => if number > 0 && !parameters.contains(number as usize) {
            parameters.push(number as usize)
        } else {
            parameters
        },
        None => parameters,
    }
}

/// How many values of a row have a column to go to.
pub open spec fn paired(targets: Seq<Seq<char>>, values: Seq<Option<i32>>) -> nat {
    if targets.len() < values.len() {
        targets.len()
    } else {
        values.len()
    }
}

/// `parameters` with those added that the first `n` values of a row assign to
/// vector columns.
pub open spec fn with_row(
    parameters: Seq<usize>,
    targets: Seq<Seq<char>>,
    values: Seq<Option<i32>>,
    n: nat,
) -> Seq<usize>
    decreases n,
{
    if n == 0 {
        parameters
    } else {
        let before = with_row(parameters, targets, values, (n - 1) as nat);
        if is_vector_type(targets[n - 1]) {
            with_parameter(before, values[n - 1])
        } else {
            before
        }
    }
}

/// `parameters` with those added that the first `n` rows assign to vector
/// columns.
pub open spec fn with_rows(
    parameters: Seq<usize>,
    targets: Seq<Seq<char>>,
    rows: Seq<Option<Vec<Option<i32>>>>,
    n: nat,
) -> Seq<usize>
    decreases n,
{
    if n == 0 {
        parameters
    } else {
        let before = with_rows(parameters, targets, rows, (n - 1) as nat);
        match rows[n - 1] {
            Some(values) => with_row(before, targets, values@, paired(targets, values@)),
            None => before,
        }
    }
}

/// Whether an assignment is to a vector column.
pub open spec fn assigns_vector(target: UpdateTarget) -> bool {
    target.column matches Some(declared) && is_vector_type(declared@)
}

/// `parameters` with those added that the first `n` assignments give to vector
/// columns.
pub open spec fn with_targets(
    parameters: Seq<usize>,
    targets: Seq<Option<UpdateTarget>>,
    n: nat,
) -> Seq<usize>
    decreases n,
{
    if n == 0 {
        parameters
    } else {
        let before = with_targets(parameters, targets, (n - 1) as nat);
        match targets[n - 1] {
            Some(target) => if assigns_vector(target) {
                with_parameter(before, target.value)
            } else {
                before
            },
            None => before,
        }
    }
}

/// `parameters` with those added that a statement assigns to vector columns.
pub open spec fn with_assigned(parameters: Seq<usize>, statement: RootStatement) -> Seq<usize> {
    match statement {
        RootStatement::Insert(insert) => match (insert.table, insert.rows) {
            (Some(table), Some(rows)) => with_rows(
                parameters,
                target_types(table@, insert.columns@),
                rows@,
                rows@.len(),
            ),
            _ => parameters,
        },
        RootStatement::Update(update) => if update.table {
            with_targets(parameters, update.targets@, update.targets@.len())
        } else {
            parameters
        },
        RootStatement::Other => parameters,
    }
}

fn add_parameter(value: Option<i32>, parameters: &mut Vec<usize>)
    ensures
        final(parameters)@ == with_parameter(old(parameters)@, value),
{
    match value {
        Some(number) => {
            if number > 0 && !contains(parameters, number as usize) {
                parameters.push(number as usize);
            }
        },
        None => {},
    }
}

/// Whether `list` holds `wanted`.
pub fn contains(list: &Vec<usize>, wanted: usize) -> (r: bool)
    ensures
        r == list@.contains(wanted),
{
    let mut i: usize = 0;
    while i < list.len()
        invariant
            i <= list@.len(),
            forall|j: int| 0 <= j < i ==> list@[j] != wanted,
        decreases list.len() - i,
    {
        if list[i] == wanted {
            return true;
        }
        i = i + 1;
    }
    false
}

/// For each column that an insert fills, whether it is a vector column.
fn vector_columns(table: &Vec<String>, columns: &Vec<Option<String>>) -> (r: Vec<bool>)
    ensures
        r@.len() == target_types(table@, columns@).len(),
        forall|i: int|
            0 <= i < r@.len() ==> r@[i] == is_vector_type(target_types(table@, columns@)[i]),
{
    let mut out: Vec<bool> = Vec::new();
    let mut i: usize = 0;
    if columns.len() == 0 {
        while i < table.len()
            invariant
                i <= table@.len(),
                out@.len() == i,
                forall|j: int| 0 <= j < i ==> out@[j] == is_vector_type(types_of(table@)[j]),
            decreases table.len() - i,
        {
            out.push(same_ignoring_ascii_case(table[i].as_str(), "vector"));
            i = i + 1;
        }
    } else {
        while i < columns.len()
            invariant
                i <= columns@.len(),
                out@.len() == known_types(columns@.take(i as int)).len(),
                forall|j: int|
                    0 <= j < out@.len() ==> out@[j] == is_vector_type(
                        known_types(columns@.take(i as int))[j],
                    ),
            decreases columns.len() - i,
        {
            assert(columns@.take(i + 1).drop_last() =~= columns@.take(i as int));
            match &columns[i] {
                Some(declared) => {
                    out.push(same_ignoring_ascii_case(declared.as_str(), "vector"));
                },
                None => {},
            }
            i = i + 1;
        }
        assert(columns@.take(columns@.len() as int) =~= columns@);
    }
    out
}

/// Add to `vector_parameters` the parameters that `statement` assigns to vector
/// columns, each once.
pub fn infer_vector_assignment_parameters(
    statement: &RootStatement,
    vector_parameters: &mut Vec<usize>,
)
    ensures
        final(vector_parameters)@ == with_assigned(old(vector_parameters)@, *statement),
{
    match statement {
        RootStatement::Insert(insert) => {
            let table = match &insert.table {
                Some(table) => table,
                None => {
                    return ;
                },
            };
            let rows = match &insert.rows {
                Some(rows) => rows,
                None => {
                    return ;
                },
            };
            let ghost targets = target_types(table@, insert.columns@);
            let vectors = vector_columns(table, &insert.columns);
            let mut i: usize = 0;
            while i < rows.len()
                invariant
                    i <= rows@.len(),
                    vectors@.len() == targets.len(),
                    forall|j: int|
                        0 <= j < vectors@.len() ==> vectors@[j] == is_vector_type(targets[j]),
                    vector_parameters@ == with_rows(
                        old(vector_parameters)@,
                        targets,
                        rows@,
                        i as nat,
                    ),
                decreases rows.len() - i,
            {
                if let Some(values) = &rows[i] {
                    let ghost before = vector_parameters@;
                    let mut k: usize = 0;
                    while k < vectors.len() && k < values.len()
                        invariant
                            k <= paired(targets, values@),
                            vectors@.len() == targets.len(),
                            forall|j: int|
                                0 <= j < vectors@.len() ==> vectors@[j] == is_vector_type(
                                    targets[j],
                                ),
                            vector_parameters@ == with_row(before, targets, values@, k as nat),
                        decreases values.len() - k,
                    {
                        if vectors[k] {
                            add_parameter(values[k], vector_parameters);
                        }
                        k = k + 1;
                    }
                }
                i = i + 1;
            }
        },
        RootStatement::Update(update) => {
            if !update.table {
                return ;
            }
            let mut i: usize = 0;
            while i < update.targets.len()
                invariant
                    i <= update.targets@.len(),
                    vector_parameters@ == with_targets(
                        old(vector_parameters)@,
                        update.targets@,
                        i as nat,
                    ),
                decreases update.targets.len() - i,
            {
                if let Some(target) = &update.targets[i] {
                    let is_vector = match &target.column {
                        Some(declared) => same_ignoring_ascii_case(declared.as_str(), "vector"),
                        None => false,
                    };
                    if is_vector {
                        add_parameter(target.value, vector_parameters);
                    }
                }
                i = i + 1;
            }
        },
        RootStatement::Other => {},
    }
}

/// What the parser finds out about the parameters of a query.
pub struct ParameterFacts {
    /// What the query's first statement is.
    pub statement: RootStatement,
    /// The parameters that the query itself casts or compares as vectors.
    pub vector_parameters: Vec<usize>,
    pub oid_parameters: Vec<usize>,
    pub parameter_count: usize,
}

/// Whether `list` is in ascending order.
pub open spec fn is_sorted(list: Seq<usize>) -> bool {
    forall|i: int, j: int| 0 <= i <= j < list.len() ==> list[i] <= list[j]
}

proof fn lemma_insert_adds_one(list: Seq<usize>, at: int, x: usize)
    requires
        0 <= at <= list.len(),
    ensures
        list.insert(at, x).to_multiset() == list.to_multiset().insert(x),
{
    broadcast use vstd::seq_lib::group_to_multiset_ensures;

    let longer = list.insert(at, x);
    assert(longer.remove(at) =~= list);
    assert(longer[at] == x);
    assert(longer.contains(longer[at]));
    assert(longer.to_multiset() =~= list.to_multiset().insert(x));
}

fn sorted(list: &Vec<usize>) -> (r: Vec<usize>)
    ensures
        is_sorted(r@),
        r@.to_multiset() == list@.to_multiset(),
{
    let mut out: Vec<usize> = Vec::new();
    let mut i: usize = 0;
    assert(list@.take(0) =~= out@);
    while i < list.len()
        invariant
            i <= list@.len(),
            is_sorted(out@),
            out@.to_multiset() == list@.take(i as int).to_multiset(),
        decreases list.len() - i,
    {
        let x: usize = list[i];
        let mut at: usize = 0;
        while at < out.len() && out[at] <= x
            invariant
                at <= out@.len(),
                is_sorted(out@),
                forall|j: int| 0 <= j < at ==> out@[j] <= x,
            decreases out.len() - at,
        {
            at = at + 1;
        }
        proof {
            broadcast use vstd::seq_lib::group_to_multiset_ensures;

            lemma_insert_adds_one(out@, at as int, x);
            assert(list@.take(i + 1) =~= list@.take(i as int).push(x));
        }
        out.insert(at, x);
        i = i + 1;
    }
    assert(list@.take(list@.len() as int) =~= list@);
    out
}

/// Whether the parameters that the query itself takes for vectors, and those that it
/// assigns to vector columns, are among the first `count`, counted from one.
pub open spec fn names_positions_within(facts: ParameterFacts, count: usize) -> bool {
    &&& forall|p: usize| #[trigger]
        facts.vector_parameters@.contains(p) ==> 1 <= p <= count
    &&& forall|p: usize| #[trigger]
        assigned_to_vector(facts.statement, p) ==> 1 <= p <= count
}

/// Resolve the one-based parameter positions that need nonstandard PostgreSQL
/// types, from what the parser found out about the query, or from the message
/// with which it refused the query.
pub fn parameter_metadata(parsed: Result<ParameterFacts, String>) -> (r: Result<
    PgParameterMetadata,
    SessionError,
>)
    ensures
        match (parsed, r) {
            (Ok(facts), Ok(metadata)) => {
                &&& is_sorted(metadata.vector_parameters@)
                &&& metadata.vector_parameters@.to_multiset() == with_assigned(
                    facts.vector_parameters@,
                    facts.statement,
                ).to_multiset()
                &&& forall|p: usize| #[trigger]
                    metadata.vector_parameters@.contains(p) <==> facts.vector_parameters@.contains(p)
                        || assigned_to_vector(facts.statement, p)
                &&& names_positions_within(facts, facts.parameter_count) ==> forall|i: int|
                    0 <= i < metadata.vector_parameters@.len() ==> 1
                        <= #[trigger] metadata.vector_parameters@[i] <= metadata.parameter_count
                &&& metadata.oid_parameters == facts.oid_parameters
                &&& metadata.parameter_count == facts.parameter_count
            },
            (Err(message), Err(e)) => e@ == SessionErrorView::ParseError(message@),
            _ => false,
        },
{
    match parsed {
        Ok(facts) => {
            let ghost given = facts.vector_parameters@;
            let mut vector_parameters = facts.vector_parameters;
            infer_vector_assignment_parameters(&facts.statement, &mut vector_parameters);
            let in_order = sorted(&vector_parameters);
            assert forall|p: usize| #[trigger] in_order@.contains(p) <==> given.contains(p)
                || assigned_to_vector(facts.statement, p) by {
                broadcast use vstd::seq_lib::group_to_multiset_ensures;

                inference_follows_assignments(given, facts.statement, p);
                assert(in_order@.contains(p) <==> in_order@.to_multiset().count(p) > 0);
                assert(vector_parameters@.contains(p) <==> vector_parameters@.to_multiset().count(p)
                    > 0);
            }
            proof {
                if names_positions_within(facts, facts.parameter_count) {
                    assert forall|i: int| 0 <= i < in_order@.len() implies 1
                        <= #[trigger] in_order@[i] <= facts.parameter_count by {
                        assert(in_order@.contains(in_order@[i]));
                    }
                }
            }
            Ok(
                PgParameterMetadata {
                    vector_parameters: in_order,
                    oid_parameters: facts.oid_parameters,
                    parameter_count: facts.parameter_count,
                },
            )
        },
        Err(message) => Err(SessionError::ParseError(message)),
    }
}

/// Whether a statement assigns parameter `p` to a vector column.
pub open spec fn assigned_to_vector(statement: RootStatement, p: usize) -> bool {
    match statement {
        RootStatement::Insert(insert) => match (insert.table, insert.rows) {
            (Some(table), Some(rows)) => exists|i: int, k: int|
                #![trigger in_row(target_types(table@, insert.columns@), rows@, i, k, p)]
                in_row(target_types(table@, insert.columns@), rows@, i, k, p),
            _ => false,
        },
        RootStatement::Update(update) => update.table && exists|i: int|
            #[trigger] in_target(update.targets@, i, p),
        RootStatement::Other => false,
    }
}

/// Whether value `k` of row `i` is parameter `p` and goes to a vector column.
pub open spec fn in_row(
    targets: Seq<Seq<char>>,
    rows: Seq<Option<Vec<Option<i32>>>>,
    i: int,
    k: int,
    p: usize,
) -> bool {
    &&& 0 <= i < rows.len()
    &&& rows[i] matches Some(values)
    &&& 0 <= k < paired(targets, values@)
    &&& is_vector_type(targets[k])
    &&& values@[k] matches Some(number)
    &&& number > 0 && number == p
}

/// Whether assignment `i` gives parameter `p` to a vector column.
pub open spec fn in_target(targets: Seq<Option<UpdateTarget>>, i: int, p: usize) -> bool {
    &&& 0 <= i < targets.len()
    &&& targets[i] matches Some(target)
    &&& assigns_vector(target)
    &&& target.value matches Some(number)
    &&& number > 0 && number == p
}

proof fn lemma_with_row(
    parameters: Seq<usize>,
    targets: Seq<Seq<char>>,
    values: Seq<Option<i32>>,
    n: nat,
    p: usize,
)
    requires
        n <= paired(targets, values),
    ensures
        with_row(parameters, targets, values, n).contains(p) <==> parameters.contains(p)
            || exists|k: int|
            0 <= k < n && is_vector_type(targets[k]) && #[trigger] values[k] == Some(p as i32) && p
                <= i32::MAX && p > 0,
        parameters.no_duplicates() ==> with_row(parameters, targets, values, n).no_duplicates(),
        parameters.is_prefix_of(with_row(parameters, targets, values, n)),
    decreases n,
{
    if n > 0 {
        let m = (n - 1) as nat;
        lemma_with_row(parameters, targets, values, m, p);
        let before = with_row(parameters, targets, values, m);
        let after = with_row(parameters, targets, values, n);
        if is_vector_type(targets[n - 1]) {
            lemma_with_parameter(before, values[n - 1], p);
            assert(parameters =~= after.subrange(0, parameters.len() as int));
        }
        let last = is_vector_type(targets[n - 1]) && values[n - 1] == Some(p as i32) && p
            <= i32::MAX && p > 0;
        if last {
            assert(values[n - 1] == Some(p as i32));
        }
    } else {
        assert(parameters =~= parameters.subrange(0, parameters.len() as int));
    }
}

proof fn lemma_with_parameter(parameters: Seq<usize>, value: Option<i32>, p: usize)
    ensures
        with_parameter(parameters, value).contains(p) <==> parameters.contains(p) || (value == Some(
            p as i32,
        ) && p <= i32::MAX && p > 0),
        parameters.no_duplicates() ==> with_parameter(parameters, value).no_duplicates(),
        parameters.len() <= with_parameter(parameters, value).len(),
        forall|i: int|
            0 <= i < parameters.len() ==> with_parameter(parameters, value)[i] == parameters[i],
{
    let after = with_parameter(parameters, value);
    if after.len() > parameters.len() {
        assert(after[after.len() - 1] == value->0 as usize);
        if parameters.contains(p) {
            let i = choose|i: int| 0 <= i < parameters.len() && parameters[i] == p;
            assert(after[i] == p);
        }
    }
}

proof fn lemma_with_rows(
    parameters: Seq<usize>,
    targets: Seq<Seq<char>>,
    rows: Seq<Option<Vec<Option<i32>>>>,
    n: nat,
    p: usize,
)
    requires
        n <= rows.len(),
    ensures
        with_rows(parameters, targets, rows, n).contains(p) <==> parameters.contains(p)
            || exists|i: int, k: int| i < n && #[trigger] in_row(targets, rows, i, k, p),
        parameters.no_duplicates() ==> with_rows(parameters, targets, rows, n).no_duplicates(),
        parameters.is_prefix_of(with_rows(parameters, targets, rows, n)),
    decreases n,
{
    if n > 0 {
        let m = (n - 1) as nat;
        lemma_with_rows(parameters, targets, rows, m, p);
        let before = with_rows(parameters, targets, rows, m);
        let after = with_rows(parameters, targets, rows, n);
        if let Some(values) = rows[n - 1] {
            lemma_with_row(before, targets, values@, paired(targets, values@), p);
            assert(parameters =~= after.subrange(0, parameters.len() as int)) by {
                assert forall|i: int| 0 <= i < parameters.len() implies parameters[i] == after[i] by {
                    assert(parameters[i] == before.subrange(0, parameters.len() as int)[i]);
                    assert(before[i] == after.subrange(0, before.len() as int)[i]);
                }
            }
            if after.contains(p) && !before.contains(p) {
                let k = choose|k: int|
                    0 <= k < paired(targets, values@) && is_vector_type(targets[k])
                        && #[trigger] values@[k] == Some(p as i32) && p <= i32::MAX && p > 0;
                assert(in_row(targets, rows, n - 1, k, p));
            }
        }
        if exists|i: int, k: int| i < n && #[trigger] in_row(targets, rows, i, k, p) {
            let (i, k) = choose|i: int, k: int| i < n && #[trigger] in_row(targets, rows, i, k, p);
            if i == n - 1 {
                let values = rows[i]->0;
                assert(values@[k] == Some(p as i32));
            } else {
                assert(i < m);
            }
        }
    } else {
        assert(parameters =~= parameters.subrange(0, parameters.len() as int));
    }
}

proof fn lemma_with_targets(
    parameters: Seq<usize>,
    targets: Seq<Option<UpdateTarget>>,
    n: nat,
    p: usize,
)
    requires
        n <= targets.len(),
    ensures
        with_targets(parameters, targets, n).contains(p) <==> parameters.contains(p) || exists|i: int|
            i < n && #[trigger] in_target(targets, i, p),
        parameters.no_duplicates() ==> with_targets(parameters, targets, n).no_duplicates(),
        parameters.is_prefix_of(with_targets(parameters, targets, n)),
    decreases n,
{
    if n > 0 {
        let m = (n - 1) as nat;
        lemma_with_targets(parameters, targets, m, p);
        let before = with_targets(parameters, targets, m);
        let after = with_targets(parameters, targets, n);
        if let Some(target) = targets[n - 1] {
            if assigns_vector(target) {
                lemma_with_parameter(before, target.value, p);
                assert(parameters =~= after.subrange(0, parameters.len() as int)) by {
                    assert forall|i: int| 0 <= i < parameters.len() implies parameters[i]
                        == after[i] by {
                        assert(parameters[i] == before.subrange(0, parameters.len() as int)[i]);
                    }
                }
                if target.value == Some(p as i32) && p <= i32::MAX && p > 0 {
                    assert(in_target(targets, n - 1, p));
                }
            }
        }
    } else {
        assert(parameters =~= parameters.subrange(0, parameters.len() as int));
    }
}

/// Inference goes by the assignment: it adds exactly the parameters that the
/// statement assigns to vector columns, keeps those that were there, in their
/// places, and lists none twice.
pub proof fn inference_follows_assignments(
    parameters: Seq<usize>,
    statement: RootStatement,
    p: usize,
)
    ensures
        with_assigned(parameters, statement).contains(p) <==> parameters.contains(p)
            || assigned_to_vector(statement, p),
        parameters.is_prefix_of(with_assigned(parameters, statement)),
        parameters.no_duplicates() ==> with_assigned(parameters, statement).no_duplicates(),
{
    assert(parameters =~= parameters.subrange(0, parameters.len() as int));
    match statement {
        RootStatement::Insert(insert) => match (insert.table, insert.rows) {
            (Some(table), Some(rows)) => {
                lemma_with_rows(
                    parameters,
                    target_types(table@, insert.columns@),
                    rows@,
                    rows@.len(),
                    p,
                );
            },
            _ => {},
        },
        RootStatement::Update(update) => {
            if update.table {
                lemma_with_targets(parameters, update.targets@, update.targets@.len(), p);
            }
        },
        RootStatement::Other => {},
    }
}

/// Inference keeps to the parameters of the statement: where the positions known
/// before, and those that the statement assigns to vector columns, are among the first
/// `count`, counted from one, so is every position it gives.
pub proof fn inferred_positions_lie_within_the_count(
    parameters: Seq<usize>,
    statement: RootStatement,
    count: usize,
    p: usize,
)
    requires
        forall|q: usize| #[trigger] parameters.contains(q) ==> 1 <= q <= count,
        forall|q: usize| #[trigger] assigned_to_vector(statement, q) ==> 1 <= q <= count,
        with_assigned(parameters, statement).contains(p),
    ensures
        1 <= p <= count,
{
    inference_follows_assignments(parameters, statement, p);
}

/// The positions in order are settled by which positions there are: resolving the
/// same facts twice gives the same positions.
pub proof fn positions_in_order_are_settled(a: Seq<usize>, b: Seq<usize>)
    requires
        is_sorted(a),
        is_sorted(b),
        a.to_multiset() == b.to_multiset(),
    ensures
        a == b,
{
    let leq = |x: usize, y: usize| x <= y;
    vstd::seq_lib::lemma_sorted_unique(a, b, leq);
}

} // verus!
