//! The relational access bridge: what is decided around one parameterized
//! statement. The bridge checks that a connection is installed, binds the
//! caller's values in positional order, hands the statement to the store, and
//! turns what the store answers into the caller's rows or error.
//!
//! The store itself is reached through a function that the caller passes in:
//! it receives the connection, the statement text and the bound parameters,
//! and answers with the store's outcome.

use crate::error::{failure, outcome_model, ErrorKind, ErrorModel, SidecarError};
use crate::textmap::TextMap;
use crate::value::{
    decodable, from_column, is_decodable, json_to_sql, row_value_to_json, to_parameter,
    ColumnModel, ParamModel, RawColumn, SqlParam, UntypedValue, ValueModel,
};
use vstd::prelude::*;
use vstd::string::StringExecFns;

verus! {

/// `rusqlite::Connection`, the live handle to one on-disk store. The bridge
/// only carries it; nothing is claimed of its contents.
#[verifier::external_type_specification]
#[verifier::external_body]
pub struct ExConnection(rusqlite::Connection);

/// One result row: column name to decoded value.
pub type Row = TextMap<UntypedValue>;

/// The statements that prepare a fresh connection: write-ahead logging and
/// foreign-key enforcement.
pub const CONNECTION_SETUP: &'static str = "PRAGMA journal_mode=WAL; PRAGMA foreign_keys=ON;";

/// The views of a list of parameters.
pub open spec fn param_models(params: Seq<SqlParam>) -> Seq<ParamModel> {
    Seq::new(params.len(), |i: int| params[i]@)
}

/// The views of a list of values.
pub open spec fn value_models(values: Seq<UntypedValue>) -> Seq<ValueModel> {
    Seq::new(values.len(), |i: int| values[i]@)
}

/// The views of a list of texts.
pub open spec fn texts(list: Seq<String>) -> Seq<Seq<char>> {
    Seq::new(list.len(), |i: int| list[i]@)
}

/// The views of a list of columns.
pub open spec fn column_models(columns: Seq<RawColumn>) -> Seq<ColumnModel> {
    Seq::new(columns.len(), |i: int| columns[i]@)
}

/// The views of a list of rows.
pub open spec fn row_models(rows: Seq<Row>) -> Seq<Map<Seq<char>, ValueModel>> {
    Seq::new(rows.len(), |i: int| rows[i]@)
}

/// The parameters that a statement is run with: each value's own parameter,
/// in the caller's order.
pub open spec fn bound_parameters(values: Seq<ValueModel>) -> Seq<ParamModel> {
    Seq::new(values.len(), |i: int| to_parameter(values[i]))
}

/// The mapping that a row of columns stands for: the columns are filed under
/// their names from left to right, so of two columns with one name the later
/// one stays.
pub open spec fn row_model(names: Seq<Seq<char>>, columns: Seq<ColumnModel>) -> Map<
    Seq<char>,
    ValueModel,
>
    decreases names.len(),
{
    if names.len() == 0 {
        Map::empty()
    } else {
        row_model(names.drop_last(), columns.drop_last()).insert(
            names.last(),
            from_column(columns.last()),
        )
    }
}

/// The names of a row's columns with every repetition dropped: each name at
/// the place where it first occurs.
pub open spec fn first_occurrences(names: Seq<Seq<char>>) -> Seq<Seq<char>>
    decreases names.len(),
{
    if names.len() == 0 {
        Seq::empty()
    } else if names.drop_last().contains(names.last()) {
        first_occurrences(names.drop_last())
    } else {
        first_occurrences(names.drop_last()).push(names.last())
    }
}

/// A row has exactly the names of its columns as keys.
pub proof fn lemma_row_keys(names: Seq<Seq<char>>, columns: Seq<ColumnModel>, key: Seq<char>)
    requires
        names.len() == columns.len(),
    ensures
        row_model(names, columns).contains_key(key) <==> names.contains(key),
    decreases names.len(),
{
    if names.len() > 0 {
        lemma_row_keys(names.drop_last(), columns.drop_last(), key);
        if names.contains(key) {
            let i = choose|i: int| 0 <= i < names.len() && names[i] == key;
            if i < names.len() - 1 {
                assert(names.drop_last()[i] == key);
            }
        }
        if names.drop_last().contains(key) {
            let i = choose|i: int| 0 <= i < names.drop_last().len() && names.drop_last()[i] == key;
            assert(names[i] == key);
        }
        assert(names[names.len() - 1] == names.last());
    }
}

/// Where several columns share a name, the row holds the value of the last
/// of them.
pub proof fn lemma_last_column_wins(names: Seq<Seq<char>>, columns: Seq<ColumnModel>, i: int)
    requires
        names.len() == columns.len(),
        0 <= i < names.len(),
        forall|j: int| i < j < names.len() ==> names[j] != names[i],
    ensures
        row_model(names, columns).contains_key(names[i]),
        row_model(names, columns)[names[i]] == from_column(columns[i]),
    decreases names.len(),
{
    if i < names.len() - 1 {
        let front = names.drop_last();
        assert(front[i] == names[i]);
        assert forall|j: int| i < j < front.len() implies front[j] != front[i] by {
            assert(front[j] == names[j]);
        }
        lemma_last_column_wins(front, columns.drop_last(), i);
        assert(names.last() != names[i]);
    }
}

/// What a statement's result set holds: the column names, and for every row
/// one raw column per name. Every column in it can be decoded.
pub struct ResultSet {
    column_names: Vec<String>,
    rows: Vec<Vec<RawColumn>>,
}

/// Every row is as wide as the list of names, and every column decodable.
pub open spec fn rows_fit(width: nat, rows: Seq<Vec<RawColumn>>) -> bool {
    forall|r: int|
        0 <= r < rows.len() ==> {
            &&& (#[trigger] rows[r])@.len() == width
            &&& forall|c: int| 0 <= c < rows[r]@.len() ==> decodable((#[trigger] rows[r]@[c])@)
        }
}

impl ResultSet {
    #[verifier::type_invariant]
    spec fn well_formed(self) -> bool {
        rows_fit(self.column_names@.len(), self.rows@)
    }

    /// The column names, in the statement's order.
    pub closed spec fn names(self) -> Seq<Seq<char>> {
        texts(self.column_names@)
    }

    /// The rows, in the order in which the store produced them.
    pub closed spec fn rows(self) -> Seq<Seq<ColumnModel>> {
        Seq::new(self.rows@.len(), |r: int| column_models(self.rows@[r]@))
    }

    /// The result set of a statement with the given columns, before its
    /// first row.
    pub fn new(column_names: Vec<String>) -> (set: ResultSet)
        ensures
            set.names() == texts(column_names@),
            set.rows().len() == 0,
    {
        ResultSet { column_names, rows: Vec::new() }
    }

    /// Adds a row, if it has one decodable column per name. Says whether it
    /// did; a row that does not fit leaves the set as it was.
    pub fn push_row(&mut self, columns: Vec<RawColumn>) -> (added: bool)
        ensures
            final(self).names() == old(self).names(),
            added <==> columns@.len() == old(self).names().len() && forall|c: int|
                0 <= c < columns@.len() ==> decodable(#[trigger] columns@[c]@),
            added ==> final(self).rows() == old(self).rows().push(column_models(columns@)),
            !added ==> final(self).rows() == old(self).rows(),
    {
        proof {
            use_type_invariant(&*self);
        }
        if columns.len() != self.column_names.len() {
            return false;
        }
        let mut c: usize = 0;
        while c < columns.len()
            invariant
                c <= columns@.len(),
                forall|k: int| 0 <= k < c ==> decodable(#[trigger] columns@[k]@),
            decreases columns@.len() - c,
        {
            if !is_decodable(&columns[c]) {
                return false;
            }
            c += 1;
        }
        let ghost before = self.rows@;
        let ghost row = columns;
        let mut rows: Vec<Vec<RawColumn>> = Vec::new();
        core::mem::swap(&mut self.rows, &mut rows);
        rows.push(columns);
        proof {
            assert forall|r: int| 0 <= r < rows@.len() implies {
                &&& (#[trigger] rows@[r])@.len() == self.column_names@.len()
                &&& forall|k: int|
                    0 <= k < rows@[r]@.len() ==> decodable((#[trigger] rows@[r]@[k])@)
            } by {
                if r < before.len() {
                    assert(rows@[r] == before[r]);
                } else {
                    assert(rows@[r] == row);
                }
            }
        }
        core::mem::swap(&mut self.rows, &mut rows);
        assert(final(self).rows() =~= old(self).rows().push(column_models(row@)));
        true
    }

    /// The number of rows.
    pub fn row_count(&self) -> (n: usize)
        ensures
            n == self.rows().len(),
    {
        self.rows.len()
    }
}

/// The rows that a caller receives for a result set: one mapping per row.
pub open spec fn decoded_rows(set: ResultSet) -> Seq<Map<Seq<char>, ValueModel>> {
    Seq::new(set.rows().len(), |r: int| row_model(set.names(), set.rows()[r]))
}

/// What the caller of a mutation receives for the store's outcome: the
/// number of affected rows, or the store's message as a `Database` error.
pub open spec fn execute_outcome(outcome: Result<usize, String>) -> Result<usize, ErrorModel> {
    match outcome {
        Ok(affected) => Ok(affected),
        Err(message) => Err(failure(ErrorKind::Database, message@)),
    }
}

/// What the caller of a query receives for the store's outcome: every row
/// decoded, or the store's message as a `Database` error.
pub open spec fn query_outcome(outcome: Result<ResultSet, String>) -> Result<
    Seq<Map<Seq<char>, ValueModel>>,
    ErrorModel,
> {
    match outcome {
        Ok(set) => Ok(decoded_rows(set)),
        Err(message) => Err(failure(ErrorKind::Database, message@)),
    }
}

/// What the caller of an initialization receives for the store's outcome.
pub open spec fn init_outcome(outcome: Result<rusqlite::Connection, String>) -> Result<
    (),
    ErrorModel,
> {
    match outcome {
        Ok(_) => Ok(()),
        Err(message) => Err(failure(ErrorKind::Database, message@)),
    }
}

/// The rows of a query by their views.
pub open spec fn query_model(result: Result<Vec<Row>, SidecarError>) -> Result<
    Seq<Map<Seq<char>, ValueModel>>,
    ErrorModel,
> {
    match result {
        Ok(rows) => Ok(row_models(rows@)),
        Err(error) => Err(error@),
    }
}

/// Every row lists its columns in the statement's order, each name once, at
/// the place where it first occurs.
pub open spec fn rows_in_order(rows: Seq<Row>, names: Seq<Seq<char>>) -> bool {
    forall|k: int| 0 <= k < rows.len() ==> (#[trigger] rows[k]).keys() == first_occurrences(names)
}

/// The error of an operation that needs a connection and finds none.
pub open spec fn not_initialized() -> ErrorModel {
    failure(ErrorKind::InvalidState, "Database not initialized"@)
}

/// Binds values as statement parameters, in positional order.
pub fn bind_params(params: &Vec<UntypedValue>) -> (bound: Vec<SqlParam>)
    ensures
        param_models(bound@) == bound_parameters(value_models(params@)),
{
    let mut bound: Vec<SqlParam> = Vec::new();
    let mut i: usize = 0;
    while i < params.len()
        invariant
            i <= params@.len(),
            bound@.len() == i,
            forall|j: int| 0 <= j < i ==> (#[trigger] bound@[j])@ == to_parameter(params@[j]@),
        decreases params@.len() - i,
    {
        bound.push(json_to_sql(&params[i]));
        i += 1;
    }
    assert(param_models(bound@) =~= bound_parameters(value_models(params@)));
    bound
}

/// Builds one row from the column names and the raw columns under them.
pub fn build_row(names: &Vec<String>, columns: &Vec<RawColumn>) -> (row: Row)
    requires
        names@.len() == columns@.len(),
        forall|c: int| 0 <= c < columns@.len() ==> decodable(#[trigger] columns@[c]@),
    ensures
        row@ == row_model(texts(names@), column_models(columns@)),
        row.keys() == first_occurrences(texts(names@)),
{
    let ghost all_names = texts(names@);
    let ghost all_columns = column_models(columns@);
    let mut row: Row = TextMap::new();
    let mut i: usize = 0;
    while i < names.len()
        invariant
            i <= names@.len(),
            names@.len() == columns@.len(),
            all_names == texts(names@),
            all_columns == column_models(columns@),
            forall|c: int| 0 <= c < columns@.len() ==> decodable(#[trigger] columns@[c]@),
            row@ == row_model(all_names.take(i as int), all_columns.take(i as int)),
            row.keys() == first_occurrences(all_names.take(i as int)),
        decreases names@.len() - i,
    {
        let value = row_value_to_json(&columns[i]);
        proof {
            lemma_row_keys(all_names.take(i as int), all_columns.take(i as int), names@[i as int]@);
        }
        row.insert(names[i].clone(), value);
        proof {
            let next = i + 1;
            assert(all_names.take(next).drop_last() =~= all_names.take(i as int));
            assert(all_columns.take(next).drop_last() =~= all_columns.take(i as int));
            assert(all_names.take(next).last() == names@[i as int]@);
            assert(all_columns.take(next).last() == columns@[i as int]@);
        }
        i += 1;
    }
    proof {
        assert(all_names.take(i as int) =~= all_names);
        assert(all_columns.take(i as int) =~= all_columns);
    }
    row
}

/// Turns the store's answer to a mutation into the caller's result.
pub fn execute_result(outcome: Result<usize, String>) -> (result: Result<usize, SidecarError>)
    ensures
        outcome_model(result) == execute_outcome(outcome),
{
    match outcome {
        Ok(affected) => Ok(affected),
        Err(message) => Err(SidecarError::Database(message)),
    }
}

/// Turns the store's answer to a query into the caller's result: all rows
/// are decoded and materialized before anything is returned.
pub fn query_result(outcome: Result<ResultSet, String>) -> (result: Result<
    Vec<Row>,
    SidecarError,
>)
    ensures
        query_model(result) == query_outcome(outcome),
        result matches Ok(rows) ==> outcome matches Ok(set) && rows_in_order(rows@, set.names()),
{
    match outcome {
        Ok(set) => {
            proof {
                use_type_invariant(&set);
            }
            let mut rows: Vec<Row> = Vec::new();
            let mut r: usize = 0;
            while r < set.rows.len()
                invariant
                    r <= set.rows@.len(),
                    rows_fit(set.column_names@.len(), set.rows@),
                    rows@.len() == r,
                    forall|k: int| 0 <= k < r ==> (#[trigger] rows@[k])@ == decoded_rows(set)[k],
                    rows_in_order(rows@, set.names()),
                decreases set.rows@.len() - r,
            {
                let row = build_row(&set.column_names, &set.rows[r]);
                rows.push(row);
                r += 1;
            }
            assert(row_models(rows@) =~= decoded_rows(set));
            Ok(rows)
        },
        Err(message) => Err(SidecarError::Database(message)),
    }
}

/// Installs the connection that `open` obtains for `path`, replacing any
/// earlier one. With no `path` the store lives at the location that
/// `default_path` resolves. `open` is handed the path and the setup
/// statements; where it fails, the earlier connection stays installed.
pub fn db_init<D, O>(
    db: &mut Option<rusqlite::Connection>,
    path: Option<String>,
    default_path: D,
    open: O,
) -> (result: Result<(), SidecarError>) where
    D: FnOnce() -> String,
    O: FnOnce(&str, &str) -> Result<rusqlite::Connection, String>,

    requires
        default_path.requires(()),
        forall|location: &str, setup: &str| open.requires((location, setup)),
    ensures
        exists|resolved: String, location: &str, outcome: Result<rusqlite::Connection, String>|
            {
                &&& match path {
                    Some(given) => resolved == given,
                    None => default_path.ensures((), resolved),
                }
                &&& location@ == resolved@
                &&& open.ensures((location, CONNECTION_SETUP), outcome)
                &&& outcome_model(result) == init_outcome(outcome)
                &&& *final(db) == match outcome {
                    Ok(connection) => Some(connection),
                    Err(_) => *old(db),
                }
            },
{
    let location = match path {
        Some(given) => given,
        None => default_path(),
    };
    let target = location.as_str();
    let outcome = open(target, CONNECTION_SETUP);
    assert(open.ensures((target, CONNECTION_SETUP), outcome));
    match outcome {
        Ok(connection) => {
            *db = Some(connection);
            Ok(())
        },
        Err(message) => Err(SidecarError::Database(message)),
    }
}

/// Runs a mutating statement: `run` is handed the connection, the statement
/// and the bound parameters, and answers with the number of affected rows or
/// the store's message. Without a connection nothing is run.
pub fn db_execute<F>(
    db: &Option<rusqlite::Connection>,
    sql: &str,
    params: &Vec<UntypedValue>,
    run: F,
) -> (result: Result<usize, SidecarError>) where
    F: FnOnce(&rusqlite::Connection, &str, Vec<SqlParam>) -> Result<usize, String>,

    requires
        forall|connection: &rusqlite::Connection, statement: &str, bound: Vec<SqlParam>|
            run.requires((connection, statement, bound)),
    ensures
        db is None ==> outcome_model(result) == Err::<usize, ErrorModel>(not_initialized()),
        db matches Some(connection) ==> exists|bound: Vec<SqlParam>, outcome: Result<usize, String>|
            {
                &&& param_models(bound@) == bound_parameters(value_models(params@))
                &&& run.ensures((&connection, sql, bound), outcome)
                &&& outcome_model(result) == execute_outcome(outcome)
            },
{
    match db {
        None => Err(SidecarError::InvalidState(String::from_str("Database not initialized"))),
        Some(connection) => {
            let bound = bind_params(params);
            let ghost sent = bound;
            let outcome = run(connection, sql, bound);
            assert(run.ensures((connection, sql, sent), outcome));
            execute_result(outcome)
        },
    }
}

/// Runs a read statement: `run` is handed the connection, the statement and
/// the bound parameters, and answers with the whole result set or the
/// store's message. Without a connection nothing is run.
pub fn db_query<F>(
    db: &Option<rusqlite::Connection>,
    sql: &str,
    params: &Vec<UntypedValue>,
    run: F,
) -> (result: Result<Vec<Row>, SidecarError>) where
    F: FnOnce(&rusqlite::Connection, &str, Vec<SqlParam>) -> Result<ResultSet, String>,

    requires
        forall|connection: &rusqlite::Connection, statement: &str, bound: Vec<SqlParam>|
            run.requires((connection, statement, bound)),
    ensures
        db is None ==> query_model(result) == Err::<Seq<Map<Seq<char>, ValueModel>>, ErrorModel>(
            not_initialized(),
        ),
        db matches Some(connection) ==> exists|
            bound: Vec<SqlParam>,
            outcome: Result<ResultSet, String>,
        |
            {
                &&& param_models(bound@) == bound_parameters(value_models(params@))
                &&& run.ensures((&connection, sql, bound), outcome)
                &&& query_model(result) == query_outcome(outcome)
                &&& result matches Ok(rows) ==> outcome matches Ok(set) && rows_in_order(
                    rows@,
                    set.names(),
                )
            },
{
    match db {
        None => Err(SidecarError::InvalidState(String::from_str("Database not initialized"))),
        Some(connection) => {
            let bound = bind_params(params);
            let ghost sent = bound;
            let outcome = run(connection, sql, bound);
            assert(run.ensures((connection, sql, sent), outcome));
            query_result(outcome)
        },
    }
}

} // verus!
