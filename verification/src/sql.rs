use vstd::prelude::*;
use crate::error::StoreError;
use crate::storage::{create_statement, Table};

verus! {

/// `rusqlite::Connection`, a connection to the store; it is carried, never looked
/// into.
#[verifier::external_type_specification]
#[verifier::external_body]
pub struct ExConnection(rusqlite::Connection);

/// `rusqlite::Error`, what the store reports when a statement fails.
#[verifier::external_type_specification]
#[verifier::external_body]
pub struct ExSqlError(rusqlite::Error);

/// `rusqlite::types::Value`, the dynamic value that a statement binds and a column
/// yields.
#[verifier::external_type_specification]
#[verifier::external_body]
pub struct ExDynamicValue(rusqlite::types::Value);

/// A value bound to a statement or read from a column.
///
/// The tables of this store hold text, integers and NULL. `Unsupported` stands for a
/// column that holds anything else; it is read, never bound.
#[derive(Clone, Debug, PartialEq, Eq)]
pub enum SqlValue {
    Null,
    Integer(i64),
    Text(String),
    Unsupported,
}

/// The mathematical form of a [`SqlValue`].
pub enum SqlValueView {
    Null,
    Integer(i64),
    Text(Seq<char>),
    Unsupported,
}

impl View for SqlValue {
    type V = SqlValueView;

    open spec fn view(&self) -> SqlValueView {
        match self {
            SqlValue::Null => SqlValueView::Null,
            SqlValue::Integer(n) => SqlValueView::Integer(*n),
            SqlValue::Text(s) => SqlValueView::Text(s@),
            SqlValue::Unsupported => SqlValueView::Unsupported,
        }
    }
}

impl SqlValue {
    /// Whether the value can be bound to a statement.
    pub open spec fn is_bindable(&self) -> bool {
        !(self is Unsupported)
    }
}

/// A row as the sequence of the views of its cells.
pub open spec fn row_view(row: Seq<SqlValue>) -> Seq<SqlValueView> {
    Seq::new(row.len(), |i: int| row[i]@)
}

/// The view of an optional text.
pub open spec fn text_view(text: Option<String>) -> Option<Seq<char>> {
    match text {
        Some(s) => Some(s@),
        None => None,
    }
}

/// Whether every value of `params` can be bound.
pub open spec fn all_bindable(params: Seq<SqlValue>) -> bool {
    forall|i: int| 0 <= i < params.len() ==> (#[trigger] params[i]).is_bindable()
}

/// Turns a value of the library into rusqlite's dynamic `types::Value`, variant by
/// variant. `Unsupported` has no counterpart and is kept out by the precondition.
/// Nothing is claimed of the result, which is opaque.
#[verifier::external_body]
fn bound_value(value: &SqlValue) -> (bound: rusqlite::types::Value)
    requires
        value.is_bindable(),
{
    match value {
        SqlValue::Integer(n) => rusqlite::types::Value::Integer(*n),
        SqlValue::Text(s) => rusqlite::types::Value::Text(s.clone()),
        SqlValue::Null => rusqlite::types::Value::Null,
        SqlValue::Unsupported => rusqlite::types::Value::Null,
    }
}

/// Turns rusqlite's dynamic `types::Value` into a value of the library, variant by
/// variant; a float and a blob both become `Unsupported`. Nothing is claimed of the
/// result, since its argument is opaque.
#[verifier::external_body]
fn cell_value(cell: &rusqlite::types::Value) -> (value: SqlValue) {
    match cell {
        rusqlite::types::Value::Null => SqlValue::Null,
        rusqlite::types::Value::Integer(n) => SqlValue::Integer(*n),
        rusqlite::types::Value::Text(s) => SqlValue::Text(s.clone()),
        rusqlite::types::Value::Real(_) => SqlValue::Unsupported,
        rusqlite::types::Value::Blob(_) => SqlValue::Unsupported,
    }
}

/// Calls `rusqlite::Connection::execute` with the parameters bound by position. The
/// outcome depends on the store, so nothing is claimed of it.
#[verifier::external_body]
fn execute_bound(
    conn: &rusqlite::Connection,
    sql: &str,
    params: &Vec<rusqlite::types::Value>,
) -> (done: Result<usize, rusqlite::Error>) {
    conn.execute(sql, rusqlite::params_from_iter(params.iter()))
}

/// Prepares the statement with `rusqlite::Connection::prepare`, runs it with
/// `Statement::query` and reads every cell of every row with `Row::get`. The rows
/// depend on the store, so nothing is claimed of them.
#[verifier::external_body]
fn fetch_bound(
    conn: &rusqlite::Connection,
    sql: &str,
    params: &Vec<rusqlite::types::Value>,
) -> (found: Result<Vec<Vec<rusqlite::types::Value>>, rusqlite::Error>) {
    let mut stmt = conn.prepare(sql)?;
    let width = stmt.column_count();
    let mut rows = stmt.query(rusqlite::params_from_iter(params.iter()))?;
    let mut found = Vec::new();
    while let Some(row) = rows.next()? {
        found.push((0..width).map(|i| row.get(i)).collect::<Result<Vec<_>, _>>()?);
    }
    Ok(found)
}

/// Reads `rusqlite::Error::sqlite_error_code` and tells whether it is
/// `ErrorCode::ConstraintViolation`.
#[verifier::external_body]
fn is_constraint_failure(error: &rusqlite::Error) -> (constraint: bool) {
    matches!(error.sqlite_error_code(), Some(rusqlite::ErrorCode::ConstraintViolation))
}

fn bind_all(params: &Vec<SqlValue>) -> (bound: Vec<rusqlite::types::Value>)
    requires
        all_bindable(params@),
    ensures
        bound@.len() == params@.len(),
{
    let mut bound: Vec<rusqlite::types::Value> = Vec::new();
    let mut i: usize = 0;
    while i < params.len()
        invariant
            i <= params@.len(),
            bound@.len() == i,
            all_bindable(params@),
        decreases params@.len() - i,
    {
        bound.push(bound_value(&params[i]));
        i = i + 1;
    }
    bound
}

fn read_row(cells: &Vec<rusqlite::types::Value>) -> (row: Vec<SqlValue>)
    ensures
        row@.len() == cells@.len(),
{
    let mut row: Vec<SqlValue> = Vec::new();
    let mut i: usize = 0;
    while i < cells.len()
        invariant
            i <= cells@.len(),
            row@.len() == i,
        decreases cells@.len() - i,
    {
        row.push(cell_value(&cells[i]));
        i = i + 1;
    }
    row
}

/// A statement of the library. These are all that it ever hands to the store.
#[derive(Clone, Copy, Debug, PartialEq, Eq, Structural)]
pub enum Statement {
    /// Creates a table of the schema unless it exists.
    Create(Table),
    /// Inserts one row into `characters`, all fifteen columns by position.
    InsertCharacter,
    /// Selects the rows of `characters` under one identifier, columns in schema order.
    SelectCharacter,
    /// Selects every row of `characters`, columns in schema order.
    SelectCharacters,
    /// Inserts one row into `encounters`.
    InsertEncounter,
    /// Selects the rows of `encounters` under one identifier.
    SelectEncounter,
    /// Selects every row of `encounters`.
    SelectEncounters,
    /// Inserts one row into `encounter_characters`.
    InsertParticipation,
    /// Selects the rows of `encounter_characters` of one encounter.
    SelectParticipations,
}

/// The text of a statement. Parameters are bound by position, in the order of the
/// columns named.
pub open spec fn statement_text(statement: Statement) -> Seq<char> {
    match statement {
        Statement::Create(table) => create_statement(table),
        Statement::InsertCharacter =>
            "INSERT INTO characters (id, name, class, race, background, level, experience, hit_points, current_hit_points, armor_class, initiative, alive, notes, created_at_utc, updated_at_utc) VALUES (?1, ?2, ?3, ?4, ?5, ?6, ?7, ?8, ?9, ?10, ?11, ?12, ?13, ?14, ?15)"@,
        Statement::SelectCharacter =>
            "SELECT id, name, class, race, background, level, experience, hit_points, current_hit_points, armor_class, initiative, alive, notes, created_at_utc, updated_at_utc FROM characters WHERE id = ?1"@,
        Statement::SelectCharacters =>
            "SELECT id, name, class, race, background, level, experience, hit_points, current_hit_points, armor_class, initiative, alive, notes, created_at_utc, updated_at_utc FROM characters"@,
        Statement::InsertEncounter =>
            "INSERT INTO encounters (id, encounter_title) VALUES (?1, ?2)"@,
        Statement::SelectEncounter =>
            "SELECT id, encounter_title FROM encounters WHERE id = ?1"@,
        Statement::SelectEncounters =>
            "SELECT id, encounter_title FROM encounters"@,
        Statement::InsertParticipation =>
            "INSERT INTO encounter_characters (id, encounter_id, character_id, initiative) VALUES (?1, ?2, ?3, ?4)"@,
        Statement::SelectParticipations =>
            "SELECT id, encounter_id, character_id, initiative FROM encounter_characters WHERE encounter_id = ?1"@,
    }
}

impl Statement {
    /// The text of this statement.
    pub fn text(&self) -> (sql: &'static str)
        ensures
            sql@ == statement_text(*self),
    {
        match self {
            Statement::Create(table) => table.create_sql(),
            Statement::InsertCharacter =>
                "INSERT INTO characters (id, name, class, race, background, level, experience, hit_points, current_hit_points, armor_class, initiative, alive, notes, created_at_utc, updated_at_utc) VALUES (?1, ?2, ?3, ?4, ?5, ?6, ?7, ?8, ?9, ?10, ?11, ?12, ?13, ?14, ?15)",
            Statement::SelectCharacter =>
                "SELECT id, name, class, race, background, level, experience, hit_points, current_hit_points, armor_class, initiative, alive, notes, created_at_utc, updated_at_utc FROM characters WHERE id = ?1",
            Statement::SelectCharacters =>
                "SELECT id, name, class, race, background, level, experience, hit_points, current_hit_points, armor_class, initiative, alive, notes, created_at_utc, updated_at_utc FROM characters",
            Statement::InsertEncounter =>
                "INSERT INTO encounters (id, encounter_title) VALUES (?1, ?2)",
            Statement::SelectEncounter =>
                "SELECT id, encounter_title FROM encounters WHERE id = ?1",
            Statement::SelectEncounters =>
                "SELECT id, encounter_title FROM encounters",
            Statement::InsertParticipation =>
                "INSERT INTO encounter_characters (id, encounter_id, character_id, initiative) VALUES (?1, ?2, ?3, ?4)",
            Statement::SelectParticipations =>
                "SELECT id, encounter_id, character_id, initiative FROM encounter_characters WHERE encounter_id = ?1",
        }
    }
}

/// Which error an insert that the store refused is reported as.
pub open spec fn insert_failure(constraint: bool) -> StoreError {
    if constraint {
        StoreError::ConstraintViolation
    } else {
        StoreError::ConnectionError
    }
}

/// Runs a statement that returns no rows. A refusal by a constraint of the schema is a
/// `ConstraintViolation`; every other failure is a `ConnectionError`.
pub(crate) fn execute(conn: &rusqlite::Connection, statement: Statement, params: &Vec<SqlValue>) -> (done: Result<
    usize,
    StoreError,
>)
    requires
        all_bindable(params@),
    ensures
        done matches Err(e) ==> e == StoreError::ConstraintViolation || e
            == StoreError::ConnectionError,
{
    let bound = bind_all(params);
    match execute_bound(conn, statement.text(), &bound) {
        Ok(changed) => Ok(changed),
        Err(error) => Err(failure_kind(is_constraint_failure(&error))),
    }
}

/// The error for a refused insert, from whether a constraint refused it.
pub fn failure_kind(constraint: bool) -> (error: StoreError)
    ensures
        error == insert_failure(constraint),
{
    if constraint {
        StoreError::ConstraintViolation
    } else {
        StoreError::ConnectionError
    }
}

/// Runs a query and returns its rows in the order in which the store yields them. Any
/// failure is a `ConnectionError`.
pub(crate) fn fetch(conn: &rusqlite::Connection, statement: Statement, params: &Vec<SqlValue>) -> (found: Result<
    Vec<Vec<SqlValue>>,
    StoreError,
>)
    requires
        all_bindable(params@),
    ensures
        found matches Err(e) ==> e == StoreError::ConnectionError,
{
    let bound = bind_all(params);
    match fetch_bound(conn, statement.text(), &bound) {
        Ok(cells) => {
            let mut rows: Vec<Vec<SqlValue>> = Vec::new();
            let mut i: usize = 0;
            while i < cells.len()
                invariant
                    i <= cells@.len(),
                    rows@.len() == i,
                decreases cells@.len() - i,
            {
                rows.push(read_row(&cells[i]));
                i = i + 1;
            }
            Ok(rows)
        },
        Err(_) => Err(StoreError::ConnectionError),
    }
}

} // verus!
