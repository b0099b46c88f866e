use vstd::prelude::*;
use crate::error::StoreError;
use crate::pool::{wait_is_bounded, ConnectionPool};
use crate::sql::{execute, SqlValue, Statement};

verus! {

/// What the store is set up from.
#[derive(Clone, Debug, PartialEq, Eq)]
pub struct Configuration {
    /// The path of the store's file.
    pub db_path: String,
    /// How many seconds a call waits for a free connection before it fails.
    pub pool_wait_secs: u64,
    /// Development mode. The schema is created in either mode; the option is kept so
    /// that a caller can state it, and it changes nothing for now.
    pub development_mode: bool,
}

/// A table of the campaign store.
#[derive(Clone, Copy, Debug, PartialEq, Eq, Structural)]
pub enum Table {
    Characters,
    Encounters,
    EncounterCharacters,
}

/// The words that every statement of the schema begins with: they make the statement
/// leave a table that exists, and the rows in it, as they are.
pub open spec fn create_if_missing() -> Seq<char> {
    "CREATE TABLE IF NOT EXISTS "@
}

/// The statement that creates a table unless it exists.
pub open spec fn create_statement(table: Table) -> Seq<char> {
    match table {
        Table::Characters =>
            "CREATE TABLE IF NOT EXISTS characters (id UUID PRIMARY KEY, name TEXT NOT NULL, class TEXT NOT NULL, race TEXT NOT NULL, background TEXT, level INTEGER NOT NULL, experience INTEGER NOT NULL, hit_points INTEGER NOT NULL, current_hit_points INTEGER NOT NULL, armor_class INTEGER NOT NULL, initiative INTEGER, alive BOOLEAN NOT NULL, notes TEXT NOT NULL, created_at_utc TIMESTAMP WITH TIME ZONE NOT NULL, updated_at_utc TIMESTAMP WITH TIME ZONE NOT NULL)"@,
        Table::Encounters =>
            "CREATE TABLE IF NOT EXISTS encounters (id TEXT PRIMARY KEY, encounter_title TEXT NOT NULL)"@,
        Table::EncounterCharacters =>
            "CREATE TABLE IF NOT EXISTS encounter_characters (id TEXT PRIMARY KEY, encounter_id TEXT NOT NULL, character_id TEXT NOT NULL, initiative INTEGER)"@,
    }
}

/// The tables in the order in which they are created.
pub open spec fn schema_tables() -> Seq<Table> {
    seq![Table::Characters, Table::Encounters, Table::EncounterCharacters]
}

/// Every statement of the schema creates its table only if the table is missing.
pub proof fn lemma_schema_creates_only_missing(table: Table)
    ensures
        create_if_missing().is_prefix_of(create_statement(table)),
{
    reveal_strlit("CREATE TABLE IF NOT EXISTS ");
    reveal_strlit(
        "CREATE TABLE IF NOT EXISTS characters (id UUID PRIMARY KEY, name TEXT NOT NULL, class TEXT NOT NULL, race TEXT NOT NULL, background TEXT, level INTEGER NOT NULL, experience INTEGER NOT NULL, hit_points INTEGER NOT NULL, current_hit_points INTEGER NOT NULL, armor_class INTEGER NOT NULL, initiative INTEGER, alive BOOLEAN NOT NULL, notes TEXT NOT NULL, created_at_utc TIMESTAMP WITH TIME ZONE NOT NULL, updated_at_utc TIMESTAMP WITH TIME ZONE NOT NULL)",
    );
    reveal_strlit(
        "CREATE TABLE IF NOT EXISTS encounters (id TEXT PRIMARY KEY, encounter_title TEXT NOT NULL)",
    );
    reveal_strlit(
        "CREATE TABLE IF NOT EXISTS encounter_characters (id TEXT PRIMARY KEY, encounter_id TEXT NOT NULL, character_id TEXT NOT NULL, initiative INTEGER)",
    );
    let head = create_if_missing();
    let text = create_statement(table);
    assert(head.len() == 27);
    assert(text.subrange(0, 27) =~= head);
}

impl Table {
    /// The statement that creates this table unless it exists.
    pub fn create_sql(&self) -> (sql: &'static str)
        ensures
            sql@ == create_statement(*self),
    {
        match self {
            Table::Characters =>
                "CREATE TABLE IF NOT EXISTS characters (id UUID PRIMARY KEY, name TEXT NOT NULL, class TEXT NOT NULL, race TEXT NOT NULL, background TEXT, level INTEGER NOT NULL, experience INTEGER NOT NULL, hit_points INTEGER NOT NULL, current_hit_points INTEGER NOT NULL, armor_class INTEGER NOT NULL, initiative INTEGER, alive BOOLEAN NOT NULL, notes TEXT NOT NULL, created_at_utc TIMESTAMP WITH TIME ZONE NOT NULL, updated_at_utc TIMESTAMP WITH TIME ZONE NOT NULL)",
            Table::Encounters =>
                "CREATE TABLE IF NOT EXISTS encounters (id TEXT PRIMARY KEY, encounter_title TEXT NOT NULL)",
            Table::EncounterCharacters =>
                "CREATE TABLE IF NOT EXISTS encounter_characters (id TEXT PRIMARY KEY, encounter_id TEXT NOT NULL, character_id TEXT NOT NULL, initiative INTEGER)",
        }
    }
}

/// The tables in the order in which they are created.
pub fn tables() -> (all: Vec<Table>)
    ensures
        all@ == schema_tables(),
{
    let mut all: Vec<Table> = Vec::new();
    all.push(Table::Characters);
    all.push(Table::Encounters);
    all.push(Table::EncounterCharacters);
    assert(all@ =~= schema_tables());
    all
}

/// The tables that setting up a store creates where they are missing: the whole
/// schema, in development mode as in any other. The mode is an option that a caller
/// can state, and it changes nothing.
pub fn bootstrap_plan(configuration: &Configuration) -> (plan: Vec<Table>)
    ensures
        plan@ == schema_tables(),
{
    let _development = configuration.development_mode;
    tables()
}

/// Creates the three tables of the schema, each unless it exists, in the order of
/// `schema_tables`, and stops at the first statement that the store does not run.
///
/// Development mode is read and changes nothing. Whether a statement runs is the
/// store's to say; every failure is reported as a `ConnectionError`.
pub fn setup_structure(conn: &rusqlite::Connection, configuration: &Configuration) -> (done:
    Result<(), StoreError>)
    ensures
        done matches Err(e) ==> e == StoreError::ConnectionError,
{
    let all = bootstrap_plan(configuration);
    let none: Vec<SqlValue> = Vec::new();
    let mut i: usize = 0;
    while i < all.len()
        invariant
            i <= all@.len(),
            none@.len() == 0,
        decreases all@.len() - i,
    {
        match execute(conn, Statement::Create(all[i]), &none) {
            Ok(_) => {},
            Err(_) => {
                return Err(StoreError::ConnectionError);
            },
        }
        i = i + 1;
    }
    Ok(())
}

/// Opens the pool on the store's file and creates the schema where it is missing, so
/// that no caller sees the store before its tables exist.
///
/// A wait that is not bounded is refused. Whether the file can be opened and the
/// statements run is the machine's to say; every failure is a `ConnectionError`.
pub fn setup_database(configuration: &Configuration) -> (pool: Result<ConnectionPool, StoreError>)
    ensures
        !wait_is_bounded(configuration.pool_wait_secs) ==> pool is Err,
        pool matches Err(e) ==> e == StoreError::ConnectionError,
{
    let pool = match ConnectionPool::open(
        configuration.db_path.as_str(),
        configuration.pool_wait_secs,
    ) {
        Ok(pool) => pool,
        Err(e) => {
            return Err(e);
        },
    };
    let lent = match pool.acquire() {
        Ok(lent) => lent,
        Err(e) => {
            return Err(e);
        },
    };
    match setup_structure(lent.connection(), configuration) {
        Ok(_) => {},
        Err(e) => {
            return Err(e);
        },
    }
    Ok(pool)
}

} // verus!
