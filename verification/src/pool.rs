use vstd::prelude::*;
use crate::error::StoreError;

verus! {

/// `r2d2::Error`, what the pool reports when it cannot hand out a connection.
#[verifier::external_type_specification]
#[verifier::external_body]
pub struct ExPoolError(r2d2::Error);

/// A pool of connections to one store file: an `r2d2::Pool` over
/// `r2d2_sqlite::SqliteConnectionManager`. The pool guards its own free list, so it
/// may be shared by callers that run at the same time.
#[verifier::external_body]
pub struct ConnectionPool {
    inner: r2d2::Pool<r2d2_sqlite::SqliteConnectionManager>,
}

/// A connection lent by the pool, an `r2d2::PooledConnection`. It is its holder's
/// alone, and goes back to the pool when it is dropped, on every path.
#[verifier::external_body]
pub struct LentConnection {
    inner: r2d2::PooledConnection<r2d2_sqlite::SqliteConnectionManager>,
}

/// The longest that a caller may be made to wait for a connection, in seconds.
pub const MAX_WAIT_SECS: u64 = 86400;

/// Whether a wait for a connection is bounded: more than nothing, a day at most.
pub open spec fn wait_is_bounded(wait_secs: u64) -> bool {
    0 < wait_secs <= MAX_WAIT_SECS
}

/// Builds the pool with `r2d2::Builder::connection_timeout` and `Builder::build` over
/// `SqliteConnectionManager::file`. The builder panics on a wait of zero, which the
/// precondition keeps out. Whether the store can be opened is for the machine to say,
/// so nothing is claimed of the outcome.
#[verifier::external_body]
fn build_pool(path: &str, wait_secs: u64) -> (pool: Result<ConnectionPool, r2d2::Error>)
    requires
        wait_is_bounded(wait_secs),
{
    r2d2::Pool::builder()
        .connection_timeout(std::time::Duration::from_secs(wait_secs))
        .build(r2d2_sqlite::SqliteConnectionManager::file(path))
        .map(|inner| ConnectionPool { inner })
}

/// Calls `r2d2::Pool::get`, which waits for a free connection no longer than the pool
/// was built to wait. Nothing is claimed of the outcome.
#[verifier::external_body]
fn checkout(pool: &ConnectionPool) -> (lent: Result<LentConnection, r2d2::Error>) {
    pool.inner.get().map(|inner| LentConnection { inner })
}

/// Borrows the `rusqlite::Connection` inside a lent connection, through its `Deref`.
#[verifier::external_body]
fn lent_connection(lent: &LentConnection) -> (conn: &rusqlite::Connection) {
    &lent.inner
}

impl ConnectionPool {
    /// Opens a pool on the store file at `path`, whose callers wait at most
    /// `wait_secs` seconds for a connection.
    ///
    /// A wait that is not bounded is refused before anything is opened. Otherwise the
    /// outcome is the machine's; every failure is a `ConnectionError`.
    pub fn open(path: &str, wait_secs: u64) -> (pool: Result<ConnectionPool, StoreError>)
        ensures
            !wait_is_bounded(wait_secs) ==> pool is Err,
            pool matches Err(e) ==> e == StoreError::ConnectionError,
    {
        if wait_secs == 0 || wait_secs > MAX_WAIT_SECS {
            return Err(StoreError::ConnectionError);
        }
        match build_pool(path, wait_secs) {
            Ok(pool) => Ok(pool),
            Err(_) => Err(StoreError::ConnectionError),
        }
    }

    /// Borrows a connection. A pool that cannot produce one within its wait fails the
    /// call with a `ConnectionError`, and only this call.
    pub fn acquire(&self) -> (lent: Result<LentConnection, StoreError>)
        ensures
            lent matches Err(e) ==> e == StoreError::ConnectionError,
    {
        match checkout(self) {
            Ok(lent) => Ok(lent),
            Err(_) => Err(StoreError::ConnectionError),
        }
    }
}

impl LentConnection {
    /// The connection to run statements on, for as long as the loan lasts.
    pub fn connection(&self) -> &rusqlite::Connection {
        lent_connection(self)
    }
}

} // verus!
