//! The one database connection of the app, guarded by a lock that the thread
//! holding it may take again.
use vstd::prelude::*;
use rusqlite::Connection;
use std::path::PathBuf;

use crate::error::{database_error, AppError};
pub mod migrations;
pub mod sqlite;

use self::migrations::{migration_statements, names_failed_or_refused_version, LATEST_VERSION};
use self::sqlite::{
    busy_timeout_ms, committed_statements, database_file, execute_batch, open_connection, set_busy_timeout, Statement,
};

verus! {

#[verifier::external_type_specification]
#[verifier::external_body]
#[verifier::reject_recursive_types(R)]
#[verifier::reject_recursive_types(G)]
#[verifier::reject_recursive_types(T)]
pub struct ExReentrantMutex<R, G, T: ?Sized>(parking_lot::lock_api::ReentrantMutex<R, G, T>);

#[verifier::external_type_specification]
#[verifier::external_body]
pub struct ExRawMutex(parking_lot::RawMutex);

#[verifier::external_type_specification]
#[verifier::external_body]
pub struct ExRawThreadId(parking_lot::RawThreadId);

/// How long a statement waits for a lock held by another connection.
pub const BUSY_TIMEOUT_SECONDS: u64 = 5;

/// Turns on foreign keys and write-ahead logging for the connection.
pub const CONNECTION_PRAGMAS: &'static str = "PRAGMA foreign_keys = ON; PRAGMA journal_mode = WAL;";

/// The statements the guarded connection had committed when it was put in the
/// lock.
pub uninterp spec fn initial_statements(mutex: parking_lot::ReentrantMutex<Connection>) -> Seq<(Seq<char>, Seq<i64>)>;

/// The busy timeout, in milliseconds, that the guarded connection had been
/// given when it was put in the lock.
pub uninterp spec fn initial_busy_timeout_ms(mutex: parking_lot::ReentrantMutex<Connection>) -> int;

/// The database file the guarded connection was opened on.
pub uninterp spec fn guarded_database_file(mutex: parking_lot::ReentrantMutex<Connection>) -> PathBuf;

/// `parking_lot::ReentrantMutex::new`: an unlocked lock around `connection`,
/// which it keeps from then on.
#[verifier::external_body]
fn new_mutex(connection: Connection) -> (mutex: parking_lot::ReentrantMutex<Connection>)
    ensures
        initial_statements(mutex) == committed_statements(connection),
        initial_busy_timeout_ms(mutex) == busy_timeout_ms(connection),
        guarded_database_file(mutex) == database_file(connection),
{
    parking_lot::ReentrantMutex::new(connection)
}

/// `outcome` is what `operation` returns on a connection whose committed
/// statements begin with those the connection in `mutex` had when it was put
/// there.
pub open spec fn ran_on_guarded_connection<T, F: FnOnce(&Connection) -> Result<T, AppError>>(
    mutex: parking_lot::ReentrantMutex<Connection>,
    operation: F,
    outcome: Result<T, AppError>,
) -> bool {
    exists|connection: &Connection| initial_statements(mutex).is_prefix_of(committed_statements(*connection))
        && #[trigger] operation.ensures((connection,), outcome)
}

/// `parking_lot::ReentrantMutex::lock`, then `operation` on the guarded
/// connection (through the guard's `Deref`); the lock is released when the
/// guard drops. The lock blocks while another thread holds it and is taken
/// again at once by the thread that holds it, so an operation that locks the
/// same mutex does not deadlock. Claimed: `operation` runs once, on the
/// connection the lock was made with, whose committed statements begin with
/// those it had then, and its outcome is returned. Left unsaid: that no other
/// thread runs an operation meanwhile, which no contract here can express, and
/// the panic `lock` raises when one thread nests more than `usize::MAX` locks.
#[verifier::external_body]
fn run_locked<T, F: FnOnce(&Connection) -> Result<T, AppError>>(mutex: &parking_lot::ReentrantMutex<Connection>, operation: F) -> (outcome: Result<T, AppError>)
    requires
        forall|connection: &Connection| initial_statements(*mutex).is_prefix_of(committed_statements(*connection))
            ==> #[trigger] operation.requires((connection,)),
    ensures
        ran_on_guarded_connection(*mutex, operation, outcome),
{
    let guard = mutex.lock();
    operation(&guard)
}

pub struct Db {
    connection: parking_lot::ReentrantMutex<Connection>,
}

impl Db {
    /// The statements the connection had committed when the database was
    /// opened: the connection pragmas, then the migrations.
    pub closed spec fn statements_at_open(&self) -> Seq<Statement> {
        initial_statements(self.connection)
    }

    /// The database file the connection was opened on.
    pub closed spec fn file_at_open(&self) -> PathBuf {
        guarded_database_file(self.connection)
    }

    /// The busy timeout, in milliseconds, the connection was given at opening.
    pub closed spec fn busy_timeout_at_open(&self) -> int {
        initial_busy_timeout_ms(self.connection)
    }

    /// Opens the database at `path`, sets a five-second busy timeout, turns on
    /// foreign keys and write-ahead logging, and applies the migrations,
    /// recording `applied_at` for each. A failure is a `Db` error, or a
    /// `Migration` error from the migrations.
    pub fn open(path: &PathBuf, applied_at: i64) -> (opened: Result<Db, AppError>)
        ensures
            opened matches Ok(db) ==> db.file_at_open() == *path,
            opened matches Ok(db) ==> db.busy_timeout_at_open() == BUSY_TIMEOUT_SECONDS * 1000,
            opened matches Ok(db) ==> exists|current: i64| current <= LATEST_VERSION
                && db.statements_at_open() == seq![(CONNECTION_PRAGMAS@, Seq::<i64>::empty())]
                    + #[trigger] migration_statements(current, applied_at),
            opened matches Err(error) ==> (error is Db || error is Migration) && names_failed_or_refused_version(error),
    {
        let mut connection = match open_connection(path) {
            Ok(connection) => connection,
            Err(error) => return Err(database_error(error)),
        };
        if let Err(error) = set_busy_timeout(&mut connection, BUSY_TIMEOUT_SECONDS) {
            return Err(database_error(error));
        }
        if let Err(error) = execute_batch(&mut connection, CONNECTION_PRAGMAS) {
            return Err(database_error(error));
        }
        let ghost configured = committed_statements(connection);
        assert(configured =~= seq![(CONNECTION_PRAGMAS@, Seq::<i64>::empty())]);
        if let Err(error) = migrations::apply(&mut connection, applied_at) {
            return Err(error);
        }

        Ok(Db { connection: new_mutex(connection) })
    }

    /// Runs `operation` on the connection while holding the lock, and returns
    /// what it returns. The lock may be taken again by an operation that runs
    /// on the same thread, so `with_connection` may nest.
    pub fn with_connection<T, F: FnOnce(&Connection) -> Result<T, AppError>>(&self, operation: F) -> (outcome: Result<T, AppError>)
        requires
            forall|connection: &Connection| self.statements_at_open().is_prefix_of(committed_statements(*connection))
                ==> #[trigger] operation.requires((connection,)),
        ensures
            exists|connection: &Connection| self.statements_at_open().is_prefix_of(committed_statements(*connection))
                && #[trigger] operation.ensures((connection,), outcome),
    {
        run_locked(&self.connection, operation)
    }
}

} // verus!
