//! The calls into `rusqlite` that the database code makes. What a query
//! returns, and whether a statement succeeds, depends on the database file,
//! so no call promises success. What is modelled is what the library hands
//! to SQLite: the file a connection was opened on, the statements a
//! connection has committed, the statements a transaction has executed, and
//! what a transaction commits when it ends. Each call takes only the SQL the
//! library runs (none of it opens, commits or ends a transaction, and only the
//! version query reads), so that the model follows what SQLite does with it.
use vstd::prelude::*;
use rusqlite::{Connection, Transaction};
use std::path::PathBuf;

use super::migrations::{CREATE_SCHEMA_MIGRATIONS, CURRENT_VERSION_QUERY, RECORD_VERSION, SCHEMA_VERSION_1};
use super::CONNECTION_PRAGMAS;

verus! {

#[verifier::external_type_specification]
#[verifier::external_body]
pub struct ExConnection(rusqlite::Connection);

#[verifier::external_type_specification]
#[verifier::external_body]
pub struct ExTransaction<'conn>(rusqlite::Transaction<'conn>);

#[verifier::external_type_specification]
#[verifier::external_body]
pub struct ExSqliteError(rusqlite::Error);

/// A statement as handed to SQLite: its SQL text and its integer parameters.
pub type Statement = (Seq<char>, Seq<i64>);

/// The statements this connection has run to completion and that have taken
/// effect for good (run outside a transaction, or in one that was committed)
/// since it was opened, in order. Reads are not in it.
pub uninterp spec fn committed_statements(connection: Connection) -> Seq<(Seq<char>, Seq<i64>)>;

/// The database file this connection was opened on.
pub uninterp spec fn database_file(connection: Connection) -> PathBuf;

/// The busy timeout last handed to `Connection::busy_timeout` on this
/// connection, in milliseconds. Statements do not change it, whatever they do
/// inside SQLite.
pub uninterp spec fn busy_timeout_ms(connection: Connection) -> int;

/// The statements executed successfully inside this transaction so far, in
/// order. Reads are not in it.
pub uninterp spec fn pending_statements(transaction: Transaction) -> Seq<(Seq<char>, Seq<i64>)>;

/// What this transaction commits to its connection when it ends: the
/// statements executed in it when it is committed, none when it is rolled back.
pub uninterp spec fn settled_statements(transaction: Transaction) -> Seq<(Seq<char>, Seq<i64>)>;

/// `rusqlite::Connection::open`: opens (creating if needed) the database file
/// at `path`. Claimed: the connection is on `path`, and a connection just
/// opened has committed nothing.
#[verifier::external_body]
pub(crate) fn open_connection(path: &PathBuf) -> (opened: Result<Connection, rusqlite::Error>)
    ensures
        opened matches Ok(connection) ==> database_file(connection) == *path,
        opened matches Ok(connection) ==> committed_statements(connection) == Seq::<(Seq<char>, Seq<i64>)>::empty(),
{
    Connection::open(path)
}

/// `rusqlite::Connection::busy_timeout`, with a whole number of seconds. The
/// call panics when the timeout in milliseconds exceeds `i32::MAX`, so that is
/// required. Claimed: it executes no statement, and on success the timeout is
/// `seconds * 1000` milliseconds.
#[verifier::external_body]
pub(crate) fn set_busy_timeout(connection: &mut Connection, seconds: u64) -> (set: Result<(), rusqlite::Error>)
    requires
        seconds * 1000 <= i32::MAX,
    ensures
        committed_statements(*final(connection)) == committed_statements(*old(connection)),
        database_file(*final(connection)) == database_file(*old(connection)),
        set is Ok ==> busy_timeout_ms(*final(connection)) == seconds * 1000,
{
    connection.busy_timeout(std::time::Duration::from_secs(seconds))
}

/// `rusqlite::Connection::execute_batch` outside a transaction, for the
/// connection pragmas only (two settings; no read, no transaction statement):
/// runs each statement, each taking effect as it runs. Claimed: on success the
/// batch has taken effect, as one entry; a failed batch may have applied part
/// of it, of which nothing is claimed.
#[verifier::external_body]
pub(crate) fn execute_batch(connection: &mut Connection, sql: &str) -> (executed: Result<(), rusqlite::Error>)
    requires
        sql@ == CONNECTION_PRAGMAS@,
    ensures
        database_file(*final(connection)) == database_file(*old(connection)),
        busy_timeout_ms(*final(connection)) == busy_timeout_ms(*old(connection)),
        executed is Ok ==> committed_statements(*final(connection))
            == committed_statements(*old(connection)).push((sql@, Seq::<i64>::empty())),
{
    connection.execute_batch(sql)
}

/// `rusqlite::Connection::transaction`: begins a deferred transaction. Claimed:
/// nothing is executed in it yet; the connection commits, when the transaction
/// ends, what the transaction settles; a transaction that could not begin
/// commits nothing.
#[verifier::external_body]
pub(crate) fn begin_transaction(connection: &mut Connection) -> (begun: Result<Transaction<'_>, rusqlite::Error>)
    ensures
        busy_timeout_ms(*final(connection)) == busy_timeout_ms(*old(connection)),
        database_file(*final(connection)) == database_file(*old(connection)),
        begun matches Ok(transaction) ==> pending_statements(transaction) == Seq::<(Seq<char>, Seq<i64>)>::empty()
            && committed_statements(*final(connection))
                == committed_statements(*old(connection)) + settled_statements(transaction),
        begun is Err ==> committed_statements(*final(connection)) == committed_statements(*old(connection)),
{
    connection.transaction()
}

/// `rusqlite::Connection::execute_batch` inside a transaction (through the
/// transaction's `Deref`), for the schema statements only: `CREATE` statements,
/// with no read and no statement that begins or ends a transaction. Claimed: on success the batch joins the
/// transaction's statements, as one entry; what the transaction settles is
/// not changed by running statements in it.
#[verifier::external_body]
pub(crate) fn execute_batch_in(transaction: &mut Transaction<'_>, sql: &str) -> (executed: Result<(), rusqlite::Error>)
    requires
        sql@ == CREATE_SCHEMA_MIGRATIONS@ || sql@ == SCHEMA_VERSION_1@,
    ensures
        settled_statements(*final(transaction)) == settled_statements(*old(transaction)),
        executed is Ok ==> pending_statements(*final(transaction))
            == pending_statements(*old(transaction)).push((sql@, Seq::<i64>::empty())),
{
    transaction.execute_batch(sql)
}

/// `rusqlite::Connection::query_row` inside a transaction, for the query of
/// the highest recorded schema version only (a read: it runs nothing that the
/// transaction would commit). Nothing is claimed of what it reads.
#[verifier::external_body]
pub(crate) fn query_optional_i64(transaction: &Transaction<'_>, sql: &str) -> (value: Result<Option<i64>, rusqlite::Error>)
    requires
        sql@ == CURRENT_VERSION_QUERY@,
{
    transaction.query_row(sql, [], |row| row.get::<_, Option<i64>>(0))
}

/// `rusqlite::Connection::execute` inside a transaction, for the `INSERT` that
/// records a schema version, with its two integer parameters `?1` and `?2`.
/// Claimed: on success the statement with its two
/// parameters joins the transaction's statements; what the transaction
/// settles is not changed by running statements in it.
#[verifier::external_body]
pub(crate) fn execute_with_two_integers(transaction: &mut Transaction<'_>, sql: &str, first: i64, second: i64) -> (changed: Result<usize, rusqlite::Error>)
    requires
        sql@ == RECORD_VERSION@,
    ensures
        settled_statements(*final(transaction)) == settled_statements(*old(transaction)),
        changed is Ok ==> pending_statements(*final(transaction))
            == pending_statements(*old(transaction)).push((sql@, seq![first, second])),
{
    transaction.execute(sql, (first, second))
}

/// `rusqlite::Transaction::commit`. Claimed: a successful commit settles the
/// transaction's statements; a failed one leaves the transaction to be dropped,
/// which rolls it back, so it settles nothing. (The rollback's own failure is
/// ignored by `rusqlite`; the claim takes SQLite to have discarded the
/// transaction then too.)
#[verifier::external_body]
pub(crate) fn commit(transaction: Transaction<'_>) -> (committed: Result<(), rusqlite::Error>)
    ensures
        committed is Ok ==> settled_statements(transaction) == pending_statements(transaction),
        committed is Err ==> settled_statements(transaction) == Seq::<(Seq<char>, Seq<i64>)>::empty(),
{
    transaction.commit()
}

/// `rusqlite::Transaction::rollback`. Claimed: the transaction settles nothing,
/// whether the rollback reports success or not (on failure the transaction is
/// dropped, which rolls back again; see `commit`).
#[verifier::external_body]
pub(crate) fn rollback(transaction: Transaction<'_>) -> (rolled_back: Result<(), rusqlite::Error>)
    ensures
        rolled_back is Ok ==> settled_statements(transaction) == Seq::<(Seq<char>, Seq<i64>)>::empty(),
        rolled_back is Err ==> settled_statements(transaction) == Seq::<(Seq<char>, Seq<i64>)>::empty(),
{
    transaction.rollback()
}

} // verus!
