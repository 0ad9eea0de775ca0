//! Forward-only schema migrations, applied inside one transaction.
use vstd::prelude::*;
use rusqlite::{Connection, Transaction};

use crate::error::{database_error, AppError};
use super::sqlite::{
    begin_transaction, busy_timeout_ms, commit, committed_statements, database_file, execute_batch_in, execute_with_two_integers,
    pending_statements, query_optional_i64, rollback, settled_statements, Statement,
};

verus! {

/// The newest schema version this build knows.
pub const LATEST_VERSION: i64 = 1;

pub const CREATE_SCHEMA_MIGRATIONS: &'static str = "CREATE TABLE IF NOT EXISTS schema_migrations (version INTEGER PRIMARY KEY, applied_at INTEGER NOT NULL);";

pub const CURRENT_VERSION_QUERY: &'static str = "SELECT MAX(version) FROM schema_migrations";

pub const RECORD_VERSION: &'static str = "INSERT INTO schema_migrations (version, applied_at) VALUES (?1, ?2)";

pub const NEWER_DATABASE_MESSAGE: &'static str = "database is newer than this version of Trident";

pub const SCHEMA_VERSION_1: &'static str = "CREATE TABLE threads (id TEXT PRIMARY KEY, title TEXT NOT NULL CHECK (length(trim(title)) > 0), note TEXT NOT NULL DEFAULT '', handoff TEXT NOT NULL DEFAULT '', state TEXT NOT NULL CHECK (state IN ('active','paused','away','closed')), created_at INTEGER NOT NULL, started_at INTEGER NOT NULL, closed_at INTEGER, accumulated_ms INTEGER NOT NULL DEFAULT 0, last_resumed_at INTEGER, source_task_id TEXT REFERENCES tasks(id) ON DELETE SET NULL); CREATE UNIQUE INDEX idx_threads_single_open ON threads ((1)) WHERE state != 'closed'; CREATE INDEX idx_threads_started ON threads (started_at DESC); CREATE TABLE focus_set (thread_id TEXT NOT NULL REFERENCES threads(id) ON DELETE CASCADE, process_key TEXT NOT NULL, added_at INTEGER NOT NULL, source TEXT NOT NULL CHECK (source IN ('seed','user')), PRIMARY KEY (thread_id, process_key)); CREATE TABLE interruptions (id TEXT PRIMARY KEY, thread_id TEXT NOT NULL REFERENCES threads(id) ON DELETE CASCADE, process_key TEXT NOT NULL, app_name TEXT NOT NULL, window_title TEXT, started_at INTEGER NOT NULL, ended_at INTEGER, duration_ms INTEGER, status TEXT NOT NULL CHECK (status IN ('open','scratched','dismissed','promoted')), dump_id TEXT REFERENCES dumps(id) ON DELETE SET NULL); CREATE INDEX idx_interruptions_thread ON interruptions (thread_id, started_at DESC); CREATE TABLE dumps (id TEXT PRIMARY KEY, body TEXT NOT NULL CHECK (length(trim(body)) > 0), origin TEXT NOT NULL CHECK (origin IN ('capture','panel','interruption','handoff')), created_at INTEGER NOT NULL, archived_at INTEGER, task_id TEXT REFERENCES tasks(id) ON DELETE SET NULL); CREATE INDEX idx_dumps_active ON dumps (created_at DESC) WHERE archived_at IS NULL; CREATE TABLE tasks (id TEXT PRIMARY KEY, title TEXT NOT NULL CHECK (length(trim(title)) > 0), notes TEXT NOT NULL DEFAULT '', created_at INTEGER NOT NULL, done_at INTEGER, sort_key REAL NOT NULL, dump_id TEXT REFERENCES dumps(id) ON DELETE SET NULL); CREATE INDEX idx_tasks_order ON tasks (done_at, sort_key); CREATE TABLE app_ignores (process_key TEXT PRIMARY KEY, app_name TEXT NOT NULL, added_at INTEGER NOT NULL); CREATE TABLE settings (key TEXT PRIMARY KEY, value TEXT NOT NULL);";

/// The schema version a database is at, given the highest version its
/// `schema_migrations` table records (none: a fresh database, version 0).
pub open spec fn current_version(recorded: Option<i64>) -> i64 {
    match recorded {
        Some(version) => version,
        None => 0,
    }
}

/// Decides, from the highest recorded version, whether this build may open the
/// database: it refuses a database newer than `LATEST_VERSION` with a
/// `Migration` error naming that version, and otherwise returns the version the
/// database is at, from which the pending migrations follow.
pub fn check_schema_version(recorded: Option<i64>) -> (checked: Result<i64, AppError>)
    ensures
        checked is Ok <==> current_version(recorded) <= LATEST_VERSION,
        checked matches Ok(current) ==> current == current_version(recorded),
        checked matches Err(error) ==> error matches AppError::Migration { version, message }
            && version == current_version(recorded) && message@ == NEWER_DATABASE_MESSAGE@,
{
    let current = match recorded {
        Some(version) => version,
        None => 0,
    };
    if current > LATEST_VERSION {
        return Err(AppError::Migration { version: current, message: NEWER_DATABASE_MESSAGE.to_owned() });
    }
    Ok(current)
}

/// A failed migration step, reported with the version it was migrating to.
pub fn migration_error(version: i64, error: rusqlite::Error) -> (converted: AppError)
    ensures
        converted matches AppError::Migration { version: failed, message } && failed == version
            && vstd::string::to_string_from_display_ensures::<rusqlite::Error>(&error, message),
{
    AppError::Migration { version, message: error.to_string() }
}

/// What a `Migration` error of the migrations names: either a migration this
/// build has (a version from 1 to `LATEST_VERSION`) failing, or a recorded
/// version newer than this build, refused with `NEWER_DATABASE_MESSAGE`.
pub open spec fn names_failed_or_refused_version(error: AppError) -> bool {
    match error {
        AppError::Migration { version, message } => (1 <= version <= LATEST_VERSION)
            || (version > LATEST_VERSION && message@ == NEWER_DATABASE_MESSAGE@),
        _ => true,
    }
}

/// The statements the migration to `version` hands to SQLite: the version-1
/// schema for version 1, nothing for any other version.
pub open spec fn migration_step(version: i64) -> Seq<Statement> {
    if version == 1 {
        seq![(SCHEMA_VERSION_1@, Seq::<i64>::empty())]
    } else {
        Seq::empty()
    }
}

/// The statements that bring a database from version `from - 1` up to
/// `LATEST_VERSION`: for each version from `from` on, its migration followed by
/// the row recording it with `applied_at`.
pub open spec fn migration_steps(from: i64, applied_at: i64) -> Seq<Statement>
    decreases LATEST_VERSION + 1 - from,
{
    if from > LATEST_VERSION {
        Seq::empty()
    } else {
        migration_step(from) + seq![version_record(from, applied_at)]
            + migration_steps((from + 1) as i64, applied_at)
    }
}

/// Everything `apply` commits to a database at version `current`: the
/// `schema_migrations` table (created if missing), then the steps after
/// `current`.
pub open spec fn migration_statements(current: i64, applied_at: i64) -> Seq<Statement> {
    seq![(CREATE_SCHEMA_MIGRATIONS@, Seq::<i64>::empty())] + migration_steps((current + 1) as i64, applied_at)
}

/// The row recording that `version` was migrated at `applied_at`.
pub open spec fn version_record(version: i64, applied_at: i64) -> Statement {
    (RECORD_VERSION@, seq![version, applied_at])
}

proof fn lemma_steps_record_exactly_the_later_versions(from: i64, applied_at: i64, version: i64)
    requires
        from <= LATEST_VERSION + 1,
    ensures
        migration_steps(from, applied_at).contains(version_record(version, applied_at))
            <==> from <= version <= LATEST_VERSION,
    decreases LATEST_VERSION + 1 - from,
{
    let record = version_record(version, applied_at);
    let steps = migration_steps(from, applied_at);
    if from <= LATEST_VERSION {
        let head = migration_step(from) + seq![version_record(from, applied_at)];
        let rest = migration_steps((from + 1) as i64, applied_at);
        lemma_steps_record_exactly_the_later_versions((from + 1) as i64, applied_at, version);
        assert(steps == head + rest);
        assert(!migration_step(from).contains(record)) by {
            if migration_step(from).len() > 0 {
                assert(migration_step(from)[0].1.len() == 0);
            }
        }
        if steps.contains(record) {
            let i = choose|i: int| 0 <= i < steps.len() && steps[i] == record;
            if i < migration_step(from).len() {
                assert(migration_step(from)[i] == record);
            } else if i == migration_step(from).len() {
                assert(version == from);
            } else {
                assert(rest[i - head.len()] == record);
            }
        }
        if from <= version <= LATEST_VERSION {
            if version == from {
                assert(steps[migration_step(from).len() as int] == record);
            } else {
                let j = choose|j: int| 0 <= j < rest.len() && rest[j] == record;
                assert(steps[head.len() + j] == record);
            }
        }
    }
}

/// A migration records exactly the versions after the one the database was at,
/// up to `LATEST_VERSION`, each with `applied_at`: a fresh database (version 0)
/// records version 1, and a database already at `LATEST_VERSION` records nothing.
pub proof fn lemma_migration_records_exactly_the_pending_versions(current: i64, applied_at: i64, version: i64)
    requires
        current <= LATEST_VERSION,
    ensures
        migration_statements(current, applied_at).contains(version_record(version, applied_at))
            <==> current < version <= LATEST_VERSION,
{
    let all = migration_statements(current, applied_at);
    let first = seq![(CREATE_SCHEMA_MIGRATIONS@, Seq::<i64>::empty())];
    let steps = migration_steps((current + 1) as i64, applied_at);
    let record = version_record(version, applied_at);
    lemma_steps_record_exactly_the_later_versions((current + 1) as i64, applied_at, version);
    if all.contains(record) {
        let i = choose|i: int| 0 <= i < all.len() && all[i] == record;
        if i == 0 {
            assert(all[0].1.len() == 0);
        } else {
            assert(steps[i - 1] == record);
        }
    }
    if current < version <= LATEST_VERSION {
        let j = choose|j: int| 0 <= j < steps.len() && steps[j] == record;
        assert(all[j + 1] == record);
    }
}

/// A database already at `LATEST_VERSION` is left as it is: all a migration
/// runs on it is the creation of `schema_migrations`, which is skipped when the
/// table exists.
pub proof fn lemma_an_up_to_date_database_is_not_migrated(applied_at: i64)
    ensures
        migration_statements(LATEST_VERSION, applied_at) == seq![(CREATE_SCHEMA_MIGRATIONS@, Seq::<i64>::empty())],
{
    assert(migration_steps((LATEST_VERSION + 1) as i64, applied_at) =~= Seq::<Statement>::empty());
    assert(migration_statements(LATEST_VERSION, applied_at) =~= seq![(CREATE_SCHEMA_MIGRATIONS@, Seq::<i64>::empty())]);
}

/// A fresh database is given the `schema_migrations` table, the version-1
/// schema (with its index allowing one open thread at most), and the record of
/// version 1 at `applied_at`, in that order.
pub proof fn lemma_a_fresh_database_gets_the_first_schema(applied_at: i64)
    ensures
        migration_statements(0, applied_at) == seq![
            (CREATE_SCHEMA_MIGRATIONS@, Seq::<i64>::empty()),
            (SCHEMA_VERSION_1@, Seq::<i64>::empty()),
            version_record(1, applied_at),
        ],
{
    assert(migration_steps(2, applied_at) =~= Seq::<Statement>::empty());
    assert(migration_steps(1, applied_at) =~= seq![(SCHEMA_VERSION_1@, Seq::<i64>::empty()), version_record(1, applied_at)]);
    assert(migration_statements(0, applied_at) =~= seq![
        (CREATE_SCHEMA_MIGRATIONS@, Seq::<i64>::empty()),
        (SCHEMA_VERSION_1@, Seq::<i64>::empty()),
        version_record(1, applied_at),
    ]);
}

/// Brings the schema up to `LATEST_VERSION` in one transaction. The version the
/// database is at is read from `schema_migrations` (a fresh database is at 0);
/// a version newer than this build is refused with a `Migration` error;
/// otherwise every later version is migrated and recorded with `applied_at`,
/// and the whole is committed (`migrate_recorded` decides this from the version
/// read). Every error is a `Db` or a `Migration` error and
/// commits nothing; success commits exactly `migration_statements` of the
/// version read.
pub fn apply(connection: &mut Connection, applied_at: i64) -> (applied: Result<(), AppError>)
    ensures
        database_file(*final(connection)) == database_file(*old(connection)),
        busy_timeout_ms(*final(connection)) == busy_timeout_ms(*old(connection)),
        applied matches Err(error) ==> error is Db || error is Migration,
        applied matches Err(error) ==> names_failed_or_refused_version(error),
        applied is Err ==> committed_statements(*final(connection)) == committed_statements(*old(connection)),
        applied is Ok ==> exists|current: i64| current <= LATEST_VERSION
            && committed_statements(*final(connection))
                == committed_statements(*old(connection)) + #[trigger] migration_statements(current, applied_at),
{
    let mut transaction = match begin_transaction(connection) {
        Ok(transaction) => transaction,
        Err(error) => return Err(database_error(error)),
    };
    if let Err(error) = execute_batch_in(&mut transaction, CREATE_SCHEMA_MIGRATIONS) {
        let _ = rollback(transaction);
        return Err(database_error(error));
    }
    let recorded = match query_optional_i64(&transaction, CURRENT_VERSION_QUERY) {
        Ok(recorded) => recorded,
        Err(error) => {
            let _ = rollback(transaction);
            return Err(database_error(error));
        },
    };
    if let Err(error) = migrate_recorded(&mut transaction, recorded, applied_at) {
        let _ = rollback(transaction);
        return Err(error);
    }
    assert(pending_statements(transaction) =~= migration_statements(current_version(recorded), applied_at));

    match commit(transaction) {
        Ok(()) => Ok(()),
        Err(error) => Err(database_error(error)),
    }
}

/// Migrates, inside `transaction`, a database whose `schema_migrations` table
/// records `recorded` as its highest version (none: a fresh database, at 0). A
/// database newer than this build is refused with a `Migration` error naming its
/// version, and nothing runs; otherwise every later version up to
/// `LATEST_VERSION` is migrated and recorded with `applied_at`, as
/// `migrate_from` does.
pub fn migrate_recorded(transaction: &mut Transaction<'_>, recorded: Option<i64>, applied_at: i64) -> (migrated: Result<(), AppError>)
    ensures
        settled_statements(*final(transaction)) == settled_statements(*old(transaction)),
        migrated is Ok ==> current_version(recorded) <= LATEST_VERSION
            && pending_statements(*final(transaction))
                == pending_statements(*old(transaction)) + migration_steps((current_version(recorded) + 1) as i64, applied_at),
        current_version(recorded) > LATEST_VERSION ==> (migrated matches Err(AppError::Migration { version, message })
            && version == current_version(recorded) && message@ == NEWER_DATABASE_MESSAGE@)
            && pending_statements(*final(transaction)) == pending_statements(*old(transaction)),
        current_version(recorded) <= LATEST_VERSION ==> (migrated matches Err(error) ==> (error is Db
            || (error matches AppError::Migration { version, .. }
                && 1 <= version && current_version(recorded) < version <= LATEST_VERSION))),
        current_version(recorded) == LATEST_VERSION ==> migrated is Ok,
{
    let current = match check_schema_version(recorded) {
        Ok(current) => current,
        Err(error) => return Err(error),
    };
    migrate_from(transaction, current, applied_at)
}

/// The outcome of the migration to `version`, from what running its statements
/// returned (`ran`): a failure is a `Migration` error naming `version`, with the
/// database's message.
pub fn migration_outcome(version: i64, ran: Result<(), rusqlite::Error>) -> (outcome: Result<(), AppError>)
    ensures
        outcome is Ok <==> ran is Ok,
        ran matches Err(error) ==> (outcome matches Err(AppError::Migration { version: failed, message })
            && failed == version && vstd::string::to_string_from_display_ensures::<rusqlite::Error>(&error, message)),
{
    match ran {
        Ok(()) => Ok(()),
        Err(error) => Err(migration_error(version, error)),
    }
}

/// The outcome of recording a migrated version, from what the `INSERT`
/// returned (`recorded`): a failure is a `Db` error with the database's message.
pub fn record_outcome(recorded: Result<usize, rusqlite::Error>) -> (outcome: Result<(), AppError>)
    ensures
        outcome is Ok <==> recorded is Ok,
        recorded matches Err(error) ==> (outcome matches Err(AppError::Db(message))
            && vstd::string::to_string_from_display_ensures::<rusqlite::Error>(&error, message)),
{
    match recorded {
        Ok(_) => Ok(()),
        Err(error) => Err(database_error(error)),
    }
}

/// Runs, inside `transaction`, the migration to every version after
/// `current_version` up to `LATEST_VERSION`, each followed by the row recording
/// it with `applied_at`. On success exactly those statements join the
/// transaction; a database already at `LATEST_VERSION` runs nothing and
/// succeeds. A failing migration is a `Migration` error naming the version it
/// was migrating to (`migration_outcome`); a failing record is a `Db` error
/// (`record_outcome`).
pub fn migrate_from(transaction: &mut Transaction<'_>, current_version: i64, applied_at: i64) -> (migrated: Result<(), AppError>)
    requires
        current_version <= LATEST_VERSION,
    ensures
        settled_statements(*final(transaction)) == settled_statements(*old(transaction)),
        migrated is Ok ==> pending_statements(*final(transaction))
            == pending_statements(*old(transaction)) + migration_steps((current_version + 1) as i64, applied_at),
        migrated matches Err(error) ==> error is Db || (error matches AppError::Migration { version, .. }
            && 1 <= version && current_version < version <= LATEST_VERSION),
        migrated is Err ==> current_version < LATEST_VERSION,
        current_version == LATEST_VERSION ==> migrated is Ok,
{
    let ghost start = pending_statements(*transaction);
    let mut version = current_version + 1;
    while version <= LATEST_VERSION
        invariant
            current_version + 1 <= version <= LATEST_VERSION + 1,
            current_version <= LATEST_VERSION,
            settled_statements(*transaction) == settled_statements(*old(transaction)),
            pending_statements(*transaction) + migration_steps(version, applied_at)
                == start + migration_steps((current_version + 1) as i64, applied_at),
        decreases LATEST_VERSION + 1 - version,
    {
        let ghost before = pending_statements(*transaction);
        let ran = migrate(transaction, version);
        if let Err(error) = migration_outcome(version, ran) {
            return Err(error);
        }
        let ghost migrated = pending_statements(*transaction);
        let recorded = execute_with_two_integers(transaction, RECORD_VERSION, version, applied_at);
        if let Err(error) = record_outcome(recorded) {
            return Err(error);
        }
        proof {
            let record = seq![version_record(version, applied_at)];
            let rest = migration_steps((version + 1) as i64, applied_at);
            assert(migration_steps(version, applied_at) == migration_step(version) + record + rest);
            assert(migrated == before + migration_step(version));
            assert(pending_statements(*transaction) =~= before + migration_step(version) + record);
            assert(pending_statements(*transaction) + rest =~= before + (migration_step(version) + record + rest));
        }
        version = version + 1;
    }
    assert(migration_steps(version, applied_at) =~= Seq::<Statement>::empty());
    assert(pending_statements(*transaction) =~= start + migration_steps((current_version + 1) as i64, applied_at));
    Ok(())
}

/// Runs the migration to `version` inside `transaction`. Only version 1 has
/// statements; any other version succeeds without touching the database.
fn migrate(transaction: &mut Transaction<'_>, version: i64) -> (migrated: Result<(), rusqlite::Error>)
    ensures
        settled_statements(*final(transaction)) == settled_statements(*old(transaction)),
        migrated is Ok ==> pending_statements(*final(transaction)) == pending_statements(*old(transaction)) + migration_step(version),
        migrated is Err ==> 1 <= version <= LATEST_VERSION,
{
    match version {
        1 => execute_batch_in(transaction, SCHEMA_VERSION_1),
        _ => {
            assert(pending_statements(*transaction) + migration_step(version) =~= pending_statements(*transaction));
            Ok(())
        },
    }
}

} // verus!
