use rusqlite::Connection;
use tempfile::TempDir;
use trident::db::migrations::{
    apply, check_schema_version, migrate_from, migrate_recorded, migration_error, migration_outcome, record_outcome,
    LATEST_VERSION, NEWER_DATABASE_MESSAGE,
};
use trident::db::Db;
use trident::error::{database_error, AppError};

#[test]
fn migrates_the_schema_and_rejects_a_second_open_thread() -> Result<(), Box<dyn std::error::Error>> {
    let mut connection = Connection::open_in_memory()?;

    assert!(apply(&mut connection, 1_700_000_000_000).is_ok());
    assert!(apply(&mut connection, 1_700_000_000_001).is_ok());

    let version: i64 =
        connection.query_row("SELECT version FROM schema_migrations", [], |row| {
            row.get(0)
        })?;
    assert_eq!(version, 1);

    connection.execute(
        "INSERT INTO threads (id, title, state, created_at, started_at) \
         VALUES ('first', 'First thread', 'active', 1, 1)",
        [],
    )?;
    let second_open_thread = connection.execute(
        "INSERT INTO threads (id, title, state, created_at, started_at) \
         VALUES ('second', 'Second thread', 'paused', 1, 1)",
        [],
    );

    assert!(second_open_thread.is_err());
    Ok(())
}

#[test]
fn refuses_a_database_newer_than_this_binary() -> Result<(), Box<dyn std::error::Error>> {
    let mut connection = Connection::open_in_memory()?;
    connection.execute_batch(
        "CREATE TABLE schema_migrations (version INTEGER PRIMARY KEY, applied_at INTEGER NOT NULL); \
         INSERT INTO schema_migrations (version, applied_at) VALUES (2, 1);",
    )?;

    let error = match apply(&mut connection, 1_700_000_000_000) {
        Ok(()) => {
            panic!("a database from a newer binary must not start");
        }
        Err(error) => error,
    };

    assert!(matches!(error, AppError::Migration { version: 2, .. }));
    Ok(())
}

#[test]
fn opening_a_database_below_a_missing_directory_returns_an_error() -> Result<(), Box<dyn std::error::Error>> {
    let directory = TempDir::new()?;
    let database_path = directory.path().join("missing").join("trident.db");

    let result = Db::open(&database_path, 1_700_000_000_000);

    assert!(matches!(result, Err(AppError::Db(_))));
    Ok(())
}

#[test]
fn records_the_applied_time_of_the_first_migration_only() -> Result<(), Box<dyn std::error::Error>> {
    let mut connection = Connection::open_in_memory()?;

    assert!(apply(&mut connection, 1_700_000_000_000).is_ok());
    assert!(apply(&mut connection, 1_700_000_000_001).is_ok());

    let (count, applied_at): (i64, i64) = connection.query_row(
        "SELECT COUNT(*), MAX(applied_at) FROM schema_migrations",
        [],
        |row| Ok((row.get(0)?, row.get(1)?)),
    )?;
    assert_eq!(count, 1);
    assert_eq!(applied_at, 1_700_000_000_000);
    Ok(())
}

#[test]
fn creates_every_table_of_the_first_schema() -> Result<(), Box<dyn std::error::Error>> {
    let mut connection = Connection::open_in_memory()?;
    assert!(apply(&mut connection, 1).is_ok());

    for table in ["threads", "focus_set", "interruptions", "dumps", "tasks", "app_ignores", "settings", "schema_migrations"] {
        let count: i64 = connection.query_row(
            "SELECT COUNT(*) FROM sqlite_master WHERE type = 'table' AND name = ?1",
            [table],
            |row| row.get(0),
        )?;
        assert_eq!(count, 1, "missing table {table}");
    }
    Ok(())
}

#[test]
fn a_refused_database_is_left_untouched() -> Result<(), Box<dyn std::error::Error>> {
    let mut connection = Connection::open_in_memory()?;
    connection.execute_batch(
        "CREATE TABLE schema_migrations (version INTEGER PRIMARY KEY, applied_at INTEGER NOT NULL); \
         INSERT INTO schema_migrations (version, applied_at) VALUES (7, 1);",
    )?;

    assert!(apply(&mut connection, 2).is_err());

    let threads: i64 = connection.query_row(
        "SELECT COUNT(*) FROM sqlite_master WHERE name = 'threads'",
        [],
        |row| row.get(0),
    )?;
    assert_eq!(threads, 0);
    Ok(())
}

#[test]
fn checks_the_recorded_schema_version() {
    assert!(matches!(check_schema_version(None), Ok(0)));
    assert!(matches!(check_schema_version(Some(0)), Ok(0)));
    assert!(matches!(check_schema_version(Some(1)), Ok(1)));
    assert_eq!(LATEST_VERSION, 1);
    match check_schema_version(Some(2)) {
        Err(AppError::Migration { version, message }) => {
            assert_eq!(version, 2);
            assert_eq!(message, NEWER_DATABASE_MESSAGE);
            assert_eq!(message, "database is newer than this version of Trident");
        }
        other => panic!("expected a migration error, got {other:?}"),
    }
}

#[test]
fn reports_database_and_migration_failures() -> Result<(), Box<dyn std::error::Error>> {
    let connection = Connection::open_in_memory()?;
    let failure = match connection.execute_batch("NOT SQL") {
        Err(error) => error,
        Ok(()) => panic!("invalid SQL must fail"),
    };
    let text = failure.to_string();
    let second = match connection.execute_batch("NOT SQL") {
        Err(error) => error,
        Ok(()) => panic!("invalid SQL must fail"),
    };

    match database_error(failure) {
        AppError::Db(message) => assert_eq!(message, text),
        other => panic!("expected a database error, got {other:?}"),
    }
    match migration_error(3, second) {
        AppError::Migration { version, message } => {
            assert_eq!(version, 3);
            assert_eq!(message, text);
        }
        other => panic!("expected a migration error, got {other:?}"),
    }
    Ok(())
}

#[test]
fn opens_a_database_and_runs_operations_on_its_connection() -> Result<(), Box<dyn std::error::Error>> {
    let directory = TempDir::new()?;
    let database_path = directory.path().join("trident.db");
    let database = match Db::open(&database_path, 1_700_000_000_000) {
        Ok(database) => database,
        Err(error) => panic!("the database must open: {error:?}"),
    };

    let foreign_keys = database.with_connection(|connection| {
        connection
            .query_row("PRAGMA foreign_keys", [], |row| row.get::<_, i64>(0))
            .map_err(database_error)
    });
    let journal_mode = database.with_connection(|connection| {
        connection
            .query_row("PRAGMA journal_mode", [], |row| row.get::<_, String>(0))
            .map_err(database_error)
    });
    let version = database.with_connection(|connection| {
        connection
            .query_row("SELECT MAX(version) FROM schema_migrations", [], |row| row.get::<_, i64>(0))
            .map_err(database_error)
    });

    assert!(matches!(foreign_keys, Ok(1)));
    assert!(matches!(journal_mode.as_deref(), Ok("wal")));
    assert!(matches!(version, Ok(1)));
    Ok(())
}

#[test]
fn returns_the_error_an_operation_reports() -> Result<(), Box<dyn std::error::Error>> {
    let directory = TempDir::new()?;
    let database_path = directory.path().join("trident.db");
    let database = match Db::open(&database_path, 1) {
        Ok(database) => database,
        Err(error) => panic!("the database must open: {error:?}"),
    };

    let outcome: Result<(), AppError> =
        database.with_connection(|_| Err(AppError::InvalidState("stop".to_owned())));

    assert!(matches!(outcome, Err(AppError::InvalidState(message)) if message == "stop"));
    Ok(())
}

#[test]
fn health_reports_the_connected_database_and_absent_watcher() -> Result<(), Box<dyn std::error::Error>> {
    let directory = TempDir::new()?;
    let paths = trident::config::AppPaths::from_root(directory.path().to_path_buf());
    let database = match Db::open(&paths.database_path(), 1_700_000_000_000) {
        Ok(database) => database,
        Err(error) => panic!("the database must open: {error:?}"),
    };
    let database_ok = database.with_connection(|connection| {
        connection
            .query_row("SELECT 1", [], |row| row.get::<_, i64>(0))
            .map(|value| value == 1)
            .map_err(database_error)
    });

    let health = trident::state::health_report(matches!(database_ok, Ok(true)), "0.1.0");

    assert!(health.database_ok);
    assert_eq!(health.watcher_last_tick_age_ms, None);
    assert_eq!(health.platform_error_count, 0);
    assert_eq!(health.version, "0.1.0");
    Ok(())
}

#[test]
fn sets_a_five_second_busy_timeout_when_opening() -> Result<(), Box<dyn std::error::Error>> {
    let directory = TempDir::new()?;
    let database = match Db::open(&directory.path().join("trident.db"), 1) {
        Ok(database) => database,
        Err(error) => panic!("the database must open: {error:?}"),
    };

    let timeout = database.with_connection(|connection| {
        connection
            .query_row("PRAGMA busy_timeout", [], |row| row.get::<_, i64>(0))
            .map_err(database_error)
    });

    assert!(matches!(timeout, Ok(5_000)));
    Ok(())
}

#[test]
fn runs_a_nested_operation_on_the_same_connection() -> Result<(), Box<dyn std::error::Error>> {
    let directory = TempDir::new()?;
    let database = match Db::open(&directory.path().join("trident.db"), 1) {
        Ok(database) => database,
        Err(error) => panic!("the database must open: {error:?}"),
    };

    let outcome = database.with_connection(|outer| {
        outer
            .execute("INSERT INTO settings (key, value) VALUES ('a', 'b')", [])
            .map_err(database_error)?;
        database.with_connection(|inner| {
            inner
                .query_row("SELECT value FROM settings WHERE key = 'a'", [], |row| row.get::<_, String>(0))
                .map_err(database_error)
        })
    });

    assert!(matches!(outcome.as_deref(), Ok("b")));
    Ok(())
}

#[test]
fn migrates_from_the_version_read_inside_a_transaction() -> Result<(), Box<dyn std::error::Error>> {
    let mut connection = Connection::open_in_memory()?;
    connection.execute_batch(
        "CREATE TABLE schema_migrations (version INTEGER PRIMARY KEY, applied_at INTEGER NOT NULL);",
    )?;

    let mut transaction = connection.transaction()?;
    assert!(migrate_from(&mut transaction, LATEST_VERSION, 5).is_ok());
    assert!(migrate_from(&mut transaction, 0, 5).is_ok());
    transaction.commit()?;

    let (count, applied_at): (i64, i64) = connection.query_row(
        "SELECT COUNT(*), MAX(applied_at) FROM schema_migrations",
        [],
        |row| Ok((row.get(0)?, row.get(1)?)),
    )?;
    assert_eq!(count, 1);
    assert_eq!(applied_at, 5);
    let threads: i64 = connection.query_row(
        "SELECT COUNT(*) FROM sqlite_master WHERE type = 'table' AND name = 'threads'",
        [],
        |row| row.get(0),
    )?;
    assert_eq!(threads, 1);
    Ok(())
}

#[test]
fn reports_a_failed_migration_with_its_version() -> Result<(), Box<dyn std::error::Error>> {
    let mut connection = Connection::open_in_memory()?;
    connection.execute_batch(
        "CREATE TABLE schema_migrations (version INTEGER PRIMARY KEY, applied_at INTEGER NOT NULL); \
         CREATE TABLE threads (id TEXT PRIMARY KEY);",
    )?;

    let mut transaction = connection.transaction()?;
    let failed = migrate_from(&mut transaction, 0, 5);
    transaction.rollback()?;

    assert!(matches!(failed, Err(AppError::Migration { version: 1, .. })));
    Ok(())
}

#[test]
fn a_failed_migration_leaves_the_database_untouched() -> Result<(), Box<dyn std::error::Error>> {
    let mut connection = Connection::open_in_memory()?;
    connection.execute_batch("CREATE TABLE threads (id TEXT PRIMARY KEY);")?;

    assert!(matches!(apply(&mut connection, 9), Err(AppError::Migration { version: 1, .. })));

    let tables: i64 = connection.query_row(
        "SELECT COUNT(*) FROM sqlite_master WHERE type = 'table' AND name IN ('schema_migrations', 'focus_set')",
        [],
        |row| row.get(0),
    )?;
    assert_eq!(tables, 0);
    Ok(())
}

#[test]
fn opens_the_database_file_it_was_given() -> Result<(), Box<dyn std::error::Error>> {
    let directory = TempDir::new()?;
    let database_path = directory.path().join("trident.db");
    let database = match Db::open(&database_path, 1) {
        Ok(database) => database,
        Err(error) => panic!("the database must open: {error:?}"),
    };

    let file = database.with_connection(|connection| Ok(connection.path().map(std::path::PathBuf::from)));

    assert!(matches!(file, Ok(Some(ref opened)) if *opened == database_path));
    assert!(database_path.exists());
    Ok(())
}

#[test]
fn reports_a_failed_step_by_the_call_that_failed() -> Result<(), Box<dyn std::error::Error>> {
    let connection = Connection::open_in_memory()?;
    let failure = || match connection.execute_batch("NOT SQL") {
        Err(error) => error,
        Ok(()) => panic!("invalid SQL must fail"),
    };
    let text = failure().to_string();

    assert!(matches!(migration_outcome(1, Ok(())), Ok(())));
    assert!(matches!(record_outcome(Ok(1)), Ok(())));
    match migration_outcome(1, Err(failure())) {
        Err(AppError::Migration { version, message }) => {
            assert_eq!(version, 1);
            assert_eq!(message, text);
        }
        other => panic!("expected a migration error, got {other:?}"),
    }
    match record_outcome(Err(failure())) {
        Err(AppError::Db(message)) => assert_eq!(message, text),
        other => panic!("expected a database error, got {other:?}"),
    }
    Ok(())
}

#[test]
fn an_up_to_date_database_runs_no_migration() -> Result<(), Box<dyn std::error::Error>> {
    let mut connection = Connection::open_in_memory()?;
    let mut transaction = connection.transaction()?;

    assert!(migrate_from(&mut transaction, LATEST_VERSION, 5).is_ok());
    transaction.commit()?;

    let tables: i64 =
        connection.query_row("SELECT COUNT(*) FROM sqlite_master", [], |row| row.get(0))?;
    assert_eq!(tables, 0);
    Ok(())
}

#[test]
fn migrates_from_the_recorded_version() -> Result<(), Box<dyn std::error::Error>> {
    let mut connection = Connection::open_in_memory()?;
    connection.execute_batch(
        "CREATE TABLE schema_migrations (version INTEGER PRIMARY KEY, applied_at INTEGER NOT NULL);",
    )?;

    let mut transaction = connection.transaction()?;
    assert!(migrate_recorded(&mut transaction, Some(1), 5).is_ok());
    match migrate_recorded(&mut transaction, Some(2), 5) {
        Err(AppError::Migration { version, message }) => {
            assert_eq!(version, 2);
            assert_eq!(message, NEWER_DATABASE_MESSAGE);
        }
        other => panic!("expected a migration error, got {other:?}"),
    }
    let untouched: i64 = transaction.query_row("SELECT COUNT(*) FROM schema_migrations", [], |row| row.get(0))?;
    assert_eq!(untouched, 0);
    assert!(migrate_recorded(&mut transaction, None, 5).is_ok());
    transaction.commit()?;

    let (count, applied_at): (i64, i64) = connection.query_row(
        "SELECT COUNT(*), MAX(applied_at) FROM schema_migrations",
        [],
        |row| Ok((row.get(0)?, row.get(1)?)),
    )?;
    assert_eq!(count, 1);
    assert_eq!(applied_at, 5);
    Ok(())
}
