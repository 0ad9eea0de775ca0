//! The error every fallible operation of Trident reports.
use vstd::prelude::*;

verus! {

#[derive(Debug)]
pub enum AppError {
    Db(String),
    Migration { version: i64, message: String },
    NotFound { entity: String, id: String },
    InvalidState(String),
    Validation { field: String, message: String },
    Platform { api: String, code: i32 },
    HotkeyConflict(String),
    WindowMissing(String),
    Io(String),
    Internal(String),
}

} // verus!

verus! {

/// A database failure, reported with the database's own message.
pub fn database_error(error: rusqlite::Error) -> (converted: AppError)
    ensures
        converted matches AppError::Db(message)
            && vstd::string::to_string_from_display_ensures::<rusqlite::Error>(&error, message),
{
    AppError::Db(error.to_string())
}

} // verus!
