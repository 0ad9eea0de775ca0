//! The health report the renderer can ask for.
use vstd::prelude::*;

verus! {

#[derive(Debug)]
pub struct HealthDto {
    pub database_ok: bool,
    pub watcher_last_tick_age_ms: Option<u64>,
    pub platform_error_count: u32,
    pub version: String,
}

/// The health report for a database that answered `database_ok`, from build
/// `version`. No watcher runs yet and no platform call has failed, so the
/// watcher tick age is absent and the platform error count is zero.
pub fn health_report(database_ok: bool, version: &str) -> (health: HealthDto)
    ensures
        health.database_ok == database_ok,
        health.watcher_last_tick_age_ms is None,
        health.platform_error_count == 0,
        health.version@ == version@,
{
    HealthDto {
        database_ok,
        watcher_last_tick_age_ms: None,
        platform_error_count: 0,
        version: version.to_owned(),
    }
}

} // verus!
