//! Which files in the log directory are Trident's rolling logs.
use vstd::prelude::*;

verus! {

/// The prefix every rolling log file of Trident starts with.
pub const LOG_FILE_PREFIX: &'static str = "trident.";

/// Log files are kept for a week.
pub const LOG_RETENTION_SECONDS: u64 = 604_800;

/// A file is one of Trident's rolling logs when its name (if it has one that is
/// valid Unicode) starts with `trident.`; other files in the log directory,
/// such as the capture fallback log, are never pruned.
pub fn is_trident_log(file_name: Option<&str>) -> (is_log: bool)
    ensures
        is_log <==> (file_name matches Some(name) && name@.len() >= LOG_FILE_PREFIX@.len()
            && name@.subrange(0, LOG_FILE_PREFIX@.len() as int) == LOG_FILE_PREFIX@),
{
    proof {
        reveal_strlit("trident.");
    }
    match file_name {
        None => false,
        Some(name) => {
            let prefix_length = LOG_FILE_PREFIX.unicode_len();
            if name.unicode_len() < prefix_length {
                false
            } else {
                name.substring_char(0, prefix_length).to_owned() == LOG_FILE_PREFIX.to_owned()
            }
        },
    }
}

} // verus!
