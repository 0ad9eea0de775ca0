# trident

The core of Trident, a small always-on-top desktop companion, as a verified
library, with the Tauri application around it.

- `src/` is the library, verified with Verus:
  - `windows/positioning.rs`: clamping the orb into a monitor's work area,
    docking it to the nearest edge, and restoring a saved position onto the
    monitors connected now, with the laws that tie these together (a docked
    position is restored unchanged, a missing monitor falls back to the
    primary one, the orb never leaves a work area it fits in).
  - `windows/orb.rs`: the decisions behind the orb window's commands and
    events, taking what the window calls returned as plain values.
  - `db.rs`, `db/migrations.rs`, `db/sqlite.rs`: the database connection
    behind a reentrant lock and the forward-only schema migrations, over
    `rusqlite`; the contracts follow the statements each step hands to
    SQLite and which of them a transaction commits.
  - `config.rs`, `logging.rs`, `state.rs`, `platform/win32.rs`, `lib.rs`:
    file locations, which log files are pruned, the health report, the
    extended style that makes the orb non-activating, and the clock in Unix
    milliseconds.
- `app/` is the Tauri application: windows, tray, dialogs, logging setup,
  file-system and Win32 calls, and the IPC commands with their serialisable
  types.
- `tests/` exercises the library.
