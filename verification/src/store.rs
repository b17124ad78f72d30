//! The persistence store: a durable append-only scan log and a single-row
//! settings record, kept in SQLite behind a bounded connection pool.
//!
//! The stored state is modelled by two abstract views: `scan_log`, the sequence
//! of recorded scan events (barcode characters, outcome, Unix-second
//! timestamp), and `settings_row`, the settings singleton if present. Every
//! operation that touches the database states over these views what it reads
//! or how it changes them.

use r2d2_sqlite::rusqlite::OptionalExtension;
use vstd::prelude::*;

verus! {

/// A handle on the persistent store: a bounded pool of connections to one
/// SQLite database. The pool itself is opaque to the verifier, which sees the
/// stored data only through `scan_log` and `settings_row`.
#[verifier::external_body]
pub struct Store {
    pool: r2d2::Pool<r2d2_sqlite::SqliteConnectionManager>,
}

/// The scan events held in the database behind the store's pool, oldest
/// first: each is the barcode's characters, the success outcome, and the
/// Unix-second timestamp.
pub uninterp spec fn scan_log(s: Store) -> Seq<(Seq<char>, bool, int)>;

/// The settings singleton held in the database behind the store's pool, if
/// present: group name, shift name, and daily plan target.
pub uninterp spec fn settings_row(s: Store) -> Option<(Seq<char>, Seq<char>, int)>;

/// A storage failure: pool exhaustion, I/O failure, or a failed query.
#[derive(Debug)]
pub struct StorageError {
    pub detail: String,
}

/// One recorded scan event, as read back from the store.
#[derive(Debug)]
pub struct ScanRow {
    pub barcode: String,
    pub success: bool,
    pub ts: i64,
}

impl View for ScanRow {
    type V = (Seq<char>, bool, int);

    open spec fn view(&self) -> (Seq<char>, bool, int) {
        (self.barcode@, self.success, self.ts as int)
    }
}

/// The mutable line settings: group, shift label, and daily plan target.
#[derive(Debug)]
pub struct Settings {
    pub group: String,
    pub shift: String,
    pub plan_target: i64,
}

impl View for Settings {
    type V = (Seq<char>, Seq<char>, int);

    open spec fn view(&self) -> (Seq<char>, Seq<char>, int) {
        (self.group@, self.shift@, self.plan_target as int)
    }
}

/// The fixed default settings, inserted when the store is initialized and
/// used as a fallback when the settings row cannot be read.
pub open spec fn default_settings() -> (Seq<char>, Seq<char>, int) {
    ("A"@, "day"@, 500)
}

/// The stored settings row, or the fixed default if the row is missing.
pub open spec fn settings_or_default(
    row: Option<(Seq<char>, Seq<char>, int)>,
) -> (Seq<char>, Seq<char>, int) {
    match row {
        Some(t) => t,
        None => default_settings(),
    }
}

impl Default for Settings {
    /// The fixed default settings as a value.
    fn default() -> (r: Settings)
        ensures
            r@ == default_settings(),
    {
        Settings { group: "A".to_owned(), shift: "day".to_owned(), plan_target: 500 }
    }
}

impl Store {
    /// The scan events currently recorded, oldest first.
    pub open spec fn log(&self) -> Seq<(Seq<char>, bool, int)> {
        scan_log(*self)
    }

    /// The settings singleton currently stored, if present.
    pub open spec fn settings(&self) -> Option<(Seq<char>, Seq<char>, int)> {
        settings_row(*self)
    }

    /// Relies on r2d2_sqlite::SqliteConnectionManager::file and
    /// r2d2::Pool::builder().build: opens (or creates) the SQLite database at
    /// `path` behind a fresh pool. Its contents come from disk, so nothing is
    /// assumed of them.
    #[verifier::external_body]
    pub fn open(path: &str) -> (r: Result<Store, StorageError>) {
        let manager = r2d2_sqlite::SqliteConnectionManager::file(path);
        let pool = r2d2::Pool::builder().build(manager).map_err(
            |e| StorageError { detail: e.to_string() },
        )?;
        Ok(Store { pool })
    }

    /// Relies on r2d2_sqlite::SqliteConnectionManager::memory, which backs the
    /// whole pool with one freshly named shared in-memory database that lives
    /// as long as the pool, and on r2d2::Pool::builder().build. A fresh
    /// database holds no tables, hence no scans and no settings row.
    #[verifier::external_body]
    pub fn open_in_memory() -> (r: Result<Store, StorageError>)
        ensures
            r matches Ok(s) ==> s.log() == Seq::<(Seq<char>, bool, int)>::empty() && s.settings()
                is None,
    {
        let manager = r2d2_sqlite::SqliteConnectionManager::memory();
        let pool = r2d2::Pool::builder().build(manager).map_err(
            |e| StorageError { detail: e.to_string() },
        )?;
        Ok(Store { pool })
    }

    /// Relies on r2d2::Pool::get and rusqlite::Connection::execute_batch:
    /// creates the scans and settings tables if absent, which adds no rows,
    /// and turns on write-ahead logging.
    #[verifier::external_body]
    fn create_tables(&mut self) -> (r: Result<(), StorageError>)
        ensures
            final(self).log() == old(self).log(),
            final(self).settings() == old(self).settings(),
    {
        let conn = self.pool.get().map_err(|e| StorageError { detail: e.to_string() })?;
        conn.execute_batch(
            "PRAGMA journal_mode=WAL;
             CREATE TABLE IF NOT EXISTS scans (id INTEGER PRIMARY KEY AUTOINCREMENT, barcode TEXT NOT NULL, success INTEGER NOT NULL, ts INTEGER NOT NULL);
             CREATE TABLE IF NOT EXISTS settings (id INTEGER PRIMARY KEY CHECK (id = 1), group_name TEXT NOT NULL, shift_name TEXT NOT NULL, plan_target INTEGER NOT NULL);",
        ).map_err(|e| StorageError { detail: e.to_string() })?;
        Ok(())
    }

    /// Relies on r2d2::Pool::get and rusqlite::Connection::execute with
    /// INSERT OR IGNORE: inserts the given settings row only if none exists,
    /// and never touches the scans table.
    #[verifier::external_body]
    fn ensure_settings_present(&mut self, group: &str, shift: &str, plan_target: i64) -> (r:
        Result<(), StorageError>)
        ensures
            final(self).log() == old(self).log(),
            r is Ok ==> final(self).settings() == (match old(self).settings() {
                Some(t) => Some(t),
                None => Some((group@, shift@, plan_target as int)),
            }),
            r is Err ==> final(self).settings() == old(self).settings(),
    {
        let conn = self.pool.get().map_err(|e| StorageError { detail: e.to_string() })?;
        conn.execute(
            "INSERT OR IGNORE INTO settings (id, group_name, shift_name, plan_target) VALUES (1, ?1, ?2, ?3)",
            (group, shift, plan_target),
        ).map_err(|e| StorageError { detail: e.to_string() })?;
        Ok(())
    }

    /// Relies on r2d2::Pool::get and rusqlite::Connection::execute: INSERT
    /// appends exactly one row to the scans table and never touches the
    /// settings row.
    #[verifier::external_body]
    fn insert_scan_raw(&mut self, barcode: &str, success: bool, ts: i64) -> (r: Result<
        (),
        StorageError,
    >)
        ensures
            final(self).settings() == old(self).settings(),
            r is Ok ==> final(self).log() == old(self).log().push(
                (barcode@, success, ts as int),
            ),
            r is Err ==> final(self).log() == old(self).log(),
    {
        let conn = self.pool.get().map_err(|e| StorageError { detail: e.to_string() })?;
        conn.execute(
            "INSERT INTO scans (barcode, success, ts) VALUES (?1, ?2, ?3)",
            (barcode, success, ts),
        ).map_err(|e| StorageError { detail: e.to_string() })?;
        Ok(())
    }

    /// Relies on r2d2::Pool::get, rusqlite::Connection::query_row and
    /// rusqlite::OptionalExtension::optional: a SELECT of the settings
    /// singleton returns the stored row, or nothing if it is absent, and
    /// changes nothing.
    #[verifier::external_body]
    fn read_settings_row_raw(&self) -> (r: Result<Option<(String, String, i64)>, StorageError>)
        ensures
            r matches Ok(row) ==> (row is None <==> settings_row(*self) is None),
            r matches Ok(row) ==> (row matches Some(t) ==> settings_row(*self) == Some(
                (t.0@, t.1@, t.2 as int),
            )),
    {
        let conn = self.pool.get().map_err(|e| StorageError { detail: e.to_string() })?;
        let row = conn.query_row(
            "SELECT group_name, shift_name, plan_target FROM settings WHERE id = 1",
            [],
            |r| Ok((r.get(0)?, r.get(1)?, r.get(2)?)),
        ).optional().map_err(|e| StorageError { detail: e.to_string() })?;
        Ok(row)
    }

    /// Relies on r2d2::Pool::get and rusqlite::Connection::execute: UPDATE of
    /// the singleton row overwrites its group name if the row exists, changes
    /// nothing if it is absent, and never touches the scans table.
    #[verifier::external_body]
    fn update_group_raw(&mut self, group: &str) -> (r: Result<(), StorageError>)
        ensures
            final(self).log() == old(self).log(),
            r is Ok ==> final(self).settings() == (match old(self).settings() {
                Some(t) => Some((group@, t.1, t.2)),
                None => None::<(Seq<char>, Seq<char>, int)>,
            }),
            r is Err ==> final(self).settings() == old(self).settings(),
    {
        let conn = self.pool.get().map_err(|e| StorageError { detail: e.to_string() })?;
        conn.execute("UPDATE settings SET group_name = ?1 WHERE id = 1", (group,)).map_err(
            |e| StorageError { detail: e.to_string() },
        )?;
        Ok(())
    }

    /// Relies on r2d2::Pool::get, rusqlite::Connection::prepare and
    /// rusqlite::Statement::query_map: a SELECT ordered by the
    /// auto-incremented id returns every recorded scan, oldest first, and
    /// changes nothing.
    #[verifier::external_body]
    fn read_scans_raw(&self) -> (r: Result<Vec<ScanRow>, StorageError>)
        ensures
            r matches Ok(rows) ==> rows@.map_values(|e: ScanRow| e@) == scan_log(*self),
    {
        let conn = self.pool.get().map_err(|e| StorageError { detail: e.to_string() })?;
        let mut stmt = conn.prepare("SELECT barcode, success, ts FROM scans ORDER BY id").map_err(
            |e| StorageError { detail: e.to_string() },
        )?;
        let rows = stmt.query_map(
            [],
            |r| Ok(ScanRow { barcode: r.get(0)?, success: r.get(1)?, ts: r.get(2)? }),
        ).map_err(|e| StorageError { detail: e.to_string() })?.collect::<Result<
            Vec<ScanRow>,
            _,
        >>().map_err(|e| StorageError { detail: e.to_string() })?;
        Ok(rows)
    }

    /// Creates the schema if absent and inserts the default settings row only
    /// if none exists. Idempotent, and safe to call on every start: recorded
    /// scans and existing settings are never disturbed.
    pub fn initialize(&mut self) -> (r: Result<(), StorageError>)
        ensures
            final(self).log() == old(self).log(),
            r is Ok ==> final(self).settings() == Some(
                settings_or_default(old(self).settings()),
            ),
            r is Err ==> final(self).settings() == old(self).settings(),
    {
        match self.create_tables() {
            Ok(()) => (),
            Err(e) => {
                return Err(e);
            },
        }
        let d = Settings::default();
        self.ensure_settings_present(d.group.as_str(), d.shift.as_str(), d.plan_target)
    }

    /// Appends one scan event to the log. On failure the log is unchanged.
    pub fn insert_scan(&mut self, barcode: &str, success: bool, ts: i64) -> (r: Result<
        (),
        StorageError,
    >)
        ensures
            final(self).settings() == old(self).settings(),
            r is Ok ==> final(self).log() == old(self).log().push(
                (barcode@, success, ts as int),
            ),
            r is Err ==> final(self).log() == old(self).log(),
    {
        self.insert_scan_raw(barcode, success, ts)
    }

    /// Overwrites the group field of the settings singleton; the rest of the
    /// row and the scan log are untouched. On failure nothing changes.
    pub fn update_group(&mut self, group: &str) -> (r: Result<(), StorageError>)
        ensures
            final(self).log() == old(self).log(),
            r is Ok ==> final(self).settings() == (match old(self).settings() {
                Some(t) => Some((group@, t.1, t.2)),
                None => None::<(Seq<char>, Seq<char>, int)>,
            }),
            r is Err ==> final(self).settings() == old(self).settings(),
    {
        self.update_group_raw(group)
    }

    /// Reads the current settings, falling back to the fixed default if the
    /// row is unexpectedly missing.
    pub fn read_settings(&self) -> (r: Result<Settings, StorageError>)
        ensures
            r matches Ok(s) ==> s@ == settings_or_default(self.settings()),
    {
        match self.read_settings_row_raw() {
            Ok(Some((group, shift, plan_target))) => Ok(Settings { group, shift, plan_target }),
            Ok(None) => Ok(Settings::default()),
            Err(e) => Err(e),
        }
    }

    /// Reads back every recorded scan event, oldest first.
    pub fn scans(&self) -> (r: Result<Vec<ScanRow>, StorageError>)
        ensures
            r matches Ok(rows) ==> rows@.map_values(|e: ScanRow| e@) == self.log(),
    {
        self.read_scans_raw()
    }
}

} // verus!
