//! Durable storage for time-log rows and preferences, kept in a SQLite
//! database behind a small set of trusted wrappers.
//!
//! The database contents are modelled by two uninterpreted functions over the
//! connection value: `db_logs`, the append-only sequence of time-log rows in
//! insertion order, and `db_prefs`, the key/value preference table.

use rusqlite::OptionalExtension;
use vstd::prelude::*;

verus! {

#[verifier::external_type_specification]
#[verifier::external_body]
pub struct ExConnection(rusqlite::Connection);

/// The rows of the `time_logs` table in insertion order:
/// (website, window_title, start_time, duration).
pub uninterp spec fn db_logs(c: rusqlite::Connection) -> Seq<(Seq<char>, Seq<char>, i64, i64)>;

/// The contents of the `preferences` table: at most one value per key.
pub uninterp spec fn db_prefs(c: rusqlite::Connection) -> Map<Seq<char>, Seq<char>>;

/// Relies on rusqlite::Connection::open: opens (creating if absent) the
/// database file at the given path. Nothing is assumed about the contents
/// found there.
#[verifier::external_body]
pub(crate) fn db_open(path: &str) -> (r: Result<rusqlite::Connection, String>) {
    rusqlite::Connection::open(path).map_err(|e| e.to_string())
}

/// Relies on rusqlite::Connection::execute_batch with two
/// `CREATE TABLE IF NOT EXISTS` statements: creating the `time_logs` and
/// `preferences` tables is idempotent and never adds, removes or changes a
/// row of either table.
#[verifier::external_body]
pub(crate) fn db_init_schema(c: &mut rusqlite::Connection) -> (r: Result<(), String>)
    ensures
        db_logs(*final(c)) == db_logs(*old(c)),
        db_prefs(*final(c)) == db_prefs(*old(c)),
{
    c.execute_batch(
        "CREATE TABLE IF NOT EXISTS time_logs (id INTEGER PRIMARY KEY, \
         website TEXT NOT NULL, window_title TEXT, start_time INTEGER NOT NULL, \
         duration INTEGER NOT NULL); \
         CREATE TABLE IF NOT EXISTS preferences (key TEXT PRIMARY KEY, value TEXT NOT NULL);",
    )
    .map_err(|e| e.to_string())
}

/// Relies on rusqlite::Connection::execute with a plain `INSERT` into
/// `time_logs`: on success exactly one row is appended, with an id above all
/// existing ids; a failed statement leaves the table unchanged; the
/// `preferences` table is not touched.
#[verifier::external_body]
pub(crate) fn db_insert_log(
    c: &mut rusqlite::Connection,
    website: &str,
    window_title: &str,
    start_time: i64,
    duration: i64,
) -> (r: Result<(), String>)
    ensures
        r is Ok ==> db_logs(*final(c)) == db_logs(*old(c)).push(
            (website@, window_title@, start_time, duration),
        ),
        r is Err ==> db_logs(*final(c)) == db_logs(*old(c)),
        db_prefs(*final(c)) == db_prefs(*old(c)),
{
    c.execute(
        "INSERT INTO time_logs (website, window_title, start_time, duration)
         VALUES (?1, ?2, ?3, ?4)",
        (website, window_title, start_time, duration),
    )
    .map(|_| ())
    .map_err(|e| e.to_string())
}

/// Relies on rusqlite::Connection::execute with an
/// `INSERT ... ON CONFLICT(key) DO UPDATE` on `preferences`: on success the
/// key maps to the new value and every other key is unchanged; a failed
/// statement leaves the table unchanged; the `time_logs` table is not
/// touched.
#[verifier::external_body]
pub(crate) fn db_upsert_pref(
    c: &mut rusqlite::Connection,
    key: &str,
    value: &str,
) -> (r: Result<(), String>)
    ensures
        r is Ok ==> db_prefs(*final(c)) == db_prefs(*old(c)).insert(key@, value@),
        r is Err ==> db_prefs(*final(c)) == db_prefs(*old(c)),
        db_logs(*final(c)) == db_logs(*old(c)),
{
    c.execute(
        "INSERT INTO preferences (key, value) VALUES (?1, ?2)
         ON CONFLICT(key) DO UPDATE SET value = excluded.value",
        (key, value),
    )
    .map(|_| ())
    .map_err(|e| e.to_string())
}

/// Relies on rusqlite::Connection::query_row with a `SELECT` on
/// `preferences` (and rusqlite's OptionalExtension to turn the no-rows case
/// into None): returns the value stored under the key, or None when the key
/// is absent.
#[verifier::external_body]
pub(crate) fn db_get_pref(c: &rusqlite::Connection, key: &str) -> (r: Result<
    Option<String>,
    String,
>)
    ensures
        r matches Ok(v) ==> match v {
            Some(s) => db_prefs(*c).contains_key(key@) && s@ == db_prefs(*c)[key@],
            None => !db_prefs(*c).contains_key(key@),
        },
{
    c.query_row("SELECT value FROM preferences WHERE key = ?1", (key,), |row| row.get(0))
        .optional()
        .map_err(|e| e.to_string())
}

/// Relies on rusqlite::Connection::prepare and rusqlite::Statement::query_map
/// with `SELECT website, duration FROM time_logs ORDER BY id`: yields the
/// (website, duration) columns of every row, in insertion order (ids are
/// assigned in increasing order and rows are never deleted).
#[verifier::external_body]
pub(crate) fn db_fetch_site_durations(c: &rusqlite::Connection) -> (r: Result<
    Vec<(String, i64)>,
    String,
>)
    ensures
        r matches Ok(v) ==> v@.map_values(|p: (String, i64)| (p.0@, p.1)) == db_logs(
            *c,
        ).map_values(|row: (Seq<char>, Seq<char>, i64, i64)| (row.0, row.3)),
{
    let mut stmt = c
        .prepare("SELECT website, duration FROM time_logs ORDER BY id")
        .map_err(|e| e.to_string())?;
    let rows = stmt
        .query_map((), |row| Ok((row.get(0)?, row.get(1)?)))
        .map_err(|e| e.to_string())?;
    rows.collect::<Result<Vec<(String, i64)>, rusqlite::Error>>().map_err(|e| e.to_string())
}

} // verus!
