//! The shared session state: the tracking flag, the two site lists, the API
//! credential, the alert image, and the handle to the durable store.
//!
//! The two site lists are plain vectors; their membership (as sets of
//! character sequences) is what classification reads, so duplicates and
//! order carry no meaning.

use crate::store::{
    db_get_pref, db_init_schema, db_insert_log, db_open, db_prefs, db_logs, db_upsert_pref,
};
use vstd::prelude::*;

verus! {

/// The set of site identities named by a list of strings.
pub open spec fn site_set(v: Seq<String>) -> Set<Seq<char>> {
    Set::new(|s: Seq<char>| exists|i: int| 0 <= i < v.len() && v[i]@ == s)
}

pub struct AppState {
    pub tracking: bool,
    pub distraction_sites: Vec<String>,
    pub whitelist_sites: Vec<String>,
    pub api_key: String,
    pub alert_image_path: Option<String>,
    pub db_conn: rusqlite::Connection,
}

impl AppState {
    /// The time-log rows held by this state's store, in insertion order:
    /// (website, window_title, start_time, duration).
    pub open spec fn logs(self) -> Seq<(Seq<char>, Seq<char>, i64, i64)> {
        db_logs(self.db_conn)
    }

    /// The preference table held by this state's store.
    pub open spec fn prefs(self) -> Map<Seq<char>, Seq<char>> {
        db_prefs(self.db_conn)
    }

    /// The session fields other than the store: used by contracts to say
    /// that an operation leaves the in-memory session untouched.
    pub open spec fn session_fields(self) -> (bool, Seq<String>, Seq<String>, Seq<char>, Option<
        String,
    >) {
        (
            self.tracking,
            self.distraction_sites@,
            self.whitelist_sites@,
            self.api_key@,
            self.alert_image_path,
        )
    }

    /// Open (creating it if absent) the database at `db_path`, idempotently
    /// create its two tables, and start a session with tracking off and
    /// every setting empty.
    pub fn new(db_path: &str) -> (r: Result<AppState, String>)
        ensures
            r matches Ok(s) ==> {
                &&& !s.tracking
                &&& s.distraction_sites@.len() == 0
                &&& s.whitelist_sites@.len() == 0
                &&& s.api_key@.len() == 0
                &&& s.alert_image_path is None
            },
    {
        let mut conn = db_open(db_path)?;
        db_init_schema(&mut conn)?;
        Ok(
            AppState {
                tracking: false,
                distraction_sites: Vec::new(),
                whitelist_sites: Vec::new(),
                api_key: String::new(),
                alert_image_path: None,
                db_conn: conn,
            },
        )
    }

    /// Insert or replace the preference stored under `key`: last writer
    /// wins. The time logs and the in-memory session are untouched.
    pub fn save_preference(&mut self, key: &str, value: &str) -> (r: Result<(), String>)
        ensures
            r is Ok ==> final (self).prefs() == old(self).prefs().insert(key@, value@),
            r is Err ==> final (self).prefs() == old(self).prefs(),
            final (self).logs() == old(self).logs(),
            final (self).session_fields() == old(self).session_fields(),
    {
        db_upsert_pref(&mut self.db_conn, key, value)
    }

    /// Read the preference stored under `key`; an absent key yields None,
    /// not an error.
    pub fn load_preference(&self, key: &str) -> (r: Result<Option<String>, String>)
        ensures
            r matches Ok(v) ==> match v {
                Some(s) => self.prefs().contains_key(key@) && s@ == self.prefs()[key@],
                None => !self.prefs().contains_key(key@),
            },
    {
        db_get_pref(&self.db_conn, key)
    }
}

/// Append one time-log row; rows are immutable once written and never
/// updated or deleted. The preference table and the in-memory session are
/// untouched, whether or not the insert succeeds.
pub fn save_time_log(
    state: &mut AppState,
    website: &str,
    window_title: &str,
    start_time: i64,
    duration: i64,
) -> (r: Result<(), String>)
    ensures
        r is Ok ==> final (state).logs() == old(state).logs().push(
            (website@, window_title@, start_time, duration),
        ),
        r is Err ==> final (state).logs() == old(state).logs(),
        final (state).prefs() == old(state).prefs(),
        final (state).session_fields() == old(state).session_fields(),
{
    db_insert_log(&mut state.db_conn, website, window_title, start_time, duration)
}

} // verus!
