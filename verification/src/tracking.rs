//! The tracking state machine: starting, stopping and toggling the sampling
//! flag, and the work of one sampling tick.
//!
//! The sampling loop itself lives outside this library: a driver thread
//! probes the environment for the active window, asks for the current time,
//! and hands both to `record_window_sample`, sleeping `ACTIVE_POLL_SECS`
//! between samples and `IDLE_POLL_SECS` while the flag is off.

use crate::classify::{is_distraction_website, spec_is_distraction};
use crate::state::{site_set, AppState};
use crate::store::db_insert_log;
use crate::{spec_identity, WindowInfo};
use vstd::prelude::*;

verus! {

/// Seconds a driver sleeps between ticks while the tracking flag is off.
pub const IDLE_POLL_SECS: u64 = 5;

/// Seconds a driver sleeps between ticks while the tracking flag is on.
pub const ACTIVE_POLL_SECS: u64 = 1;

/// Seconds attributed to one observed sample: the tick cadence, by design,
/// rather than a measured duration.
pub const TICK_DURATION_SECS: i64 = 1;

/// Starting is allowed only while tracking is off.
pub open spec fn start_allowed(tracking: bool) -> bool {
    !tracking
}

/// The tracking flag after a successful start.
pub open spec fn flag_after_start(tracking: bool) -> bool {
    true
}

/// Turn tracking on. Fails with "Already tracking", changing nothing, when
/// the flag is already set; a driver spawns the sampling thread (once per
/// process) only on Ok.
pub fn start_tracking(state: &mut AppState) -> (r: Result<(), String>)
    ensures
        !start_allowed(old(state).tracking) ==> {
            &&& r matches Err(m) && m@ == "Already tracking"@
            &&& final (state).tracking == old(state).tracking
        },
        start_allowed(old(state).tracking) ==> r is Ok,
        r is Ok ==> final (state).tracking == flag_after_start(old(state).tracking),
        final (state).distraction_sites@ == old(state).distraction_sites@,
        final (state).whitelist_sites@ == old(state).whitelist_sites@,
        final (state).api_key@ == old(state).api_key@,
        final (state).alert_image_path == old(state).alert_image_path,
        final (state).logs() == old(state).logs(),
        final (state).prefs() == old(state).prefs(),
{
    if state.tracking {
        return Err("Already tracking".to_owned());
    }
    state.tracking = true;
    Ok(())
}

/// Turn tracking off. Always succeeds, whatever the flag held.
pub fn stop_tracking(state: &mut AppState) -> (r: Result<(), String>)
    ensures
        r is Ok,
        !final (state).tracking,
        final (state).distraction_sites@ == old(state).distraction_sites@,
        final (state).whitelist_sites@ == old(state).whitelist_sites@,
        final (state).api_key@ == old(state).api_key@,
        final (state).alert_image_path == old(state).alert_image_path,
        final (state).logs() == old(state).logs(),
        final (state).prefs() == old(state).prefs(),
{
    state.tracking = false;
    Ok(())
}

/// Flip the tracking flag and return the value it now holds.
pub fn toggle_tracking(state: &mut AppState) -> (r: Result<bool, String>)
    ensures
        final (state).tracking == !old(state).tracking,
        r matches Ok(b) && b == final (state).tracking,
        final (state).distraction_sites@ == old(state).distraction_sites@,
        final (state).whitelist_sites@ == old(state).whitelist_sites@,
        final (state).api_key@ == old(state).api_key@,
        final (state).alert_image_path == old(state).alert_image_path,
        final (state).logs() == old(state).logs(),
        final (state).prefs() == old(state).prefs(),
{
    state.tracking = !state.tracking;
    Ok(state.tracking)
}

/// Read the tracking flag.
pub fn get_tracking_status(state: &AppState) -> (r: bool)
    ensures
        r == state.tracking,
{
    state.tracking
}

/// Law: started twice in succession, with no stop between, the second start
/// is refused: a successful start leaves the flag in a state from which
/// starting is no longer allowed.
pub proof fn lemma_start_twice_fails(tracking: bool)
    requires
        start_allowed(tracking),
    ensures
        !start_allowed(flag_after_start(tracking)),
{
}

/// What one observed sample asks of the driver: whether to trigger the
/// distraction alert, and the alert image to pass along with it.
pub struct SampleOutcome {
    pub alert: bool,
    pub alert_image_path: Option<String>,
}

/// The work of one tick on an observed window: append a time-log row for the
/// window's identity at time `now` with the fixed tick duration (a failed
/// append is swallowed: telemetry is best-effort), then classify the
/// identity against the current settings.
pub fn record_window_sample(state: &mut AppState, info: &WindowInfo, now: i64) -> (r:
    SampleOutcome)
    ensures
        final (state).logs() == old(state).logs() || final (state).logs() == old(state).logs().push(
            (spec_identity(*info), info.window_title@, now, TICK_DURATION_SECS),
        ),
        final (state).prefs() == old(state).prefs(),
        final (state).tracking == old(state).tracking,
        final (state).distraction_sites@ == old(state).distraction_sites@,
        final (state).whitelist_sites@ == old(state).whitelist_sites@,
        final (state).api_key@ == old(state).api_key@,
        final (state).alert_image_path == old(state).alert_image_path,
        r.alert == spec_is_distraction(
            site_set(old(state).distraction_sites@),
            site_set(old(state).whitelist_sites@),
            spec_identity(*info),
        ),
        r.alert_image_path == old(state).alert_image_path,
{
    let website = info.identity();
    let _ = db_insert_log(
        &mut state.db_conn,
        website.as_str(),
        info.window_title.as_str(),
        now,
        TICK_DURATION_SECS,
    );
    let alert = is_distraction_website(state, website.as_str());
    SampleOutcome { alert, alert_image_path: clone_opt_string(&state.alert_image_path) }
}

/// Copy an optional string.
fn clone_opt_string(o: &Option<String>) -> (r: Option<String>)
    ensures
        r == *o,
{
    match o {
        Some(s) => Some(s.clone()),
        None => None,
    }
}

} // verus!
