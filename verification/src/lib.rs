pub mod classify;
pub mod hard_mode;
pub mod settings;
pub mod state;
pub mod store;
pub mod summary;
pub mod tracking;

pub use classify::is_distraction_website;
pub use settings::{load_settings, save_settings};
pub use state::{save_time_log, AppState};
pub use summary::{get_time_logs_summary, TimeLogSummary};
pub use tracking::{
    get_tracking_status, record_window_sample, start_tracking, stop_tracking, toggle_tracking,
};

use vstd::prelude::*;

verus! {

/// Information about the currently focused window, as supplied by an
/// environment probe outside this library.
pub struct WindowInfo {
    pub app_name: String,
    pub window_title: String,
    pub url: Option<String>,
}

/// The identity under which a window is logged and classified: the URL when
/// one is present, otherwise the window title.
pub open spec fn spec_identity(info: WindowInfo) -> Seq<char> {
    match info.url {
        Some(u) => u@,
        None => info.window_title@,
    }
}

impl WindowInfo {
    /// Resolve the site identity of this window: the URL wins over the title.
    pub fn identity(&self) -> (r: String)
        ensures
            r@ == spec_identity(*self),
    {
        match &self.url {
            Some(u) => u.clone(),
            None => self.window_title.clone(),
        }
    }
}

} // verus!
