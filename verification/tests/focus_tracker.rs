use focus_tracker::classify::is_distraction_website;
use focus_tracker::hard_mode::{blocklist_text, hard_mode_result, HardModeEvent};
use focus_tracker::settings::{load_settings, save_settings};
use focus_tracker::state::{save_time_log, AppState};
use focus_tracker::summary::get_time_logs_summary;
use focus_tracker::tracking::{
    get_tracking_status, record_window_sample, start_tracking, stop_tracking, toggle_tracking,
};
use focus_tracker::WindowInfo;

fn fresh_state() -> AppState {
    AppState::new(":memory:").expect("open in-memory store")
}

fn strings(v: &[&str]) -> Vec<String> {
    v.iter().map(|s| s.to_string()).collect()
}

#[test]
fn whitelist_wins_over_distraction_membership() {
    let mut st = fresh_state();
    st.distraction_sites = strings(&["x.com"]);
    st.whitelist_sites = strings(&["x.com"]);
    assert!(!is_distraction_website(&st, "x.com"));
}

#[test]
fn distraction_membership_flags_site() {
    let mut st = fresh_state();
    st.distraction_sites = strings(&["x.com", "y.com"]);
    st.whitelist_sites = strings(&["z.com"]);
    assert!(is_distraction_website(&st, "x.com"));
    assert!(is_distraction_website(&st, "y.com"));
    assert!(!is_distraction_website(&st, "z.com"));
    assert!(!is_distraction_website(&st, "other.com"));
}

#[test]
fn identity_is_url_when_present() {
    let info = WindowInfo {
        app_name: "Browser".to_string(),
        window_title: "Some page".to_string(),
        url: Some("https://x.com/a".to_string()),
    };
    assert_eq!(info.identity(), "https://x.com/a");
}

#[test]
fn identity_is_title_when_url_absent() {
    let info = WindowInfo {
        app_name: "Editor".to_string(),
        window_title: "notes.txt".to_string(),
        url: None,
    };
    assert_eq!(info.identity(), "notes.txt");
}

#[test]
fn settings_round_trip_all_four_fields() {
    let mut st = fresh_state();
    let r = save_settings(
        &mut st,
        "key-abc-123".to_string(),
        strings(&["x.com", "y.com"]),
        strings(&["w.com"]),
        Some("/tmp/alert.png".to_string()),
    );
    assert!(r.is_ok());
    let (api_key, distraction, whitelist, image) = load_settings(&st).expect("load");
    assert_eq!(api_key, "key-abc-123");
    assert_eq!(distraction, strings(&["x.com", "y.com"]));
    assert_eq!(whitelist, strings(&["w.com"]));
    assert_eq!(image, Some("/tmp/alert.png".to_string()));
}

#[test]
fn settings_never_saved_default_to_empty() {
    let st = fresh_state();
    let (api_key, distraction, whitelist, image) = load_settings(&st).expect("load");
    assert_eq!(api_key, "");
    assert!(distraction.is_empty());
    assert!(whitelist.is_empty());
    assert_eq!(image, None);
}

#[test]
fn settings_image_path_absent_stays_absent() {
    let mut st = fresh_state();
    save_settings(&mut st, "k".to_string(), strings(&[]), strings(&[]), None).expect("save");
    let (_, _, _, image) = load_settings(&st).expect("load");
    assert_eq!(image, None);
}

#[test]
fn settings_ill_formed_stored_list_loads_empty() {
    let mut st = fresh_state();
    st.save_preference("distraction_sites", "not a json list").expect("save");
    let (_, distraction, _, _) = load_settings(&st).expect("load");
    assert!(distraction.is_empty());
}

#[test]
fn preference_upsert_last_writer_wins() {
    let mut st = fresh_state();
    st.save_preference("k", "v1").expect("save");
    st.save_preference("k", "v2").expect("save");
    assert_eq!(st.load_preference("k").expect("load"), Some("v2".to_string()));
    assert_eq!(st.load_preference("absent").expect("load"), None);
}

#[test]
fn start_twice_fails_with_already_tracking() {
    let mut st = fresh_state();
    assert!(start_tracking(&mut st).is_ok());
    assert_eq!(start_tracking(&mut st), Err("Already tracking".to_string()));
    assert!(get_tracking_status(&st));
}

#[test]
fn stop_always_succeeds_and_allows_restart() {
    let mut st = fresh_state();
    assert!(stop_tracking(&mut st).is_ok());
    assert!(start_tracking(&mut st).is_ok());
    assert!(stop_tracking(&mut st).is_ok());
    assert!(!get_tracking_status(&st));
    assert!(start_tracking(&mut st).is_ok());
}

#[test]
fn toggle_flips_and_reports_new_value() {
    let mut st = fresh_state();
    assert_eq!(toggle_tracking(&mut st), Ok(true));
    assert!(get_tracking_status(&st));
    assert_eq!(toggle_tracking(&mut st), Ok(false));
    assert!(!get_tracking_status(&st));
}

#[test]
fn summary_groups_sums_and_sorts_descending() {
    let mut st = fresh_state();
    save_time_log(&mut st, "a.com", "", 1000, 5).expect("insert");
    save_time_log(&mut st, "a.com", "", 1001, 3).expect("insert");
    save_time_log(&mut st, "b.com", "", 1002, 10).expect("insert");
    let rows = get_time_logs_summary(&st).expect("summary");
    assert_eq!(rows.len(), 2);
    assert_eq!(rows[0].website, "b.com");
    assert_eq!(rows[0].total_duration_secs, 10);
    assert_eq!(rows[1].website, "a.com");
    assert_eq!(rows[1].total_duration_secs, 8);
}

#[test]
fn summary_ties_keep_storage_order() {
    let mut st = fresh_state();
    save_time_log(&mut st, "y.com", "", 0, 5).expect("insert");
    save_time_log(&mut st, "x.com", "", 1, 5).expect("insert");
    let rows = get_time_logs_summary(&st).expect("summary");
    assert_eq!(rows.len(), 2);
    assert_eq!(rows[0].website, "y.com");
    assert_eq!(rows[1].website, "x.com");
}

#[test]
fn summary_caps_at_twenty_rows() {
    let mut st = fresh_state();
    for i in 0..25i64 {
        let site = format!("site{}.com", i);
        save_time_log(&mut st, &site, "", i, i + 1).expect("insert");
    }
    let rows = get_time_logs_summary(&st).expect("summary");
    assert_eq!(rows.len(), 20);
    assert_eq!(rows[0].website, "site24.com");
    assert_eq!(rows[0].total_duration_secs, 25);
    for w in rows.windows(2) {
        assert!(w[0].total_duration_secs >= w[1].total_duration_secs);
    }
    assert_eq!(rows[19].total_duration_secs, 6);
}

#[test]
fn summary_reports_unrepresentable_total() {
    let mut st = fresh_state();
    save_time_log(&mut st, "s.com", "", 0, i64::MAX).expect("insert");
    save_time_log(&mut st, "s.com", "", 1, 1).expect("insert");
    assert!(get_time_logs_summary(&st).is_err());
}

#[test]
fn sample_logs_identity_and_flags_distraction() {
    let mut st = fresh_state();
    st.distraction_sites = strings(&["https://x.com"]);
    st.alert_image_path = Some("/tmp/alert.png".to_string());
    let info = WindowInfo {
        app_name: "Browser".to_string(),
        window_title: "X".to_string(),
        url: Some("https://x.com".to_string()),
    };
    let outcome = record_window_sample(&mut st, &info, 1234);
    assert!(outcome.alert);
    assert_eq!(outcome.alert_image_path, Some("/tmp/alert.png".to_string()));
    let rows = get_time_logs_summary(&st).expect("summary");
    assert_eq!(rows.len(), 1);
    assert_eq!(rows[0].website, "https://x.com");
    assert_eq!(rows[0].total_duration_secs, 1);
}

#[test]
fn sample_of_whitelisted_site_raises_no_alert() {
    let mut st = fresh_state();
    st.distraction_sites = strings(&["x.com"]);
    st.whitelist_sites = strings(&["x.com"]);
    let info = WindowInfo {
        app_name: "Browser".to_string(),
        window_title: "x.com".to_string(),
        url: None,
    };
    let outcome = record_window_sample(&mut st, &info, 7);
    assert!(!outcome.alert);
    assert_eq!(outcome.alert_image_path, None);
}

#[test]
fn blocklist_text_joins_with_newlines() {
    assert_eq!(blocklist_text(&strings(&["a.com", "b.com"])), "a.com\nb.com");
    assert_eq!(blocklist_text(&strings(&["a.com"])), "a.com");
    assert_eq!(blocklist_text(&strings(&[])), "");
}

#[test]
fn hard_mode_launch_failure_surfaces_and_leaves_state_alone() {
    let mut st = fresh_state();
    st.distraction_sites = strings(&["a.com", "b.com"]);
    let r = hard_mode_result(HardModeEvent::LaunchFailed("No such file".to_string()));
    assert_eq!(r, Err("Failed to execute SelfControl: No such file".to_string()));
    assert!(!get_tracking_status(&st));
    assert_eq!(st.distraction_sites, strings(&["a.com", "b.com"]));
}

#[test]
fn hard_mode_write_failure_surfaces() {
    let r = hard_mode_result(HardModeEvent::WriteFailed("disk full".to_string()));
    assert_eq!(r, Err("Failed to write blocklist file: disk full".to_string()));
}

#[test]
fn hard_mode_exit_status_decides() {
    assert_eq!(hard_mode_result(HardModeEvent::Exited(true)), Ok(()));
    assert_eq!(
        hard_mode_result(HardModeEvent::Exited(false)),
        Err("SelfControl failed to start".to_string())
    );
}
