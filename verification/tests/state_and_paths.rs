use aurex::app_state::AppState;
use aurex::paths::app_cache;
use aurex::paths::app_data;
use aurex::paths::cover_cache;
use aurex::paths::dir_file;

#[test]
fn app_state_starts_at_zero() {
    let state = AppState::default();
    assert_eq!(state.clicks, 0);
}

#[test]
fn increment_click_counts_up() {
    let mut state = AppState::default();
    state.increment_click();
    state.increment_click();
    assert_eq!(state.clicks, 2);
}

#[test]
fn reset_clicks_goes_back_to_zero() {
    let mut state = AppState::default();
    state.increment_click();
    state.reset_clicks();
    assert_eq!(state.clicks, 0);
}

#[test]
fn app_data_ends_with_application_segment() {
    if let Some(p) = app_data() {
        assert!(p.ends_with("/aurex"), "unexpected app data dir: {}", p);
    }
}

#[test]
fn dir_file_points_into_app_data() {
    if let Some(p) = dir_file() {
        assert!(p.ends_with("/aurex/directories.txt"), "unexpected directories file: {}", p);
    }
}

#[test]
fn app_cache_ends_with_cache_segments() {
    if let Some(p) = app_cache() {
        assert!(p.ends_with("/.aurex/cache"), "unexpected cache dir: {}", p);
    }
}

#[test]
fn cover_cache_points_into_app_cache() {
    if let Some(p) = cover_cache() {
        assert!(p.ends_with("/.aurex/cache/covers"), "unexpected cover cache: {}", p);
    }
}

#[test]
fn data_and_cache_paths_agree_on_presence() {
    // both come from the same kind of environment lookup; on this platform
    // either both base directories resolve or the environment is bare
    let d = app_data();
    let f = dir_file();
    assert_eq!(d.is_some(), f.is_some());
}
