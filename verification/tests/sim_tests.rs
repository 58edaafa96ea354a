use madlab::globals::{DisplayMode, Signals};
use madlab::sim::{signals_check, FpsHistory, SignalActions, FPS_WINDOW};

fn signals(start: bool, quit: bool, restart: bool, shuffle: bool, new_settings: bool) -> Signals {
    Signals {
        start_new_sim: start,
        quit,
        restart,
        shuffle_interactions: shuffle,
        particles_new_settings: new_settings,
    }
}

#[test]
fn default_signals_are_idle() {
    let s = Signals::default();
    assert_eq!(s, signals(false, false, false, false, false));
}

#[test]
fn idle_signals_ask_for_nothing() {
    let (left, actions) = signals_check(Signals::default(), false);
    assert_eq!(left, Signals::default());
    assert_eq!(
        actions,
        SignalActions { shuffle_interactions: false, resets: 0, quit: false, update_damping: false }
    );
}

#[test]
fn own_quit_flag_quits_without_reset() {
    let (_, actions) = signals_check(Signals::default(), true);
    assert!(actions.quit);
    assert_eq!(actions.resets, 0);
}

#[test]
fn every_request_is_answered_and_consumed() {
    let pending = signals(true, true, true, true, true);
    let (left, actions) = signals_check(pending, true);
    assert_eq!(left, signals(false, true, false, false, false));
    assert!(actions.shuffle_interactions);
    assert_eq!(actions.resets, 2);
    assert!(!actions.quit);
    assert!(actions.update_damping);
}

#[test]
fn single_requests() {
    let (left, a) = signals_check(signals(true, false, false, false, false), false);
    assert_eq!(a.resets, 1);
    assert_eq!(left, Signals::default());
    let (_, a) = signals_check(signals(false, false, true, false, false), false);
    assert_eq!(a.resets, 1);
    let (_, a) = signals_check(signals(false, false, false, true, false), false);
    assert!(a.shuffle_interactions);
    assert_eq!(a.resets, 0);
    let (_, a) = signals_check(signals(false, false, false, false, true), false);
    assert!(a.update_damping);
}

#[test]
fn reset_cancels_own_quit() {
    let (_, a) = signals_check(signals(false, false, true, false, false), true);
    assert!(!a.quit);
    let (_, a) = signals_check(signals(true, false, false, false, false), true);
    assert!(!a.quit);
}

#[test]
fn second_check_asks_for_nothing_more() {
    let (left, _) = signals_check(signals(true, false, true, true, true), false);
    let (again, a) = signals_check(left, false);
    assert_eq!(again, left);
    assert!(!a.shuffle_interactions && a.resets == 0 && !a.update_damping && !a.quit);
}

#[test]
fn display_modes_are_distinct() {
    assert_ne!(DisplayMode::ELEMENTS, DisplayMode::STROKE);
    assert_ne!(DisplayMode::STROKE, DisplayMode::ENERGY);
}

#[test]
fn fresh_history_averages_thirty() {
    let h = FpsHistory::new();
    assert_eq!(h.len(), FPS_WINDOW);
    assert_eq!(h.average(), 30);
}

#[test]
fn record_shifts_window() {
    let mut h = FpsHistory::new();
    h.record(60);
    assert_eq!(h.len(), 30);
    // 29 samples of 30 and one of 60: 930 / 30 = 31
    assert_eq!(h.average(), 31);
    h.record(1);
    // 28 * 30 + 60 + 1 = 901, / 30 = 30 (rounded down)
    assert_eq!(h.average(), 30);
}

#[test]
fn window_holds_latest_samples() {
    let mut h = FpsHistory::new();
    for i in 0..30 {
        h.record(i);
    }
    // 0 + 1 + ... + 29 = 435, / 30 = 14
    assert_eq!(h.average(), 14);
    for _ in 0..30 {
        h.record(45);
    }
    assert_eq!(h.average(), 45);
}

#[test]
fn average_rounds_toward_zero() {
    let mut h = FpsHistory::new();
    for _ in 0..29 {
        h.record(0);
    }
    h.record(-31);
    assert_eq!(h.average(), -1);
    let mut h = FpsHistory::new();
    for _ in 0..29 {
        h.record(0);
    }
    h.record(59);
    assert_eq!(h.average(), 1);
}

#[test]
fn grid_points_cover_every_column_and_row() {
    let pts = madlab::sim::grid_points(2, 1, 50);
    assert_eq!(pts, vec![(0, 0), (0, 50), (50, 0), (50, 50), (100, 0), (100, 50)]);
}

#[test]
fn grid_points_of_single_cell() {
    assert_eq!(madlab::sim::grid_points(0, 0, 7), vec![(0, 0)]);
    let pts = madlab::sim::grid_points(19, 19, 50);
    assert_eq!(pts.len(), 400);
    assert_eq!(pts[399], (950, 950));
    assert_eq!(pts[20], (50, 0));
}
