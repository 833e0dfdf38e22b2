use nogasm::history::{decay_floor, HistoryResult, Nogasm, PeakState};
use nogasm::state::State;

fn settings(value: u32, area: u32, release: u32, cooldown: u32) -> State {
    let mut s = State::new();
    s.peak_value_thresh = value;
    s.peak_area_threshold = area;
    s.peak_release_time_thresh = release;
    s.cooldown_time = cooldown;
    s
}

#[test]
fn idle_enters_a_peak_at_the_threshold() {
    assert_eq!(PeakState::Idle.step(10, 0, 10, 50, 100), (PeakState::InPeak { area: 10 }, false));
    assert_eq!(PeakState::Idle.step(9, 0, 10, 50, 100), (PeakState::Idle, false));
    assert_eq!(PeakState::Idle.step(0, 0, 0, 50, 100), (PeakState::InPeak { area: 0 }, false));
}

#[test]
fn quiet_signal_keeps_the_detector_idle() {
    let mut state = PeakState::Idle;
    for t in 0..10_000u32 {
        let (next, fired) = state.step(9, t, 10, 50, 100);
        assert_eq!(next, PeakState::Idle);
        assert!(!fired);
        state = next;
    }
}

#[test]
fn quiet_readings_keep_the_area_at_zero() {
    let mut n = Nogasm::<4>::new();
    let mut s = settings(10, 50, 100, 0);
    for t in 0..2_000u32 {
        assert!(n.accepts(5_000, t, &s));
        assert_eq!(n.add(5_000, t, &mut s), HistoryResult::Resume);
        assert_eq!(n.peak_state(), PeakState::Idle);
        assert_eq!(n.get_area(), 0);
        assert_eq!(n.get_current_value(), 0);
    }
}

#[test]
fn peak_grows_fires_and_arms_the_gate() {
    let state = PeakState::Idle;
    let (state, fired) = state.step(15, 0, 10, 50, 100);
    assert_eq!(state, PeakState::InPeak { area: 15 });
    assert!(!fired);
    let (state, fired) = state.step(20, 1, 10, 50, 100);
    assert_eq!(state, PeakState::InPeak { area: 35 });
    assert!(!fired);
    let (state, fired) = state.step(20, 2, 10, 50, 100);
    assert_eq!(state, PeakState::InPeak { area: 55 });
    assert!(!fired);
    for cur in [0u32, 9, 10, 1_000_000] {
        let (next, fired) = state.step(cur, 3, 10, 50, 100);
        assert_eq!(next, PeakState::Idle);
        assert!(fired);
    }
}

#[test]
fn trigger_lags_the_sample_that_crossed_the_threshold() {
    let state = PeakState::InPeak { area: 50 };
    let (state, fired) = state.step(10, 7, 10, 50, 100);
    assert_eq!(state, PeakState::InPeak { area: 60 });
    assert!(!fired);
    let (state, fired) = state.step(10, 8, 10, 50, 100);
    assert_eq!(state, PeakState::Idle);
    assert!(fired);
}

#[test]
fn dip_is_tolerated_and_its_area_carried_back() {
    let state = PeakState::InPeak { area: 30 };
    let (state, fired) = state.step(5, 10, 10, 50, 100);
    assert_eq!(state, PeakState::Exiting { peak_area: 30, exiting_area: 5, exit_time: 10 });
    assert!(!fired);
    let (state, fired) = state.step(5, 11, 10, 50, 100);
    assert_eq!(state, PeakState::Exiting { peak_area: 30, exiting_area: 10, exit_time: 10 });
    assert!(!fired);
    let (state, fired) = state.step(12, 12, 10, 50, 100);
    assert_eq!(state, PeakState::InPeak { area: 52 });
    assert!(!fired);
}

#[test]
fn long_dip_abandons_the_peak() {
    let mut state = PeakState::Exiting { peak_area: 30, exiting_area: 5, exit_time: 10 };
    for t in [20u32, 40, 60, 80, 100, 109] {
        let (next, fired) = state.step(1, t, 10, 50, 100);
        assert!(!fired);
        assert!(matches!(next, PeakState::Exiting { peak_area: 30, exit_time: 10, .. }));
        state = next;
    }
    assert_eq!(state, PeakState::Exiting { peak_area: 30, exiting_area: 11, exit_time: 10 });
    assert_eq!(state.step(1, 111, 10, 50, 100), (PeakState::Idle, false));
    assert_eq!(state.step(1, 110, 10, 50, 100), (PeakState::Idle, false));
    let held = PeakState::Exiting { peak_area: 30, exiting_area: 10, exit_time: 10 };
    assert_eq!(held.step(5, 111, 10, 50, 100), (PeakState::Idle, false));
}

#[test]
fn dip_ends_across_the_wrap_of_the_clock() {
    let state = PeakState::Exiting { peak_area: 30, exiting_area: 5, exit_time: u32::MAX - 5 };
    assert_eq!(
        state.step(1, 93, 10, 50, 100),
        (PeakState::Exiting { peak_area: 30, exiting_area: 6, exit_time: u32::MAX - 5 }, false)
    );
    assert_eq!(state.step(1, 94, 10, 50, 100), (PeakState::Idle, false));
}

#[test]
fn re_entry_wins_over_release() {
    let state = PeakState::Exiting { peak_area: 30, exiting_area: 5, exit_time: 10 };
    assert_eq!(state.step(10, 5_000, 10, 50, 100), (PeakState::InPeak { area: 45 }, false));
}

#[test]
fn exiting_does_not_fire_however_large_the_area() {
    let state = PeakState::Exiting { peak_area: 1_000, exiting_area: 1_000, exit_time: 0 };
    assert_eq!(
        state.step(1, 1, 10, 50, 100),
        (PeakState::Exiting { peak_area: 1_000, exiting_area: 1_001, exit_time: 0 }, false)
    );
}

#[test]
fn step_fits_tells_when_an_area_would_not_fit() {
    let full = PeakState::InPeak { area: u32::MAX - 10 };
    assert!(full.step_fits(10, 0, 5, u32::MAX, 100));
    assert!(!full.step_fits(11, 0, 5, u32::MAX, 100));
    assert!(full.step_fits(11, 0, 5, 50, 100));
    assert!(full.step_fits(4, 0, 5, u32::MAX, 100));
    assert_eq!(
        full.step(10, 0, 5, u32::MAX, 100),
        (PeakState::InPeak { area: u32::MAX }, false)
    );
    assert!(!full.step_fits(11, 0, 12, u32::MAX, 100));
    assert!(full.step_fits(10, 0, 12, u32::MAX, 100));
    assert_eq!(
        full.step(10, 7, 12, u32::MAX, 100),
        (PeakState::Exiting { peak_area: u32::MAX - 10, exiting_area: 10, exit_time: 7 }, false)
    );
    let dip = PeakState::Exiting { peak_area: u32::MAX - 10, exiting_area: 6, exit_time: 0 };
    assert!(dip.step_fits(3, 1, 5, 50, 100));
    assert!(dip.step_fits(4, 1, 6, 50, 100));
    assert!(!dip.step_fits(5, 1, 6, 50, 100));
    assert!(dip.step_fits(5, 100, 6, 50, 100));
    assert!(!dip.step_fits(5, 1, 5, 50, 100));
    assert!(!dip.step_fits(5, 100, 5, 50, 100));
    assert!(dip.step_fits(4, 1, 4, 50, 100));
    let long = PeakState::Exiting { peak_area: 0, exiting_area: u32::MAX, exit_time: 0 };
    assert!(!long.step_fits(1, 99, 5, 50, 100));
    assert!(long.step_fits(1, 100, 5, 50, 100));
    assert!(long.step_fits(0, 99, 5, 50, 100));
    assert!(PeakState::Idle.step_fits(u32::MAX, 0, 0, 0, 0));
}

#[test]
fn floor_starts_at_the_first_reading() {
    assert_eq!(decay_floor(u32::MAX, 500), 500);
    assert_eq!(decay_floor(u32::MAX, 0), 0);
    assert_eq!(decay_floor(u32::MAX, 0xff_ffff), 0xff_ffff);
}

#[test]
fn floor_moves_a_two_hundredth_towards_the_reading() {
    assert_eq!(decay_floor(1_000, 1_200), 1_001);
    assert_eq!(decay_floor(1_000, 1_199), 1_000);
    assert_eq!(decay_floor(1_000, 800), 999);
    assert_eq!(decay_floor(1_000, 0), 995);
    assert_eq!(decay_floor(0, 199), 0);
    assert_eq!(decay_floor(0, 200), 1);
    assert_eq!(decay_floor(8_388_608, 8_400_000), 8_388_664);
}

#[test]
fn floor_of_large_readings_does_not_overflow() {
    assert_eq!(decay_floor(0xff_ffff, 0xff_ffff), 0xff_ffff);
    assert_eq!(decay_floor(u32::MAX - 1, u32::MAX), u32::MAX - 1);
    assert_eq!(decay_floor(4_000_000_000, 0), 3_980_000_000);
}

#[test]
fn detector_starts_idle_and_unset() {
    let n = Nogasm::<4>::new();
    assert_eq!(n.min, u32::MAX);
    assert_eq!(n.min_decay, u32::MAX);
    assert_eq!(n.peak_state(), PeakState::Idle);
    assert_eq!(n.get_area(), 0);
    assert_eq!(n.get_current_value(), 0);
}

#[test]
fn first_reading_sets_minimum_and_floor() {
    let mut n = Nogasm::<4>::new();
    let mut s = State::new();
    n.add(8_000_000, 20_000, &mut s);
    assert_eq!(n.min, 8_000_000);
    assert_eq!(n.min_decay, 8_000_000);
    assert_eq!(n.get_current_value(), 0);
    n.add(7_000_000, 20_001, &mut s);
    assert_eq!(n.min, 7_000_000);
    assert_eq!(n.min_decay, 7_995_000);
    assert_eq!(n.get_current_value(), 0);
    n.add(9_000_000, 20_002, &mut s);
    assert_eq!(n.min, 7_000_000);
    assert_eq!(n.min_decay, 8_000_025);
    assert_eq!(n.get_current_value(), 0);
    n.add(9_000_000, 20_003, &mut s);
    assert_eq!(n.min_decay, 8_005_024);
    assert_eq!(n.get_current_value(), 244_976);
}

#[test]
fn readings_run_through_filter_floor_and_detector() {
    let mut n = Nogasm::<1>::new();
    let mut s = settings(10, 50, 100, 100);
    s.hysteresis.enter(0);
    assert_eq!(n.add(1_000, 1_000, &mut s), HistoryResult::Resume);
    assert_eq!(n.peak_state(), PeakState::Idle);
    assert_eq!(n.add(1_015, 1_001, &mut s), HistoryResult::Resume);
    assert_eq!(n.get_current_value(), 15);
    assert_eq!(n.peak_state(), PeakState::InPeak { area: 15 });
    assert_eq!(n.get_area(), 15);
    assert_eq!(n.add(1_020, 1_002, &mut s), HistoryResult::Resume);
    assert_eq!(n.peak_state(), PeakState::InPeak { area: 35 });
    assert_eq!(n.add(1_020, 1_003, &mut s), HistoryResult::Resume);
    assert_eq!(n.peak_state(), PeakState::InPeak { area: 55 });
    assert_eq!(n.min, 1_000);
    assert_eq!(n.add(1_020, 1_004, &mut s), HistoryResult::Stop);
    assert_eq!(n.peak_state(), PeakState::Idle);
    assert_eq!(n.get_area(), 0);
    assert_eq!(n.min, u32::MAX);
    assert_eq!(n.min_decay, 1_000);
    for t in 1_004..1_104u32 {
        assert!(s.hysteresis.is_active(t, 100));
    }
    assert!(!s.hysteresis.is_active(1_104, 100));
}

#[test]
fn gate_decides_whatever_the_detector_does() {
    let mut n = Nogasm::<1>::new();
    let mut s = settings(10, 50, 100, 100);
    s.hysteresis.enter(500);
    assert_eq!(n.add(1_000, 550, &mut s), HistoryResult::Stop);
    assert_eq!(n.add(1_000, 599, &mut s), HistoryResult::Stop);
    assert_eq!(n.add(1_000, 600, &mut s), HistoryResult::Resume);
    assert_eq!(n.add(1_030, 601, &mut s), HistoryResult::Resume);
    assert_eq!(n.peak_state(), PeakState::InPeak { area: 30 });
}

#[test]
fn add_only_touches_the_gate_of_the_settings() {
    let mut n = Nogasm::<1>::new();
    let mut s = settings(10, 50, 100, 100);
    s.has_changed();
    s.toggle();
    n.add(1_000, 1_000, &mut s);
    n.add(2_000, 1_001, &mut s);
    n.add(2_000, 1_002, &mut s);
    assert_eq!(n.add(2_000, 1_003, &mut s), HistoryResult::Stop);
    assert!(s.running);
    assert!(s.stimulating);
    assert!(!s.changed);
    assert_eq!(s.peak_value_thresh, 10);
    assert_eq!(s.peak_area_threshold, 50);
    assert_eq!(s.peak_release_time_thresh, 100);
    assert_eq!(s.cooldown_time, 100);
    assert_eq!(s.intensity, 10);
}

#[test]
fn area_in_a_dip_counts_the_dip() {
    let mut n = Nogasm::<1>::new();
    let mut s = settings(10, 50, 100, 0);
    n.add(1_000, 0, &mut s);
    n.add(1_030, 1, &mut s);
    assert_eq!(n.get_area(), 30);
    n.add(1_005, 2, &mut s);
    assert_eq!(
        n.peak_state(),
        PeakState::Exiting { peak_area: 30, exiting_area: 5, exit_time: 2 }
    );
    assert_eq!(n.get_area(), 35);
    n.add(1_005, 3, &mut s);
    assert_eq!(
        n.peak_state(),
        PeakState::Exiting { peak_area: 30, exiting_area: 10, exit_time: 2 }
    );
    assert_eq!(n.get_area(), 40);
    n.add(1_012, 4, &mut s);
    assert_eq!(n.peak_state(), PeakState::InPeak { area: 52 });
    assert_eq!(n.get_area(), 52);
}

#[test]
fn area_of_an_abandoned_peak_is_gone() {
    let mut n = Nogasm::<1>::new();
    let mut s = settings(10, 50, 100, 100);
    n.add(0, 0, &mut s);
    assert_eq!(n.get_area(), 0);
    n.add(30, 9, &mut s);
    assert_eq!(n.get_area(), 30);
    n.add(5, 10, &mut s);
    assert_eq!(n.get_area(), 35);
    n.add(5, 11, &mut s);
    assert_eq!(
        n.peak_state(),
        PeakState::Exiting { peak_area: 30, exiting_area: 10, exit_time: 10 }
    );
    assert_eq!(n.get_area(), 40);
    assert_eq!(n.get_area(), 40);
    assert_eq!(
        n.peak_state(),
        PeakState::Exiting { peak_area: 30, exiting_area: 10, exit_time: 10 }
    );
    n.add(5, 111, &mut s);
    assert_eq!(n.peak_state(), PeakState::Idle);
    assert_eq!(n.get_area(), 0);
}

#[test]
fn minimum_and_floor_can_be_read() {
    let mut n = Nogasm::<4>::new();
    let mut s = State::new();
    assert_eq!(n.get_min(), u32::MAX);
    assert_eq!(n.get_min_decay(), u32::MAX);
    n.add(8_000_000, 20_000, &mut s);
    n.add(7_000_000, 20_001, &mut s);
    assert_eq!(n.get_min(), 7_000_000);
    assert_eq!(n.get_min_decay(), 7_995_000);
    assert_eq!(n.get_min(), n.min);
    assert_eq!(n.get_min_decay(), n.min_decay);
}

#[test]
fn corrected_value_is_the_average_above_the_floor() {
    let mut n = Nogasm::<4>::new();
    let mut s = settings(1_000_000, 50, 100, 0);
    n.add(100, 0, &mut s);
    assert_eq!(n.get_current_value(), 0);
    n.add(500, 1, &mut s);
    assert_eq!(n.min_decay, 102);
    assert_eq!(n.get_current_value(), 198);
    n.add(0, 2, &mut s);
    assert_eq!(n.min_decay, 101);
    assert_eq!(n.get_current_value(), 99);
    assert_eq!(n.min, 0);
}

#[test]
fn accepts_refuses_a_reading_that_would_not_fit() {
    let mut n = Nogasm::<1>::new();
    let mut s = settings(0, u32::MAX, 100, 0);
    n.add(0, 0, &mut s);
    assert_eq!(n.peak_state(), PeakState::InPeak { area: 0 });
    let mut t = 1u32;
    while n.get_area() < 4_000_000_000 {
        assert!(n.accepts(u32::MAX, t, &s));
        n.add(u32::MAX, t, &mut s);
        n.min_decay = 0;
        t += 1;
    }
    let area = n.get_area();
    assert!(!n.accepts(u32::MAX, t, &s));
    assert_eq!(n.get_area(), area);
    assert!(n.accepts(0, t, &s));
}

#[test]
fn scenario_from_the_threshold_to_the_cooldown() {
    let mut n = Nogasm::<1>::new();
    let mut s = settings(10, 50, 100, 100);
    s.hysteresis.enter(4_000_000);
    n.min_decay = 1_000;
    assert_eq!(n.add(1_015, 0, &mut s), HistoryResult::Resume);
    assert_eq!(n.peak_state(), PeakState::InPeak { area: 15 });
    assert_eq!(n.add(1_020, 1, &mut s), HistoryResult::Resume);
    assert_eq!(n.peak_state(), PeakState::InPeak { area: 35 });
    assert_eq!(n.add(1_020, 2, &mut s), HistoryResult::Resume);
    assert_eq!(n.peak_state(), PeakState::InPeak { area: 55 });
    assert_eq!(n.add(0, 3, &mut s), HistoryResult::Stop);
    assert_eq!(n.peak_state(), PeakState::Idle);
    for t in 3..103u32 {
        assert!(s.hysteresis.is_active(t, 100));
    }
    for t in [103u32, 104, 1_000] {
        assert!(!s.hysteresis.is_active(t, 100));
    }
    assert_eq!(s.hysteresis.remaining(3, 100), 100);
}
