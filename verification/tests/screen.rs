use nogasm::menu::MenuPosition;
use nogasm::screen::{screen, slot, FrameLimiter, Screen, Setting, Status, StimTimer};
use nogasm::state::State;

#[test]
fn every_page_has_its_slot() {
    assert_eq!(slot(MenuPosition::Main), 0);
    assert_eq!(slot(MenuPosition::Peak), 1);
    assert_eq!(slot(MenuPosition::PeakSelect), 1);
    assert_eq!(slot(MenuPosition::Area), 2);
    assert_eq!(slot(MenuPosition::AreaSelect), 2);
    assert_eq!(slot(MenuPosition::Duration), 3);
    assert_eq!(slot(MenuPosition::DurationSelect), 3);
    assert_eq!(slot(MenuPosition::Cooldown), 4);
    assert_eq!(slot(MenuPosition::CooldownSelect), 4);
    assert_eq!(slot(MenuPosition::Intensity), 5);
    assert_eq!(slot(MenuPosition::IntensitySelect), 5);
}

#[test]
fn main_page_shows_the_status() {
    let mut state = State::new();
    assert_eq!(screen(MenuPosition::Main, &state), Screen::Main { status: Status::Ready });
    state.toggle();
    assert_eq!(screen(MenuPosition::Main, &state), Screen::Main { status: Status::Stimulating });
    state.stop_stim();
    state.hysteresis.enter(2_000);
    state.cur_time_ms = 4_500;
    assert_eq!(
        screen(MenuPosition::Main, &state),
        Screen::Main { status: Status::Holding { remaining_ms: 7_500 } }
    );
    state.toggle();
    assert_eq!(screen(MenuPosition::Main, &state), Screen::Main { status: Status::Ready });
}

#[test]
fn setting_pages_show_their_values() {
    let state = State::new();
    assert_eq!(
        screen(MenuPosition::Peak, &state),
        Screen::Value { setting: Setting::Sensitivity, value: 15_000, adjusting: false }
    );
    assert_eq!(
        screen(MenuPosition::PeakSelect, &state),
        Screen::Value { setting: Setting::Sensitivity, value: 15_000, adjusting: true }
    );
    assert_eq!(
        screen(MenuPosition::Area, &state),
        Screen::Value { setting: Setting::Density, value: 200_000, adjusting: false }
    );
    assert_eq!(
        screen(MenuPosition::AreaSelect, &state),
        Screen::Value { setting: Setting::Density, value: 200_000, adjusting: true }
    );
    assert_eq!(
        screen(MenuPosition::Duration, &state),
        Screen::Value { setting: Setting::Duration, value: 500, adjusting: false }
    );
    assert_eq!(
        screen(MenuPosition::DurationSelect, &state),
        Screen::Value { setting: Setting::Duration, value: 500, adjusting: true }
    );
}

#[test]
fn cooldown_page_shows_whole_seconds() {
    let mut state = State::new();
    assert_eq!(
        screen(MenuPosition::Cooldown, &state),
        Screen::Value { setting: Setting::Cooldown, value: 10, adjusting: false }
    );
    state.cooldown_time = 1_999;
    assert_eq!(
        screen(MenuPosition::CooldownSelect, &state),
        Screen::Value { setting: Setting::Cooldown, value: 1, adjusting: true }
    );
}

#[test]
fn actuator_page_shows_connection_and_intensity() {
    let mut state = State::new();
    assert_eq!(
        screen(MenuPosition::Intensity, &state),
        Screen::Actuator { connected: false, automatic: false, intensity: 10, adjusting: false }
    );
    state.set_ble_connected(true);
    state.toggle();
    state.intensity_up();
    assert_eq!(
        screen(MenuPosition::IntensitySelect, &state),
        Screen::Actuator { connected: true, automatic: true, intensity: 11, adjusting: true }
    );
}

#[test]
fn frames_keep_their_distance() {
    let mut limiter = FrameLimiter::new();
    assert!(limiter.due(0));
    assert!(!limiter.due(0));
    assert!(!limiter.due(49));
    assert!(limiter.due(50));
    assert!(!limiter.due(99));
    assert!(limiter.due(1_000));
    assert!(!limiter.due(1_049));
    assert!(limiter.due(1_050));
}

#[test]
fn stimulation_time_runs_from_the_first_look() {
    let mut timer = StimTimer::new();
    assert_eq!(timer.running_for(false, 100), None);
    assert_eq!(timer.running_for(true, 150), Some(0));
    assert_eq!(timer.running_for(true, 151), Some(1));
    assert_eq!(timer.running_for(true, 2_150), Some(2_000));
    assert_eq!(timer.running_for(false, 2_200), None);
    assert_eq!(timer.running_for(true, 3_000), Some(0));
    assert_eq!(timer.running_for(true, 3_500), Some(500));
}

#[test]
fn stimulation_time_survives_the_wrap_of_the_clock() {
    let mut timer = StimTimer::new();
    assert_eq!(timer.running_for(true, u32::MAX - 9), Some(0));
    assert_eq!(timer.running_for(true, u32::MAX), Some(9));
    assert_eq!(timer.running_for(true, 0), Some(10));
    assert_eq!(timer.running_for(true, 90), Some(100));
}
