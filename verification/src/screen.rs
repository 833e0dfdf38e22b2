//! What the display shows for each menu position, and how often it is
//! drawn.

use vstd::prelude::*;
use crate::menu::MenuPosition;
use crate::state::{elapsed, elapsed_ms, State};

verus! {

/// Shortest time between two frames, in milliseconds.
pub const INTER_FRAME_TIME_MS: u32 = 50;

/// A setting that has a page of its own.
#[derive(Clone, Copy, Debug, PartialEq, Eq, Structural)]
pub enum Setting {
    Sensitivity,
    Density,
    Duration,
    Cooldown,
}

/// What the main page says about the stimulation.
#[derive(Clone, Copy, Debug, PartialEq, Eq, Structural)]
pub enum Status {
    /// Automatic control is off.
    Ready,
    /// Automatic control is on and the actuator runs.
    Stimulating,
    /// Automatic control is on and the cooldown keeps the actuator off for
    /// another `remaining_ms`.
    Holding { remaining_ms: u32 },
}

/// What the display shows.
#[derive(Clone, Copy, Debug, PartialEq, Eq, Structural)]
pub enum Screen {
    Main { status: Status },
    Value { setting: Setting, value: u32, adjusting: bool },
    Actuator { connected: bool, automatic: bool, intensity: u8, adjusting: bool },
}

/// The place of a page in the ring of pages, which the marker at the edge of
/// the display shows.
pub open spec fn slot_of(position: MenuPosition) -> u8 {
    match position {
        MenuPosition::Main => 0,
        MenuPosition::Peak | MenuPosition::PeakSelect => 1,
        MenuPosition::Area | MenuPosition::AreaSelect => 2,
        MenuPosition::Duration | MenuPosition::DurationSelect => 3,
        MenuPosition::Cooldown | MenuPosition::CooldownSelect => 4,
        MenuPosition::Intensity | MenuPosition::IntensitySelect => 5,
    }
}

/// What the main page says in `state`.
pub open spec fn status_of(state: State) -> Status {
    if !state.running {
        Status::Ready
    } else if state.stimulating {
        Status::Stimulating
    } else {
        Status::Holding {
            remaining_ms: state.hysteresis.remaining_at(
                state.cur_time_ms,
                state.cooldown_time,
            ) as u32,
        }
    }
}

/// What the display shows at `position` in `state`. The thresholds are shown
/// as they are, the cooldown in whole seconds.
pub open spec fn screen_of(position: MenuPosition, state: State) -> Screen {
    match position {
        MenuPosition::Main => Screen::Main { status: status_of(state) },
        MenuPosition::Peak | MenuPosition::PeakSelect => Screen::Value {
            setting: Setting::Sensitivity,
            value: state.peak_value_thresh,
            adjusting: position.adjusting(),
        },
        MenuPosition::Area | MenuPosition::AreaSelect => Screen::Value {
            setting: Setting::Density,
            value: state.peak_area_threshold,
            adjusting: position.adjusting(),
        },
        MenuPosition::Duration | MenuPosition::DurationSelect => Screen::Value {
            setting: Setting::Duration,
            value: state.peak_release_time_thresh,
            adjusting: position.adjusting(),
        },
        MenuPosition::Cooldown | MenuPosition::CooldownSelect => Screen::Value {
            setting: Setting::Cooldown,
            value: state.cooldown_time / 1000,
            adjusting: position.adjusting(),
        },
        MenuPosition::Intensity | MenuPosition::IntensitySelect => Screen::Actuator {
            connected: state.ble_connected,
            automatic: state.running,
            intensity: state.intensity,
            adjusting: position.adjusting(),
        },
    }
}

/// Computes [`slot_of`].
pub fn slot(position: MenuPosition) -> (index: u8)
    ensures
        index == slot_of(position),
        index <= 5,
{
    match position {
        MenuPosition::Main => 0,
        MenuPosition::Peak | MenuPosition::PeakSelect => 1,
        MenuPosition::Area | MenuPosition::AreaSelect => 2,
        MenuPosition::Duration | MenuPosition::DurationSelect => 3,
        MenuPosition::Cooldown | MenuPosition::CooldownSelect => 4,
        MenuPosition::Intensity | MenuPosition::IntensitySelect => 5,
    }
}

/// Computes [`screen_of`].
pub fn screen(position: MenuPosition, state: &State) -> (shown: Screen)
    ensures
        shown == screen_of(position, *state),
{
    match position {
        MenuPosition::Main => {
            let status = if !state.running {
                Status::Ready
            } else if state.stimulating {
                Status::Stimulating
            } else {
                Status::Holding {
                    remaining_ms: state.hysteresis.remaining(
                        state.cur_time_ms,
                        state.cooldown_time,
                    ),
                }
            };
            Screen::Main { status }
        },
        MenuPosition::Peak => Screen::Value {
            setting: Setting::Sensitivity,
            value: state.peak_value_thresh,
            adjusting: false,
        },
        MenuPosition::PeakSelect => Screen::Value {
            setting: Setting::Sensitivity,
            value: state.peak_value_thresh,
            adjusting: true,
        },
        MenuPosition::Area => Screen::Value {
            setting: Setting::Density,
            value: state.peak_area_threshold,
            adjusting: false,
        },
        MenuPosition::AreaSelect => Screen::Value {
            setting: Setting::Density,
            value: state.peak_area_threshold,
            adjusting: true,
        },
        MenuPosition::Duration => Screen::Value {
            setting: Setting::Duration,
            value: state.peak_release_time_thresh,
            adjusting: false,
        },
        MenuPosition::DurationSelect => Screen::Value {
            setting: Setting::Duration,
            value: state.peak_release_time_thresh,
            adjusting: true,
        },
        MenuPosition::Cooldown => Screen::Value {
            setting: Setting::Cooldown,
            value: state.cooldown_time / 1_000,
            adjusting: false,
        },
        MenuPosition::CooldownSelect => Screen::Value {
            setting: Setting::Cooldown,
            value: state.cooldown_time / 1_000,
            adjusting: true,
        },
        MenuPosition::Intensity => Screen::Actuator {
            connected: state.ble_connected,
            automatic: state.running,
            intensity: state.intensity,
            adjusting: false,
        },
        MenuPosition::IntensitySelect => Screen::Actuator {
            connected: state.ble_connected,
            automatic: state.running,
            intensity: state.intensity,
            adjusting: true,
        },
    }
}

/// Keeps the display from being drawn more often than every
/// `INTER_FRAME_TIME_MS`.
pub struct FrameLimiter {
    next_update_ms: u32,
}

impl FrameLimiter {
    /// The time from which the next frame may be drawn.
    pub closed spec fn next_update(&self) -> u32 {
        self.next_update_ms
    }

    /// A limiter that lets the first frame through.
    pub fn new() -> (limiter: FrameLimiter)
        ensures
            limiter.next_update() == 0,
    {
        FrameLimiter { next_update_ms: 0 }
    }

    /// Reads the time from which the next frame may be drawn.
    pub fn next_update_ms(&self) -> (ms: u32)
        ensures
            ms == self.next_update(),
    {
        self.next_update_ms
    }

    /// Whether a frame may be drawn at `now_ms`. Where it may, the next one
    /// has to wait for `INTER_FRAME_TIME_MS`.
    pub fn due(&mut self, now_ms: u32) -> (draw: bool)
        requires
            old(self).next_update() <= now_ms ==> now_ms + INTER_FRAME_TIME_MS <= u32::MAX,
        ensures
            draw == (old(self).next_update() <= now_ms),
            final(self).next_update() == if draw {
                (now_ms + INTER_FRAME_TIME_MS) as u32
            } else {
                old(self).next_update()
            },
    {
        if self.next_update_ms > now_ms {
            return false;
        }
        self.next_update_ms = now_ms + INTER_FRAME_TIME_MS;
        true
    }
}

/// Remembers since when the actuator has been running, for the main page to
/// show.
pub struct StimTimer {
    since: Option<u32>,
}

impl StimTimer {
    /// The time at which the actuator was first seen running, if it runs.
    pub closed spec fn since(&self) -> Option<u32> {
        self.since
    }

    /// What is remembered after the actuator has been looked at at `now_ms`:
    /// nothing while it does not run, else the time at which it was first
    /// seen running.
    pub open spec fn noted(since: Option<u32>, stimulating: bool, now_ms: u32) -> Option<u32> {
        if !stimulating {
            None
        } else if since is Some {
            since
        } else {
            Some(now_ms)
        }
    }

    /// A timer that has not seen the actuator run.
    pub fn new() -> (timer: StimTimer)
        ensures
            timer.since() is None,
    {
        StimTimer { since: None }
    }

    /// Looks at the actuator at `now_ms` and tells for how many milliseconds
    /// it has been running, on the wrapping clock; nothing while it does not
    /// run.
    pub fn running_for(&mut self, stimulating: bool, now_ms: u32) -> (ms: Option<u32>)
        ensures
            final(self).since() == Self::noted(old(self).since(), stimulating, now_ms),
            ms == match final(self).since() {
                Some(start) => Some(elapsed(start, now_ms) as u32),
                None => None,
            },
    {
        if !stimulating {
            self.since = None;
            return None;
        }
        let start: u32 = match self.since {
            Some(start) => start,
            None => now_ms,
        };
        self.since = Some(start);
        Some(elapsed_ms(start, now_ms))
    }
}

/// The marker at the edge of the display follows the knob: a turn forward
/// moves it one slot on in the ring of six, a turn backward one slot back,
/// and inside a page it stays.
pub proof fn lemma_slot_follows_turns(position: MenuPosition)
    ensures
        !position.adjusting() ==> slot_of(position.forward()) == (slot_of(position) + 1) % 6,
        !position.adjusting() ==> slot_of(position.backward()) == (slot_of(position) + 5) % 6,
        position.adjusting() ==> slot_of(position.forward()) == slot_of(position) && slot_of(
            position.backward(),
        ) == slot_of(position),
{
}

} // verus!
