//! Settings and flags of the device, their bounded adjustment, and the
//! cooldown timer that the trigger arms.

use vstd::prelude::*;

verus! {

/// Highest output intensity the actuator accepts.
pub const MAX_INTENSITY: u8 = 20;

/// Ceiling of the area threshold.
pub const MAX_AREA: u32 = 10_000_000;

/// Amount by which one adjustment moves the area threshold.
pub const AREA_STEP: u32 = 10_000;

/// Ceiling of the value threshold.
pub const MAX_PEAK: u32 = 1_000_000;

/// Amount by which one adjustment moves the value threshold.
pub const PEAK_STEP: u32 = 1_000;

/// Amount by which one adjustment moves the cooldown, in milliseconds.
pub const COOLDOWN_STEP: u32 = 1_000;

/// Ceiling of the release-time threshold, in milliseconds.
pub const MAX_DURATION: u32 = 5_000;

/// Amount by which one adjustment moves the release-time threshold.
pub const DURATION_STEP: u32 = 25;

/// Milliseconds that pass from `since` to `now` on a clock that restarts
/// from zero after `u32::MAX`.
pub open spec fn elapsed(since: u32, now: u32) -> int {
    (now - since) % 0x1_0000_0000
}

/// A setting after one upward adjustment: it moves by `step`, stops at `max`,
/// and stays where it is once it has reached `max`.
pub open spec fn step_up(value: int, step: int, max: int) -> int {
    if value >= max {
        value
    } else if value + step > max {
        max
    } else {
        value + step
    }
}

/// A setting after one downward adjustment: it moves by `step` and stops at
/// zero.
pub open spec fn step_down(value: int, step: int) -> int {
    if value < step {
        0
    } else {
        value - step
    }
}

/// Lowering a setting undoes raising it wherever the step upward had room.
pub proof fn lemma_down_undoes_up(value: int, step: int, max: int)
    requires
        0 <= value,
        0 <= step,
        value + step <= max,
    ensures
        step_down(step_up(value, step, max), step) == value,
{
}

/// Computes [`elapsed`].
pub fn elapsed_ms(since: u32, now: u32) -> (ms: u32)
    ensures
        ms == elapsed(since, now),
{
    now.wrapping_sub(since)
}

/// Computes [`step_up`].
fn raised(value: u32, step: u32, max: u32) -> (r: u32)
    ensures
        r == step_up(value as int, step as int, max as int),
{
    if value >= max {
        value
    } else if max - value < step {
        max
    } else {
        value + step
    }
}

/// Timer armed by the most recent trigger.
pub struct Hysteresis {
    entry_time: u32,
}

impl Hysteresis {
    /// Timestamp of the most recent trigger.
    pub closed spec fn entry_time(&self) -> u32 {
        self.entry_time
    }

    /// Whether the cooldown runs at `now`: fewer than `cooldown` milliseconds
    /// have passed since the trigger.
    pub open spec fn active_at(&self, now: u32, cooldown: u32) -> bool {
        elapsed(self.entry_time(), now) < cooldown
    }

    /// The instant at which the cooldown ends, minus `now`, on the wrapping
    /// clock.
    pub open spec fn remaining_at(&self, now: u32, cooldown: u32) -> int {
        (self.entry_time() + cooldown - now) % 0x1_0000_0000
    }

    /// A timer whose trigger lies at time zero.
    pub fn new() -> (h: Hysteresis)
        ensures
            h.entry_time() == 0,
    {
        Hysteresis { entry_time: 0 }
    }

    /// Arms the timer: the trigger fired at `time`.
    pub fn enter(&mut self, time: u32)
        ensures
            final(self).entry_time() == time,
    {
        self.entry_time = time
    }

    /// Whether the cooldown runs at `time`.
    pub fn is_active(&self, time: u32, cooldown_time: u32) -> (active: bool)
        ensures
            active == self.active_at(time, cooldown_time),
    {
        elapsed_ms(self.entry_time, time) < cooldown_time
    }

    /// Time left until the cooldown ends. The value wraps like the clock does:
    /// once the cooldown has ended it is no longer a duration.
    pub fn remaining(&self, time: u32, cooldown_time: u32) -> (left: u32)
        ensures
            left == self.remaining_at(time, cooldown_time),
    {
        self.entry_time.wrapping_add(cooldown_time).wrapping_sub(time)
    }

    /// On a clock that has not wrapped since the trigger, the cooldown runs
    /// exactly until `cooldown` milliseconds after it.
    pub proof fn lemma_active_window(&self, now: u32, cooldown: u32)
        requires
            self.entry_time() <= now,
        ensures
            self.active_at(now, cooldown) <==> now < self.entry_time() + cooldown,
    {
    }

    /// While the cooldown runs, `remaining` is the part of it that has
    /// not passed yet.
    pub proof fn lemma_remaining_while_active(&self, now: u32, cooldown: u32)
        requires
            self.active_at(now, cooldown),
        ensures
            self.remaining_at(now, cooldown) == cooldown - elapsed(self.entry_time(), now),
            0 < self.remaining_at(now, cooldown) <= cooldown,
    {
    }
}

/// Settings and flags shared by the control loop, the menu and the display.
pub struct State {
    pub changed: bool,
    pub ble_connected: bool,
    pub ble_name: &'static str,
    pub running: bool,
    pub stimulating: bool,
    pub peak_area_threshold: u32,
    pub peak_value_thresh: u32,
    pub peak_release_time_thresh: u32,
    pub cooldown_time: u32,
    pub intensity: u8,
    pub hysteresis: Hysteresis,
    pub cur_time_ms: u32,
}

impl State {
    /// Every bounded setting lies within its bounds.
    pub open spec fn config_valid(&self) -> bool {
        &&& self.peak_area_threshold <= MAX_AREA
        &&& self.peak_value_thresh <= MAX_PEAK
        &&& self.peak_release_time_thresh <= MAX_DURATION
        &&& self.intensity <= MAX_INTENSITY
    }

    /// The intensity that is commanded in this state.
    pub open spec fn output(&self) -> u8 {
        if self.stimulating {
            self.intensity
        } else {
            0
        }
    }

    /// The state after the area threshold has been raised by one step.
    pub open spec fn after_area_up(self) -> State {
        State {
            peak_area_threshold: step_up(
                self.peak_area_threshold as int,
                AREA_STEP as int,
                MAX_AREA as int,
            ) as u32,
            ..self
        }
    }

    /// The state after the area threshold has been lowered by one step.
    pub open spec fn after_area_down(self) -> State {
        State {
            peak_area_threshold: step_down(self.peak_area_threshold as int, AREA_STEP as int) as u32,
            ..self
        }
    }

    /// The state after the value threshold has been raised by one step.
    pub open spec fn after_peak_up(self) -> State {
        State {
            peak_value_thresh: step_up(
                self.peak_value_thresh as int,
                PEAK_STEP as int,
                MAX_PEAK as int,
            ) as u32,
            ..self
        }
    }

    /// The state after the value threshold has been lowered by one step.
    pub open spec fn after_peak_down(self) -> State {
        State {
            peak_value_thresh: step_down(self.peak_value_thresh as int, PEAK_STEP as int) as u32,
            ..self
        }
    }

    /// The state after the release time has been raised by one step.
    pub open spec fn after_duration_up(self) -> State {
        State {
            peak_release_time_thresh: step_up(
                self.peak_release_time_thresh as int,
                DURATION_STEP as int,
                MAX_DURATION as int,
            ) as u32,
            ..self
        }
    }

    /// The state after the release time has been lowered by one step.
    pub open spec fn after_duration_down(self) -> State {
        State {
            peak_release_time_thresh: step_down(
                self.peak_release_time_thresh as int,
                DURATION_STEP as int,
            ) as u32,
            ..self
        }
    }

    /// The state after the cooldown has been raised by one step. The cooldown
    /// has no ceiling of its own: it stops at `u32::MAX`.
    pub open spec fn after_cooldown_up(self) -> State {
        State {
            cooldown_time: step_up(
                self.cooldown_time as int,
                COOLDOWN_STEP as int,
                u32::MAX as int,
            ) as u32,
            ..self
        }
    }

    /// The state after the cooldown has been lowered by one step.
    pub open spec fn after_cooldown_down(self) -> State {
        State {
            cooldown_time: step_down(self.cooldown_time as int, COOLDOWN_STEP as int) as u32,
            ..self
        }
    }

    /// The state after the intensity has been raised by one.
    pub open spec fn after_intensity_up(self) -> State {
        State { intensity: step_up(self.intensity as int, 1, MAX_INTENSITY as int) as u8, ..self }
    }

    /// The state after the intensity has been lowered by one.
    pub open spec fn after_intensity_down(self) -> State {
        State { intensity: step_down(self.intensity as int, 1) as u8, ..self }
    }

    /// The state after automatic control has been switched over: stimulation
    /// follows it.
    pub open spec fn after_toggle(self) -> State {
        State { running: !self.running, stimulating: !self.running, ..self }
    }

    /// The state after stimulation has been stopped: nothing changes where it
    /// was off already, else the display is asked to draw again.
    pub open spec fn after_stop_stim(self) -> State {
        if self.stimulating {
            State { stimulating: false, changed: true, ..self }
        } else {
            self
        }
    }

    /// The state after stimulation has been started: nothing changes where it
    /// was on already, else the display is asked to draw again.
    pub open spec fn after_start_stim(self) -> State {
        if self.stimulating {
            self
        } else {
            State { stimulating: true, changed: true, ..self }
        }
    }

    /// The state after the user has asked to stop stimulation, which counts
    /// only while automatic control is off.
    pub open spec fn after_stop_stim_manual(self) -> State {
        if self.running {
            self
        } else {
            self.after_stop_stim()
        }
    }

    /// The state after the user has asked to start stimulation, which counts
    /// only while automatic control is off.
    pub open spec fn after_start_stim_manual(self) -> State {
        if self.running {
            self
        } else {
            self.after_start_stim()
        }
    }

    /// No adjustment takes a bounded setting out of its bounds.
    pub proof fn lemma_adjustments_keep_bounds(self)
        requires
            self.config_valid(),
        ensures
            self.after_area_up().config_valid(),
            self.after_area_down().config_valid(),
            self.after_peak_up().config_valid(),
            self.after_peak_down().config_valid(),
            self.after_duration_up().config_valid(),
            self.after_duration_down().config_valid(),
            self.after_cooldown_up().config_valid(),
            self.after_cooldown_down().config_valid(),
            self.after_intensity_up().config_valid(),
            self.after_intensity_down().config_valid(),
    {
    }

    /// The settings the device starts with.
    pub fn new() -> (s: State)
        ensures
            s.changed,
            !s.ble_connected,
            s.ble_name@ == "n/a"@,
            !s.running,
            !s.stimulating,
            s.peak_area_threshold == 200_000,
            s.peak_value_thresh == 15_000,
            s.peak_release_time_thresh == 500,
            s.cooldown_time == 10_000,
            s.intensity == 10,
            s.hysteresis.entry_time() == 0,
            s.cur_time_ms == 0,
            s.config_valid(),
    {
        State {
            changed: true,
            ble_connected: false,
            ble_name: "n/a",
            running: false,
            stimulating: false,
            peak_area_threshold: 200_000,
            peak_value_thresh: 15_000,
            peak_release_time_thresh: 500,
            cooldown_time: 10_000,
            intensity: 10,
            hysteresis: Hysteresis::new(),
            cur_time_ms: 0,
        }
    }

    /// Reports whether the display has to be drawn again, and clears the
    /// request.
    pub fn has_changed(&mut self) -> (redraw: bool)
        ensures
            redraw == (old(self).changed || (old(self).running && !old(self).stimulating)),
            *final(self) == (State { changed: false, ..*old(self) }),
    {
        let changed = self.changed;
        self.changed = false;
        changed || (self.running && !self.stimulating)
    }

    /// Takes over whether the actuator is connected, and asks for a new frame
    /// where that is news.
    pub fn set_ble_connected(&mut self, connected: bool)
        ensures
            connected == old(self).ble_connected ==> *final(self) == *old(self),
            connected != old(self).ble_connected ==> *final(self) == (State {
                ble_connected: connected,
                changed: true,
                ..*old(self)
            }),
    {
        if connected == self.ble_connected {
            return ;
        }
        self.ble_connected = connected;
        self.changed = true;
    }

    /// Takes over the actuator's name, and asks for a new frame where that is
    /// news.
    pub fn set_ble_name(&mut self, name: &'static str)
        ensures
            name@ == old(self).ble_name@ ==> *final(self) == *old(self),
            name@ != old(self).ble_name@ ==> *final(self) == (State {
                ble_name: name,
                changed: true,
                ..*old(self)
            }),
    {
        if same_text(name, self.ble_name) {
            return ;
        }
        self.ble_name = name;
        self.changed = true;
    }

    pub fn area_up(&mut self)
        ensures
            *final(self) == old(self).after_area_up(),
    {
        self.peak_area_threshold = raised(self.peak_area_threshold, AREA_STEP, MAX_AREA);
    }

    pub fn area_down(&mut self)
        ensures
            *final(self) == old(self).after_area_down(),
    {
        self.peak_area_threshold = self.peak_area_threshold.saturating_sub(AREA_STEP);
    }

    pub fn peak_up(&mut self)
        ensures
            *final(self) == old(self).after_peak_up(),
    {
        self.peak_value_thresh = raised(self.peak_value_thresh, PEAK_STEP, MAX_PEAK);
    }

    pub fn peak_down(&mut self)
        ensures
            *final(self) == old(self).after_peak_down(),
    {
        self.peak_value_thresh = self.peak_value_thresh.saturating_sub(PEAK_STEP);
    }

    pub fn duration_up(&mut self)
        ensures
            *final(self) == old(self).after_duration_up(),
    {
        self.peak_release_time_thresh = raised(
            self.peak_release_time_thresh,
            DURATION_STEP,
            MAX_DURATION,
        );
    }

    pub fn duration_down(&mut self)
        ensures
            *final(self) == old(self).after_duration_down(),
    {
        self.peak_release_time_thresh = self.peak_release_time_thresh.saturating_sub(
            DURATION_STEP,
        );
    }

    pub fn cooldown_up(&mut self)
        ensures
            *final(self) == old(self).after_cooldown_up(),
    {
        self.cooldown_time = self.cooldown_time.saturating_add(COOLDOWN_STEP);
    }

    pub fn cooldown_down(&mut self)
        ensures
            *final(self) == old(self).after_cooldown_down(),
    {
        self.cooldown_time = self.cooldown_time.saturating_sub(COOLDOWN_STEP);
    }

    pub fn toggle(&mut self)
        ensures
            *final(self) == old(self).after_toggle(),
    {
        self.running = !self.running;
        self.stimulating = self.running;
    }

    pub fn stop_stim(&mut self)
        ensures
            *final(self) == old(self).after_stop_stim(),
    {
        if !self.stimulating {
            return ;
        }
        self.stimulating = false;
        self.changed = true;
    }

    pub fn start_stim(&mut self)
        ensures
            *final(self) == old(self).after_start_stim(),
    {
        if self.stimulating {
            return ;
        }
        self.stimulating = true;
        self.changed = true;
    }

    pub fn stop_stim_manual(&mut self)
        ensures
            *final(self) == old(self).after_stop_stim_manual(),
    {
        if !self.running {
            self.stop_stim();
        }
    }

    pub fn start_stim_manual(&mut self)
        ensures
            *final(self) == old(self).after_start_stim_manual(),
    {
        if !self.running {
            self.start_stim();
        }
    }

    pub fn intensity_up(&mut self)
        ensures
            *final(self) == old(self).after_intensity_up(),
    {
        if self.intensity < MAX_INTENSITY {
            self.intensity += 1;
        }
    }

    pub fn intensity_down(&mut self)
        ensures
            *final(self) == old(self).after_intensity_down(),
    {
        if self.intensity == 0 {
            return ;
        }
        self.intensity -= 1;
    }

    /// The intensity to command: the configured one while stimulating, else
    /// zero.
    pub fn get_cur_intensity(&self) -> (intensity: u8)
        ensures
            intensity == self.output(),
    {
        if !self.stimulating {
            return 0;
        }
        return self.intensity;
    }
}

/// Compares two strings character by character.
pub fn same_text(a: &str, b: &str) -> (same: bool)
    ensures
        same == (a@ == b@),
{
    let x = a.as_bytes();
    let y = b.as_bytes();
    if x.len() != y.len() {
        return false;
    }
    let mut i: usize = 0;
    while i < x.len()
        invariant
            i <= x.len(),
            x.len() == y.len(),
            x@ == vstd::utf8::encode_utf8(a@),
            y@ == vstd::utf8::encode_utf8(b@),
            forall|j: int| 0 <= j < i ==> x@[j] == y@[j],
        decreases x.len() - i,
    {
        if x[i] != y[i] {
            return false;
        }
        i += 1;
    }
    proof {
        assert(x@ =~= y@);
        vstd::utf8::encode_utf8_decode_utf8(a@);
        vstd::utf8::encode_utf8_decode_utf8(b@);
    }
    true
}

} // verus!
