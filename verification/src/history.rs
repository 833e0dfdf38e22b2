//! Peak detection: the decaying floor under the averaged signal, the state
//! machine that accumulates the area of a peak, and the trigger.

use vstd::prelude::*;
use crate::avg::{lemma_mean_bound, mean, pushed, RunningAverage};
use crate::state::{elapsed, elapsed_ms, State};

verus! {

/// The peak detector's state with areas of any size.
pub enum PeakModel {
    Idle,
    InPeak { area: nat },
    Exiting { peak_area: nat, exiting_area: nat, exit_time: u32 },
}

impl PeakModel {
    /// Everything accumulated in the current episode; zero outside one.
    pub open spec fn total(self) -> nat {
        match self {
            PeakModel::Idle => 0,
            PeakModel::InPeak { area } => area,
            PeakModel::Exiting { peak_area, exiting_area, .. } => peak_area + exiting_area,
        }
    }

    /// What is accumulated fits in 32 bits: a [`PeakState`] can hold the
    /// state, and its area can be told as a `u32`.
    pub open spec fn fits(self) -> bool {
        self.total() <= u32::MAX
    }
}

/// One sample as the detector sees it: the corrected value and the time at
/// which it was taken.
pub struct Tick {
    pub cur: nat,
    pub time: u32,
}

/// The thresholds the detector compares against.
pub struct Thresholds {
    pub value: nat,
    pub area: nat,
    pub release: nat,
}

/// The detector's next state, and whether the trigger fires, when it sees the
/// corrected sample `cur` at `time`.
///
/// The area threshold is compared with what was accumulated before `cur`, so
/// the trigger fires one sample after the one that carried the area over the
/// threshold.
pub open spec fn transition(m: PeakModel, cur: nat, time: u32, th: Thresholds) -> (
    PeakModel,
    bool,
) {
    match m {
        PeakModel::Idle => if cur >= th.value {
            (PeakModel::InPeak { area: cur }, false)
        } else {
            (PeakModel::Idle, false)
        },
        PeakModel::InPeak { area } => if area > th.area {
            (PeakModel::Idle, true)
        } else if cur >= th.value {
            (PeakModel::InPeak { area: area + cur }, false)
        } else {
            (PeakModel::Exiting { peak_area: area, exiting_area: cur, exit_time: time }, false)
        },
        PeakModel::Exiting { peak_area, exiting_area, exit_time } => if cur >= th.value {
            (PeakModel::InPeak { area: peak_area + exiting_area + cur }, false)
        } else if elapsed(exit_time, time) >= th.release {
            (PeakModel::Idle, false)
        } else {
            (PeakModel::Exiting { peak_area, exiting_area: exiting_area + cur, exit_time }, false)
        },
    }
}

/// The detector's state after it has seen `ticks` one by one, first entry
/// first.
pub open spec fn after(m: PeakModel, ticks: Seq<Tick>, th: Thresholds) -> PeakModel
    decreases ticks.len(),
{
    if ticks.len() == 0 {
        m
    } else {
        transition(after(m, ticks.drop_last(), th), ticks.last().cur, ticks.last().time, th).0
    }
}

/// Whether the trigger fires at any of `ticks`.
pub open spec fn fires_during(m: PeakModel, ticks: Seq<Tick>, th: Thresholds) -> bool
    decreases ticks.len(),
{
    if ticks.len() == 0 {
        false
    } else {
        fires_during(m, ticks.drop_last(), th) || transition(
            after(m, ticks.drop_last(), th),
            ticks.last().cur,
            ticks.last().time,
            th,
        ).1
    }
}

/// An idle detector that only sees samples below the value threshold stays
/// idle, accumulates nothing and never fires, however long that goes on.
pub proof fn lemma_quiet_signal_stays_idle(ticks: Seq<Tick>, th: Thresholds)
    requires
        forall|i: int| 0 <= i < ticks.len() ==> ticks[i].cur < th.value,
    ensures
        after(PeakModel::Idle, ticks, th) == PeakModel::Idle,
        after(PeakModel::Idle, ticks, th).total() == 0,
        !fires_during(PeakModel::Idle, ticks, th),
    decreases ticks.len(),
{
    if ticks.len() > 0 {
        lemma_quiet_signal_stays_idle(ticks.drop_last(), th);
    }
}

/// Within an episode nothing is lost: unless a step ends the episode, what
/// is accumulated after it is what was accumulated before plus the sample.
pub proof fn lemma_area_accumulates(m: PeakModel, cur: nat, time: u32, th: Thresholds)
    ensures
        transition(m, cur, time, th).0 != PeakModel::Idle ==> transition(m, cur, time, th).0.total()
            == m.total() + cur,
        transition(m, cur, time, th).1 ==> transition(m, cur, time, th).0 == PeakModel::Idle,
{
}

/// The trigger fires exactly when a step finds the detector in a peak whose
/// area, as accumulated before the step, lies over the area threshold.
pub proof fn lemma_fires_over_threshold(m: PeakModel, cur: nat, time: u32, th: Thresholds)
    ensures
        transition(m, cur, time, th).1 <==> (m matches PeakModel::InPeak { area } && area > th.area),
{
}

/// A step can be held wherever there is room for the sample on top of
/// everything accumulated so far.
pub proof fn lemma_room_suffices(m: PeakModel, cur: nat, time: u32, th: Thresholds)
    requires
        m.total() + cur <= u32::MAX,
    ensures
        transition(m, cur, time, th).0.fits(),
{
}

/// The floor after the sample `sample`: the first sample becomes the floor,
/// every later one pulls it a two-hundredth of the way towards itself.
/// A floor of `u32::MAX` stands for "no sample yet".
pub open spec fn decayed(floor: u32, sample: u32) -> nat {
    let base = if floor == u32::MAX {
        sample
    } else {
        floor
    };
    ((base * 199 + sample) / 200) as nat
}

/// The averaged signal with the floor taken off, never below zero.
pub open spec fn corrected(window: Seq<u32>, floor: u32) -> nat {
    if mean(window) >= floor {
        (mean(window) - floor) as nat
    } else {
        0
    }
}

/// A corrected sample is no larger than the largest reading.
pub proof fn lemma_corrected_bound(window: Seq<u32>, floor: u32)
    ensures
        corrected(window, floor) <= u32::MAX,
{
    lemma_mean_bound(window);
}

/// Computes [`decayed`].
pub fn decay_floor(floor: u32, sample: u32) -> (next: u32)
    ensures
        next == decayed(floor, sample),
{
    let base: u64 = if floor == u32::MAX {
        sample as u64
    } else {
        floor as u64
    };
    ((base * 199 + sample as u64) / 200) as u32
}

/// State of the peak detector.
#[derive(Clone, Copy, Debug, PartialEq, Eq, Structural)]
pub enum PeakState {
    Idle,
    InPeak { area: u32 },
    Exiting { peak_area: u32, exiting_area: u32, exit_time: u32 },
}

impl View for PeakState {
    type V = PeakModel;

    open spec fn view(&self) -> PeakModel {
        match *self {
            PeakState::Idle => PeakModel::Idle,
            PeakState::InPeak { area } => PeakModel::InPeak { area: area as nat },
            PeakState::Exiting { peak_area, exiting_area, exit_time } => PeakModel::Exiting {
                peak_area: peak_area as nat,
                exiting_area: exiting_area as nat,
                exit_time,
            },
        }
    }
}

impl PeakState {
    /// The thresholds as the detector's model takes them.
    pub open spec fn thresholds(value_thresh: u32, area_thresh: u32, release: u32) -> Thresholds {
        Thresholds { value: value_thresh as nat, area: area_thresh as nat, release: release as nat }
    }

    /// Whether the state that follows on the sample `cur` can be held: what
    /// it has accumulated does not exceed `u32::MAX`.
    pub fn step_fits(
        self,
        cur: u32,
        time: u32,
        value_thresh: u32,
        area_thresh: u32,
        release: u32,
    ) -> (ok: bool)
        ensures
            ok == transition(
                self@,
                cur as nat,
                time,
                Self::thresholds(value_thresh, area_thresh, release),
            ).0.fits(),
    {
        match self {
            PeakState::Idle => true,
            PeakState::InPeak { area } => area > area_thresh || area <= u32::MAX - cur,
            PeakState::Exiting { peak_area, exiting_area, exit_time } => {
                let ends = cur < value_thresh && elapsed_ms(exit_time, time) >= release;
                ends || peak_area as u64 + exiting_area as u64 + cur as u64 <= u32::MAX as u64
            },
        }
    }

    /// Advances the detector by one corrected sample. Returns the next state
    /// and whether the trigger fires.
    pub fn step(
        self,
        cur: u32,
        time: u32,
        value_thresh: u32,
        area_thresh: u32,
        release: u32,
    ) -> (next: (PeakState, bool))
        requires
            transition(
                self@,
                cur as nat,
                time,
                Self::thresholds(value_thresh, area_thresh, release),
            ).0.fits(),
        ensures
            next.0@ == transition(
                self@,
                cur as nat,
                time,
                Self::thresholds(value_thresh, area_thresh, release),
            ).0,
            next.1 == transition(
                self@,
                cur as nat,
                time,
                Self::thresholds(value_thresh, area_thresh, release),
            ).1,
    {
        match self {
            PeakState::Idle => {
                if cur >= value_thresh {
                    (PeakState::InPeak { area: cur }, false)
                } else {
                    (PeakState::Idle, false)
                }
            },
            PeakState::InPeak { area } => {
                if area > area_thresh {
                    (PeakState::Idle, true)
                } else if cur >= value_thresh {
                    (PeakState::InPeak { area: area + cur }, false)
                } else {
                    (PeakState::Exiting { peak_area: area, exiting_area: cur, exit_time: time }, false)
                }
            },
            PeakState::Exiting { peak_area, exiting_area, exit_time } => {
                if cur >= value_thresh {
                    (PeakState::InPeak { area: peak_area + exiting_area + cur }, false)
                } else if elapsed_ms(exit_time, time) >= release {
                    (PeakState::Idle, false)
                } else {
                    (
                        PeakState::Exiting {
                            peak_area,
                            exiting_area: exiting_area + cur,
                            exit_time,
                        },
                        false,
                    )
                }
            },
        }
    }

}

/// What the control loop does with the stimulation after a sample.
#[derive(Clone, Copy, Debug, PartialEq, Eq, Structural)]
pub enum HistoryResult {
    Stop,
    Resume,
}

/// Baseline filter, decaying floor and peak detector over the stream of
/// sensor readings.
pub struct Nogasm<const AVG_SAMPLES: usize> {
    avg: RunningAverage<AVG_SAMPLES>,
    pub min: u32,
    pub min_decay: u32,
    state: PeakState,
}

impl<const AVG_SAMPLES: usize> Nogasm<AVG_SAMPLES> {
    /// The baseline filter is consistent, and what the detector has
    /// accumulated fits in 32 bits.
    pub closed spec fn wf(&self) -> bool {
        &&& self.avg.wf()
        &&& self.state@.fits()
    }

    /// A consistent detector holds an area that fits in 32 bits.
    pub proof fn lemma_wf_fits(&self)
        requires
            self.wf(),
        ensures
            self.peak()@.fits(),
    {
    }

    /// The readings the baseline filter holds, oldest first.
    pub closed spec fn window(&self) -> Seq<u32> {
        self.avg@
    }

    /// The value of the public field `min`: the smallest reading since the
    /// last trigger, `u32::MAX` where there was none.
    pub closed spec fn low(&self) -> u32 {
        self.min
    }

    /// The value of the public field `min_decay`: the decaying floor,
    /// `u32::MAX` before the first reading.
    pub closed spec fn floor(&self) -> u32 {
        self.min_decay
    }

    /// The peak detector's state.
    pub closed spec fn peak(&self) -> PeakState {
        self.state
    }

    /// The thresholds that `state` sets for the detector.
    pub open spec fn thresholds_of(state: State) -> Thresholds {
        PeakState::thresholds(
            state.peak_value_thresh,
            state.peak_area_threshold,
            state.peak_release_time_thresh,
        )
    }

    /// The corrected sample that the detector sees when the reading `val`
    /// comes in. It fits in 32 bits, as [`lemma_corrected_bound`] shows.
    pub open spec fn sample_for(&self, val: u32) -> u32 {
        corrected(
            pushed(self.window(), AVG_SAMPLES as nat, val),
            decayed(self.floor(), val) as u32,
        ) as u32
    }

    /// The detector's next state, and whether the trigger fires, when the
    /// reading `val` comes in at `time`.
    pub open spec fn outcome(&self, val: u32, time: u32, state: State) -> (PeakModel, bool) {
        transition(self.peak()@, self.sample_for(val) as nat, time, Self::thresholds_of(state))
    }

    /// A detector that has seen no reading yet.
    pub fn new() -> (n: Nogasm<AVG_SAMPLES>)
        ensures
            0 < AVG_SAMPLES <= u32::MAX ==> n.wf(),
            n.window() == Seq::<u32>::empty(),
            n.low() == u32::MAX,
            n.floor() == u32::MAX,
            n.peak() == PeakState::Idle,
    {
        Nogasm {
            avg: RunningAverage::new(),
            min: u32::MAX,
            min_decay: u32::MAX,
            state: PeakState::Idle,
        }
    }

    /// Whether [`Nogasm::add`] can take the reading `val` at `time`: the
    /// area that the detector has accumulated after it fits in 32 bits.
    pub fn accepts(&self, val: u32, time: u32, state: &State) -> (ok: bool)
        requires
            self.wf(),
        ensures
            ok == self.outcome(val, time, *state).0.fits(),
    {
        let floor: u32 = decay_floor(self.min_decay, val);
        let cur: u32 = self.avg.get_after(val).saturating_sub(floor);
        self.state.step_fits(
            cur,
            time,
            state.peak_value_thresh,
            state.peak_area_threshold,
            state.peak_release_time_thresh,
        )
    }

    /// How taking in the reading `val` at `time` leads from `(h0, s0)` to
    /// `(h1, s1)` and the verdict `res`.
    ///
    /// The reading enters the baseline filter and pulls the floor; the
    /// detector advances on the corrected sample. Where the trigger fires the
    /// minimum is forgotten and the hysteresis in the settings is armed at
    /// `time`;
    /// else the minimum takes the reading in and the settings stay. The
    /// verdict is to stop while the cooldown runs at `time`.
    pub open spec fn added(
        h0: Self,
        s0: State,
        val: u32,
        time: u32,
        h1: Self,
        s1: State,
        res: HistoryResult,
    ) -> bool {
        let (next, fired) = h0.outcome(val, time, s0);
        &&& h1.window() == pushed(h0.window(), AVG_SAMPLES as nat, val)
        &&& h1.floor() == decayed(h0.floor(), val)
        &&& h1.peak()@ == next
        &&& h1.low() == if fired {
            u32::MAX
        } else if val < h0.low() {
            val
        } else {
            h0.low()
        }
        &&& s1 == (State { hysteresis: s1.hysteresis, ..s0 })
        &&& s1.hysteresis.entry_time() == if fired {
            time
        } else {
            s0.hysteresis.entry_time()
        }
        &&& !fired ==> s1 == s0
        &&& res == if s1.hysteresis.active_at(time, s0.cooldown_time) {
            HistoryResult::Stop
        } else {
            HistoryResult::Resume
        }
    }

    /// Takes in one reading, as [`Nogasm::added`] says.
    pub fn add(&mut self, val: u32, time: u32, state: &mut State) -> (res: HistoryResult)
        requires
            old(self).wf(),
            old(self).outcome(val, time, *old(state)).0.fits(),
        ensures
            final(self).wf(),
            final(self).peak()@.fits(),
            Self::added(*old(self), *old(state), val, time, *final(self), *final(state), res),
    {
        self.avg.add(val);
        if self.min > val {
            self.min = val;
        }
        self.min_decay = decay_floor(self.min_decay, val);
        let cur: u32 = self.get_current_value();
        let (next, fired) = self.state.step(
            cur,
            time,
            state.peak_value_thresh,
            state.peak_area_threshold,
            state.peak_release_time_thresh,
        );
        if fired {
            self.min = u32::MAX;
            state.hysteresis.enter(time);
        }
        self.state = next;
        if state.hysteresis.is_active(time, state.cooldown_time) {
            HistoryResult::Stop
        } else {
            HistoryResult::Resume
        }
    }

    /// The corrected sample: the averaged signal above the floor.
    pub fn get_current_value(&self) -> (cur: u32)
        requires
            self.wf(),
        ensures
            cur == corrected(self.window(), self.floor()),
    {
        self.avg.get().saturating_sub(self.min_decay)
    }

    /// Everything accumulated in the current episode, the dip included; zero
    /// outside an episode.
    pub fn get_area(&self) -> (area: u32)
        requires
            self.peak()@.fits(),
        ensures
            area == self.peak()@.total(),
    {
        match self.state {
            PeakState::InPeak { area } => area,
            PeakState::Exiting { peak_area, exiting_area, exit_time: _ } => peak_area
                + exiting_area,
            _ => 0,
        }
    }

    /// Reads the public field `min`.
    pub fn get_min(&self) -> (min: u32)
        ensures
            min == self.low(),
    {
        self.min
    }

    /// Reads the public field `min_decay`.
    pub fn get_min_decay(&self) -> (floor: u32)
        ensures
            floor == self.floor(),
    {
        self.min_decay
    }

    /// The peak detector's state.
    pub fn peak_state(&self) -> (state: PeakState)
        ensures
            state == self.peak(),
    {
        self.state
    }
}

} // verus!
