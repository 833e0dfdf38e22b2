//! The control step: what one turn of the knob and one sensor reading do to
//! the menu, the settings and the commanded intensity.

use vstd::prelude::*;
use crate::gpio::{DelaySource, GpioInput, GpioOutput, LineOp};
use crate::h710::{transferred, Mode, H710, MAX_SAMPLE};
use crate::history::{HistoryResult, Nogasm};
use crate::menu::Menu;
use crate::state::{State, MAX_INTENSITY};

verus! {

/// A turn of the knob as the encoder reports it.
#[derive(Clone, Copy, Debug, PartialEq, Eq, Structural)]
pub enum Rotation {
    Still,
    Clockwise,
    Anticlockwise,
}

impl Rotation {
    /// What a slot for the latest turn holds after the encoder has reported
    /// `seen`: a turn replaces what was there, no turn leaves it.
    pub open spec fn merged(self, seen: Rotation) -> Rotation {
        match seen {
            Rotation::Still => self,
            turn => turn,
        }
    }

    /// Computes [`Rotation::merged`].
    pub fn merge(self, seen: Rotation) -> (slot: Rotation)
        ensures
            slot == self.merged(seen),
    {
        match seen {
            Rotation::Still => self,
            turn => turn,
        }
    }
}

/// Hands one turn of the knob to the menu.
pub fn turn(menu: &mut Menu, state: &mut State, rotation: Rotation)
    ensures
        rotation == Rotation::Still ==> *final(menu) == *old(menu) && *final(state) == *old(state),
        rotation == Rotation::Clockwise ==> final(menu).position == old(menu).position.forward()
            && *final(state) == old(menu).position.raise(*old(state)),
        rotation == Rotation::Anticlockwise ==> final(menu).position == old(
            menu,
        ).position.backward() && *final(state) == old(menu).position.lower(*old(state)),
{
    match rotation {
        Rotation::Clockwise => {
            menu.foward(state);
        },
        Rotation::Anticlockwise => {
            menu.backward(state);
        },
        Rotation::Still => {},
    }
}

/// The settings after the verdict `res` has been carried out.
pub open spec fn carried_out(res: HistoryResult, state: State) -> State {
    match res {
        HistoryResult::Stop => state.after_stop_stim(),
        HistoryResult::Resume => state.after_start_stim(),
    }
}

/// How one control step for the reading `sample` at `now_ms` leads from
/// `(h0, s0)` to `(h1, s1)` and the answer `out`.
///
/// While automatic control is off, and where there is no reading, nothing
/// changes and the answer is the intensity commanded so far. A reading that
/// the detector cannot hold changes nothing either, and there is no answer.
/// Any other reading is taken in at `now_ms`, stimulation is stopped while
/// the cooldown runs and started while it does not, and the answer is the
/// intensity commanded after that.
pub open spec fn stepped<const N: usize>(
    h0: Nogasm<N>,
    s0: State,
    sample: Option<u32>,
    now_ms: u32,
    h1: Nogasm<N>,
    s1: State,
    out: Option<u8>,
) -> bool {
    if s0.running && sample is Some {
        let val = sample->0;
        if h0.outcome(val, now_ms, s0).0.fits() {
            let mid = State { hysteresis: s1.hysteresis, ..s0 };
            let res = if mid.hysteresis.active_at(now_ms, s0.cooldown_time) {
                HistoryResult::Stop
            } else {
                HistoryResult::Resume
            };
            &&& Nogasm::added(h0, s0, val, now_ms, h1, mid, res)
            &&& s1 == carried_out(res, mid)
            &&& out == Some(s1.output())
        } else {
            h1 == h0 && s1 == s0 && out is None
        }
    } else {
        h1 == h0 && s1 == s0 && out == Some(s0.output())
    }
}

/// One control step for a reading that has been taken already, if any.
pub fn step<const N: usize>(
    history: &mut Nogasm<N>,
    state: &mut State,
    sample: Option<u32>,
    now_ms: u32,
) -> (out: Option<u8>)
    requires
        old(history).wf(),
    ensures
        final(history).wf(),
        final(history).peak()@.fits(),
        stepped(*old(history), *old(state), sample, now_ms, *final(history), *final(state), out),
        old(state).intensity <= MAX_INTENSITY ==> (out matches Some(i) ==> i <= MAX_INTENSITY),
{
    proof {
        history.lemma_wf_fits();
    }
    if !state.running {
        return Some(state.get_cur_intensity());
    }
    match sample {
        Some(val) => {
            if !history.accepts(val, now_ms, state) {
                return None;
            }
            let res = history.add(val, now_ms, state);
            match res {
                HistoryResult::Stop => {
                    state.stop_stim();
                },
                HistoryResult::Resume => {
                    state.start_stim();
                },
            }
            Some(state.get_cur_intensity())
        },
        None => Some(state.get_cur_intensity()),
    }
}

/// How a control step comes by its reading. While automatic control is off
/// the sensor is left alone and there is no reading. Else the sensor is asked
/// whether a conversion is complete: where it is not, there is no reading;
/// where it is, one transfer is made.
pub open spec fn sensed(
    running: bool,
    before: Seq<LineOp>,
    after: Seq<LineOp>,
    mode: Mode,
    sample: Option<u32>,
) -> bool {
    if running {
        ||| after == before.push(LineOp::Probe { low: false }) && sample is None
        ||| transferred(before.push(LineOp::Probe { low: true }), after, mode, sample)
    } else {
        after == before && sample is None
    }
}

/// Takes the reading for a control step, as [`sensed`] says.
pub fn sense<DataPin, ClkPin, Delay>(
    sensor: &mut H710<DataPin, ClkPin, Delay>,
    state: &State,
) -> (sample: Option<u32>) where DataPin: GpioInput, ClkPin: GpioOutput, Delay: DelaySource
    ensures
        final(sensor).mode() == old(sensor).mode(),
        sensed(
            state.running,
            old(sensor).trace(),
            final(sensor).trace(),
            old(sensor).mode(),
            sample,
        ),
        sample matches Some(v) ==> v <= MAX_SAMPLE,
{
    if state.running && sensor.is_ready() {
        sensor.read()
    } else {
        None
    }
}

/// One control step at `now_ms`: takes a reading as [`sense`] does and lets
/// [`step`] take it in. Returns the intensity to command, or nothing where
/// the reading could not be held.
pub fn tick<DataPin, ClkPin, Delay, const N: usize>(
    sensor: &mut H710<DataPin, ClkPin, Delay>,
    history: &mut Nogasm<N>,
    state: &mut State,
    now_ms: u32,
) -> (out: Option<u8>) where DataPin: GpioInput, ClkPin: GpioOutput, Delay: DelaySource
    requires
        old(history).wf(),
    ensures
        final(history).wf(),
        final(history).peak()@.fits(),
        final(sensor).mode() == old(sensor).mode(),
        exists|sample: Option<u32>|
            {
                &&& #[trigger] sensed(
                    old(state).running,
                    old(sensor).trace(),
                    final(sensor).trace(),
                    old(sensor).mode(),
                    sample,
                )
                &&& stepped(
                    *old(history),
                    *old(state),
                    sample,
                    now_ms,
                    *final(history),
                    *final(state),
                    out,
                )
            },
        old(state).intensity <= MAX_INTENSITY ==> (out matches Some(i) ==> i <= MAX_INTENSITY),
{
    let sample = sense(sensor, state);
    step(history, state, sample, now_ms)
}

} // verus!
