//! The push button of the knob, debounced in time.

use vstd::prelude::*;
use crate::gpio::{GpioInput, Watched};

verus! {

/// What a debounced switch remembers between polls.
pub struct SwitchModel {
    /// The level last taken over: `true` for pressed.
    pub pressed: bool,
    /// The time after which the level is looked at again, in microseconds.
    pub next_check: u64,
    /// For how long a change of level keeps further changes from counting.
    pub debounce_us: u64,
}

impl SwitchModel {
    /// One poll at `now_us` that finds the level `pressed`. A level counts
    /// only after `next_check` and only where it differs from the one taken
    /// over last; it is then taken over and the next look is put off by
    /// `debounce_us`. The poll reports a click where the level that counts is
    /// "pressed".
    pub open spec fn poll(self, now_us: u64, pressed: bool) -> (bool, SwitchModel) {
        if self.next_check < now_us && pressed != self.pressed {
            (
                pressed,
                SwitchModel {
                    pressed,
                    next_check: (now_us + self.debounce_us) as u64,
                    debounce_us: self.debounce_us,
                },
            )
        } else {
            (false, self)
        }
    }

    /// One press gives one click: right after a click no poll reports
    /// another, whatever level it finds. A release has to be taken over first.
    pub proof fn lemma_no_click_while_held(self, now_us: u64, later_us: u64, pressed: bool)
        requires
            self.poll(now_us, true).0,
        ensures
            !self.poll(now_us, true).1.poll(later_us, pressed).0,
    {
    }

    /// While the switch settles, nothing counts: a poll that comes no later
    /// than `next_check` reports no click and changes nothing.
    pub proof fn lemma_settling_is_ignored(self, now_us: u64, pressed: bool)
        requires
            now_us <= self.next_check,
        ensures
            self.poll(now_us, pressed) == (false, self),
    {
    }
}

/// A push button that is read through a pin and debounced in time.
pub struct DebouncedSwitch<PIN> {
    pin: Watched<PIN>,
    debounce_us: u64,
    next_check: u64,
    last_val: bool,
}

impl<PIN> View for DebouncedSwitch<PIN> {
    type V = SwitchModel;

    closed spec fn view(&self) -> SwitchModel {
        SwitchModel {
            pressed: self.last_val,
            next_check: self.next_check,
            debounce_us: self.debounce_us,
        }
    }
}

impl<SWITCH> DebouncedSwitch<SWITCH> where SWITCH: GpioInput {
    /// What the reads of the pin have found so far, in their order: `true`
    /// for a pin that was low, which is a pressed switch. It is the record
    /// that the [`Watched`] pin keeps.
    pub closed spec fn samples(&self) -> Seq<bool> {
        self.pin.seen()
    }

    /// A released switch on `pin` that lets `debounce_us` pass between two
    /// changes.
    pub fn new(pin: SWITCH, debounce_us: u64) -> (switch: DebouncedSwitch<SWITCH>)
        ensures
            switch@ == (SwitchModel { pressed: false, next_check: 0, debounce_us }),
            switch.samples() == Seq::<bool>::empty(),
    {
        DebouncedSwitch { pin: Watched::new(pin), next_check: 0, debounce_us, last_val: false }
    }

    /// Takes in the level `pressed` found at `now_us`, and says whether it is
    /// a click. The pin is not read.
    pub fn register(&mut self, now_us: u64, pressed: bool) -> (click: bool)
        requires
            old(self)@.next_check < now_us && pressed != old(self)@.pressed ==> now_us + old(
                self,
            )@.debounce_us <= u64::MAX,
        ensures
            (click, final(self)@) == old(self)@.poll(now_us, pressed),
            final(self).samples() == old(self).samples(),
    {
        if self.next_check < now_us && pressed != self.last_val {
            self.last_val = pressed;
            self.next_check = now_us + self.debounce_us;
            return pressed;
        }
        false
    }

    /// Polls the switch at `now_us`, and says whether it was clicked. The pin
    /// is read only where its level can count, which is after `next_check`;
    /// what the read finds is then taken in as [`SwitchModel::poll`] says.
    pub fn clicked(&mut self, now_us: u64) -> (click: bool)
        requires
            old(self)@.next_check < now_us ==> now_us + old(self)@.debounce_us <= u64::MAX,
        ensures
            now_us <= old(self)@.next_check ==> {
                &&& !click
                &&& final(self)@ == old(self)@
                &&& final(self).samples() == old(self).samples()
            },
            old(self)@.next_check < now_us ==> exists|pressed: bool|
                {
                    &&& final(self).samples() == old(self).samples().push(pressed)
                    &&& (click, final(self)@) == old(self)@.poll(now_us, pressed)
                },
    {
        if self.next_check < now_us {
            let pin = self.pin.is_low();
            let click = self.register(now_us, pin);
            assert(self.samples() == old(self).samples().push(pin));
            return click;
        }
        false
    }
}

} // verus!
