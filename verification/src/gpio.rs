//! What the control core asks of the board: an input line, an output line
//! and a delay; and the lines as the core uses them, with a record of every
//! use.

use vstd::prelude::*;

verus! {

/// A digital input. A pin that fails to answer reports neither level: both
/// `is_high` and `is_low` are then `false`.
pub trait GpioInput {
    fn is_high(&self) -> bool;

    fn is_low(&self) -> bool;
}

/// A digital output. Faults while driving the pin are dropped by the pin.
pub trait GpioOutput {
    fn set_high(&mut self);

    fn set_low(&mut self);
}

/// A source of short blocking delays.
pub trait DelaySource {
    fn delay_us(&mut self, us: u8);
}

/// One use of a line or of the delay.
pub enum LineOp {
    /// The clock line is driven high.
    ClockHigh,
    /// The clock line is driven low.
    ClockLow,
    /// `us` microseconds are let pass.
    Pause { us: u8 },
    /// The data line is read, and found high or not.
    Sample { high: bool },
    /// The data line is asked whether it is low, and answers `low`.
    Probe { low: bool },
}

/// A data line, a clock line and a delay, which can be used through the
/// methods of this type only. Each method makes one call on a pin or on
/// the delay and writes one entry into a record, so the record holds every
/// use in the order in which it was made. The pins themselves promise
/// nothing: that an entry stands beside its call is to be read in the five
/// methods below.
pub struct Lines<DataPin, ClkPin, Delay> {
    data: DataPin,
    clk: ClkPin,
    delay: Delay,
    log: Ghost<Seq<LineOp>>,
}

impl<DataPin, ClkPin, Delay> Lines<DataPin, ClkPin, Delay> where
    DataPin: GpioInput,
    ClkPin: GpioOutput,
    Delay: DelaySource,
{
    /// The record of all uses so far, first use first.
    pub closed spec fn trace(&self) -> Seq<LineOp> {
        self.log@
    }

    /// Takes the lines over, unused.
    pub fn new(data: DataPin, clk: ClkPin, delay: Delay) -> (lines: Self)
        ensures
            lines.trace() == Seq::<LineOp>::empty(),
    {
        Lines { data, clk, delay, log: Ghost(Seq::empty()) }
    }

    /// Drives the clock line high.
    pub fn clock_high(&mut self)
        ensures
            final(self).trace() == old(self).trace().push(LineOp::ClockHigh),
    {
        self.clk.set_high();
        self.log = Ghost(self.log@.push(LineOp::ClockHigh));
    }

    /// Drives the clock line low.
    pub fn clock_low(&mut self)
        ensures
            final(self).trace() == old(self).trace().push(LineOp::ClockLow),
    {
        self.clk.set_low();
        self.log = Ghost(self.log@.push(LineOp::ClockLow));
    }

    /// Lets `us` microseconds pass.
    pub fn pause(&mut self, us: u8)
        ensures
            final(self).trace() == old(self).trace().push(LineOp::Pause { us }),
    {
        self.delay.delay_us(us);
        self.log = Ghost(self.log@.push(LineOp::Pause { us }));
    }

    /// Reads the data line, and says whether it was found high.
    pub fn sample(&mut self) -> (high: bool)
        ensures
            final(self).trace() == old(self).trace().push(LineOp::Sample { high }),
    {
        let high = self.data.is_high();
        self.log = Ghost(self.log@.push(LineOp::Sample { high }));
        high
    }

    /// Asks the data line whether it is low, and hands its answer on.
    pub fn probe(&mut self) -> (low: bool)
        ensures
            final(self).trace() == old(self).trace().push(LineOp::Probe { low }),
    {
        let low = self.data.is_low();
        self.log = Ghost(self.log@.push(LineOp::Probe { low }));
        low
    }
}

/// An input line that can be read through [`Watched::is_low`] only, which
/// writes what each read finds into a record.
pub struct Watched<Pin> {
    pin: Pin,
    seen: Ghost<Seq<bool>>,
}

impl<Pin> Watched<Pin> where Pin: GpioInput {
    /// What the reads have found so far, first read first: `true` for a line
    /// that was low.
    pub closed spec fn seen(&self) -> Seq<bool> {
        self.seen@
    }

    /// Takes the line over, unread.
    pub fn new(pin: Pin) -> (line: Self)
        ensures
            line.seen() == Seq::<bool>::empty(),
    {
        Watched { pin, seen: Ghost(Seq::empty()) }
    }

    /// Asks the line whether it is low, and hands its answer on.
    pub fn is_low(&mut self) -> (low: bool)
        ensures
            final(self).seen() == old(self).seen().push(low),
    {
        let low = self.pin.is_low();
        self.seen = Ghost(self.seen@.push(low));
        low
    }
}

} // verus!
