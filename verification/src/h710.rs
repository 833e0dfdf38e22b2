//! Link to the pressure sensor's converter: the two-wire transfer and the
//! decoding of its 24 bits.

use vstd::prelude::*;
use crate::gpio::{DelaySource, GpioInput, GpioOutput, LineOp, Lines};

verus! {

/// Number of bits in one reading.
pub const FRAME_BITS: usize = 24;

/// A reading counts only if a zero bit was seen at this index or later:
/// a data line that is stuck high delivers ones to the end.
pub const MIN_LAST_ZERO: usize = 11;

/// The bit that turns the converter's offset-binary output into a value that
/// grows with the input.
pub const SIGN_BIT: u32 = 0x80_0000;

/// Largest reading: readings have 24 bits.
pub const MAX_SAMPLE: u32 = 0xff_ffff;

/// Polls of the data line that a transfer waits for the converter before it
/// gives up. The bound only serves to let every transfer end.
pub const READY_POLLS: u64 = u64::MAX;

/// The number that the bits spell, most significant bit first.
pub open spec fn frame_value(bits: Seq<bool>) -> nat
    decreases bits.len(),
{
    if bits.len() == 0 {
        0
    } else {
        2 * frame_value(bits.drop_last()) + if bits.last() {
            1nat
        } else {
            0nat
        }
    }
}

/// Index of the last zero bit; zero where every bit is one.
pub open spec fn last_zero(bits: Seq<bool>) -> nat
    decreases bits.len(),
{
    if bits.len() == 0 {
        0
    } else if !bits.last() {
        (bits.len() - 1) as nat
    } else {
        last_zero(bits.drop_last())
    }
}

/// What a transfer that delivered `bits` yields: nothing where the last zero
/// bit came too early, else the number the bits spell with its top bit
/// flipped.
pub open spec fn decode(bits: Seq<bool>) -> Option<u32> {
    if last_zero(bits) < MIN_LAST_ZERO {
        None
    } else {
        Some((frame_value(bits) as u32) ^ SIGN_BIT)
    }
}

/// A frame counts exactly if one of its bits from index `MIN_LAST_ZERO` on is
/// zero.
pub proof fn lemma_valid_iff_late_zero(bits: Seq<bool>)
    ensures
        last_zero(bits) >= MIN_LAST_ZERO <==> exists|i: int|
            MIN_LAST_ZERO <= i < bits.len() && !bits[i],
    decreases bits.len(),
{
    if bits.len() > 0 {
        let front = bits.drop_last();
        lemma_valid_iff_late_zero(front);
        if bits.last() && last_zero(front) < MIN_LAST_ZERO {
            assert forall|i: int| MIN_LAST_ZERO <= i < bits.len() implies bits[i] by {
                if i < front.len() {
                    assert(front[i] == bits[i]);
                }
            }
        }
    }
}

/// The bits of a frame spell a number below two to the power of their count.
pub proof fn lemma_frame_value_bound(bits: Seq<bool>)
    ensures
        frame_value(bits) < vstd::arithmetic::power2::pow2(bits.len()),
    decreases bits.len(),
{
    if bits.len() == 0 {
        assert(vstd::arithmetic::power::pow(2, 0) == 1) by {
            vstd::arithmetic::power::lemma_pow0(2);
        }
    } else {
        lemma_frame_value_bound(bits.drop_last());
        vstd::arithmetic::power2::lemma_pow2_unfold(bits.len());
    }
}

/// A reading lies in the 24-bit range.
pub proof fn lemma_decode_range(bits: Seq<bool>)
    requires
        bits.len() == FRAME_BITS,
    ensures
        decode(bits) matches Some(v) ==> v <= MAX_SAMPLE,
{
    lemma_frame_value_bound(bits);
    vstd::arithmetic::power2::lemma2_to64();
    let raw = frame_value(bits) as u32;
    assert(raw < 0x100_0000 ==> raw ^ 0x80_0000 <= 0xff_ffff) by (bit_vector);
}

/// Flipping the top bit moves a reading by half the range: the upper half of
/// the converter's output becomes the lower half of the readings, and the
/// lower half the upper.
pub proof fn lemma_sign_flip(raw: u32)
    requires
        raw <= MAX_SAMPLE,
    ensures
        raw ^ SIGN_BIT == if raw >= SIGN_BIT {
            raw - SIGN_BIT
        } else {
            raw + SIGN_BIT
        },
{
    assert(raw <= 0xff_ffff ==> raw ^ 0x80_0000 == if raw >= 0x80_0000 {
        (raw - 0x80_0000) as u32
    } else {
        (raw + 0x80_0000) as u32
    }) by (bit_vector);
}

/// Decodes the bits of one transfer, given in the order in which they came.
pub fn decode_frame(bits: &[bool; FRAME_BITS]) -> (sample: Option<u32>)
    ensures
        sample == decode(bits@),
{
    let mut value: u32 = 0;
    let mut last_zero_index: usize = 0;
    let mut i: usize = 0;
    while i < FRAME_BITS
        invariant
            i <= FRAME_BITS,
            bits@.len() == FRAME_BITS,
            value == frame_value(bits@.take(i as int)),
            last_zero_index == last_zero(bits@.take(i as int)),
        decreases FRAME_BITS - i,
    {
        let pin = bits[i];
        proof {
            lemma_frame_value_bound(bits@.take(i as int));
            vstd::arithmetic::power2::lemma2_to64();
            assert(bits@.take(i + 1).drop_last() =~= bits@.take(i as int));
            let bit: u32 = if pin {
                1
            } else {
                0
            };
            assert(value < 0x100_0000 && bit <= 1 ==> (value << 1) | bit == 2 * value + bit)
                by (bit_vector);
        }
        if !pin {
            last_zero_index = i;
        }
        value = (value << 1) | (pin as u32);
        i += 1;
    }
    assert(bits@.take(FRAME_BITS as int) =~= bits@);
    if last_zero_index < MIN_LAST_ZERO {
        None
    } else {
        Some(value ^ SIGN_BIT)
    }
}

/// What the converter measures next, chosen by the number of clock pulses
/// that follow a transfer.
pub enum Mode {
    HZ10,
    TEMP,
    HZ40,
}

impl Mode {
    /// Clock pulses that follow the bits of a transfer to ask for this mode.
    pub open spec fn pulses(self) -> nat {
        match self {
            Mode::HZ10 => 1,
            Mode::TEMP => 2,
            Mode::HZ40 => 3,
        }
    }

    /// Computes [`Mode::pulses`].
    pub fn pulse_count(&self) -> (count: u8)
        ensures
            count == self.pulses(),
    {
        match self {
            Mode::HZ10 => 1,
            Mode::TEMP => 2,
            Mode::HZ40 => 3,
        }
    }
}

/// One clock pulse: the clock line goes high and low again, and stays at
/// each level for a microsecond.
pub open spec fn pulse_ops() -> Seq<LineOp> {
    seq![
        LineOp::ClockHigh,
        LineOp::Pause { us: 1 },
        LineOp::ClockLow,
        LineOp::Pause { us: 1 },
    ]
}

/// One clock pulse that takes a bit in: the data line is read while the
/// clock line is high.
pub open spec fn bit_ops(high: bool) -> Seq<LineOp> {
    seq![
        LineOp::ClockHigh,
        LineOp::Pause { us: 1 },
        LineOp::Sample { high },
        LineOp::ClockLow,
        LineOp::Pause { us: 1 },
    ]
}

/// The pulses that take `bits` in, first bit first.
pub open spec fn frame_ops(bits: Seq<bool>) -> Seq<LineOp>
    decreases bits.len(),
{
    if bits.len() == 0 {
        Seq::empty()
    } else {
        frame_ops(bits.drop_last()) + bit_ops(bits.last())
    }
}

/// `count` clock pulses.
pub open spec fn pulses_ops(count: nat) -> Seq<LineOp>
    decreases count,
{
    if count == 0 {
        Seq::empty()
    } else {
        pulses_ops((count - 1) as nat) + pulse_ops()
    }
}

/// `polls` reads of the data line that find it high.
pub open spec fn wait_ops(polls: nat) -> Seq<LineOp> {
    Seq::new(polls, |i: int| LineOp::Sample { high: true })
}

/// A whole transfer: the data line is polled until it is found low, which
/// happens after it was found high `polls` times; then the bits are clocked
/// in; then the pulses that ask for the next conversion follow.
pub open spec fn transfer_ops(polls: nat, bits: Seq<bool>, mode: Mode) -> Seq<LineOp> {
    wait_ops(polls).push(LineOp::Sample { high: false }) + frame_ops(bits) + pulses_ops(
        mode.pulses(),
    )
}

/// How a call of [`H710::read`] in mode `mode` leads from the trace `before`
/// to the trace `after` and the reading `sample`.
///
/// Either the data line was found high `READY_POLLS` times, nothing else was
/// done and there is no reading; or a whole transfer was made and the reading
/// is what its bits decode to.
pub open spec fn transferred(
    before: Seq<LineOp>,
    after: Seq<LineOp>,
    mode: Mode,
    sample: Option<u32>,
) -> bool {
    ||| after == before + wait_ops(READY_POLLS as nat) && sample is None
    ||| exists|polls: nat, bits: Seq<bool>|
        {
            &&& polls < READY_POLLS
            &&& bits.len() == FRAME_BITS
            &&& after == before + #[trigger] transfer_ops(polls, bits, mode)
            &&& sample == decode(bits)
        }
}

/// Link to the converter over a data line and a clock line.
pub struct H710<DataPin, ClkPin, Delay> {
    lines: Lines<DataPin, ClkPin, Delay>,
    mode: Mode,
}

impl<DataPin, ClkPin, Delay> H710<DataPin, ClkPin, Delay> where
    DataPin: GpioInput,
    ClkPin: GpioOutput,
    Delay: DelaySource,
{
    /// The mode that the link asks for after each transfer.
    pub closed spec fn mode(&self) -> Mode {
        self.mode
    }

    /// Every use that the link has made of its lines and of the delay, in
    /// the order in which it made them: the record that its [`Lines`] keep.
    pub closed spec fn trace(&self) -> Seq<LineOp> {
        self.lines.trace()
    }

    /// Takes the lines over and asks the converter for a first conversion.
    pub fn new(in_pin: DataPin, clk_pin: ClkPin, delay: Delay, mode: Mode) -> (link: H710<
        DataPin,
        ClkPin,
        Delay,
    >)
        ensures
            link.mode() == mode,
            link.trace() == pulses_ops(mode.pulses()),
    {
        let mut h710 = H710 { lines: Lines::new(in_pin, clk_pin, delay), mode };
        h710.next_measurement();
        h710
    }

    /// Runs one transfer: waits for the converter, clocks the bits in, asks
    /// for the next conversion and decodes what came. A converter that does
    /// not get ready within `READY_POLLS` polls yields nothing.
    pub fn read(&mut self) -> (sample: Option<u32>)
        ensures
            final(self).mode() == old(self).mode(),
            transferred(old(self).trace(), final(self).trace(), old(self).mode(), sample),
            sample matches Some(v) ==> v <= MAX_SAMPLE,
    {
        let ghost before = self.trace();
        let polls = self.wait_ready();
        if polls.is_none() {
            return None;
        }
        let ghost waited = wait_ops(polls.unwrap() as nat).push(LineOp::Sample { high: false });
        let mut bits: [bool; FRAME_BITS] = [false;FRAME_BITS];
        let mut i: usize = 0;
        while i < FRAME_BITS
            invariant
                i <= FRAME_BITS,
                self.mode() == old(self).mode(),
                self.trace() == before + waited + frame_ops(bits@.take(i as int)),
            decreases FRAME_BITS - i,
        {
            let ghost so_far = bits@.take(i as int);
            let level: u8 = self.clock_in();
            bits[i] = level != 0;
            i += 1;
            proof {
                assert(bits@.take(i as int).drop_last() =~= so_far);
            }
        }
        self.next_measurement();
        proof {
            assert(bits@.take(FRAME_BITS as int) =~= bits@);
            assert(self.trace() =~= before + transfer_ops(
                polls.unwrap() as nat,
                bits@,
                self.mode(),
            ));
            lemma_decode_range(bits@);
        }
        decode_frame(&bits)
    }

    /// Whether a conversion is complete: asks the data line once whether it
    /// is low, and hands its answer on. The question and the answer enter the
    /// trace; nothing else is done on the lines.
    pub fn is_ready(&mut self) -> (ready: bool)
        ensures
            final(self).mode() == old(self).mode(),
            final(self).trace() == old(self).trace().push(LineOp::Probe { low: ready }),
    {
        self.lines.probe()
    }

    /// Polls the data line until it is not high, and says how often it was
    /// found high before. Gives up, and says nothing, after `READY_POLLS`
    /// polls.
    fn wait_ready(&mut self) -> (polls: Option<u64>)
        ensures
            final(self).mode() == old(self).mode(),
            match polls {
                Some(n) => n < READY_POLLS && final(self).trace() == old(self).trace() + wait_ops(
                    n as nat,
                ).push(LineOp::Sample { high: false }),
                None => final(self).trace() == old(self).trace() + wait_ops(READY_POLLS as nat),
            },
    {
        let mut seen: u64 = 0;
        while seen < READY_POLLS
            invariant
                seen <= READY_POLLS,
                self.mode() == old(self).mode(),
                self.trace() == old(self).trace() + wait_ops(seen as nat),
            decreases READY_POLLS - seen,
        {
            let high = self.lines.sample();
            if !high {
                return Some(seen);
            }
            seen += 1;
        }
        None
    }

    /// The level of the data line as a bit.
    fn int_value(&mut self) -> (level: u8)
        ensures
            final(self).mode() == old(self).mode(),
            level <= 1,
            final(self).trace() == old(self).trace().push(LineOp::Sample { high: level != 0 }),
    {
        let val: u8 = self.lines.sample() as u8;
        val
    }

    /// One clock pulse that takes a bit in: the data line is sampled while the
    /// clock line is high.
    fn clock_in(&mut self) -> (level: u8)
        ensures
            final(self).mode() == old(self).mode(),
            level <= 1,
            final(self).trace() == old(self).trace() + bit_ops(level != 0),
    {
        self.lines.clock_high();
        self.lines.pause(1u8);
        let level: u8 = self.int_value();
        self.lines.clock_low();
        self.lines.pause(1u8);
        level
    }

    /// Asks for the next conversion with as many clock pulses as the mode
    /// takes.
    fn next_measurement(&mut self)
        ensures
            final(self).mode() == old(self).mode(),
            final(self).trace() == old(self).trace() + pulses_ops(old(self).mode().pulses()),
    {
        let count: u8 = self.mode.pulse_count();
        let mut sent: u8 = 0;
        while sent < count
            invariant
                sent <= count,
                count == old(self).mode().pulses(),
                self.mode() == old(self).mode(),
                self.trace() == old(self).trace() + pulses_ops(sent as nat),
            decreases count - sent,
        {
            self.pulse();
            sent += 1;
        }
    }

    /// One clock pulse.
    fn pulse(&mut self)
        ensures
            final(self).mode() == old(self).mode(),
            final(self).trace() == old(self).trace() + pulse_ops(),
    {
        self.lines.clock_high();
        self.lines.pause(1u8);
        self.lines.clock_low();
        self.lines.pause(1u8);
    }
}

} // verus!
