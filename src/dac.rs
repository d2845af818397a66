//! Digital-to-analog converter: channel capability tokens, output
//! registers, and the trim calibration search as a step function.
use vstd::prelude::*;
use crate::rcc::{Bus, Gate, Rcc};

verus! {

/// Microseconds to let a channel settle after each trim value.
pub const CALIBRATION_SETTLE_US: u32 = 64;

/// Largest value of the 5-bit trim field.
pub const MAX_TRIM: u8 = 31;

/// Largest value of a 12-bit right-aligned output code.
pub const MAX_CODE: u16 = 0xfff;

/// Exclusive handle to the DAC block.
pub struct Dac;

/// Capability to drive output line 1 of the DAC.
pub struct Channel1;

/// Capability to drive output line 2 of the DAC.
pub struct Channel2;

/// Pin A4 in analog mode, wired to output line 1.
pub struct PA4;

/// Pin A5 in analog mode, wired to output line 2.
pub struct PA5;

/// Register state of one DAC output line.
#[derive(Clone, Copy, Debug, PartialEq, Eq, Structural)]
pub struct DacChannelRegs {
    /// Output enable.
    pub en: bool,
    /// Calibration enable.
    pub cen: bool,
    /// Mode-control field; 0 selects the mode used for calibration.
    pub mode: u8,
    /// Offset trim value.
    pub trim: u8,
    /// Calibration flag, set by the hardware once the trim is right.
    pub cal_flag: bool,
    /// Data holding register (12-bit right-aligned).
    pub dhr: u16,
    /// Data output register.
    pub dor: u16,
}

/// Register state of an output line out of reset.
pub open spec fn channel_reset() -> DacChannelRegs {
    DacChannelRegs { en: false, cen: false, mode: 0, trim: 0, cal_flag: false, dhr: 0, dor: 0 }
}

/// The two output lines of the DAC block.
#[derive(Clone, Copy, Debug, PartialEq, Eq, Structural)]
pub enum Line {
    One,
    Two,
}

/// Register state of the DAC block.
#[derive(Clone, Copy, Debug, PartialEq, Eq, Structural)]
pub struct DacRegs {
    pub ch1: DacChannelRegs,
    pub ch2: DacChannelRegs,
}

impl DacRegs {
    /// Registers of line `l`.
    pub open spec fn line(self, l: Line) -> DacChannelRegs {
        match l {
            Line::One => self.ch1,
            Line::Two => self.ch2,
        }
    }

    /// These registers with those of line `l` replaced by `c`.
    pub open spec fn with_line(self, l: Line, c: DacChannelRegs) -> DacRegs {
        match l {
            Line::One => DacRegs { ch1: c, ..self },
            Line::Two => DacRegs { ch2: c, ..self },
        }
    }

    /// The DAC block out of reset.
    pub fn new() -> (r: DacRegs)
        ensures
            r.ch1 == channel_reset(),
            r.ch2 == channel_reset(),
    {
        let c = DacChannelRegs { en: false, cen: false, mode: 0, trim: 0, cal_flag: false, dhr: 0, dor: 0 };
        DacRegs { ch1: c, ch2: c }
    }
}

/// What the caller of the calibration search does next.
#[derive(Clone, Copy, Debug, PartialEq, Eq, Structural)]
pub enum CalibrationStep {
    /// Wait this many microseconds, then poll the search again.
    Settle(u32),
    /// The hardware accepted the current trim value; calibration is over.
    Done,
    /// Every trim value was tried without the flag being set; calibration
    /// mode is left and the last trim value stays.
    Exhausted,
}

/// Line registers once the search starts: output off, calibration mode
/// selected and enabled, first trim value programmed.
pub open spec fn calibration_entered(c: DacChannelRegs) -> DacChannelRegs {
    DacChannelRegs { en: false, mode: 0, cen: true, trim: 0, ..c }
}

/// Line registers after one poll of the search.
pub open spec fn calibration_polled(c: DacChannelRegs) -> DacChannelRegs {
    if c.cal_flag || c.trim >= MAX_TRIM {
        DacChannelRegs { cen: false, ..c }
    } else {
        DacChannelRegs { trim: (c.trim + 1) as u8, ..c }
    }
}

/// What one poll of the search tells the caller to do.
pub open spec fn calibration_next(c: DacChannelRegs) -> CalibrationStep {
    if c.cal_flag {
        CalibrationStep::Done
    } else if c.trim >= MAX_TRIM {
        CalibrationStep::Exhausted
    } else {
        CalibrationStep::Settle(CALIBRATION_SETTLE_US)
    }
}

/// Line registers after writing `val`: the code is cut to 12 bits and,
/// with no trigger selected, moves to the output register at once.
pub open spec fn channel_written(c: DacChannelRegs, val: u16) -> DacChannelRegs {
    DacChannelRegs { dhr: (val % 0x1000) as u16, dor: (val % 0x1000) as u16, ..c }
}

impl DacChannelRegs {
    /// Sets the output enable bit.
    pub fn enable(&mut self)
        ensures
            *final(self) == (DacChannelRegs { en: true, ..*old(self) }),
    {
        self.en = true;
    }

    /// Starts the trim search: disables the output, selects calibration
    /// mode, enables calibration and programs trim value 0. The caller then
    /// waits as told and polls.
    pub fn begin_calibration(&mut self) -> (r: CalibrationStep)
        ensures
            *final(self) == calibration_entered(*old(self)),
            r == CalibrationStep::Settle(CALIBRATION_SETTLE_US),
    {
        self.en = false;
        self.mode = 0;
        self.cen = true;
        self.trim = 0;
        CalibrationStep::Settle(CALIBRATION_SETTLE_US)
    }

    /// One step of the trim search, after the settle time: when the
    /// calibration flag is set, leaves calibration mode and reports `Done`;
    /// otherwise programs the next trim value and asks for another settle
    /// time. The trim field is 5 bits wide, so the search stops with
    /// `Exhausted` past its largest value rather than wrapping around.
    pub fn poll_calibration(&mut self) -> (r: CalibrationStep)
        ensures
            *final(self) == calibration_polled(*old(self)),
            r == calibration_next(*old(self)),
    {
        if self.cal_flag {
            self.cen = false;
            CalibrationStep::Done
        } else if self.trim >= MAX_TRIM {
            self.cen = false;
            CalibrationStep::Exhausted
        } else {
            self.trim = self.trim + 1;
            CalibrationStep::Settle(CALIBRATION_SETTLE_US)
        }
    }

    /// Writes a 12-bit right-aligned output code.
    pub fn set_value(&mut self, val: u16)
        ensures
            *final(self) == channel_written(*old(self), val),
    {
        let code = val & MAX_CODE;
        assert(val & 0xfff == val % 0x1000) by (bit_vector);
        self.dhr = code;
        self.dor = code;
    }

    /// The code currently driven on the output.
    pub fn get_value(&self) -> (r: u16)
        ensures
            r == self.dor,
    {
        self.dor
    }
}

/// A DAC output line that can be enabled and calibrated.
pub trait DacPin {
    /// Which line this capability drives.
    spec fn line() -> Line;

    /// Registers of this capability's line, to read.
    fn line_of(regs: &DacRegs) -> (r: &DacChannelRegs)
        ensures
            *r == regs.line(Self::line()),
    ;

    /// Registers of this capability's line, to change.
    fn line_regs(regs: &mut DacRegs) -> (r: &mut DacChannelRegs)
        ensures
            *r == old(regs).line(Self::line()),
            *final(regs) == old(regs).with_line(Self::line(), *final(r)),
    ;

    /// Sets the output enable bit of this line, leaving the other line as it is.
    fn enable(&mut self, regs: &mut DacRegs)
        ensures
            *final(regs) == old(regs).with_line(
                Self::line(),
                (DacChannelRegs { en: true, ..old(regs).line(Self::line()) }),
            ),
    {
        Self::line_regs(regs).enable();
    }

    /// Starts the trim search on this line.
    fn begin_calibration(&mut self, regs: &mut DacRegs) -> (r: CalibrationStep)
        ensures
            *final(regs) == old(regs).with_line(Self::line(), calibration_entered(old(regs).line(Self::line()))),
            r == CalibrationStep::Settle(CALIBRATION_SETTLE_US),
    {
        Self::line_regs(regs).begin_calibration()
    }

    /// One step of the trim search on this line.
    fn poll_calibration(&mut self, regs: &mut DacRegs) -> (r: CalibrationStep)
        ensures
            *final(regs) == old(regs).with_line(Self::line(), calibration_polled(old(regs).line(Self::line()))),
            r == calibration_next(old(regs).line(Self::line())),
    {
        Self::line_regs(regs).poll_calibration()
    }
}

impl DacPin for Channel1 {
    open spec fn line() -> Line {
        Line::One
    }

    fn line_of(regs: &DacRegs) -> (r: &DacChannelRegs) {
        &regs.ch1
    }

    fn line_regs(regs: &mut DacRegs) -> (r: &mut DacChannelRegs) {
        &mut regs.ch1
    }
}

impl DacPin for Channel2 {
    open spec fn line() -> Line {
        Line::Two
    }

    fn line_of(regs: &DacRegs) -> (r: &DacChannelRegs) {
        &regs.ch2
    }

    fn line_regs(regs: &mut DacRegs) -> (r: &mut DacChannelRegs) {
        &mut regs.ch2
    }
}

/// Writing and reading the output code of a DAC line.
pub trait DacOut<V> {
    /// The DAC registers after writing `val`.
    spec fn written(regs: DacRegs, val: V) -> DacRegs;

    /// The value driven on the output.
    spec fn output(regs: DacRegs) -> V;

    /// Writes the output value.
    fn set_value(&mut self, regs: &mut DacRegs, val: V)
        ensures
            *final(regs) == Self::written(*old(regs), val),
    ;

    /// Reads back the value driven on the output.
    fn get_value(&mut self, regs: &DacRegs) -> (r: V)
        ensures
            r == Self::output(*regs),
    ;
}

impl<C: DacPin> DacOut<u16> for C {
    open spec fn written(regs: DacRegs, val: u16) -> DacRegs {
        regs.with_line(C::line(), channel_written(regs.line(C::line()), val))
    }

    open spec fn output(regs: DacRegs) -> u16 {
        regs.line(C::line()).dor
    }

    fn set_value(&mut self, regs: &mut DacRegs, val: u16) {
        C::line_regs(regs).set_value(val);
    }

    fn get_value(&mut self, regs: &DacRegs) -> (r: u16) {
        C::line_of(regs).get_value()
    }
}

/// A pin configuration that can be bound to DAC output lines, and the
/// channel capabilities it yields.
pub trait Pins<DAC> {
    type Output;

    /// The channel capabilities for these pins.
    fn into_channels(self) -> Self::Output;
}

impl Pins<Dac> for PA4 {
    type Output = Channel1;

    fn into_channels(self) -> Channel1 {
        Channel1
    }
}

impl Pins<Dac> for PA5 {
    type Output = Channel2;

    fn into_channels(self) -> Channel2 {
        Channel2
    }
}

impl Pins<Dac> for (PA4, PA5) {
    type Output = (Channel1, Channel2);

    fn into_channels(self) -> (Channel1, Channel2) {
        (Channel1, Channel2)
    }
}

/// Clock-enable and reset bit of the DAC block.
pub open spec fn dac_gate_spec() -> Gate {
    Gate { bus: Bus::Apb1, bit: 29 }
}

fn dac_gate() -> (r: Gate)
    ensures
        r == dac_gate_spec(),
{
    Gate { bus: Bus::Apb1, bit: 29 }
}

/// Binds the DAC block to `pins`: enables and resets the block's clock and
/// hands out the channel capabilities that the pins yield.
pub fn dac<PINS: Pins<Dac>>(_dac: Dac, pins: PINS, rcc: &mut Rcc) -> (r: PINS::Output)
    ensures
        final(rcc).clocked(dac_gate_spec()),
        !final(rcc).held_in_reset(dac_gate_spec()),
        final(rcc).same_but(old(rcc), dac_gate_spec()),
{
    rcc.enable_and_reset(dac_gate());
    pins.into_channels()
}

/// Binding of the DAC block handle to output pins.
pub trait DacExt: Sized {
    /// Binds this DAC block to `pins`, as `dac` does.
    fn constrain<PINS: Pins<Dac>>(self, pins: PINS, rcc: &mut Rcc) -> (r: PINS::Output)
        ensures
            final(rcc).clocked(dac_gate_spec()),
            !final(rcc).held_in_reset(dac_gate_spec()),
            final(rcc).same_but(old(rcc), dac_gate_spec()),
    ;
}

impl DacExt for Dac {
    fn constrain<PINS: Pins<Dac>>(self, pins: PINS, rcc: &mut Rcc) -> (r: PINS::Output) {
        dac(self, pins, rcc)
    }
}

/// The two lines are independent: whatever is done to the registers of
/// one line through its capability leaves the other line's registers as
/// they were.
pub proof fn lemma_lines_independent(regs: DacRegs, c: DacChannelRegs)
    ensures
        regs.with_line(Line::One, c).line(Line::Two) == regs.line(Line::Two),
        regs.with_line(Line::Two, c).line(Line::One) == regs.line(Line::One),
        regs.with_line(Line::One, c).line(Line::One) == c,
        regs.with_line(Line::Two, c).line(Line::Two) == c,
{
}

/// Enabling line 1 through its capability leaves the enable bit of line 2
/// as it was, and the other way round.
pub proof fn lemma_enable_no_aliasing(regs: DacRegs)
    ensures
        regs.with_line(
            <Channel1 as DacPin>::line(),
            (DacChannelRegs { en: true, ..regs.line(<Channel1 as DacPin>::line()) }),
        ).ch2.en == regs.ch2.en,
        regs.with_line(
            <Channel2 as DacPin>::line(),
            (DacChannelRegs { en: true, ..regs.line(<Channel2 as DacPin>::line()) }),
        ).ch1.en == regs.ch1.en,
{
}

/// Each poll of the search either ends it or moves the trim value one
/// up: the search programs 0, 1, 2, ... in order, each followed by a
/// settle time, and stops at the first value whose flag is set.
pub proof fn lemma_calibration_monotone(c: DacChannelRegs)
    ensures
        calibration_next(c) == CalibrationStep::Settle(CALIBRATION_SETTLE_US) ==> calibration_polled(c).trim
            == c.trim + 1 && calibration_polled(c).cen == c.cen,
        calibration_next(c) != CalibrationStep::Settle(CALIBRATION_SETTLE_US) ==> calibration_polled(c).trim
            == c.trim && !calibration_polled(c).cen,
        c.cal_flag ==> calibration_next(c) == CalibrationStep::Done,
{
}

} // verus!
