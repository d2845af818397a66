//! Clock snapshot and the peripheral clock-enable and reset registers.
use vstd::prelude::*;
use crate::time::Hertz;

verus! {

/// Frequencies driving the core and the timer bus, frozen when captured.
#[derive(Clone, Copy, Debug, PartialEq, Eq, Structural)]
pub struct Clocks {
    pub core_clk: Hertz,
    pub apb_tim_clk: Hertz,
}

impl Clocks {
    /// Both frequencies are positive.
    pub open spec fn wf(&self) -> bool {
        self.core_clk.0 > 0 && self.apb_tim_clk.0 > 0
    }

    /// A snapshot of the given frequencies; `None` when either is zero.
    pub fn new(core_clk: Hertz, apb_tim_clk: Hertz) -> (r: Option<Clocks>)
        ensures
            r is Some <==> core_clk.0 > 0 && apb_tim_clk.0 > 0,
            r matches Some(c) ==> c.core_clk == core_clk && c.apb_tim_clk == apb_tim_clk,
            r matches Some(c) ==> c.wf(),
    {
        if core_clk.0 > 0 && apb_tim_clk.0 > 0 {
            Some(Clocks { core_clk, apb_tim_clk })
        } else {
            None
        }
    }
}

/// One of the two peripheral buses, each with its own enable and reset register.
#[derive(Clone, Copy, Debug, PartialEq, Eq, Structural)]
pub enum Bus {
    Apb1,
    Apb2,
}

/// Where a peripheral's clock-enable and reset bits sit.
#[derive(Clone, Copy, Debug, PartialEq, Eq, Structural)]
pub struct Gate {
    pub bus: Bus,
    pub bit: u32,
}

/// Whether bit `bit` of `reg` is set.
pub open spec fn bit_is_set(reg: u32, bit: u32) -> bool {
    (reg >> bit) & 1 == 1
}

/// `b` differs from `a` at most in bit `bit`.
pub open spec fn same_except(a: u32, b: u32, bit: u32) -> bool {
    forall|i: u32| #![trigger bit_is_set(b, i)] i < 32 && i != bit ==> bit_is_set(b, i) == bit_is_set(a, i)
}

proof fn lemma_set_bit(reg: u32, bit: u32)
    requires
        bit < 32,
    ensures
        bit_is_set(reg | (1u32 << bit), bit),
        same_except(reg, reg | (1u32 << bit), bit),
{
    assert(((reg | (1u32 << bit)) >> bit) & 1 == 1) by (bit_vector)
        requires
            bit < 32,
    ;
    assert forall|i: u32| i < 32 && i != bit implies bit_is_set(reg | (1u32 << bit), i) == bit_is_set(reg, i) by {
        assert((((reg | (1u32 << bit)) >> i) & 1 == 1) == ((reg >> i) & 1 == 1)) by (bit_vector)
            requires
                bit < 32,
                i < 32,
                i != bit,
        ;
    }
}

proof fn lemma_clear_bit(reg: u32, bit: u32)
    requires
        bit < 32,
    ensures
        !bit_is_set(reg & !(1u32 << bit), bit),
        same_except(reg, reg & !(1u32 << bit), bit),
{
    assert(((reg & !(1u32 << bit)) >> bit) & 1 == 0) by (bit_vector)
        requires
            bit < 32,
    ;
    assert forall|i: u32| i < 32 && i != bit implies bit_is_set(reg & !(1u32 << bit), i) == bit_is_set(reg, i) by {
        assert((((reg & !(1u32 << bit)) >> i) & 1 == 1) == ((reg >> i) & 1 == 1)) by (bit_vector)
            requires
                bit < 32,
                i < 32,
                i != bit,
        ;
    }
}

/// Reset and clock control: the clock snapshot and the peripheral
/// clock-enable and reset registers of both buses.
pub struct Rcc {
    clocks: Clocks,
    enr1: u32,
    enr2: u32,
    rstr1: u32,
    rstr2: u32,
}

impl Rcc {
    /// The clock snapshot handed to timers built from this controller.
    pub closed spec fn snapshot(&self) -> Clocks {
        self.clocks
    }

    /// Clock-enable register of `bus`.
    pub closed spec fn enr(&self, bus: Bus) -> u32 {
        match bus {
            Bus::Apb1 => self.enr1,
            Bus::Apb2 => self.enr2,
        }
    }

    /// Reset register of `bus`.
    pub closed spec fn rstr(&self, bus: Bus) -> u32 {
        match bus {
            Bus::Apb1 => self.rstr1,
            Bus::Apb2 => self.rstr2,
        }
    }

    /// Whether the peripheral behind `g` is clocked.
    pub open spec fn clocked(&self, g: Gate) -> bool {
        bit_is_set(self.enr(g.bus), g.bit)
    }

    /// Whether the peripheral behind `g` is held in reset.
    pub open spec fn held_in_reset(&self, g: Gate) -> bool {
        bit_is_set(self.rstr(g.bus), g.bit)
    }

    /// `self` and `other` agree on every gate but `g`, and on the clocks.
    pub open spec fn same_but(&self, other: &Rcc, g: Gate) -> bool {
        &&& self.snapshot() == other.snapshot()
        &&& same_except(other.enr(g.bus), self.enr(g.bus), g.bit)
        &&& same_except(other.rstr(g.bus), self.rstr(g.bus), g.bit)
        &&& forall|b: Bus| b != g.bus ==> self.enr(b) == other.enr(b) && self.rstr(b) == other.rstr(b)
    }

    /// Controller state after power-on: every peripheral unclocked and out of reset.
    pub fn new(clocks: Clocks) -> (r: Rcc)
        ensures
            r.snapshot() == clocks,
            r.enr(Bus::Apb1) == 0 && r.enr(Bus::Apb2) == 0,
            r.rstr(Bus::Apb1) == 0 && r.rstr(Bus::Apb2) == 0,
    {
        Rcc { clocks, enr1: 0, enr2: 0, rstr1: 0, rstr2: 0 }
    }

    /// The clock snapshot handed to timers built from this controller.
    pub fn clocks(&self) -> (r: Clocks)
        ensures
            r == self.snapshot(),
    {
        self.clocks
    }

    /// Clock-enable register of `bus`.
    pub fn enable_register(&self, bus: Bus) -> (r: u32)
        ensures
            r == self.enr(bus),
    {
        match bus {
            Bus::Apb1 => self.enr1,
            Bus::Apb2 => self.enr2,
        }
    }

    /// Reset register of `bus`.
    pub fn reset_register(&self, bus: Bus) -> (r: u32)
        ensures
            r == self.rstr(bus),
    {
        match bus {
            Bus::Apb1 => self.rstr1,
            Bus::Apb2 => self.rstr2,
        }
    }

    /// Whether the peripheral behind `g` is clocked.
    pub fn is_clocked(&self, g: Gate) -> (r: bool)
        requires
            g.bit < 32,
        ensures
            r == self.clocked(g),
    {
        (self.enable_register(g.bus) >> g.bit) & 1 == 1
    }

    /// Enables the clock of the peripheral behind `g`, then asserts and
    /// releases its reset line, leaving it clocked and out of reset.
    pub fn enable_and_reset(&mut self, g: Gate)
        requires
            g.bit < 32,
        ensures
            final(self).clocked(g),
            !final(self).held_in_reset(g),
            final(self).same_but(old(self), g),
    {
        let mask = 1u32 << g.bit;
        proof {
            lemma_set_bit(self.enr(g.bus), g.bit);
            lemma_set_bit(self.rstr(g.bus), g.bit);
            lemma_clear_bit(self.rstr(g.bus) | mask, g.bit);
        }
        let ghost r0 = self.rstr(g.bus);
        match g.bus {
            Bus::Apb1 => {
                self.enr1 = self.enr1 | mask;
                self.rstr1 = self.rstr1 | mask;
                self.rstr1 = self.rstr1 & !mask;
            },
            Bus::Apb2 => {
                self.enr2 = self.enr2 | mask;
                self.rstr2 = self.rstr2 | mask;
                self.rstr2 = self.rstr2 & !mask;
            },
        }
        assert(same_except(r0, self.rstr(g.bus), g.bit)) by {
            assert forall|i: u32| #![trigger bit_is_set(self.rstr(g.bus), i)] i < 32 && i != g.bit implies
                bit_is_set(self.rstr(g.bus), i) == bit_is_set(r0, i) by {
                assert(bit_is_set(r0 | mask, i) == bit_is_set(r0, i));
            }
        }
        assert forall|b: Bus| b != g.bus implies self.enr(b) == old(self).enr(b) && self.rstr(b) == old(self).rstr(b) by {
        }
    }
}

} // verus!
