//! Count-down timers: general-purpose timer blocks and the system tick
//! counter, each driven through a model of its register block.
use vstd::prelude::*;
use void::Void;
use crate::rcc::{Bus, Clocks, Gate, Rcc};
use crate::time::{ticks_of, MicroSecond};
use crate::timeout::{gp_config, gp_fits, resolve_gp, resolve_syst, syst_fits, TimeoutConfig, TimeoutError};

verus! {

/// The type with no values, the error of an operation that cannot fail.
#[verifier::external_type_specification]
#[verifier::external_body]
pub struct ExVoid(void::Void);

/// Result of a non-blocking operation: `WouldBlock` while not yet done.
#[verifier::external_type_specification]
#[verifier::reject_recursive_types(E)]
pub struct ExNbError<E>(nb::Error<E>);

/// The general-purpose timer instances of the device.
#[derive(Clone, Copy, Debug, PartialEq, Eq, Structural)]
pub enum TimId {
    Tim1,
    Tim2,
    Tim3,
    Tim6,
    Tim7,
    Tim14,
    Tim15,
    Tim16,
    Tim17,
}

impl TimId {
    /// Clock-enable and reset bit of each timer instance.
    pub open spec fn gate_spec(self) -> Gate {
        match self {
            TimId::Tim1 => Gate { bus: Bus::Apb2, bit: 11 },
            TimId::Tim2 => Gate { bus: Bus::Apb1, bit: 0 },
            TimId::Tim3 => Gate { bus: Bus::Apb1, bit: 1 },
            TimId::Tim6 => Gate { bus: Bus::Apb1, bit: 4 },
            TimId::Tim7 => Gate { bus: Bus::Apb1, bit: 5 },
            TimId::Tim14 => Gate { bus: Bus::Apb2, bit: 15 },
            TimId::Tim15 => Gate { bus: Bus::Apb2, bit: 16 },
            TimId::Tim16 => Gate { bus: Bus::Apb2, bit: 17 },
            TimId::Tim17 => Gate { bus: Bus::Apb2, bit: 18 },
        }
    }

    /// Clock-enable and reset bit of this timer instance.
    pub fn gate(&self) -> (r: Gate)
        ensures
            r == self.gate_spec(),
            r.bit < 32,
    {
        match self {
            TimId::Tim1 => Gate { bus: Bus::Apb2, bit: 11 },
            TimId::Tim2 => Gate { bus: Bus::Apb1, bit: 0 },
            TimId::Tim3 => Gate { bus: Bus::Apb1, bit: 1 },
            TimId::Tim6 => Gate { bus: Bus::Apb1, bit: 4 },
            TimId::Tim7 => Gate { bus: Bus::Apb1, bit: 5 },
            TimId::Tim14 => Gate { bus: Bus::Apb2, bit: 15 },
            TimId::Tim15 => Gate { bus: Bus::Apb2, bit: 16 },
            TimId::Tim16 => Gate { bus: Bus::Apb2, bit: 17 },
            TimId::Tim17 => Gate { bus: Bus::Apb2, bit: 18 },
        }
    }
}

/// Register state of a general-purpose timer block.
#[derive(Clone, Copy, Debug, PartialEq, Eq, Structural)]
pub struct TimRegs {
    /// Counter enable.
    pub cen: bool,
    /// Update requests only from counter overflow.
    pub urs: bool,
    /// Update interrupt enable.
    pub uie: bool,
    /// Update (expiry) flag.
    pub uif: bool,
    /// Counter value.
    pub cnt: u32,
    /// Prescaler.
    pub psc: u16,
    /// Auto-reload value.
    pub arr: u32,
}

/// Register state of a timer block out of reset.
pub open spec fn tim_reset() -> TimRegs {
    TimRegs { cen: false, urs: false, uie: false, uif: false, cnt: 0, psc: 0, arr: 0xffff }
}

/// Whether a poll of the timer reports an elapsed period.
pub open spec fn tim_ready(r: TimRegs) -> bool {
    r.uif
}

/// Registers after a poll: a reported expiry is consumed.
pub open spec fn tim_waited(r: TimRegs) -> TimRegs {
    TimRegs { uif: false, ..r }
}

/// Registers after (re)arming with `c`: counter cleared, no expiry pending,
/// new prescaler and reload loaded, counting.
pub open spec fn tim_started(r: TimRegs, c: TimeoutConfig) -> TimRegs {
    TimRegs { cen: true, urs: true, uif: false, cnt: 0, psc: c.prescale, arr: c.reload, ..r }
}

/// Registers after the counter reaches its reload value: a running
/// counter wraps to zero and flags the expiry.
pub open spec fn tim_expired(r: TimRegs) -> TimRegs {
    if r.cen {
        TimRegs { uif: true, cnt: 0, ..r }
    } else {
        r
    }
}

/// Exclusive handle to one general-purpose timer peripheral.
pub struct Tim {
    id: TimId,
    regs: TimRegs,
}

impl Tim {
    pub closed spec fn spec_id(&self) -> TimId {
        self.id
    }

    pub closed spec fn spec_regs(&self) -> TimRegs {
        self.regs
    }

    /// The handle of timer instance `id`, its registers at reset. A program
    /// makes one handle per instance, at start-up; the handle is neither
    /// `Clone` nor `Copy`, so it has one owner at a time.
    pub fn new(id: TimId) -> (r: Tim)
        ensures
            r.spec_id() == id,
            r.spec_regs() == tim_reset(),
    {
        Tim { id, regs: TimRegs { cen: false, urs: false, uie: false, uif: false, cnt: 0, psc: 0, arr: 0xffff } }
    }

    /// Which timer instance this handle owns.
    pub fn id(&self) -> (r: TimId)
        ensures
            r == self.spec_id(),
    {
        self.id
    }

    /// Current register state.
    pub fn regs(&self) -> (r: TimRegs)
        ensures
            r == self.spec_regs(),
    {
        self.regs
    }
}

/// Register state of the system tick counter.
#[derive(Clone, Copy, Debug, PartialEq, Eq, Structural)]
pub struct SystRegs {
    /// Counter enable.
    pub enable: bool,
    /// Interrupt on wrap.
    pub tickint: bool,
    /// Counts the core clock (rather than the external reference).
    pub core_source: bool,
    /// 24-bit reload value.
    pub reload: u32,
    /// Current count.
    pub current: u32,
    /// Set when the counter wrapped; cleared by reading it.
    pub countflag: bool,
}

/// Register state of the system tick counter out of reset.
pub open spec fn syst_reset() -> SystRegs {
    SystRegs { enable: false, tickint: false, core_source: false, reload: 0, current: 0, countflag: false }
}

/// Whether a poll of the system tick counter reports an elapsed period.
pub open spec fn syst_ready(r: SystRegs) -> bool {
    r.countflag
}

/// Registers after a poll: reading the wrap flag clears it.
pub open spec fn syst_waited(r: SystRegs) -> SystRegs {
    SystRegs { countflag: false, ..r }
}

/// Registers after (re)arming with `reload`: current count and wrap flag
/// cleared, counting.
pub open spec fn syst_started(r: SystRegs, reload: u32) -> SystRegs {
    SystRegs { enable: true, reload, current: 0, countflag: false, ..r }
}

/// Registers after a running counter wraps.
pub open spec fn syst_expired(r: SystRegs) -> SystRegs {
    if r.enable {
        SystRegs { countflag: true, current: r.reload, ..r }
    } else {
        r
    }
}

/// Handle to the system tick counter of the core.
pub struct Syst {
    regs: SystRegs,
}

impl Syst {
    pub closed spec fn spec_regs(&self) -> SystRegs {
        self.regs
    }

    /// The handle of the system tick counter, its registers at reset. A
    /// program makes one, at start-up.
    pub fn new() -> (r: Syst)
        ensures
            r.spec_regs() == syst_reset(),
    {
        Syst {
            regs: SystRegs { enable: false, tickint: false, core_source: false, reload: 0, current: 0, countflag: false },
        }
    }

    /// Current register state.
    pub fn regs(&self) -> (r: SystRegs)
        ensures
            r == self.spec_regs(),
    {
        self.regs
    }
}

/// A periodic count-down timer over peripheral `TIM`, with the clock
/// snapshot taken when it was built. Later changes to the clock tree do
/// not reach an existing timer.
pub struct Timer<TIM> {
    clocks: Clocks,
    tim: TIM,
}

impl<TIM> Timer<TIM> {
    pub closed spec fn snapshot(&self) -> Clocks {
        self.clocks
    }

    pub closed spec fn peripheral(&self) -> TIM {
        self.tim
    }

    /// The clock snapshot this timer computes with.
    pub fn clocks(&self) -> (r: Clocks)
        ensures
            r == self.snapshot(),
    {
        self.clocks
    }
}

/// Ticks of the timer bus clock in `timeout`.
pub open spec fn gp_ticks(timeout: MicroSecond, clocks: Clocks) -> nat {
    ticks_of(timeout.0 as nat, clocks.apb_tim_clk.0 as nat)
}

/// Ticks of the core clock in `timeout`.
pub open spec fn core_ticks(timeout: MicroSecond, clocks: Clocks) -> nat {
    ticks_of(timeout.0 as nat, clocks.core_clk.0 as nat)
}

impl Timer<Tim> {
    pub open spec fn tim_regs(&self) -> TimRegs {
        self.peripheral().spec_regs()
    }

    pub open spec fn tim_id(&self) -> TimId {
        self.peripheral().spec_id()
    }

    /// Configures a timer peripheral as a periodic count-down timer of
    /// `timeout`: enables and resets its clock, then starts it.
    pub fn tim(tim: Tim, timeout: MicroSecond, rcc: &mut Rcc) -> (r: Self)
        requires
            gp_fits(gp_ticks(timeout, old(rcc).snapshot())),
        ensures
            final(rcc).clocked(tim.spec_id().gate_spec()),
            !final(rcc).held_in_reset(tim.spec_id().gate_spec()),
            final(rcc).same_but(old(rcc), tim.spec_id().gate_spec()),
            r.snapshot() == old(rcc).snapshot(),
            r.tim_id() == tim.spec_id(),
            r.tim_regs() == tim_started(tim_reset(), gp_config(gp_ticks(timeout, old(rcc).snapshot()))),
    {
        rcc.enable_and_reset(tim.id.gate());
        let mut timer = Timer {
            clocks: rcc.clocks(),
            tim: Tim { id: tim.id, regs: TimRegs { cen: false, urs: false, uie: false, uif: false, cnt: 0, psc: 0, arr: 0xffff } },
        };
        let started = timer.start(timeout);
        assert(started is Ok);
        timer
    }

    /// Stops the counter, clears it and any pending expiry, loads the
    /// prescaler and reload for `timeout`, and starts counting again.
    /// Fails, changing nothing, when `timeout` needs a prescale wider than
    /// 16 bits at the snapshot's timer clock.
    pub fn start(&mut self, timeout: MicroSecond) -> (r: Result<(), TimeoutError>)
        ensures
            r is Ok <==> gp_fits(gp_ticks(timeout, old(self).snapshot())),
            r is Ok ==> final(self).tim_regs() == tim_started(
                old(self).tim_regs(),
                gp_config(gp_ticks(timeout, old(self).snapshot())),
            ),
            r is Err ==> final(self).tim_regs() == old(self).tim_regs(),
            r matches Err(e) ==> e == TimeoutError::Unrepresentable,
            final(self).snapshot() == old(self).snapshot(),
            final(self).tim_id() == old(self).tim_id(),
    {
        let ticks = timeout.ticks(self.clocks.apb_tim_clk);
        match resolve_gp(ticks) {
            Err(e) => Err(e),
            Ok(c) => {
                self.tim.regs.cen = false;
                self.tim.regs.cnt = 0;
                self.tim.regs.uif = false;
                self.tim.regs.psc = c.prescale;
                self.tim.regs.arr = c.reload;
                self.tim.regs.urs = true;
                self.tim.regs.cen = true;
                Ok(())
            },
        }
    }

    /// Non-blocking poll: `Ok` once for each elapsed period, consuming the
    /// expiry flag; `WouldBlock` otherwise.
    pub fn wait(&mut self) -> (r: nb::Result<(), Void>)
        ensures
            r is Ok <==> tim_ready(old(self).tim_regs()),
            r matches Err(e) ==> e is WouldBlock,
            final(self).tim_regs() == tim_waited(old(self).tim_regs()),
            final(self).snapshot() == old(self).snapshot(),
            final(self).tim_id() == old(self).tim_id(),
    {
        if !self.tim.regs.uif {
            Err(nb::Error::WouldBlock)
        } else {
            self.tim.regs.uif = false;
            Ok(())
        }
    }

    /// Enables the interrupt on expiry.
    pub fn listen(&mut self)
        ensures
            final(self).tim_regs() == (TimRegs { uie: true, ..old(self).tim_regs() }),
            final(self).snapshot() == old(self).snapshot(),
            final(self).tim_id() == old(self).tim_id(),
    {
        self.tim.regs.uie = true;
    }

    /// Disables the interrupt on expiry.
    pub fn unlisten(&mut self)
        ensures
            final(self).tim_regs() == (TimRegs { uie: false, ..old(self).tim_regs() }),
            final(self).snapshot() == old(self).snapshot(),
            final(self).tim_id() == old(self).tim_id(),
    {
        self.tim.regs.uie = false;
    }

    /// Clears the expiry flag.
    pub fn clear_irq(&mut self)
        ensures
            final(self).tim_regs() == (TimRegs { uif: false, ..old(self).tim_regs() }),
            final(self).snapshot() == old(self).snapshot(),
            final(self).tim_id() == old(self).tim_id(),
    {
        self.tim.regs.uif = false;
    }

    /// Takes in that the counter reached its reload value.
    pub fn record_update(&mut self)
        ensures
            final(self).tim_regs() == tim_expired(old(self).tim_regs()),
            final(self).snapshot() == old(self).snapshot(),
            final(self).tim_id() == old(self).tim_id(),
    {
        if self.tim.regs.cen {
            self.tim.regs.uif = true;
            self.tim.regs.cnt = 0;
        }
    }

    /// Current register state of the timer block.
    pub fn regs(&self) -> (r: TimRegs)
        ensures
            r == self.tim_regs(),
    {
        self.tim.regs
    }

    /// Stops the counter and gives the peripheral handle back.
    pub fn release(self) -> (r: Tim)
        ensures
            r.spec_id() == self.tim_id(),
            r.spec_regs() == (TimRegs { cen: false, ..self.tim_regs() }),
    {
        let mut tim = self.tim;
        tim.regs.cen = false;
        tim
    }
}

impl Timer<Syst> {
    pub open spec fn syst_regs(&self) -> SystRegs {
        self.peripheral().spec_regs()
    }

    /// Configures the system tick counter, clocked by the core clock, as a
    /// periodic count-down timer of `timeout`.
    pub fn syst(syst: Syst, timeout: MicroSecond, rcc: &mut Rcc) -> (r: Self)
        requires
            syst_fits(core_ticks(timeout, old(rcc).snapshot())),
        ensures
            *final(rcc) == *old(rcc),
            r.snapshot() == old(rcc).snapshot(),
            r.syst_regs() == syst_started(
                (SystRegs { core_source: true, ..syst.spec_regs() }),
                core_ticks(timeout, old(rcc).snapshot()) as u32,
            ),
    {
        let mut syst = syst;
        syst.regs.core_source = true;
        let mut timer = Timer { clocks: rcc.clocks(), tim: syst };
        let started = timer.start(timeout);
        assert(started is Ok);
        timer
    }

    /// Loads the reload value for `timeout`, clears the current count and
    /// the wrap flag, and enables the counter. Fails, changing nothing,
    /// when `timeout` is 2^24 core clock ticks or more.
    pub fn start(&mut self, timeout: MicroSecond) -> (r: Result<(), TimeoutError>)
        ensures
            r is Ok <==> syst_fits(core_ticks(timeout, old(self).snapshot())),
            r is Ok ==> final(self).syst_regs() == syst_started(
                old(self).syst_regs(),
                core_ticks(timeout, old(self).snapshot()) as u32,
            ),
            r is Err ==> final(self).syst_regs() == old(self).syst_regs(),
            r matches Err(e) ==> e == TimeoutError::Unrepresentable,
            final(self).snapshot() == old(self).snapshot(),
    {
        let ticks = timeout.ticks(self.clocks.core_clk);
        match resolve_syst(ticks) {
            Err(e) => Err(e),
            Ok(reload) => {
                self.tim.regs.reload = reload;
                self.tim.regs.current = 0;
                self.tim.regs.countflag = false;
                self.tim.regs.enable = true;
                Ok(())
            },
        }
    }

    /// Non-blocking poll: `Ok` once for each wrap of the counter, consuming
    /// the wrap flag; `WouldBlock` otherwise.
    pub fn wait(&mut self) -> (r: nb::Result<(), Void>)
        ensures
            r is Ok <==> syst_ready(old(self).syst_regs()),
            r matches Err(e) ==> e is WouldBlock,
            final(self).syst_regs() == syst_waited(old(self).syst_regs()),
            final(self).snapshot() == old(self).snapshot(),
    {
        if self.tim.regs.countflag {
            self.tim.regs.countflag = false;
            Ok(())
        } else {
            Err(nb::Error::WouldBlock)
        }
    }

    /// Enables the interrupt on wrap.
    pub fn listen(&mut self)
        ensures
            final(self).syst_regs() == (SystRegs { tickint: true, ..old(self).syst_regs() }),
            final(self).snapshot() == old(self).snapshot(),
    {
        self.tim.regs.tickint = true;
    }

    /// Disables the interrupt on wrap.
    pub fn unlisten(&mut self)
        ensures
            final(self).syst_regs() == (SystRegs { tickint: false, ..old(self).syst_regs() }),
            final(self).snapshot() == old(self).snapshot(),
    {
        self.tim.regs.tickint = false;
    }

    /// Takes in that the counter wrapped.
    pub fn record_update(&mut self)
        ensures
            final(self).syst_regs() == syst_expired(old(self).syst_regs()),
            final(self).snapshot() == old(self).snapshot(),
    {
        if self.tim.regs.enable {
            self.tim.regs.countflag = true;
            self.tim.regs.current = self.tim.regs.reload;
        }
    }

    /// Current register state of the system tick counter.
    pub fn regs(&self) -> (r: SystRegs)
        ensures
            r == self.syst_regs(),
    {
        self.tim.regs
    }
}

/// Turns a timer peripheral handle into a periodic count-down timer.
pub trait TimerExt<TIM>: Sized {
    /// Whether a timer over this peripheral can count `timeout` with `clocks`.
    spec fn accepts(timeout: MicroSecond, clocks: Clocks) -> bool;

    /// Whether `r` and the controller state `after` are what configuring
    /// `tim` for `timeout` from the controller state `before` gives.
    spec fn configured(tim: Self, timeout: MicroSecond, before: Rcc, after: Rcc, r: Timer<TIM>) -> bool;

    /// Configures the peripheral as a periodic count-down timer of `timeout`.
    fn timer(self, timeout: MicroSecond, rcc: &mut Rcc) -> (r: Timer<TIM>)
        requires
            Self::accepts(timeout, old(rcc).snapshot()),
        ensures
            r.snapshot() == old(rcc).snapshot(),
            Self::configured(self, timeout, *old(rcc), *final(rcc), r),
    ;
}

impl TimerExt<Tim> for Tim {
    open spec fn accepts(timeout: MicroSecond, clocks: Clocks) -> bool {
        gp_fits(gp_ticks(timeout, clocks))
    }

    open spec fn configured(tim: Tim, timeout: MicroSecond, before: Rcc, after: Rcc, r: Timer<Tim>) -> bool {
        &&& after.clocked(tim.spec_id().gate_spec())
        &&& !after.held_in_reset(tim.spec_id().gate_spec())
        &&& after.same_but(&before, tim.spec_id().gate_spec())
        &&& r.tim_id() == tim.spec_id()
        &&& r.tim_regs() == tim_started(tim_reset(), gp_config(gp_ticks(timeout, before.snapshot())))
    }

    fn timer(self, timeout: MicroSecond, rcc: &mut Rcc) -> (r: Timer<Tim>) {
        Timer::tim(self, timeout, rcc)
    }
}

impl TimerExt<Syst> for Syst {
    open spec fn accepts(timeout: MicroSecond, clocks: Clocks) -> bool {
        syst_fits(core_ticks(timeout, clocks))
    }

    open spec fn configured(syst: Syst, timeout: MicroSecond, before: Rcc, after: Rcc, r: Timer<Syst>) -> bool {
        &&& after == before
        &&& r.syst_regs() == syst_started(
            (SystRegs { core_source: true, ..syst.spec_regs() }),
            core_ticks(timeout, before.snapshot()) as u32,
        )
    }

    fn timer(self, timeout: MicroSecond, rcc: &mut Rcc) -> (r: Timer<Syst>) {
        Timer::syst(self, timeout, rcc)
    }
}

/// A timer that has expired once reports it to exactly one poll: the
/// first poll after the expiry is ready, the one right after it is not.
pub proof fn lemma_tim_ready_once(regs: TimRegs)
    requires
        regs.cen,
    ensures
        tim_ready(tim_expired(regs)),
        !tim_ready(tim_waited(tim_expired(regs))),
{
}

/// The system tick counter reports each wrap to exactly one poll.
pub proof fn lemma_syst_ready_once(regs: SystRegs)
    requires
        regs.enable,
    ensures
        syst_ready(syst_expired(regs)),
        !syst_ready(syst_waited(syst_expired(regs))),
{
}

/// Re-arming a timer, running or not, discards the progress of the old
/// period: a poll right after it is not ready, and the counter is running.
pub proof fn lemma_tim_restart_not_ready(regs: TimRegs, c: TimeoutConfig)
    ensures
        !tim_ready(tim_started(regs, c)),
        tim_started(regs, c).cen,
        tim_started(regs, c).cnt == 0,
{
}

/// Re-arming the system tick counter discards the progress of the old
/// period: a poll right after it is not ready.
pub proof fn lemma_syst_restart_not_ready(regs: SystRegs, reload: u32)
    ensures
        !syst_ready(syst_started(regs, reload)),
        syst_started(regs, reload).enable,
        syst_started(regs, reload).current == 0,
{
}

} // verus!
