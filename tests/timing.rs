use stm32_timing::rcc::{Bus, Clocks, Gate, Rcc};
use stm32_timing::time::{Hertz, MicroSecond};
use stm32_timing::timeout::{resolve_gp, resolve_syst, TimeoutConfig, TimeoutError};
use stm32_timing::timer::{Syst, Tim, TimId, Timer, TimerExt};

fn clocks(core: u32, apb: u32) -> Clocks {
    Clocks::new(Hertz(core), Hertz(apb)).unwrap()
}

#[test]
fn ticks_truncates_product() {
    assert_eq!(MicroSecond(1000).ticks(Hertz(16_000_000)), 16_000);
    assert_eq!(MicroSecond(1).ticks(Hertz(999_999)), 0);
    assert_eq!(MicroSecond(3).ticks(Hertz(500_000)), 1);
    assert_eq!(MicroSecond(0).ticks(Hertz(64_000_000)), 0);
    assert_eq!(MicroSecond(u32::MAX).ticks(Hertz(u32::MAX)), 18_446_744_065_119);
}

#[test]
fn clocks_reject_zero_frequency() {
    assert!(Clocks::new(Hertz(0), Hertz(16_000_000)).is_none());
    assert!(Clocks::new(Hertz(16_000_000), Hertz(0)).is_none());
    let c = clocks(64_000_000, 32_000_000);
    assert_eq!(c.core_clk, Hertz(64_000_000));
    assert_eq!(c.apb_tim_clk, Hertz(32_000_000));
}

#[test]
fn gp_resolver_small_tick_count_needs_no_prescale() {
    assert_eq!(resolve_gp(16_000), Ok(TimeoutConfig { prescale: 0, reload: 16_000 }));
    assert_eq!(resolve_gp(0), Ok(TimeoutConfig { prescale: 0, reload: 0 }));
    assert_eq!(resolve_gp(65_535), Ok(TimeoutConfig { prescale: 0, reload: 65_535 }));
}

#[test]
fn gp_resolver_prescales_long_durations() {
    assert_eq!(resolve_gp(65_536), Ok(TimeoutConfig { prescale: 1, reload: 32_768 }));
    assert_eq!(resolve_gp(1_000_000), Ok(TimeoutConfig { prescale: 15, reload: 62_500 }));
    assert_eq!(resolve_gp(0xffff_ffff), Ok(TimeoutConfig { prescale: 65_535, reload: 65_535 }));
}

#[test]
fn gp_resolver_formula_holds_on_samples() {
    for t in [1u64, 7, 65_536, 131_071, 123_456_789, 4_000_000_000] {
        let c = resolve_gp(t).unwrap();
        assert_eq!(c.prescale as u64, t / 65_536);
        assert_eq!(c.reload as u64, t / (c.prescale as u64 + 1));
        assert!(c.reload < 65_536);
    }
}

#[test]
fn gp_resolver_rejects_prescale_overflow() {
    assert_eq!(resolve_gp(0x1_0000_0000), Err(TimeoutError::Unrepresentable));
    assert_eq!(resolve_gp(u64::MAX), Err(TimeoutError::Unrepresentable));
    let d = MicroSecond(100_000_000);
    assert_eq!(resolve_gp(d.ticks(Hertz(64_000_000))), Err(TimeoutError::Unrepresentable));
}

#[test]
fn syst_resolver_passes_ticks_through() {
    assert_eq!(resolve_syst(0), Ok(0));
    assert_eq!(resolve_syst(16_000), Ok(16_000));
    assert_eq!(resolve_syst(0xff_ffff), Ok(0xff_ffff));
    let d = MicroSecond(1000);
    assert_eq!(resolve_syst(d.ticks(Hertz(16_000_000))), Ok(16_000));
}

#[test]
fn syst_resolver_rejects_24_bit_overflow() {
    assert_eq!(resolve_syst(0x100_0000), Err(TimeoutError::Unrepresentable));
    assert_eq!(resolve_syst(u64::MAX), Err(TimeoutError::Unrepresentable));
}

#[test]
fn constructor_enables_and_resets_peripheral_clock() {
    let mut rcc = Rcc::new(clocks(64_000_000, 64_000_000));
    let t2 = Timer::tim(Tim::new(TimId::Tim2), MicroSecond(1000), &mut rcc);
    assert_eq!(rcc.enable_register(Bus::Apb1), 1);
    assert_eq!(rcc.reset_register(Bus::Apb1), 0);
    let t1 = Tim::new(TimId::Tim1).timer(MicroSecond(1000), &mut rcc);
    assert_eq!(rcc.enable_register(Bus::Apb2), 1 << 11);
    assert_eq!(rcc.reset_register(Bus::Apb2), 0);
    assert!(rcc.is_clocked(Gate { bus: Bus::Apb1, bit: 0 }));
    assert!(!rcc.is_clocked(Gate { bus: Bus::Apb1, bit: 1 }));
    assert_eq!(t2.clocks(), clocks(64_000_000, 64_000_000));
    assert_eq!(t1.regs().psc, 0);
    assert_eq!(t1.regs().arr, 64_000);
}

#[test]
fn start_programs_prescaler_and_reload() {
    let mut rcc = Rcc::new(clocks(64_000_000, 16_000_000));
    let mut t = Timer::tim(Tim::new(TimId::Tim3), MicroSecond(1000), &mut rcc);
    let r = t.regs();
    assert!(r.cen && r.urs && !r.uif);
    assert_eq!((r.psc, r.arr, r.cnt), (0, 16_000, 0));
    assert_eq!(t.start(MicroSecond(62_500)), Ok(()));
    assert_eq!((t.regs().psc, t.regs().arr), (15, 62_500));
}

#[test]
fn start_rejects_unrepresentable_timeout_and_keeps_state() {
    let mut rcc = Rcc::new(clocks(64_000_000, 64_000_000));
    let mut t = Timer::tim(Tim::new(TimId::Tim6), MicroSecond(1000), &mut rcc);
    let before = t.regs();
    assert_eq!(t.start(MicroSecond(100_000_000)), Err(TimeoutError::Unrepresentable));
    assert_eq!(t.regs(), before);
}

#[test]
fn wait_reports_each_expiry_once() {
    let mut rcc = Rcc::new(clocks(16_000_000, 16_000_000));
    let mut t = Timer::tim(Tim::new(TimId::Tim14), MicroSecond(500), &mut rcc);
    assert!(matches!(t.wait(), Err(nb::Error::WouldBlock)));
    t.record_update();
    assert!(matches!(t.wait(), Ok(())));
    assert!(matches!(t.wait(), Err(nb::Error::WouldBlock)));
    t.record_update();
    assert!(matches!(t.wait(), Ok(())));
}

#[test]
fn restart_discards_pending_expiry() {
    let mut rcc = Rcc::new(clocks(16_000_000, 16_000_000));
    let mut t = Timer::tim(Tim::new(TimId::Tim15), MicroSecond(500), &mut rcc);
    t.record_update();
    assert_eq!(t.start(MicroSecond(2000)), Ok(()));
    assert!(matches!(t.wait(), Err(nb::Error::WouldBlock)));
    assert_eq!(t.regs().arr, 32_000);
}

#[test]
fn listen_and_unlisten_toggle_interrupt_only() {
    let mut rcc = Rcc::new(clocks(16_000_000, 16_000_000));
    let mut t = Timer::tim(Tim::new(TimId::Tim16), MicroSecond(500), &mut rcc);
    let before = t.regs();
    t.listen();
    assert!(t.regs().uie);
    t.unlisten();
    assert_eq!(t.regs(), before);
    t.record_update();
    t.clear_irq();
    assert!(!t.regs().uif);
}

#[test]
fn release_stops_counter_and_returns_handle() {
    let mut rcc = Rcc::new(clocks(16_000_000, 16_000_000));
    let t = Timer::tim(Tim::new(TimId::Tim17), MicroSecond(500), &mut rcc);
    let tim = t.release();
    assert_eq!(tim.id(), TimId::Tim17);
    assert!(!tim.regs().cen);
    assert_eq!(tim.regs().arr, 8_000);
}

#[test]
fn stopped_timer_does_not_expire() {
    let mut rcc = Rcc::new(clocks(16_000_000, 16_000_000));
    let t = Timer::tim(Tim::new(TimId::Tim7), MicroSecond(500), &mut rcc);
    let tim = t.release();
    let mut t = Timer::tim(tim, MicroSecond(1), &mut rcc);
    assert_eq!(t.regs().arr, 16);
    assert!(matches!(t.wait(), Err(nb::Error::WouldBlock)));
}

#[test]
fn syst_timer_counts_core_clock() {
    let mut rcc = Rcc::new(clocks(16_000_000, 8_000_000));
    let t = Timer::syst(Syst::new(), MicroSecond(1000), &mut rcc);
    let r = t.regs();
    assert!(r.enable && r.core_source && !r.countflag && !r.tickint);
    assert_eq!((r.reload, r.current), (16_000, 0));
    assert_eq!(rcc.enable_register(Bus::Apb1), 0);
    let t = Syst::new().timer(MicroSecond(1_000_000), &mut rcc);
    assert_eq!(t.regs().reload, 16_000_000);
}

#[test]
fn syst_wait_reports_each_wrap_once() {
    let mut rcc = Rcc::new(clocks(16_000_000, 16_000_000));
    let mut t = Timer::syst(Syst::new(), MicroSecond(1000), &mut rcc);
    assert!(matches!(t.wait(), Err(nb::Error::WouldBlock)));
    t.record_update();
    assert!(matches!(t.wait(), Ok(())));
    assert!(matches!(t.wait(), Err(nb::Error::WouldBlock)));
}

#[test]
fn syst_restart_and_overflow() {
    let mut rcc = Rcc::new(clocks(16_000_000, 16_000_000));
    let mut t = Timer::syst(Syst::new(), MicroSecond(1000), &mut rcc);
    t.record_update();
    assert_eq!(t.start(MicroSecond(10)), Ok(()));
    assert!(matches!(t.wait(), Err(nb::Error::WouldBlock)));
    assert_eq!(t.regs().reload, 160);
    let before = t.regs();
    assert_eq!(t.start(MicroSecond(2_000_000)), Err(TimeoutError::Unrepresentable));
    assert_eq!(t.regs(), before);
    t.listen();
    assert!(t.regs().tickint);
    t.unlisten();
    assert!(!t.regs().tickint);
}
