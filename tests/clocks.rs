use max7800x_hal::gcr::clocks::{
    Div1, Div128, Div16, Div2, Div32, Div4, Div64, Div8, InternalBaudRateOscillator,
    InternalPrimaryOscillator, InternalSecondaryOscillator, Oscillator, OscillatorSourceEnum,
    SystemClockConfig,
};
use max7800x_hal::gcr::{Gcr, GcrRegisters};

type Cfg = SystemClockConfig<InternalPrimaryOscillator, Div1>;
type Iso = SystemClockConfig<InternalSecondaryOscillator, Div1>;

fn field<F: FnOnce(&mut GcrRegisters)>(f: F) -> u8 {
    let mut reg = GcrRegisters::new();
    f(&mut reg);
    reg.sysclk_div
}

#[test]
fn registers_start_in_reset_state() {
    let gcr = Gcr::new();
    assert!(!gcr.reg.ipo_en);
    assert!(!gcr.reg.iso_en);
    assert_eq!(gcr.reg.sysclk_sel, OscillatorSourceEnum::Iso);
    assert_eq!(gcr.reg.sysclk_div, 0);
}

#[test]
fn base_frequencies() {
    assert_eq!(OscillatorSourceEnum::Ipo.base_frequency(), 100_000_000);
    assert_eq!(OscillatorSourceEnum::Iso.base_frequency(), 60_000_000);
    assert_eq!(OscillatorSourceEnum::Ibro.base_frequency(), 7_372_800);
    assert_eq!(OscillatorSourceEnum::Ertco.base_frequency(), 32_768);
}

#[test]
fn enabling_sets_only_the_oscillators_bit() {
    let mut gcr = Gcr::new();
    let ipo = Oscillator::new(gcr.osc_guards.ipo).enable(&mut gcr.reg);
    assert!(gcr.reg.ipo_en);
    assert!(!gcr.reg.iso_en);
    assert_eq!(ipo.into_clock().frequency(), 100_000_000);
    let iso = Oscillator::new(gcr.osc_guards.iso).enable(&mut gcr.reg);
    assert!(gcr.reg.iso_en);
    assert_eq!(iso.into_clock().frequency, 60_000_000);
    let before = (gcr.reg.ipo_en, gcr.reg.iso_en, gcr.reg.sysclk_sel, gcr.reg.sysclk_div);
    let ibro = Oscillator::new(gcr.osc_guards.ibro).enable(&mut gcr.reg);
    assert_eq!(before, (gcr.reg.ipo_en, gcr.reg.iso_en, gcr.reg.sysclk_sel, gcr.reg.sysclk_div));
    assert_eq!(ibro.into_clock().frequency(), 7_372_800);
}

#[test]
fn external_rtc_oscillator_fails_closed() {
    let mut gcr = Gcr::new();
    let ertco = Oscillator::new(gcr.osc_guards.ertco);
    assert!(ertco.enable(&mut gcr.reg).is_err());
    assert!(!gcr.reg.ipo_en && !gcr.reg.iso_en);
    assert_eq!(gcr.reg.sysclk_sel, OscillatorSourceEnum::Iso);
}

#[test]
fn freeze_iso_divided_by_four() {
    let mut gcr = Gcr::new();
    let iso = Oscillator::new(gcr.osc_guards.iso).enable(&mut gcr.reg);
    let clocks = gcr
        .sys_clk
        .set_source(&mut gcr.reg, &iso)
        .set_divider::<Div4>(&mut gcr.reg)
        .freeze();
    assert_eq!(clocks.sys_clk.frequency(), 15_000_000);
    assert_eq!(clocks.pclk.frequency(), 7_500_000);
    assert_eq!(gcr.reg.sysclk_sel, OscillatorSourceEnum::Iso);
    assert_eq!(gcr.reg.sysclk_div, 2);
}

#[test]
fn freeze_without_divider_is_undivided() {
    let gcr = Gcr::new();
    let clocks = gcr.sys_clk.freeze();
    assert_eq!(clocks.sys_clk.frequency(), 60_000_000);
    assert_eq!(clocks.pclk.frequency(), 30_000_000);
}

#[test]
fn set_source_selects_the_oscillator() {
    let mut gcr = Gcr::new();
    let ipo = Oscillator::new(gcr.osc_guards.ipo).enable(&mut gcr.reg);
    let config = gcr.sys_clk.set_source(&mut gcr.reg, &ipo);
    assert_eq!(gcr.reg.sysclk_sel, OscillatorSourceEnum::Ipo);
    let clocks = config.set_divider::<Div1>(&mut gcr.reg).freeze();
    assert_eq!(gcr.reg.sysclk_div, 0);
    assert_eq!(clocks.sys_clk.frequency(), 100_000_000);
    assert_eq!(clocks.pclk.frequency(), 50_000_000);
}

#[test]
fn baud_rate_oscillator_as_system_clock() {
    let mut gcr = Gcr::new();
    let ibro = Oscillator::new(gcr.osc_guards.ibro).enable(&mut gcr.reg);
    let clocks = gcr.sys_clk.set_source(&mut gcr.reg, &ibro).set_divider::<Div128>(&mut gcr.reg).freeze();
    assert_eq!(gcr.reg.sysclk_sel, OscillatorSourceEnum::Ibro);
    assert_eq!(gcr.reg.sysclk_div, 7);
    assert_eq!(clocks.sys_clk.frequency(), 57_600);
    assert_eq!(clocks.pclk.frequency(), 28_800);
}

#[test]
fn divider_fields() {
    assert_eq!(field(|r| { Cfg::new().set_divider::<Div1>(r); }), 0);
    assert_eq!(field(|r| { Cfg::new().set_divider::<Div2>(r); }), 1);
    assert_eq!(field(|r| { Cfg::new().set_divider::<Div4>(r); }), 2);
    assert_eq!(field(|r| { Cfg::new().set_divider::<Div8>(r); }), 3);
    assert_eq!(field(|r| { Cfg::new().set_divider::<Div16>(r); }), 4);
    assert_eq!(field(|r| { Cfg::new().set_divider::<Div32>(r); }), 5);
    assert_eq!(field(|r| { Cfg::new().set_divider::<Div64>(r); }), 6);
    assert_eq!(field(|r| { Cfg::new().set_divider::<Div128>(r); }), 7);
}

#[test]
fn frequencies_for_every_divider() {
    let expected = [
        (1u32, 60_000_000u32),
        (2, 30_000_000),
        (4, 15_000_000),
        (8, 7_500_000),
        (16, 3_750_000),
        (32, 1_875_000),
        (64, 937_500),
        (128, 468_750),
    ];
    let got = [
        Iso::new().set_divider::<Div1>(&mut GcrRegisters::new()).freeze().sys_clk.frequency(),
        Iso::new().set_divider::<Div2>(&mut GcrRegisters::new()).freeze().sys_clk.frequency(),
        Iso::new().set_divider::<Div4>(&mut GcrRegisters::new()).freeze().sys_clk.frequency(),
        Iso::new().set_divider::<Div8>(&mut GcrRegisters::new()).freeze().sys_clk.frequency(),
        Iso::new().set_divider::<Div16>(&mut GcrRegisters::new()).freeze().sys_clk.frequency(),
        Iso::new().set_divider::<Div32>(&mut GcrRegisters::new()).freeze().sys_clk.frequency(),
        Iso::new().set_divider::<Div64>(&mut GcrRegisters::new()).freeze().sys_clk.frequency(),
        Iso::new().set_divider::<Div128>(&mut GcrRegisters::new()).freeze().sys_clk.frequency(),
    ];
    for (i, (d, f)) in expected.iter().enumerate() {
        assert_eq!(got[i], *f, "divider {}", d);
    }
    let _ = InternalBaudRateOscillator;
}
