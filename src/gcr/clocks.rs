//! # Clock and Oscillator Configuration
//!
//! Typestates for enabling oscillators and configuring the system clock. An
//! oscillator handle is made from its one guard, becomes `Enabled` only
//! through the clock-control registers, and only an enabled oscillator can
//! drive the system clock. Freezing a configuration computes the system and
//! peripheral clock frequencies from the source and the divider.
use core::marker::PhantomData;
use vstd::prelude::*;

use super::GcrRegisters;
use crate::Sealed;

verus! {

/// The physical clock sources.
#[derive(Debug, Clone, Copy, PartialEq, Eq, Structural)]
pub enum OscillatorSourceEnum {
    /// Internal Primary Oscillator (100 MHz)
    Ipo,
    /// Internal Secondary Oscillator (60 MHz)
    Iso,
    /// Internal Baud Rate Oscillator (7.3728 MHz)
    Ibro,
    /// External RTC Oscillator (32.768 kHz)
    ///
    /// Requires initialization of the RTC peripheral. Currently unsupported.
    Ertco,
}

/// The fixed frequency of each source, in Hz.
pub open spec fn base_frequency_of(source: OscillatorSourceEnum) -> u32 {
    match source {
        OscillatorSourceEnum::Ipo => 100_000_000,
        OscillatorSourceEnum::Iso => 60_000_000,
        OscillatorSourceEnum::Ibro => 7_372_800,
        OscillatorSourceEnum::Ertco => 32_768,
    }
}

impl OscillatorSourceEnum {
    /// The fixed frequency of the source, in Hz.
    pub fn base_frequency(&self) -> (r: u32)
        ensures
            r == base_frequency_of(*self),
    {
        match self {
            OscillatorSourceEnum::Ipo => 100_000_000,
            OscillatorSourceEnum::Iso => 60_000_000,
            OscillatorSourceEnum::Ibro => 7_372_800,
            OscillatorSourceEnum::Ertco => 32_768,
        }
    }
}

/// Marker trait for an oscillator source.
pub trait OscillatorSource: Sealed {
    spec fn spec_source() -> OscillatorSourceEnum;

    fn source() -> (r: OscillatorSourceEnum)
        ensures
            r == Self::spec_source(),
    ;
}

pub struct InternalPrimaryOscillator;

pub struct InternalSecondaryOscillator;

pub struct InternalBaudRateOscillator;

pub struct ExternalRtcOscillator;

impl Sealed for InternalPrimaryOscillator {}

impl Sealed for InternalSecondaryOscillator {}

impl Sealed for InternalBaudRateOscillator {}

impl Sealed for ExternalRtcOscillator {}

impl OscillatorSource for InternalPrimaryOscillator {
    open spec fn spec_source() -> OscillatorSourceEnum {
        OscillatorSourceEnum::Ipo
    }

    fn source() -> (r: OscillatorSourceEnum) {
        OscillatorSourceEnum::Ipo
    }
}

impl OscillatorSource for InternalSecondaryOscillator {
    open spec fn spec_source() -> OscillatorSourceEnum {
        OscillatorSourceEnum::Iso
    }

    fn source() -> (r: OscillatorSourceEnum) {
        OscillatorSourceEnum::Iso
    }
}

impl OscillatorSource for InternalBaudRateOscillator {
    open spec fn spec_source() -> OscillatorSourceEnum {
        OscillatorSourceEnum::Ibro
    }

    fn source() -> (r: OscillatorSourceEnum) {
        OscillatorSourceEnum::Ibro
    }
}

impl OscillatorSource for ExternalRtcOscillator {
    open spec fn spec_source() -> OscillatorSourceEnum {
        OscillatorSourceEnum::Ertco
    }

    fn source() -> (r: OscillatorSourceEnum) {
        OscillatorSourceEnum::Ertco
    }
}

/// Marker trait for the state of an oscillator.
pub trait OscillatorState: Sealed {}

pub struct Disabled;

pub struct Enabled;

impl Sealed for Disabled {}

impl Sealed for Enabled {}

impl OscillatorState for Disabled {}

impl OscillatorState for Enabled {}

/// Marker trait for a clock option (enabled oscillator or clock).
pub trait ClockOption: Sealed {}

pub struct SystemClock;

pub struct PeripheralClock;

impl Sealed for SystemClock {}

impl Sealed for PeripheralClock {}

impl ClockOption for SystemClock {}

impl ClockOption for PeripheralClock {}

impl ClockOption for InternalPrimaryOscillator {}

impl ClockOption for InternalSecondaryOscillator {}

impl ClockOption for InternalBaudRateOscillator {}

impl ClockOption for ExternalRtcOscillator {}

/// The divisors the system clock divider offers.
pub open spec fn valid_divisor(d: u32) -> bool {
    d == 1 || d == 2 || d == 4 || d == 8 || d == 16 || d == 32 || d == 64 || d == 128
}

/// Marker trait for the system clock divider
pub trait SystemClockDivider: Sealed {
    spec fn spec_divisor() -> u32;

    fn divisor() -> (r: u32)
        ensures
            r == Self::spec_divisor(),
            valid_divisor(r),
    ;
}

pub struct DivUnknown;

pub struct Div1;

pub struct Div2;

pub struct Div4;

pub struct Div8;

pub struct Div16;

pub struct Div32;

pub struct Div64;

pub struct Div128;

impl Sealed for DivUnknown {}

impl Sealed for Div1 {}

impl Sealed for Div2 {}

impl Sealed for Div4 {}

impl Sealed for Div8 {}

impl Sealed for Div16 {}

impl Sealed for Div32 {}

impl Sealed for Div64 {}

impl Sealed for Div128 {}

/// Before any divider is set the system clock is undivided.
impl SystemClockDivider for DivUnknown {
    open spec fn spec_divisor() -> u32 {
        1
    }

    fn divisor() -> (r: u32) {
        1
    }
}

impl SystemClockDivider for Div1 {
    open spec fn spec_divisor() -> u32 {
        1
    }

    fn divisor() -> (r: u32) {
        1
    }
}

impl SystemClockDivider for Div2 {
    open spec fn spec_divisor() -> u32 {
        2
    }

    fn divisor() -> (r: u32) {
        2
    }
}

impl SystemClockDivider for Div4 {
    open spec fn spec_divisor() -> u32 {
        4
    }

    fn divisor() -> (r: u32) {
        4
    }
}

impl SystemClockDivider for Div8 {
    open spec fn spec_divisor() -> u32 {
        8
    }

    fn divisor() -> (r: u32) {
        8
    }
}

impl SystemClockDivider for Div16 {
    open spec fn spec_divisor() -> u32 {
        16
    }

    fn divisor() -> (r: u32) {
        16
    }
}

impl SystemClockDivider for Div32 {
    open spec fn spec_divisor() -> u32 {
        32
    }

    fn divisor() -> (r: u32) {
        32
    }
}

impl SystemClockDivider for Div64 {
    open spec fn spec_divisor() -> u32 {
        64
    }

    fn divisor() -> (r: u32) {
        64
    }
}

impl SystemClockDivider for Div128 {
    open spec fn spec_divisor() -> u32 {
        128
    }

    fn divisor() -> (r: u32) {
        128
    }
}

/// Oscillators represent the state of a physical oscillator. To use an
/// oscillator, it must be enabled. Then, it can be converted into a clock.
pub struct Oscillator<O: OscillatorSource, S: OscillatorState> {
    _source: PhantomData<O>,
    _state: PhantomData<S>,
}

/// Clocks are used to drive peripherals after the system clock is configured.
pub struct Clock<SRC: ClockOption> {
    _src: PhantomData<SRC>,
    pub frequency: u32,
}

impl<SRC: ClockOption> Clock<SRC> {
    /// The frequency of the clock, in Hz.
    pub closed spec fn spec_frequency(&self) -> u32 {
        self.frequency
    }

    /// The frequency of the clock, in Hz.
    pub fn frequency(&self) -> (r: u32)
        ensures
            r == self.spec_frequency(),
    {
        self.frequency
    }
}

/// An OscillatorGuard protects the initialization of an [`Oscillator`],
/// ensuring that each oscillator source is only initialized once.
pub struct OscillatorGuard<O: OscillatorSource> {
    _source: PhantomData<O>,
}

impl<O: OscillatorSource> OscillatorGuard<O> {
    pub(super) fn new() -> (r: Self) {
        OscillatorGuard { _source: PhantomData }
    }
}

/// A collection of OscillatorGuards for each [`Oscillator`] source.
pub struct OscillatorGuards {
    pub ipo: OscillatorGuard<InternalPrimaryOscillator>,
    pub iso: OscillatorGuard<InternalSecondaryOscillator>,
    pub ibro: OscillatorGuard<InternalBaudRateOscillator>,
    pub ertco: OscillatorGuard<ExternalRtcOscillator>,
}

impl OscillatorGuards {
    pub(super) fn new() -> (r: Self) {
        OscillatorGuards {
            ipo: OscillatorGuard::new(),
            iso: OscillatorGuard::new(),
            ibro: OscillatorGuard::new(),
            ertco: OscillatorGuard::new(),
        }
    }
}

/// Initialization of an [`Oscillator`] requires consumption of a
/// corresponding typed OscillatorGuard.
impl<O: OscillatorSource> Oscillator<O, Disabled> {
    pub fn new(_guard: OscillatorGuard<O>) -> (r: Self) {
        Oscillator { _source: PhantomData, _state: PhantomData }
    }
}

/// A clock handle that runs at the given frequency.
fn clock_at<SRC: ClockOption>(frequency: u32) -> (r: Clock<SRC>)
    ensures
        r.spec_frequency() == frequency,
{
    Clock { _src: PhantomData, frequency }
}

pub type Ipo = Oscillator<InternalPrimaryOscillator, Disabled>;

impl Ipo {
    /// Sets the enable bit of the primary oscillator; the owner of the
    /// hardware then waits for its ready bit.
    pub fn enable(&self, reg: &mut GcrRegisters) -> (r: Oscillator<
        InternalPrimaryOscillator,
        Enabled,
    >)
        ensures
            *final(reg) == (GcrRegisters { ipo_en: true, ..*old(reg) }),
    {
        reg.ipo_en = true;
        Oscillator { _source: PhantomData, _state: PhantomData }
    }
}

impl Oscillator<InternalPrimaryOscillator, Enabled> {
    pub fn into_clock(self) -> (r: Clock<InternalPrimaryOscillator>)
        ensures
            r.spec_frequency() == base_frequency_of(OscillatorSourceEnum::Ipo),
    {
        clock_at(OscillatorSourceEnum::Ipo.base_frequency())
    }
}

pub type Iso = Oscillator<InternalSecondaryOscillator, Disabled>;

impl Iso {
    /// Sets the enable bit of the secondary oscillator; the owner of the
    /// hardware then waits for its ready bit.
    pub fn enable(self, reg: &mut GcrRegisters) -> (r: Oscillator<
        InternalSecondaryOscillator,
        Enabled,
    >)
        ensures
            *final(reg) == (GcrRegisters { iso_en: true, ..*old(reg) }),
    {
        reg.iso_en = true;
        Oscillator { _source: PhantomData, _state: PhantomData }
    }
}

impl Oscillator<InternalSecondaryOscillator, Enabled> {
    pub fn into_clock(self) -> (r: Clock<InternalSecondaryOscillator>)
        ensures
            r.spec_frequency() == base_frequency_of(OscillatorSourceEnum::Iso),
    {
        clock_at(OscillatorSourceEnum::Iso.base_frequency())
    }
}

pub type Ibro = Oscillator<InternalBaudRateOscillator, Disabled>;

impl Ibro {
    /// The baud rate oscillator is always running: nothing is written, the
    /// owner of the hardware only waits for its ready bit.
    pub fn enable(self, reg: &mut GcrRegisters) -> (r: Oscillator<
        InternalBaudRateOscillator,
        Enabled,
    >)
        ensures
            *final(reg) == *old(reg),
    {
        Oscillator { _source: PhantomData, _state: PhantomData }
    }
}

impl Oscillator<InternalBaudRateOscillator, Enabled> {
    pub fn into_clock(self) -> (r: Clock<InternalBaudRateOscillator>)
        ensures
            r.spec_frequency() == base_frequency_of(OscillatorSourceEnum::Ibro),
    {
        clock_at(OscillatorSourceEnum::Ibro.base_frequency())
    }
}

pub type Ertco = Oscillator<ExternalRtcOscillator, Disabled>;

impl Oscillator<ExternalRtcOscillator, Disabled> {
    /// The external RTC oscillator needs the RTC peripheral, which is not
    /// supported: enabling it fails, with nothing written, and hands the
    /// disabled handle back.
    pub fn enable(self, reg: &mut GcrRegisters) -> (r: Result<
        Oscillator<ExternalRtcOscillator, Enabled>,
        Self,
    >)
        ensures
            r is Err,
            *final(reg) == *old(reg),
    {
        Err(self)
    }
}

/// System clock setup configuration (source and divider).
pub struct SystemClockConfig<S: OscillatorSource, D: SystemClockDivider> {
    _source: PhantomData<S>,
    _divider: PhantomData<D>,
}

/// Initialized system clock configuration and resulting [`Clock`]s and frequencies.
pub struct SystemClockResults {
    pub sys_clk: Clock<SystemClock>,
    pub pclk: Clock<PeripheralClock>,
}

/// The system clock frequency for a source and a divisor.
pub open spec fn sys_frequency(source: OscillatorSourceEnum, divisor: u32) -> u32 {
    (base_frequency_of(source) / divisor) as u32
}

/// The peripheral clock runs at half the system clock.
pub open spec fn peripheral_frequency(source: OscillatorSourceEnum, divisor: u32) -> u32 {
    (sys_frequency(source, divisor) / 2) as u32
}

/// The exponent that the divider field holds for a divisor.
fn divider_field(divisor: u32) -> (r: u8)
    requires
        valid_divisor(divisor),
    ensures
        r < 8,
        1u32 << r == divisor,
{
    let mut field: u8 = 0;
    while field < 7 && (1u32 << field) != divisor
        invariant
            field <= 7,
            valid_divisor(divisor),
            forall|k: u8| k < field ==> 1u32 << k != divisor,
        decreases 7 - field,
    {
        field = field + 1;
    }
    proof {
        assert(field == 7 ==> 1u32 << 7u8 == 128) by (bit_vector);
        assert(1u32 << 0u8 == 1 && 1u32 << 1u8 == 2 && 1u32 << 2u8 == 4 && 1u32 << 3u8 == 8
            && 1u32 << 4u8 == 16 && 1u32 << 5u8 == 32 && 1u32 << 6u8 == 64) by (bit_vector);
    }
    field
}

impl<S: OscillatorSource, D: SystemClockDivider> SystemClockConfig<S, D> {
    pub fn new() -> (r: Self) {
        SystemClockConfig { _source: PhantomData, _divider: PhantomData }
    }

    /// Selects an enabled oscillator as the source of the system clock
    /// (SYS_CLK); the owner of the hardware then waits for the system clock
    /// ready bit. The external RTC oscillator cannot be enabled, so it is
    /// never selected.
    pub fn set_source<NewS: OscillatorSource>(
        self,
        reg: &mut GcrRegisters,
        _oscillator: &Oscillator<NewS, Enabled>,
    ) -> (r: SystemClockConfig<NewS, D>)
        requires
            NewS::spec_source() != OscillatorSourceEnum::Ertco,
        ensures
            *final(reg) == (GcrRegisters { sysclk_sel: NewS::spec_source(), ..*old(reg) }),
    {
        reg.sysclk_sel = NewS::source();
        SystemClockConfig { _source: PhantomData, _divider: PhantomData }
    }

    /// Sets the divider of the system clock (SYS_CLK); the owner of the
    /// hardware then waits for the system clock ready bit.
    pub fn set_divider<NewD: SystemClockDivider>(self, reg: &mut GcrRegisters) -> (r:
        SystemClockConfig<S, NewD>)
        ensures
            *final(reg) == (GcrRegisters { sysclk_div: final(reg).sysclk_div, ..*old(reg) }),
            final(reg).sysclk_div < 8,
            1u32 << final(reg).sysclk_div == NewD::spec_divisor(),
    {
        reg.sysclk_div = divider_field(NewD::divisor());
        SystemClockConfig { _source: PhantomData, _divider: PhantomData }
    }

    /// Freezes the configuration: the system clock runs at the source's
    /// frequency over the divisor, the peripheral clock at half of that.
    pub fn freeze(self) -> (r: SystemClockResults)
        ensures
            r.sys_clk.spec_frequency() == sys_frequency(S::spec_source(), D::spec_divisor()),
            r.pclk.spec_frequency() == peripheral_frequency(S::spec_source(), D::spec_divisor()),
    {
        let divisor = D::divisor();
        let sys = S::source().base_frequency() / divisor;
        SystemClockResults { sys_clk: clock_at(sys), pclk: clock_at(sys / 2) }
    }
}

} // verus!
