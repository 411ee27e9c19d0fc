//! # Universal Asynchronous Receiver/Transmitter (UART)
//!
//! The configuration of a UART peripheral as a builder: its clock source
//! and frequency, baud rate and frame format. Building it yields the
//! settings the owner of the hardware programs, among them the baud clock
//! divisor, the clock frequency over the baud rate.
use core::marker::PhantomData;
use vstd::prelude::*;

use crate::gcr::clocks::{Clock, InternalBaudRateOscillator, PeripheralClock};

pub mod marker;

use marker::{ClockSet, NotBuilt, NotClockSet, UartClockState, UartState};

verus! {

/// The clock that drives the baud rate generator.
#[derive(Debug, Clone, Copy, PartialEq, Eq, Structural)]
pub enum UartClockSource {
    /// The peripheral clock (PCLK).
    Pclk,
    /// The internal baud rate oscillator (IBRO).
    Ibro,
}

/// Number of data bits in a UART frame.
#[derive(Debug, Clone, Copy, PartialEq, Eq, Structural)]
pub enum DataBits {
    /// 5 data bits.
    Five,
    /// 6 data bits.
    Six,
    /// 7 data bits.
    Seven,
    /// 8 data bits.
    Eight,
}

/// Number of stop bits in a UART frame.
#[derive(Debug, Clone, Copy, PartialEq, Eq, Structural)]
pub enum StopBits {
    /// 1 stop bit.
    One,
    /// 1.5 stop bits when using 5 data bits.
    /// 2 stop bits when using 6-8 data bits.
    More,
}

/// Parity bit configuration for a UART frame.
#[derive(Debug, Clone, Copy, PartialEq, Eq, Structural)]
pub enum ParityBit {
    /// Parity bit is not used.
    NoParity,
    /// The total count of 1 bits in the data frame, including the parity bit,
    /// is even.
    Even,
    /// The total count of 1 bits in the data frame, including the parity bit,
    /// is odd.
    Odd,
    /// The parity bit is always `0`.
    SpaceZero,
    /// The parity bit is always `1`.
    MarkOne,
}

/// What the owner of the hardware writes to a UART's control and clock
/// divisor registers before waiting for the baud clock to be ready.
#[derive(Debug, Clone, Copy, PartialEq, Eq, Structural)]
pub struct UartSettings {
    pub clock_source: UartClockSource,
    /// The baud clock divisor: the clock frequency over the baud rate.
    pub clkdiv: u32,
    pub data_bits: DataBits,
    pub stop_bits: StopBits,
    pub parity: ParityBit,
}

/// # Universal Asynchronous Receiver/Transmitter (UART) Peripheral
///
/// A UART under configuration. The clock source must be set before the
/// peripheral can be built.
pub struct UartPeripheral<STATE: UartState, CLOCK: UartClockState, UART, RX, TX, CTS, RTS> {
    _state: PhantomData<STATE>,
    _clock: PhantomData<CLOCK>,
    uart: UART,
    _rx_pin: RX,
    _tx_pin: TX,
    _cts_pin: CTS,
    _rts_pin: RTS,
    clk_src: Option<UartClockSource>,
    clk_src_freq: Option<u32>,
    baud: u32,
    data_bits: DataBits,
    stop_bits: StopBits,
    parity: ParityBit,
}

/// A UART peripheral that has been configured.
pub struct BuiltUartPeripheral<UART, RX, TX, CTS, RTS> {
    pub uart: UART,
    pub rx_pin: RX,
    pub tx_pin: TX,
    pub cts_pin: CTS,
    pub rts_pin: RTS,
}

impl<STATE: UartState, CLOCK: UartClockState, UART, RX, TX, CTS, RTS> UartPeripheral<
    STATE,
    CLOCK,
    UART,
    RX,
    TX,
    CTS,
    RTS,
> {
    /// Once the clock state says a clock is set, a clock source and its
    /// frequency are held.
    pub closed spec fn wf(&self) -> bool {
        CLOCK::spec_clock_set() ==> (self.clk_src is Some && self.clk_src_freq is Some)
    }

    /// The clock source chosen, if any.
    pub closed spec fn spec_clock_source(&self) -> Option<UartClockSource> {
        self.clk_src
    }

    /// The frequency of the clock chosen, if any.
    pub closed spec fn spec_clock_frequency(&self) -> Option<u32> {
        self.clk_src_freq
    }

    /// The baud rate.
    pub closed spec fn spec_baud(&self) -> u32 {
        self.baud
    }

    /// The number of data bits.
    pub closed spec fn spec_data_bits(&self) -> DataBits {
        self.data_bits
    }

    /// The number of stop bits.
    pub closed spec fn spec_stop_bits(&self) -> StopBits {
        self.stop_bits
    }

    /// The parity.
    pub closed spec fn spec_parity(&self) -> ParityBit {
        self.parity
    }
}

impl<UART, RX, TX> UartPeripheral<NotBuilt, NotClockSet, UART, RX, TX, (), ()> {
    /// A UART with its receive and transmit pins, not yet clocked: 115200
    /// baud, 8 data bits, 1 stop bit, no parity.
    pub fn new(uart: UART, rx_pin: RX, tx_pin: TX) -> (r: Self)
        ensures
            r.wf(),
            r.spec_clock_source() is None,
            r.spec_baud() == 115200,
            r.spec_data_bits() == DataBits::Eight,
            r.spec_stop_bits() == StopBits::One,
            r.spec_parity() == ParityBit::NoParity,
    {
        UartPeripheral {
            _state: PhantomData,
            _clock: PhantomData,
            uart,
            _rx_pin: rx_pin,
            _tx_pin: tx_pin,
            _cts_pin: (),
            _rts_pin: (),
            clk_src: None,
            clk_src_freq: None,
            baud: 115200,
            data_bits: DataBits::Eight,
            stop_bits: StopBits::One,
            parity: ParityBit::NoParity,
        }
    }
}

/// # Clock Methods
/// You must set the clock source for the UART peripheral after using a
/// constructor and before building the peripheral.
impl<UART, RX, TX, CTS, RTS> UartPeripheral<NotBuilt, NotClockSet, UART, RX, TX, CTS, RTS> {
    /// Set the clock source for the UART peripheral to the PCLK.
    pub fn clock_pclk(self, clock: &Clock<PeripheralClock>) -> (r: UartPeripheral<
        NotBuilt,
        ClockSet,
        UART,
        RX,
        TX,
        CTS,
        RTS,
    >)
        ensures
            r.wf(),
            r.spec_clock_source() == Some(UartClockSource::Pclk),
            r.spec_clock_frequency() == Some(clock.spec_frequency()),
            r.spec_baud() == self.spec_baud(),
            r.spec_data_bits() == self.spec_data_bits(),
            r.spec_stop_bits() == self.spec_stop_bits(),
            r.spec_parity() == self.spec_parity(),
    {
        UartPeripheral {
            _state: PhantomData,
            _clock: PhantomData,
            uart: self.uart,
            _rx_pin: self._rx_pin,
            _tx_pin: self._tx_pin,
            _cts_pin: self._cts_pin,
            _rts_pin: self._rts_pin,
            clk_src: Some(UartClockSource::Pclk),
            clk_src_freq: Some(clock.frequency()),
            baud: self.baud,
            data_bits: self.data_bits,
            stop_bits: self.stop_bits,
            parity: self.parity,
        }
    }

    /// Set the clock source for the UART peripheral to the IBRO.
    pub fn clock_ibro(self, clock: &Clock<InternalBaudRateOscillator>) -> (r: UartPeripheral<
        NotBuilt,
        ClockSet,
        UART,
        RX,
        TX,
        CTS,
        RTS,
    >)
        ensures
            r.wf(),
            r.spec_clock_source() == Some(UartClockSource::Ibro),
            r.spec_clock_frequency() == Some(clock.spec_frequency()),
            r.spec_baud() == self.spec_baud(),
            r.spec_data_bits() == self.spec_data_bits(),
            r.spec_stop_bits() == self.spec_stop_bits(),
            r.spec_parity() == self.spec_parity(),
    {
        UartPeripheral {
            _state: PhantomData,
            _clock: PhantomData,
            uart: self.uart,
            _rx_pin: self._rx_pin,
            _tx_pin: self._tx_pin,
            _cts_pin: self._cts_pin,
            _rts_pin: self._rts_pin,
            clk_src: Some(UartClockSource::Ibro),
            clk_src_freq: Some(clock.frequency()),
            baud: self.baud,
            data_bits: self.data_bits,
            stop_bits: self.stop_bits,
            parity: self.parity,
        }
    }
}

/// # Builder Methods
/// These methods are used to configure the UART peripheral before it is built
/// to be used.
impl<CLOCK: UartClockState, UART, RX, TX, CTS, RTS> UartPeripheral<
    NotBuilt,
    CLOCK,
    UART,
    RX,
    TX,
    CTS,
    RTS,
> {
    /// Set the baud rate (bits per second) for the UART peripheral.
    ///
    /// Default: `115200`
    pub fn baud(self, baud: u32) -> (r: Self)
        requires
            self.wf(),
        ensures
            r.wf(),
            r.spec_baud() == baud,
            r.spec_clock_source() == self.spec_clock_source(),
            r.spec_clock_frequency() == self.spec_clock_frequency(),
            r.spec_data_bits() == self.spec_data_bits(),
            r.spec_stop_bits() == self.spec_stop_bits(),
            r.spec_parity() == self.spec_parity(),
    {
        UartPeripheral { baud, ..self }
    }

    /// Set the number of data bits for the UART peripheral.
    ///
    /// Default: [`DataBits::Eight`]
    pub fn data_bits(self, data_bits: DataBits) -> (r: Self)
        requires
            self.wf(),
        ensures
            r.wf(),
            r.spec_data_bits() == data_bits,
            r.spec_clock_source() == self.spec_clock_source(),
            r.spec_clock_frequency() == self.spec_clock_frequency(),
            r.spec_baud() == self.spec_baud(),
            r.spec_stop_bits() == self.spec_stop_bits(),
            r.spec_parity() == self.spec_parity(),
    {
        UartPeripheral { data_bits, ..self }
    }

    /// Set the number of stop bits for the UART peripheral.
    ///
    /// Default: [`StopBits::One`]
    pub fn stop_bits(self, stop_bits: StopBits) -> (r: Self)
        requires
            self.wf(),
        ensures
            r.wf(),
            r.spec_stop_bits() == stop_bits,
            r.spec_clock_source() == self.spec_clock_source(),
            r.spec_clock_frequency() == self.spec_clock_frequency(),
            r.spec_baud() == self.spec_baud(),
            r.spec_data_bits() == self.spec_data_bits(),
            r.spec_parity() == self.spec_parity(),
    {
        UartPeripheral { stop_bits, ..self }
    }

    /// Set the parity for the UART peripheral.
    ///
    /// Default: [`ParityBit::NoParity`]
    pub fn parity(self, parity: ParityBit) -> (r: Self)
        requires
            self.wf(),
        ensures
            r.wf(),
            r.spec_parity() == parity,
            r.spec_clock_source() == self.spec_clock_source(),
            r.spec_clock_frequency() == self.spec_clock_frequency(),
            r.spec_baud() == self.spec_baud(),
            r.spec_data_bits() == self.spec_data_bits(),
            r.spec_stop_bits() == self.spec_stop_bits(),
    {
        UartPeripheral { parity, ..self }
    }
}

impl<UART, RX, TX, CTS, RTS> UartPeripheral<NotBuilt, ClockSet, UART, RX, TX, CTS, RTS> {
    /// The baud rate set.
    pub fn baud_rate(&self) -> (r: u32)
        ensures
            r == self.spec_baud(),
    {
        self.baud
    }

    /// Applies all settings: hands back the peripheral and pins, and the
    /// register settings for the owner of the hardware to program, with the
    /// baud clock divisor at the clock frequency over the baud rate. A baud
    /// rate of zero has no divisor.
    pub fn build(self) -> (r: (BuiltUartPeripheral<UART, RX, TX, CTS, RTS>, UartSettings))
        requires
            self.wf(),
            self.spec_baud() > 0,
        ensures
            Some(r.1.clock_source) == self.spec_clock_source(),
            r.1.clkdiv == self.spec_clock_frequency()->0 / self.spec_baud(),
            r.1.data_bits == self.spec_data_bits(),
            r.1.stop_bits == self.spec_stop_bits(),
            r.1.parity == self.spec_parity(),
    {
        let (clock_source, frequency) = match (self.clk_src, self.clk_src_freq) {
            (Some(s), Some(f)) => (s, f),
            _ => (UartClockSource::Pclk, 0),
        };
        let settings = UartSettings {
            clock_source,
            clkdiv: frequency / self.baud,
            data_bits: self.data_bits,
            stop_bits: self.stop_bits,
            parity: self.parity,
        };
        let built = BuiltUartPeripheral {
            uart: self.uart,
            rx_pin: self._rx_pin,
            tx_pin: self._tx_pin,
            cts_pin: self._cts_pin,
            rts_pin: self._rts_pin,
        };
        (built, settings)
    }
}

} // verus!
