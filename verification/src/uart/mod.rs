//! UART, Universal Asynchronous Receiver/Transmitter.
//!
//! UARTs differ in what they can do. [`Features`] names the differences:
//! idle line detection, the FIFO control register with fine thresholds, a
//! receiver enable bit, a second interrupt identification register that
//! holds the idle flag, and the 9-bit mode.
//!
//! The drivers work on images of the configuration registers
//! ([`regs::UartRegs`]). What the hardware changes by itself comes in as an
//! argument: a reading of the line status register, the number of transfers
//! a DMA channel has left, which of two conditions was met first. Waiting
//! is the caller's part: a blocking operation is one look at the hardware,
//! to be repeated as its result says; an asynchronous one is a beginning, a
//! poll and an end.

pub mod baudrate;
pub mod blocking;
pub mod config;
pub mod duplex;
pub mod interrupt;
pub mod read;
pub mod regs;
pub mod rx;
pub mod state;
pub mod tx;

use vstd::prelude::*;
use crate::sysctl::{ClockPeripheral, PeripheralClock};
pub use baudrate::calculate_baudrate;
pub use blocking::{blocking_flush, blocking_write_step, check_line_error, NbError, WaitStep};
pub use config::{configure, reconfigure, set_dma_requests};
pub use duplex::Uart;
pub use interrupt::{on_interrupt, InterruptHandler};
pub use read::{check_read_length, cleanup_read, complete_read, First, ReadCompletionEvent};
pub use regs::{RxFifoTrigger, TxFifoTrigger};
pub use rx::{ReadStarted, UartRx};
pub use state::{drop_tx_rx, State};
pub use tx::UartTx;

verus! {

/// The budget of a blocking wait: the count of looks that found nothing
/// beyond which the wait is given up.
pub const HPM_UART_DRV_RETRY_COUNT: u32 = 5000;

/// The longest buffer one DMA transfer can fill.
pub const MAX_DMA_BUFFER: usize = 0xFFFF;

/// Bit times of silence after which the receive line counts as idle.
pub const RX_IDLE_THRESHOLD: u8 = 10;

/// Word length, number of data bits.
#[derive(Clone, Copy, PartialEq, Eq, Debug, Structural)]
pub enum DataBits {
    /// 5 Data Bits
    DataBits5,
    /// 6 Data Bits
    DataBits6,
    /// 7 Data Bits
    DataBits7,
    /// 8 Data Bits
    DataBits8,
}

impl DataBits {
    /// The word length field: the number of data bits less five.
    pub open spec fn spec_bits(self) -> u8 {
        match self {
            DataBits::DataBits5 => 0,
            DataBits::DataBits6 => 1,
            DataBits::DataBits7 => 2,
            DataBits::DataBits8 => 3,
        }
    }

    /// The word length field: the number of data bits less five.
    #[verifier::when_used_as_spec(spec_bits)]
    pub fn bits(self) -> (r: u8)
        ensures
            r == self.spec_bits(),
    {
        match self {
            DataBits::DataBits5 => 0,
            DataBits::DataBits6 => 1,
            DataBits::DataBits7 => 2,
            DataBits::DataBits8 => 3,
        }
    }
}

/// Parity
#[derive(Clone, Copy, PartialEq, Eq, Debug, Structural)]
pub enum Parity {
    /// No parity
    ParityNone,
    /// Even Parity
    ParityEven,
    /// Odd Parity
    ParityOdd,
    /// Always 1
    ParityAlways1,
    /// Always 0
    ParityAlways0,
}

/// Number of stop bits
#[derive(Clone, Copy, PartialEq, Eq, Debug, Structural)]
pub enum StopBits {
    /// 1 stop bit
    STOP1,
    /// 1.5 stop bits
    STOP1P5,
    /// 2 stop bits
    STOP2,
}

/// Config Error
#[non_exhaustive]
#[derive(Clone, Copy, PartialEq, Eq, Debug, Structural)]
pub enum ConfigError {
    /// Baudrate too low
    BaudrateTooLow,
    /// Baudrate too high
    BaudrateTooHigh,
    /// Rx or Tx not enabled
    RxOrTxNotEnabled,
}

/// FIFO trigger level, 1 to 16
#[derive(Clone, Copy, PartialEq, Eq, Debug, Structural)]
pub enum FifoTriggerLevel {
    Byte1,
    Byte2,
    Byte3,
    Byte4,
    Byte5,
    Byte6,
    Byte7,
    Byte8,
    Byte9,
    Byte10,
    Byte11,
    Byte12,
    Byte13,
    Byte14,
    Byte15,
    Byte16,
}

impl FifoTriggerLevel {
    /// The threshold field: the number of bytes less one.
    pub open spec fn spec_bits(self) -> u8 {
        match self {
            FifoTriggerLevel::Byte1 => 0,
            FifoTriggerLevel::Byte2 => 1,
            FifoTriggerLevel::Byte3 => 2,
            FifoTriggerLevel::Byte4 => 3,
            FifoTriggerLevel::Byte5 => 4,
            FifoTriggerLevel::Byte6 => 5,
            FifoTriggerLevel::Byte7 => 6,
            FifoTriggerLevel::Byte8 => 7,
            FifoTriggerLevel::Byte9 => 8,
            FifoTriggerLevel::Byte10 => 9,
            FifoTriggerLevel::Byte11 => 10,
            FifoTriggerLevel::Byte12 => 11,
            FifoTriggerLevel::Byte13 => 12,
            FifoTriggerLevel::Byte14 => 13,
            FifoTriggerLevel::Byte15 => 14,
            FifoTriggerLevel::Byte16 => 15,
        }
    }

    /// The threshold field: the number of bytes less one.
    #[verifier::when_used_as_spec(spec_bits)]
    pub fn bits(self) -> (r: u8)
        ensures
            r == self.spec_bits(),
    {
        match self {
            FifoTriggerLevel::Byte1 => 0,
            FifoTriggerLevel::Byte2 => 1,
            FifoTriggerLevel::Byte3 => 2,
            FifoTriggerLevel::Byte4 => 3,
            FifoTriggerLevel::Byte5 => 4,
            FifoTriggerLevel::Byte6 => 5,
            FifoTriggerLevel::Byte7 => 6,
            FifoTriggerLevel::Byte8 => 7,
            FifoTriggerLevel::Byte9 => 8,
            FifoTriggerLevel::Byte10 => 9,
            FifoTriggerLevel::Byte11 => 10,
            FifoTriggerLevel::Byte12 => 11,
            FifoTriggerLevel::Byte13 => 12,
            FifoTriggerLevel::Byte14 => 13,
            FifoTriggerLevel::Byte15 => 14,
            FifoTriggerLevel::Byte16 => 15,
        }
    }
}

/// UART configuration.
#[non_exhaustive]
#[derive(Clone, Copy, PartialEq, Eq, Debug)]
pub struct Config {
    /// Baud rate
    pub baudrate: u32,
    /// Number of data bits
    pub data_bits: DataBits,
    /// Number of stop bits
    pub stop_bits: StopBits,
    /// Parity type
    pub parity: Parity,
    /// FIFO trigger levels, transmitter and receiver, of a UART with coarse
    /// thresholds. `None` leaves the FIFOs off.
    pub fifo_level: Option<(TxFifoTrigger, RxFifoTrigger)>,
    /// FIFO thresholds, transmitter and receiver, of a UART with fine
    /// thresholds. `None` leaves the FIFOs off.
    pub fine_fifo_level: Option<(FifoTriggerLevel, FifoTriggerLevel)>,
    /// If true: on a read-like method, if there is a latent error pending,
    /// the read will abort and the error will be reported and cleared
    ///
    /// If false: the error is ignored and cleared
    pub detect_previous_overrun: bool,
}

impl Config {
    /// 115200 baud, eight data bits, one stop bit, no parity; the
    /// transmitter asks for data when its FIFO has room, the receiver hands
    /// data on from the first byte; earlier overruns are not reported.
    pub open spec fn spec_default() -> Self {
        Config {
            baudrate: 115200,
            data_bits: DataBits::DataBits8,
            stop_bits: StopBits::STOP1,
            parity: Parity::ParityNone,
            fifo_level: Some((TxFifoTrigger::NOT_FULL, RxFifoTrigger::NOT_EMPTY)),
            fine_fifo_level: Some((FifoTriggerLevel::Byte16, FifoTriggerLevel::Byte1)),
            detect_previous_overrun: false,
        }
    }
}

impl Default for Config {
    fn default() -> (r: Self)
        ensures
            r == Self::spec_default(),
    {
        Config {
            baudrate: 115200,
            data_bits: DataBits::DataBits8,
            stop_bits: StopBits::STOP1,
            parity: Parity::ParityNone,
            fifo_level: Some((TxFifoTrigger::NOT_FULL, RxFifoTrigger::NOT_EMPTY)),
            fine_fifo_level: Some((FifoTriggerLevel::Byte16, FifoTriggerLevel::Byte1)),
            detect_previous_overrun: false,
        }
    }
}

/// Serial error
#[derive(Debug, Eq, PartialEq, Copy, Clone, Structural)]
#[non_exhaustive]
pub enum Error {
    /// Framing error
    Framing,
    /// RX buffer overrun
    Overrun,
    /// Parity check error
    Parity,
    /// Buffer too large for DMA
    BufferTooLong,
    /// FIFO error
    FIFO,
    /// Timeout
    Timeout,
    /// Line break
    LineBreak,
}

/// The kinds of serial error that generic serial code tells apart.
#[derive(Debug, Eq, PartialEq, Copy, Clone, Structural)]
pub enum ErrorKind {
    /// The peripheral receive buffer was overrun.
    Overrun,
    /// Received data does not conform to the peripheral configuration.
    FrameFormat,
    /// Parity check failed.
    Parity,
    /// A different error occurred.
    Other,
}

impl Error {
    /// The generic kind of the error.
    pub open spec fn spec_kind(&self) -> ErrorKind {
        match self {
            Error::Framing => ErrorKind::FrameFormat,
            Error::Overrun => ErrorKind::Overrun,
            Error::Parity => ErrorKind::Parity,
            Error::FIFO => ErrorKind::Overrun,
            Error::BufferTooLong | Error::Timeout | Error::LineBreak => ErrorKind::Other,
        }
    }

    /// The generic kind of the error.
    #[verifier::when_used_as_spec(spec_kind)]
    pub fn kind(&self) -> (k: ErrorKind)
        ensures
            k == self.spec_kind(),
    {
        match *self {
            Error::Framing => ErrorKind::FrameFormat,
            Error::Overrun => ErrorKind::Overrun,
            Error::Parity => ErrorKind::Parity,
            Error::BufferTooLong => ErrorKind::Other,
            Error::Timeout => ErrorKind::Other,
            Error::FIFO => ErrorKind::Overrun,
            Error::LineBreak => ErrorKind::Other,
        }
    }
}

/// What a UART can do beyond the common core.
#[derive(Debug, Eq, PartialEq, Copy, Clone, Structural)]
pub struct Features {
    /// The receiver detects an idle line.
    pub rx_idle_detect: bool,
    /// FIFO and DMA control sit in the register with fine thresholds.
    pub fine_fifo_thrld: bool,
    /// The receiver has an enable bit.
    pub rx_en: bool,
    /// The idle flag sits in the second interrupt identification register.
    pub e00018_fix: bool,
    /// The UART has the 9-bit mode, and with it the idle flags of the
    /// line status register.
    pub nine_bit_mode: bool,
}

/// What the driver knows of one UART instance.
#[derive(Debug, Eq, PartialEq, Copy, Clone, Structural)]
pub struct Info {
    /// What this UART can do.
    pub features: Features,
    /// The UART's clock resource.
    pub resource: usize,
    /// The UART's clock node.
    pub clock: usize,
}

impl Info {
    /// The UART's clock node and resource.
    pub open spec fn spec_peripheral_clock(&self) -> PeripheralClock {
        PeripheralClock { sysctl_clock: self.clock, sysctl_resource: self.resource }
    }

    /// The UART's clock node and resource.
    #[verifier::when_used_as_spec(spec_peripheral_clock)]
    pub fn peripheral_clock(&self) -> (c: PeripheralClock)
        ensures
            c == self.spec_peripheral_clock(),
    {
        PeripheralClock { sysctl_clock: self.clock, sysctl_resource: self.resource }
    }
}

/// USART peripheral instance trait.
pub trait Instance: ClockPeripheral {
    /// What the driver knows of the instance.
    fn info() -> Info;
}

} // verus!
