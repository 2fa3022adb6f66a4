//! Register images of a UART.
//!
//! The image holds the configuration registers, which read back what was
//! written. The line status register changes when it is read and the data
//! registers move bytes, so they are no part of the image: the driver is
//! handed what was read, and says what to do next.

use vstd::prelude::*;

verus! {

/// Transmitter FIFO trigger level of the coarse threshold field.
#[allow(non_camel_case_types)]
#[derive(Debug, Copy, Clone, PartialEq, Eq, Structural)]
pub enum TxFifoTrigger {
    /// One byte or more of empty space in the FIFO.
    NOT_FULL,
    /// Less than three quarters full.
    LT_THREE_QUARTER,
    /// Less than half full.
    LT_HALF,
    /// Less than one quarter full.
    LT_ONE_QUARTER,
}

/// Receiver FIFO trigger level of the coarse threshold field.
#[allow(non_camel_case_types)]
#[derive(Debug, Copy, Clone, PartialEq, Eq, Structural)]
pub enum RxFifoTrigger {
    /// One byte.
    NOT_EMPTY,
    /// More than one quarter full.
    GT_ONE_QUARTER,
    /// More than half full.
    GT_HALF,
    /// More than three quarters full.
    GT_THREE_QUARTER,
}

/// Interrupt enable register.
#[derive(Debug, Copy, Clone, PartialEq, Eq, Structural)]
pub struct Ier {
    /// Received data available.
    pub erbi: bool,
    /// Transmitter holding register empty.
    pub ethei: bool,
    /// Receiver line status.
    pub elsi: bool,
    /// Modem status.
    pub emsi: bool,
    /// Data lost.
    pub edatlost: bool,
    /// Address match followed by idle.
    pub eaddrm_idle: bool,
    /// Address match.
    pub eaddrm: bool,
    /// Transmitter idle.
    pub etxidle: bool,
    /// Receiver idle.
    pub erxidle: bool,
}

impl Ier {
    /// Every interrupt source disabled.
    pub open spec fn spec_none() -> Self {
        Ier {
            erbi: false,
            ethei: false,
            elsi: false,
            emsi: false,
            edatlost: false,
            eaddrm_idle: false,
            eaddrm: false,
            etxidle: false,
            erxidle: false,
        }
    }

    /// Every interrupt source disabled.
    #[verifier::when_used_as_spec(spec_none)]
    pub fn none() -> (r: Self)
        ensures
            r == Self::spec_none(),
    {
        Ier {
            erbi: false,
            ethei: false,
            elsi: false,
            emsi: false,
            edatlost: false,
            eaddrm_idle: false,
            eaddrm: false,
            etxidle: false,
            erxidle: false,
        }
    }
}

/// Line control register.
#[derive(Debug, Copy, Clone, PartialEq, Eq, Structural)]
pub struct Lcr {
    /// Word length: the number of data bits less five.
    pub wls: u8,
    /// More than one stop bit.
    pub stb: bool,
    /// Parity enable.
    pub pen: bool,
    /// Parity select.
    pub eps: bool,
    /// Stick parity.
    pub sps: bool,
    /// Break control.
    pub bc: bool,
    /// Divisor latch access.
    pub dlab: bool,
}

impl Lcr {
    /// The register with every field zero.
    pub open spec fn spec_zero() -> Self {
        Lcr { wls: 0, stb: false, pen: false, eps: false, sps: false, bc: false, dlab: false }
    }

    /// The register with every field zero.
    #[verifier::when_used_as_spec(spec_zero)]
    pub fn zero() -> (r: Self)
        ensures
            r == Self::spec_zero(),
    {
        Lcr { wls: 0, stb: false, pen: false, eps: false, sps: false, bc: false, dlab: false }
    }
}

/// FIFO control register. Its two reset bits clear themselves and are no
/// part of the image; see [`UartRegs::rx_fifo_reset`].
#[derive(Debug, Copy, Clone, PartialEq, Eq, Structural)]
pub struct Fcr {
    /// FIFO enable.
    pub fifoe: bool,
    /// DMA request generation.
    pub dmae: bool,
    /// Transmitter FIFO trigger level.
    pub tfifot: TxFifoTrigger,
    /// Receiver FIFO trigger level.
    pub rfifot: RxFifoTrigger,
}

impl Fcr {
    /// The register with every field zero.
    pub open spec fn spec_zero() -> Self {
        Fcr {
            fifoe: false,
            dmae: false,
            tfifot: TxFifoTrigger::NOT_FULL,
            rfifot: RxFifoTrigger::NOT_EMPTY,
        }
    }

    /// The register with every field zero.
    #[verifier::when_used_as_spec(spec_zero)]
    pub fn zero() -> (r: Self)
        ensures
            r == Self::spec_zero(),
    {
        Fcr {
            fifoe: false,
            dmae: false,
            tfifot: TxFifoTrigger::NOT_FULL,
            rfifot: RxFifoTrigger::NOT_EMPTY,
        }
    }
}

/// FIFO control register of the UARTs with fine thresholds, without its
/// two reset bits.
#[derive(Debug, Copy, Clone, PartialEq, Eq, Structural)]
pub struct Fcrr {
    /// FIFO enable.
    pub fifoe: bool,
    /// DMA request generation.
    pub dmae: bool,
    /// Transmitter FIFO trigger level, coarse.
    pub tfifot: TxFifoTrigger,
    /// Receiver FIFO trigger level, coarse.
    pub rfifot: RxFifoTrigger,
    /// Receiver FIFO threshold in bytes less one.
    pub rfifot4: u8,
    /// Transmitter FIFO threshold in bytes less one.
    pub tfifot4: u8,
    /// Use the fine thresholds in place of the coarse trigger levels.
    pub fifot4en: bool,
}

impl Fcrr {
    /// The register with every field zero.
    pub open spec fn spec_zero() -> Self {
        Fcrr {
            fifoe: false,
            dmae: false,
            tfifot: TxFifoTrigger::NOT_FULL,
            rfifot: RxFifoTrigger::NOT_EMPTY,
            rfifot4: 0,
            tfifot4: 0,
            fifot4en: false,
        }
    }

    /// The register with every field zero.
    #[verifier::when_used_as_spec(spec_zero)]
    pub fn zero() -> (r: Self)
        ensures
            r == Self::spec_zero(),
    {
        Fcrr {
            fifoe: false,
            dmae: false,
            tfifot: TxFifoTrigger::NOT_FULL,
            rfifot: RxFifoTrigger::NOT_EMPTY,
            rfifot4: 0,
            tfifot4: 0,
            fifot4en: false,
        }
    }
}

/// Idle configuration register.
#[derive(Debug, Copy, Clone, PartialEq, Eq, Structural)]
pub struct IdleCfg {
    /// Bit times of silence after which the receive line counts as idle.
    pub rx_idle_thr: u8,
    /// Receive idle detection enable.
    pub rx_idle_en: bool,
    /// Idle is judged by the receiver's state machine, not by the line.
    pub rx_idle_cond: bool,
    /// Receiver enable.
    pub rxen: bool,
    /// Bit times of silence after which the transmit line counts as idle.
    pub tx_idle_thr: u8,
    /// Transmit idle detection enable.
    pub tx_idle_en: bool,
    /// Idle is judged by the transmitter's state machine, not by the line.
    pub tx_idle_cond: bool,
}

/// A reading of the line status register.
#[derive(Debug, Copy, Clone, PartialEq, Eq, Structural)]
pub struct Lsr {
    /// Data ready.
    pub dr: bool,
    /// Overrun error.
    pub oe: bool,
    /// Parity error.
    pub pe: bool,
    /// Framing error.
    pub fe: bool,
    /// Line break.
    pub lbreak: bool,
    /// Transmitter holding register empty.
    pub thre: bool,
    /// Transmitter empty.
    pub temt: bool,
    /// Error in the receiver FIFO.
    pub errf: bool,
    /// Receive line idle.
    pub rxidle: bool,
}

impl Lsr {
    /// The reading with no flag set.
    pub open spec fn spec_zero() -> Self {
        Lsr {
            dr: false,
            oe: false,
            pe: false,
            fe: false,
            lbreak: false,
            thre: false,
            temt: false,
            errf: false,
            rxidle: false,
        }
    }

    /// The reading with no flag set.
    #[verifier::when_used_as_spec(spec_zero)]
    pub fn zero() -> (r: Self)
        ensures
            r == Self::spec_zero(),
    {
        Lsr {
            dr: false,
            oe: false,
            pe: false,
            fe: false,
            lbreak: false,
            thre: false,
            temt: false,
            errf: false,
            rxidle: false,
        }
    }

    /// One of the five error flags is set.
    pub open spec fn spec_has_errors(&self) -> bool {
        self.pe || self.fe || self.oe || self.errf || self.lbreak
    }

    /// Whether one of the five error flags is set.
    #[verifier::when_used_as_spec(spec_has_errors)]
    pub fn has_errors(&self) -> (r: bool)
        ensures
            r == self.spec_has_errors(),
    {
        self.pe || self.fe || self.oe || self.errf || self.lbreak
    }
}

/// The configuration registers of one UART.
#[derive(Debug, Copy, Clone, PartialEq, Eq, Structural)]
pub struct UartRegs {
    /// Interrupt enable register.
    pub ier: Ier,
    /// Line control register.
    pub lcr: Lcr,
    /// Oversampling factor; zero stands for 32.
    pub oscr: u8,
    /// Divisor latch, low byte.
    pub dll: u8,
    /// Divisor latch, high byte.
    pub dlm: u8,
    /// FIFO control register as last written. The register cannot be read
    /// back; the scratch register keeps its value.
    pub fcr: Fcr,
    /// Scratch register, which shadows the FIFO control register.
    pub gpr: Fcr,
    /// FIFO control register of the UARTs with fine thresholds.
    pub fcrr: Fcrr,
    /// Idle configuration register.
    pub idle_cfg: IdleCfg,
    /// Receive idle flag of the second interrupt identification register.
    pub rxidle_flag: bool,
    /// The receiver FIFO has been emptied by a reset.
    pub rx_fifo_reset: bool,
    /// The transmitter FIFO has been emptied by a reset.
    pub tx_fifo_reset: bool,
}

/// The UART's line at the interrupt controller.
#[derive(Debug, Copy, Clone, PartialEq, Eq, Structural)]
pub struct InterruptLine {
    /// The interrupt is enabled.
    pub enabled: bool,
    /// An interrupt is pending.
    pub pending: bool,
}

impl UartRegs {
    /// A UART after reset: every register zero, no FIFO reset yet.
    pub open spec fn spec_reset() -> Self {
        UartRegs {
            ier: Ier::spec_none(),
            lcr: Lcr::spec_zero(),
            oscr: 0,
            dll: 0,
            dlm: 0,
            fcr: Fcr::spec_zero(),
            gpr: Fcr::spec_zero(),
            fcrr: Fcrr::spec_zero(),
            idle_cfg: IdleCfg {
                rx_idle_thr: 0,
                rx_idle_en: false,
                rx_idle_cond: false,
                rxen: false,
                tx_idle_thr: 0,
                tx_idle_en: false,
                tx_idle_cond: false,
            },
            rxidle_flag: false,
            rx_fifo_reset: false,
            tx_fifo_reset: false,
        }
    }

    /// A UART after reset.
    pub fn new() -> (r: Self)
        ensures
            r == Self::spec_reset(),
    {
        UartRegs {
            ier: Ier::none(),
            lcr: Lcr::zero(),
            oscr: 0,
            dll: 0,
            dlm: 0,
            fcr: Fcr::zero(),
            gpr: Fcr::zero(),
            fcrr: Fcrr::zero(),
            idle_cfg: IdleCfg {
                rx_idle_thr: 0,
                rx_idle_en: false,
                rx_idle_cond: false,
                rxen: false,
                tx_idle_thr: 0,
                tx_idle_en: false,
                tx_idle_cond: false,
            },
            rxidle_flag: false,
            rx_fifo_reset: false,
            tx_fifo_reset: false,
        }
    }
}

} // verus!
