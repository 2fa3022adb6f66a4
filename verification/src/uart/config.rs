//! Configuration of a UART: baud rate, line control and FIFOs.

use vstd::prelude::*;
use crate::time::Hertz;
use crate::uart::baudrate::{baudrate_setting, calculate_baudrate};
use crate::uart::regs::{Fcr, Fcrr, IdleCfg, Ier, InterruptLine, Lcr, UartRegs};
use crate::uart::{Config, ConfigError, Features, Info, Parity, StopBits, RX_IDLE_THRESHOLD};

verus! {

/// Whether DMA requests are generated.
pub open spec fn dma_requests(r: UartRegs, features: Features) -> bool {
    if features.fine_fifo_thrld {
        r.fcrr.dmae
    } else {
        r.fcr.dmae
    }
}

/// The registers with DMA request generation switched on or off. A UART
/// with coarse thresholds takes the rest of its FIFO control register from
/// the scratch register.
pub open spec fn with_dma_requests(r: UartRegs, features: Features, on: bool) -> UartRegs {
    if features.fine_fifo_thrld {
        UartRegs { fcrr: Fcrr { dmae: on, ..r.fcrr }, ..r }
    } else {
        UartRegs { fcr: Fcr { dmae: on, ..r.gpr }, ..r }
    }
}

/// Switches DMA request generation on or off.
pub fn set_dma_requests(r: &mut UartRegs, features: Features, on: bool)
    ensures
        *final(r) == with_dma_requests(*old(r), features, on),
        dma_requests(*final(r), features) == on,
{
    if features.fine_fifo_thrld {
        r.fcrr.dmae = on;
    } else {
        let mut fcr = r.gpr;
        fcr.dmae = on;
        r.fcr = fcr;
    }
}

/// The parity is one of the two that hold the parity bit at a constant.
pub open spec fn parity_sticks(parity: Parity) -> bool {
    parity == Parity::ParityAlways1 || parity == Parity::ParityAlways0
}

/// The line control register for a configuration: the word length, more
/// than one stop bit unless one is asked for, parity on unless none is
/// asked for, the parity select set for odd and for always-1 parity, stick
/// parity for the two modes with a constant parity bit, and the divisor
/// latch closed.
pub open spec fn line_control(config: Config) -> Lcr {
    Lcr {
        wls: config.data_bits.spec_bits(),
        stb: config.stop_bits != StopBits::STOP1,
        pen: config.parity != Parity::ParityNone,
        eps: config.parity == Parity::ParityOdd || config.parity == Parity::ParityAlways1,
        sps: parity_sticks(config.parity),
        bc: false,
        dlab: false,
    }
}

/// The two modes with a constant parity bit differ from odd and even parity
/// in the line control: they alone set stick parity.
pub proof fn lemma_stick_parity_is_a_mode_of_its_own(a: Config, b: Config)
    requires
        parity_sticks(a.parity),
        !parity_sticks(b.parity),
    ensures
        line_control(a) != line_control(b),
        line_control(a).sps,
        line_control(a).pen,
{
}

/// The FIFO control register of a UART with coarse thresholds for a
/// configuration: the FIFOs on at their trigger levels, or off.
pub open spec fn coarse_fifo_control(config: Config) -> Fcr {
    match config.fifo_level {
        Some((tx, rx)) => Fcr { fifoe: true, dmae: false, tfifot: tx, rfifot: rx },
        None => Fcr::spec_zero(),
    }
}

/// The FIFO control register of a UART with fine thresholds for a
/// configuration: the FIFOs on at their thresholds, or off.
pub open spec fn fine_fifo_control(config: Config) -> Fcrr {
    match config.fine_fifo_level {
        Some((tx, rx)) => Fcrr {
            fifoe: true,
            fifot4en: true,
            tfifot4: tx.spec_bits(),
            rfifot4: rx.spec_bits(),
            ..Fcrr::spec_zero()
        },
        None => Fcrr::spec_zero(),
    }
}

/// The registers that `configure` leaves for a divider, an oversample
/// value and a configuration: every interrupt off, the divider in the two
/// halves of the divisor latch, the line control of the configuration with
/// the divisor latch closed, both FIFOs reset and set up in the FIFO
/// control register that the UART has, and the receiver enabled, with its
/// idle threshold, where the UART has an enable bit for it and reception is
/// asked for.
pub open spec fn configured(
    r: UartRegs,
    features: Features,
    div: u16,
    osc: u8,
    config: Config,
    enable_rx: bool,
) -> UartRegs {
    UartRegs {
        ier: Ier::spec_none(),
        lcr: line_control(config),
        oscr: osc,
        dll: (div & 0xFF) as u8,
        dlm: (div >> 8) as u8,
        fcr: if features.fine_fifo_thrld {
            r.fcr
        } else {
            coarse_fifo_control(config)
        },
        gpr: if features.fine_fifo_thrld {
            r.gpr
        } else {
            coarse_fifo_control(config)
        },
        fcrr: if features.fine_fifo_thrld {
            fine_fifo_control(config)
        } else {
            r.fcrr
        },
        idle_cfg: if features.rx_en && enable_rx {
            IdleCfg { rxen: true, rx_idle_thr: RX_IDLE_THRESHOLD, ..r.idle_cfg }
        } else {
            r.idle_cfg
        },
        rxidle_flag: r.rxidle_flag,
        rx_fifo_reset: true,
        tx_fifo_reset: true,
    }
}

/// What `configure` returns: the error for a UART with neither direction
/// enabled, the error for a rate that has no setting, success otherwise.
pub open spec fn configure_result(kernel_clock: Hertz, config: Config, enable_rx: bool, enable_tx: bool)
    -> Result<(), ConfigError> {
    if !enable_rx && !enable_tx {
        Err(ConfigError::RxOrTxNotEnabled)
    } else if baudrate_setting(kernel_clock.0, config.baudrate) is None {
        Err(ConfigError::BaudrateTooHigh)
    } else {
        Ok(())
    }
}

/// The line control register for a configuration.
fn line_control_of(config: &Config) -> (lcr: Lcr)
    ensures
        lcr == line_control(*config),
{
    let mut lcr = Lcr::zero();
    match config.parity {
        Parity::ParityNone => {
            lcr.pen = false;
        },
        Parity::ParityEven => {
            lcr.pen = true;
            lcr.eps = false;
        },
        Parity::ParityOdd => {
            lcr.pen = true;
            lcr.eps = true;
        },
        Parity::ParityAlways1 => {
            lcr.pen = true;
            lcr.eps = true;
            lcr.sps = true;
        },
        Parity::ParityAlways0 => {
            lcr.pen = true;
            lcr.eps = false;
            lcr.sps = true;
        },
    }
    lcr.stb = config.stop_bits != StopBits::STOP1;
    lcr.wls = config.data_bits.bits();
    lcr
}

/// The FIFO control register of a UART with coarse thresholds.
fn coarse_fifo_control_of(config: &Config) -> (fcr: Fcr)
    ensures
        fcr == coarse_fifo_control(*config),
{
    let mut fcr = Fcr::zero();
    if let Some((tx_fifo_level, rx_fifo_level)) = config.fifo_level {
        fcr.fifoe = true;
        fcr.tfifot = tx_fifo_level;
        fcr.rfifot = rx_fifo_level;
    }
    fcr
}

/// The FIFO control register of a UART with fine thresholds.
fn fine_fifo_control_of(config: &Config) -> (fcrr: Fcrr)
    ensures
        fcrr == fine_fifo_control(*config),
{
    let mut fcrr = Fcrr::zero();
    if let Some((tx_fifo_level, rx_fifo_level)) = config.fine_fifo_level {
        fcrr.fifoe = true;
        fcrr.fifot4en = true;
        fcrr.tfifot4 = tx_fifo_level.bits();
        fcrr.rfifot4 = rx_fifo_level.bits();
    }
    fcrr
}

/// Configures the UART: baud rate, line control and FIFOs, with every
/// interrupt disabled and both FIFOs reset.
///
/// Nothing is written unless the configuration is valid.
pub fn configure(
    r: &mut UartRegs,
    info: &Info,
    kernel_clock: Hertz,
    config: &Config,
    enable_rx: bool,
    enable_tx: bool,
) -> (res: Result<(), ConfigError>)
    ensures
        res == configure_result(kernel_clock, *config, enable_rx, enable_tx),
        res is Err ==> *final(r) == *old(r),
        res is Ok ==> ({
            let (div, osc) = baudrate_setting(kernel_clock.0, config.baudrate).unwrap();
            *final(r) == configured(*old(r), info.features, div, osc, *config, enable_rx)
        }),
{
    if !enable_rx && !enable_tx {
        return Err(ConfigError::RxOrTxNotEnabled);
    }
    let (div, osc) = match calculate_baudrate(kernel_clock.0, config.baudrate) {
        Some(setting) => setting,
        None => {
            return Err(ConfigError::BaudrateTooHigh);
        },
    };
    let now = *r;
    let features = info.features;
    // every interrupt off; the divider goes in with the divisor latch
    // open, which the line control closes again
    let divided = UartRegs {
        ier: Ier::none(),
        oscr: osc,
        dll: (div & 0xFF) as u8,
        dlm: (div >> 8) as u8,
        lcr: line_control_of(config),
        ..now
    };
    // both FIFOs are reset, then set up; the FIFO control register with
    // coarse thresholds cannot be read back, so the scratch register keeps
    // what was written to it
    let with_fifos = if features.fine_fifo_thrld {
        UartRegs {
            fcrr: fine_fifo_control_of(config),
            rx_fifo_reset: true,
            tx_fifo_reset: true,
            ..divided
        }
    } else {
        let fcr = coarse_fifo_control_of(config);
        UartRegs { fcr, gpr: fcr, rx_fifo_reset: true, tx_fifo_reset: true, ..divided }
    };
    *r = if features.rx_en && enable_rx {
        UartRegs {
            idle_cfg: IdleCfg { rxen: true, rx_idle_thr: RX_IDLE_THRESHOLD, ..now.idle_cfg },
            ..with_fifos
        }
    } else {
        with_fifos
    };
    Ok(())
}

/// Configures a UART that is in use, in both directions, with its
/// interrupt held off meanwhile. After a configuration that was refused the
/// interrupt stays off.
pub fn reconfigure(
    r: &mut UartRegs,
    irq: &mut InterruptLine,
    info: &Info,
    kernel_clock: Hertz,
    config: &Config,
) -> (res: Result<(), ConfigError>)
    ensures
        res == configure_result(kernel_clock, *config, true, true),
        res is Err ==> *final(r) == *old(r) && *final(irq) == (InterruptLine {
            enabled: false,
            ..*old(irq)
        }),
        res is Ok ==> ({
            let (div, osc) = baudrate_setting(kernel_clock.0, config.baudrate).unwrap();
            &&& *final(r) == configured(*old(r), info.features, div, osc, *config, true)
            &&& *final(irq) == InterruptLine { enabled: true, pending: false }
        }),
{
    irq.enabled = false;
    match configure(r, info, kernel_clock, config, true, true) {
        Ok(()) => {},
        Err(e) => {
            return Err(e);
        },
    }
    irq.pending = false;
    irq.enabled = true;
    Ok(())
}

} // verus!
