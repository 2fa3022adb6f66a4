//! The interrupt handler of a UART.

use vstd::prelude::*;
use crate::uart::regs::{Fcr, Fcrr, IdleCfg, Ier, Lsr, UartRegs};
use crate::uart::state::State;
use crate::uart::{Features, Info, Instance};

verus! {

/// The registers once a line error has stopped what the receive path had
/// armed: the line status interrupt, idle detection, and DMA requests. A
/// UART with fine thresholds has its whole FIFO control register cleared.
pub open spec fn after_line_error(r: UartRegs, features: Features) -> UartRegs {
    let ier = if features.rx_idle_detect {
        Ier { elsi: false, erxidle: false, ..r.ier }
    } else {
        Ier { elsi: false, ..r.ier }
    };
    let idle_cfg = if features.rx_idle_detect {
        IdleCfg { rx_idle_en: false, ..r.idle_cfg }
    } else {
        r.idle_cfg
    };
    if features.fine_fifo_thrld {
        UartRegs { ier, idle_cfg, fcrr: Fcrr::spec_zero(), ..r }
    } else {
        UartRegs { ier, idle_cfg, fcr: Fcr { dmae: false, ..r.gpr }, ..r }
    }
}

/// The registers once the idle flag has been seen in its own register
/// while idle detection was on: the flag is acknowledged and idle
/// detection is off.
pub open spec fn after_idle_flag(r: UartRegs) -> UartRegs {
    if r.rxidle_flag && r.idle_cfg.rx_idle_en {
        UartRegs {
            ier: Ier { etxidle: false, ..r.ier },
            idle_cfg: IdleCfg { rx_idle_en: false, ..r.idle_cfg },
            rxidle_flag: false,
            ..r
        }
    } else {
        r
    }
}

/// The registers once the line status has been read on a UART that
/// reports an idle line there.
pub open spec fn after_idle_status(r: UartRegs, lsr: Lsr) -> UartRegs {
    if r.ier.erxidle && lsr.rxidle {
        UartRegs { ier: Ier { etxidle: false, ..r.ier }, ..r }
    } else {
        r
    }
}

/// The registers after the interrupt handler has seen `lsr`.
///
/// On a line error the handler stops the receive path; without one it
/// looks for the end of a message, in the register that holds the idle
/// flag on this UART.
pub open spec fn after_interrupt(r: UartRegs, features: Features, lsr: Lsr) -> UartRegs {
    if lsr.spec_has_errors() {
        after_line_error(r, features)
    } else if features.rx_idle_detect && features.e00018_fix {
        after_idle_flag(r)
    } else if features.rx_idle_detect && features.nine_bit_mode {
        after_idle_status(r, lsr)
    } else {
        r
    }
}

fn stop_on_line_error(r: UartRegs, features: Features) -> (out: UartRegs)
    ensures
        out == after_line_error(r, features),
{
    let ier = if features.rx_idle_detect {
        Ier { elsi: false, erxidle: false, ..r.ier }
    } else {
        Ier { elsi: false, ..r.ier }
    };
    let idle_cfg = if features.rx_idle_detect {
        IdleCfg { rx_idle_en: false, ..r.idle_cfg }
    } else {
        r.idle_cfg
    };
    if features.fine_fifo_thrld {
        UartRegs { ier, idle_cfg, fcrr: Fcrr::zero(), ..r }
    } else {
        UartRegs { ier, idle_cfg, fcr: Fcr { dmae: false, ..r.gpr }, ..r }
    }
}

fn acknowledge_idle_flag(r: UartRegs) -> (out: UartRegs)
    ensures
        out == after_idle_flag(r),
{
    if r.rxidle_flag && r.idle_cfg.rx_idle_en {
        UartRegs {
            ier: Ier { etxidle: false, ..r.ier },
            idle_cfg: IdleCfg { rx_idle_en: false, ..r.idle_cfg },
            rxidle_flag: false,
            ..r
        }
    } else {
        r
    }
}

fn note_idle_status(r: UartRegs, lsr: Lsr) -> (out: UartRegs)
    ensures
        out == after_idle_status(r, lsr),
{
    if r.ier.erxidle && lsr.rxidle {
        UartRegs { ier: Ier { etxidle: false, ..r.ier }, ..r }
    } else {
        r
    }
}

/// The interrupt handler of a UART.
///
/// `lsr` is the line status register, read once on entry: the read clears
/// its error flags. The handler saves the reading for the receive path and
/// wakes it.
pub fn on_interrupt(r: &mut UartRegs, s: &mut State, features: Features, lsr: Lsr)
    ensures
        *final(r) == after_interrupt(*old(r), features, lsr),
        final(s).saved_lsr == lsr,
        final(s).tx_rx_refcount == old(s).tx_rx_refcount,
{
    let now = *r;
    if lsr.has_errors() {
        *r = stop_on_line_error(now, features);
    } else if features.rx_idle_detect && features.e00018_fix {
        *r = acknowledge_idle_flag(now);
    } else if features.rx_idle_detect && features.nine_bit_mode {
        *r = note_idle_status(now, lsr);
    }
    s.saved_lsr = lsr;
    s.rx_waker.wake();
}

/// Interrupt handler.
#[derive(Debug, Copy, Clone)]
pub struct InterruptHandler {
    /// The instance whose interrupt is handled.
    pub info: Info,
}

impl InterruptHandler {
    /// The handler of the instance `T`: it holds what `T::info()` returns.
    pub fn new<T: Instance>() -> (handler: Self)
        ensures
            call_ensures(T::info, (), handler.info),
    {
        InterruptHandler { info: T::info() }
    }

    /// Handles one interrupt of the instance; see
    /// [`on_interrupt`](on_interrupt()).
    pub fn on_interrupt(&self, r: &mut UartRegs, s: &mut State, lsr: Lsr)
        ensures
            *final(r) == after_interrupt(*old(r), self.info.features, lsr),
            final(s).saved_lsr == lsr,
            final(s).tx_rx_refcount == old(s).tx_rx_refcount,
    {
        on_interrupt(r, s, self.info.features, lsr)
    }
}

} // verus!
