//! The bidirectional UART driver.

use vstd::prelude::*;
use crate::dma::regs::{DmaMux, DmaRegs};
use crate::dma::v1::transfer_started;
use crate::dma::word::WordSize;
use crate::dma::{ChannelAndRequest, Dir, Transfer, TransferOptions};
use crate::gpio::AnyPin;
use crate::sysctl::{after_remove, SysctlRegs};
use crate::time::Hertz;
use crate::uart::baudrate::baudrate_setting;
use crate::uart::blocking::{nb_read_outcome, rx_flags, wait_step, NbError, WaitStep};
use crate::uart::config::{configure, configure_result, configured, with_dma_requests};
use crate::uart::read::read_precheck;
use crate::uart::regs::{InterruptLine, Lsr, UartRegs};
use crate::uart::rx::{read_begun, ReadStarted, UartRx};
use crate::uart::state::{claim_clock, drop_tx_rx, uart_clocked, State};
use crate::uart::tx::UartTx;
use crate::uart::{Config, ConfigError, Error, Info};

verus! {

/// Bidirectional UART Driver, which acts as a combination of [`UartTx`] and
/// [`UartRx`].
#[derive(Debug)]
pub struct Uart {
    tx: UartTx,
    rx: UartRx,
}

/// What the making of a bidirectional UART leaves behind.
///
/// Either the UART is configured in both directions, its interrupt is on
/// with nothing pending, the two halves are `tx` and `rx`, both are counted
/// and the UART's clock is claimed. Or the configuration was refused: then
/// the UART's registers and its interrupt are as before, both halves that
/// were being made are given up again, so that none is counted, and the
/// clock that was claimed for them is released.
pub open spec fn uart_created(
    r0: &UartRegs,
    r1: &UartRegs,
    irq0: &InterruptLine,
    irq1: &InterruptLine,
    s0: &State,
    s1: &State,
    sysctl0: &SysctlRegs,
    sysctl1: &SysctlRegs,
    tx: UartTx,
    rx: UartRx,
    config: Config,
    res: Result<Uart, ConfigError>,
) -> bool {
    &&& s1.saved_lsr == s0.saved_lsr
    &&& match res {
        Err(e) => {
            &&& Err::<(), ConfigError>(e) == configure_result(rx.kernel_clock, config, true, true)
            &&& r1 == r0
            &&& irq1 == irq0
            &&& s1.tx_rx_refcount == 0
            &&& *sysctl1 == after_remove(uart_clocked(*sysctl0, rx.info), rx.info.resource, 0)
        },
        Ok(uart) => {
            &&& configure_result(rx.kernel_clock, config, true, true) is Ok
            &&& *r1 == configured(
                *r0,
                rx.info.features,
                baudrate_setting(rx.kernel_clock.0, config.baudrate).unwrap().0,
                baudrate_setting(rx.kernel_clock.0, config.baudrate).unwrap().1,
                config,
                true,
            )
            &&& *irq1 == InterruptLine { enabled: true, pending: false }
            &&& s1.tx_rx_refcount == 2
            &&& *sysctl1 == uart_clocked(*sysctl0, rx.info)
            &&& *uart.tx() == tx
            &&& *uart.rx() == rx
        },
    }
}

impl Uart {
    /// The transmitting half.
    pub closed spec fn tx(&self) -> &UartTx {
        &self.tx
    }

    /// The receiving half.
    pub closed spec fn rx(&self) -> &UartRx {
        &self.rx
    }

    /// Create a new bidirectional UART
    pub fn new(
        r: &mut UartRegs,
        irq: &mut InterruptLine,
        s: &mut State,
        sysctl: &mut SysctlRegs,
        info: Info,
        kernel_clock: Hertz,
        rx: AnyPin,
        tx: AnyPin,
        tx_dma: ChannelAndRequest,
        rx_dma: ChannelAndRequest,
        config: Config,
    ) -> (res: Result<Self, ConfigError>)
        requires
            info.spec_peripheral_clock().in_range(),
        ensures
            uart_created(
                old(r),
                final(r),
                old(irq),
                final(irq),
                old(s),
                final(s),
                old(sysctl),
                final(sysctl),
                (UartTx { info, kernel_clock, tx: Some(tx), cts: None, de: None, tx_dma: Some(tx_dma) }),
                (UartRx {
                    info,
                    kernel_clock,
                    rx: Some(rx),
                    rts: None,
                    rx_dma: Some(rx_dma),
                    detect_previous_overrun: config.detect_previous_overrun,
                }),
                config,
                res,
            ),
    {
        Self::new_inner(
            r,
            irq,
            s,
            sysctl,
            info,
            kernel_clock,
            Some(rx),
            Some(tx),
            None,
            None,
            None,
            Some(tx_dma),
            Some(rx_dma),
            config,
        )
    }

    /// Create a new bidirectional UART with request-to-send and
    /// clear-to-send pins
    pub fn new_with_rtscts(
        r: &mut UartRegs,
        irq: &mut InterruptLine,
        s: &mut State,
        sysctl: &mut SysctlRegs,
        info: Info,
        kernel_clock: Hertz,
        rx: AnyPin,
        tx: AnyPin,
        rts: AnyPin,
        cts: AnyPin,
        tx_dma: ChannelAndRequest,
        rx_dma: ChannelAndRequest,
        config: Config,
    ) -> (res: Result<Self, ConfigError>)
        requires
            info.spec_peripheral_clock().in_range(),
        ensures
            uart_created(
                old(r),
                final(r),
                old(irq),
                final(irq),
                old(s),
                final(s),
                old(sysctl),
                final(sysctl),
                (UartTx { info, kernel_clock, tx: Some(tx), cts: Some(cts), de: None, tx_dma: Some(tx_dma) }),
                (UartRx {
                    info,
                    kernel_clock,
                    rx: Some(rx),
                    rts: Some(rts),
                    rx_dma: Some(rx_dma),
                    detect_previous_overrun: config.detect_previous_overrun,
                }),
                config,
                res,
            ),
    {
        Self::new_inner(
            r,
            irq,
            s,
            sysctl,
            info,
            kernel_clock,
            Some(rx),
            Some(tx),
            Some(rts),
            Some(cts),
            None,
            Some(tx_dma),
            Some(rx_dma),
            config,
        )
    }

    /// Create a new bidirectional UART with a driver-enable pin
    pub fn new_with_de(
        r: &mut UartRegs,
        irq: &mut InterruptLine,
        s: &mut State,
        sysctl: &mut SysctlRegs,
        info: Info,
        kernel_clock: Hertz,
        rx: AnyPin,
        tx: AnyPin,
        de: AnyPin,
        tx_dma: ChannelAndRequest,
        rx_dma: ChannelAndRequest,
        config: Config,
    ) -> (res: Result<Self, ConfigError>)
        requires
            info.spec_peripheral_clock().in_range(),
        ensures
            uart_created(
                old(r),
                final(r),
                old(irq),
                final(irq),
                old(s),
                final(s),
                old(sysctl),
                final(sysctl),
                (UartTx { info, kernel_clock, tx: Some(tx), cts: None, de: Some(de), tx_dma: Some(tx_dma) }),
                (UartRx {
                    info,
                    kernel_clock,
                    rx: Some(rx),
                    rts: None,
                    rx_dma: Some(rx_dma),
                    detect_previous_overrun: config.detect_previous_overrun,
                }),
                config,
                res,
            ),
    {
        Self::new_inner(
            r,
            irq,
            s,
            sysctl,
            info,
            kernel_clock,
            Some(rx),
            Some(tx),
            None,
            None,
            Some(de),
            Some(tx_dma),
            Some(rx_dma),
            config,
        )
    }

    /// Create a new blocking bidirectional UART.
    pub fn new_blocking(
        r: &mut UartRegs,
        irq: &mut InterruptLine,
        s: &mut State,
        sysctl: &mut SysctlRegs,
        info: Info,
        kernel_clock: Hertz,
        rx: AnyPin,
        tx: AnyPin,
        config: Config,
    ) -> (res: Result<Self, ConfigError>)
        requires
            info.spec_peripheral_clock().in_range(),
        ensures
            uart_created(
                old(r),
                final(r),
                old(irq),
                final(irq),
                old(s),
                final(s),
                old(sysctl),
                final(sysctl),
                (UartTx { info, kernel_clock, tx: Some(tx), cts: None, de: None, tx_dma: None }),
                (UartRx {
                    info,
                    kernel_clock,
                    rx: Some(rx),
                    rts: None,
                    rx_dma: None,
                    detect_previous_overrun: config.detect_previous_overrun,
                }),
                config,
                res,
            ),
    {
        Self::new_inner(
            r,
            irq,
            s,
            sysctl,
            info,
            kernel_clock,
            Some(rx),
            Some(tx),
            None,
            None,
            None,
            None,
            None,
            config,
        )
    }

    /// Create a new bidirectional UART with request-to-send and
    /// clear-to-send pins
    pub fn new_blocking_with_rtscts(
        r: &mut UartRegs,
        irq: &mut InterruptLine,
        s: &mut State,
        sysctl: &mut SysctlRegs,
        info: Info,
        kernel_clock: Hertz,
        rx: AnyPin,
        tx: AnyPin,
        rts: AnyPin,
        cts: AnyPin,
        config: Config,
    ) -> (res: Result<Self, ConfigError>)
        requires
            info.spec_peripheral_clock().in_range(),
        ensures
            uart_created(
                old(r),
                final(r),
                old(irq),
                final(irq),
                old(s),
                final(s),
                old(sysctl),
                final(sysctl),
                (UartTx { info, kernel_clock, tx: Some(tx), cts: Some(cts), de: None, tx_dma: None }),
                (UartRx {
                    info,
                    kernel_clock,
                    rx: Some(rx),
                    rts: Some(rts),
                    rx_dma: None,
                    detect_previous_overrun: config.detect_previous_overrun,
                }),
                config,
                res,
            ),
    {
        Self::new_inner(
            r,
            irq,
            s,
            sysctl,
            info,
            kernel_clock,
            Some(rx),
            Some(tx),
            Some(rts),
            Some(cts),
            None,
            None,
            None,
            config,
        )
    }

    /// Create a new bidirectional UART with a driver-enable pin
    pub fn new_blocking_with_de(
        r: &mut UartRegs,
        irq: &mut InterruptLine,
        s: &mut State,
        sysctl: &mut SysctlRegs,
        info: Info,
        kernel_clock: Hertz,
        rx: AnyPin,
        tx: AnyPin,
        de: AnyPin,
        config: Config,
    ) -> (res: Result<Self, ConfigError>)
        requires
            info.spec_peripheral_clock().in_range(),
        ensures
            uart_created(
                old(r),
                final(r),
                old(irq),
                final(irq),
                old(s),
                final(s),
                old(sysctl),
                final(sysctl),
                (UartTx { info, kernel_clock, tx: Some(tx), cts: None, de: Some(de), tx_dma: None }),
                (UartRx {
                    info,
                    kernel_clock,
                    rx: Some(rx),
                    rts: None,
                    rx_dma: None,
                    detect_previous_overrun: config.detect_previous_overrun,
                }),
                config,
                res,
            ),
    {
        Self::new_inner(
            r,
            irq,
            s,
            sysctl,
            info,
            kernel_clock,
            Some(rx),
            Some(tx),
            None,
            None,
            Some(de),
            None,
            None,
            config,
        )
    }

    /// Claims the clock, makes the bidirectional UART and configures the UART for it.
    fn new_inner(
        r: &mut UartRegs,
        irq: &mut InterruptLine,
        s: &mut State,
        sysctl: &mut SysctlRegs,
        info: Info,
        kernel_clock: Hertz,
        rx: Option<AnyPin>,
        tx: Option<AnyPin>,
        rts: Option<AnyPin>,
        cts: Option<AnyPin>,
        de: Option<AnyPin>,
        tx_dma: Option<ChannelAndRequest>,
        rx_dma: Option<ChannelAndRequest>,
        config: Config,
    ) -> (res: Result<Self, ConfigError>)
        requires
            info.spec_peripheral_clock().in_range(),
        ensures
            uart_created(
                old(r),
                final(r),
                old(irq),
                final(irq),
                old(s),
                final(s),
                old(sysctl),
                final(sysctl),
                (UartTx { info, kernel_clock, tx, cts, de, tx_dma }),
                (UartRx {
                    info,
                    kernel_clock,
                    rx,
                    rts,
                    rx_dma,
                    detect_previous_overrun: config.detect_previous_overrun,
                }),
                config,
                res,
            ),
    {
        claim_clock(sysctl, &info);
        let mut this = Uart {
            tx: UartTx { info, kernel_clock, tx, cts, de, tx_dma },
            rx: UartRx {
                info,
                kernel_clock,
                rx,
                rts,
                rx_dma,
                detect_previous_overrun: config.detect_previous_overrun,
            },
        };
        match this.enable_and_configure(r, irq, s, &config) {
            Ok(()) => Ok(this),
            Err(e) => {
                // both halves that were being made are given up again: the
                // first leaves the clock alone, the second releases it
                let _ = drop_tx_rx(&this.tx.info, s, sysctl);
                let _ = drop_tx_rx(&this.rx.info, s, sysctl);
                Err(e)
            },
        }
    }

    /// Counts the halves of the driver in and configures the UART.
    fn enable_and_configure(
        &mut self,
        r: &mut UartRegs,
        irq: &mut InterruptLine,
        s: &mut State,
        config: &Config,
    ) -> (res: Result<(), ConfigError>)
        ensures
            *final(self) == *old(self),
            final(s).tx_rx_refcount == 2,
            final(s).saved_lsr == old(s).saved_lsr,
            res == configure_result(old(self).rx.kernel_clock, *config, true, true),
            res is Err ==> *final(r) == *old(r) && *final(irq) == *old(irq),
            res is Ok ==> ({
                let (div, osc) = baudrate_setting(
                    old(self).rx.kernel_clock.0,
                    config.baudrate,
                ).unwrap();
                &&& *final(r) == configured(*old(r), old(self).rx.info.features, div, osc, *config, true)
                &&& *final(irq) == InterruptLine { enabled: true, pending: false }
            }),
    {
        s.tx_rx_refcount = 2;
        match configure(r, &self.rx.info, self.rx.kernel_clock, config, true, true) {
            Ok(()) => {},
            Err(e) => {
                return Err(e);
            },
        }
        irq.pending = false;
        irq.enabled = true;
        Ok(())
    }

    /// Perform an asynchronous write; see [`UartTx::write`].
    pub fn write(
        &mut self,
        r: &mut UartRegs,
        dma: &mut DmaRegs,
        mux: &mut DmaMux,
        thr_addr: u32,
        buf_addr: u32,
        len: usize,
    ) -> (transfer: Transfer)
        requires
            old(self).tx().tx_dma is Some,
            Transfer::buffer_well_formed(thr_addr, buf_addr, len, WordSize::OneByte),
        ensures
            final(self).rx() == old(self).rx(),
            *final(self).tx() == old(self).tx().with_tx_dma(None),
            *final(r) == with_dma_requests(*old(r), old(self).tx().info.features, true),
            *transfer.channel() == old(self).tx().tx_dma.unwrap().channel,
            !transfer.abort_requested(),
            old(self).tx().tx_dma.unwrap().channel.spec_is_running(final(dma)),
            transfer_started(
                old(dma),
                final(dma),
                old(mux),
                final(mux),
                &old(self).tx().tx_dma.unwrap().channel,
                old(self).tx().tx_dma.unwrap().request,
                Dir::MemoryToPeripheral,
                thr_addr,
                buf_addr,
                len,
                true,
                WordSize::OneByte,
                TransferOptions::spec_default(),
            ),
    {
        self.tx.write(r, dma, mux, thr_addr, buf_addr, len)
    }

    /// Perform an asynchronous read into a buffer; see [`UartRx::read`].
    pub fn read(
        &mut self,
        r: &mut UartRegs,
        dma: &mut DmaRegs,
        mux: &mut DmaMux,
        rbr_addr: u32,
        buf_addr: u32,
        buffer_len: usize,
    ) -> (started: Result<ReadStarted, Result<usize, Error>>)
        requires
            read_precheck(buffer_len) is None ==> old(self).rx().rx_dma is Some,
        ensures
            final(self).tx() == old(self).tx(),
            read_begun(
                old(self).rx(),
                final(self).rx(),
                old(r),
                final(r),
                old(dma),
                final(dma),
                old(mux),
                final(mux),
                rbr_addr,
                buf_addr,
                buffer_len,
                false,
                started,
            ),
    {
        self.rx.read(r, dma, mux, rbr_addr, buf_addr, buffer_len)
    }

    /// Perform an an asynchronous read with idle line detection enabled;
    /// see [`UartRx::read_until_idle`].
    pub fn read_until_idle(
        &mut self,
        r: &mut UartRegs,
        dma: &mut DmaRegs,
        mux: &mut DmaMux,
        rbr_addr: u32,
        buf_addr: u32,
        buffer_len: usize,
    ) -> (started: Result<ReadStarted, Result<usize, Error>>)
        requires
            read_precheck(buffer_len) is None ==> old(self).rx().rx_dma is Some,
        ensures
            final(self).tx() == old(self).tx(),
            read_begun(
                old(self).rx(),
                final(self).rx(),
                old(r),
                final(r),
                old(dma),
                final(dma),
                old(mux),
                final(mux),
                rbr_addr,
                buf_addr,
                buffer_len,
                true,
                started,
            ),
    {
        self.rx.read_until_idle(r, dma, mux, rbr_addr, buf_addr, buffer_len)
    }

    /// Perform a blocking write; see [`UartTx::blocking_write`].
    pub fn blocking_write(&mut self, lsr: Lsr, retry: u32) -> (step: WaitStep)
        ensures
            *final(self) == *old(self),
            step == wait_step(lsr.thre, retry),
    {
        self.tx.blocking_write(lsr, retry)
    }

    /// Block until transmission complete; see [`UartTx::blocking_flush`].
    pub fn blocking_flush(&mut self, lsr: Lsr, retry: u32) -> (step: WaitStep)
        ensures
            *final(self) == *old(self),
            step == wait_step(lsr.temt, retry),
    {
        self.tx.blocking_flush(lsr, retry)
    }

    /// Read a single `u8` or return `WouldBlock`; see [`UartRx::nb_read`].
    pub fn nb_read(&mut self, lsr: Lsr) -> (res: Result<(), NbError>)
        ensures
            *final(self) == *old(self),
            res == nb_read_outcome(lsr),
    {
        self.rx.nb_read(lsr)
    }

    /// Perform a blocking read into a buffer; see
    /// [`UartRx::blocking_read`].
    pub fn blocking_read(&mut self, lsr: Lsr) -> (res: Result<bool, Error>)
        ensures
            *final(self) == *old(self),
            res == rx_flags(lsr),
    {
        self.rx.blocking_read(lsr)
    }

    /// Split the Uart into a transmitter and receiver, which is
    /// particularly useful when having two tasks correlating to
    /// transmitting and receiving.
    pub fn split(self) -> (halves: (UartTx, UartRx))
        ensures
            halves.0 == *self.tx(),
            halves.1 == *self.rx(),
    {
        (self.tx, self.rx)
    }
}

} // verus!
