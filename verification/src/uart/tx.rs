//! The transmitting half of the UART driver.

use vstd::prelude::*;
use crate::dma::regs::{DmaMux, DmaRegs};
use crate::dma::v1::transfer_started;
use crate::dma::word::WordSize;
use crate::dma::{ChannelAndRequest, Dir, Transfer, TransferOptions};
use crate::gpio::AnyPin;
use crate::sysctl::{after_remove, is_resource, resource_in_range, SysctlRegs};
use crate::time::Hertz;
use crate::uart::baudrate::baudrate_setting;
use crate::uart::blocking::{blocking_flush, blocking_write_step, wait_step, WaitStep};
use crate::uart::config::{configure, configure_result, configured, reconfigure};
use crate::uart::config::{set_dma_requests, with_dma_requests};
use crate::uart::regs::{InterruptLine, Lsr, UartRegs};
use crate::uart::state::{after_drop, claim_clock, drop_tx_rx, uart_clocked, State};
use crate::uart::{Config, ConfigError, Error, Info};

verus! {

/// Tx-only UART Driver.
///
/// Can be obtained from [`Uart::split`](crate::uart::Uart::split), or can be
/// constructed independently, if you do not need the receiving half of the
/// driver.
#[derive(Debug)]
pub struct UartTx {
    /// The UART instance.
    pub info: Info,
    /// The clock that feeds the baud rate generator.
    pub kernel_clock: Hertz,
    /// The transmit pin.
    pub tx: Option<AnyPin>,
    /// The clear-to-send pin.
    pub cts: Option<AnyPin>,
    /// The driver-enable pin.
    pub de: Option<AnyPin>,
    /// The DMA channel of the transmitter, while no transfer holds it. A
    /// blocking driver has none.
    pub tx_dma: Option<ChannelAndRequest>,
}

/// What the making of a transmitter leaves behind.
///
/// Either the UART is configured for transmission, the driver is `made`,
/// its one half is counted and the UART's clock is claimed. Or the
/// configuration was refused: then the UART's registers are as before, the
/// half that was being made is given up again, so that none is counted, and
/// the clock that was claimed for it is released.
pub open spec fn tx_created(
    r0: &UartRegs,
    r1: &UartRegs,
    s0: &State,
    s1: &State,
    sysctl0: &SysctlRegs,
    sysctl1: &SysctlRegs,
    made: UartTx,
    config: Config,
    res: Result<UartTx, ConfigError>,
) -> bool {
    &&& s1.saved_lsr == s0.saved_lsr
    &&& match res {
        Err(e) => {
            &&& Err::<(), ConfigError>(e) == configure_result(made.kernel_clock, config, false, true)
            &&& r1 == r0
            &&& s1.tx_rx_refcount == 0
            &&& *sysctl1 == after_remove(uart_clocked(*sysctl0, made.info), made.info.resource, 0)
        },
        Ok(tx) => {
            &&& configure_result(made.kernel_clock, config, false, true) is Ok
            &&& *r1 == configured(
                *r0,
                made.info.features,
                baudrate_setting(made.kernel_clock.0, config.baudrate).unwrap().0,
                baudrate_setting(made.kernel_clock.0, config.baudrate).unwrap().1,
                config,
                false,
            )
            &&& s1.tx_rx_refcount == 1
            &&& *sysctl1 == uart_clocked(*sysctl0, made.info)
            &&& tx == made
        },
    }
}

impl UartTx {
    /// The driver with its DMA channel replaced.
    pub open spec fn with_tx_dma(self, tx_dma: Option<ChannelAndRequest>) -> Self {
        UartTx { tx_dma, ..self }
    }

    /// Create a new tx-only UART that transmits through DMA.
    ///
    /// Useful if you only want Uart Tx. It saves 1 pin and consumes a
    /// little less power.
    pub fn new(
        r: &mut UartRegs,
        s: &mut State,
        sysctl: &mut SysctlRegs,
        info: Info,
        kernel_clock: Hertz,
        tx: AnyPin,
        tx_dma: ChannelAndRequest,
        config: Config,
    ) -> (res: Result<Self, ConfigError>)
        requires
            info.spec_peripheral_clock().in_range(),
        ensures
            tx_created(
                old(r),
                final(r),
                old(s),
                final(s),
                old(sysctl),
                final(sysctl),
                (UartTx { info, kernel_clock, tx: Some(tx), cts: None, de: None, tx_dma: Some(tx_dma) }),
                config,
                res,
            ),
    {
        Self::new_inner(r, s, sysctl, info, kernel_clock, Some(tx), None, Some(tx_dma), config)
    }

    /// Create a new tx-only UART with a clear-to-send pin
    pub fn new_with_cts(
        r: &mut UartRegs,
        s: &mut State,
        sysctl: &mut SysctlRegs,
        info: Info,
        kernel_clock: Hertz,
        tx: AnyPin,
        cts: AnyPin,
        tx_dma: ChannelAndRequest,
        config: Config,
    ) -> (res: Result<Self, ConfigError>)
        requires
            info.spec_peripheral_clock().in_range(),
        ensures
            tx_created(
                old(r),
                final(r),
                old(s),
                final(s),
                old(sysctl),
                final(sysctl),
                (UartTx { info, kernel_clock, tx: Some(tx), cts: Some(cts), de: None, tx_dma: Some(tx_dma) }),
                config,
                res,
            ),
    {
        Self::new_inner(r, s, sysctl, info, kernel_clock, Some(tx), Some(cts), Some(tx_dma), config)
    }

    /// Create a new blocking tx-only UART with no hardware flow control.
    ///
    /// Useful if you only want Uart Tx. It saves 1 pin and consumes a
    /// little less power.
    pub fn new_blocking(
        r: &mut UartRegs,
        s: &mut State,
        sysctl: &mut SysctlRegs,
        info: Info,
        kernel_clock: Hertz,
        tx: AnyPin,
        config: Config,
    ) -> (res: Result<Self, ConfigError>)
        requires
            info.spec_peripheral_clock().in_range(),
        ensures
            tx_created(
                old(r),
                final(r),
                old(s),
                final(s),
                old(sysctl),
                final(sysctl),
                (UartTx { info, kernel_clock, tx: Some(tx), cts: None, de: None, tx_dma: None }),
                config,
                res,
            ),
    {
        Self::new_inner(r, s, sysctl, info, kernel_clock, Some(tx), None, None, config)
    }

    /// Create a new blocking tx-only UART with a clear-to-send pin
    pub fn new_blocking_with_cts(
        r: &mut UartRegs,
        s: &mut State,
        sysctl: &mut SysctlRegs,
        info: Info,
        kernel_clock: Hertz,
        tx: AnyPin,
        cts: AnyPin,
        config: Config,
    ) -> (res: Result<Self, ConfigError>)
        requires
            info.spec_peripheral_clock().in_range(),
        ensures
            tx_created(
                old(r),
                final(r),
                old(s),
                final(s),
                old(sysctl),
                final(sysctl),
                (UartTx { info, kernel_clock, tx: Some(tx), cts: Some(cts), de: None, tx_dma: None }),
                config,
                res,
            ),
    {
        Self::new_inner(r, s, sysctl, info, kernel_clock, Some(tx), Some(cts), None, config)
    }

    /// Claims the clock, makes the transmitter and configures the UART for it.
    fn new_inner(
        r: &mut UartRegs,
        s: &mut State,
        sysctl: &mut SysctlRegs,
        info: Info,
        kernel_clock: Hertz,
        tx: Option<AnyPin>,
        cts: Option<AnyPin>,
        tx_dma: Option<ChannelAndRequest>,
        config: Config,
    ) -> (res: Result<Self, ConfigError>)
        requires
            info.spec_peripheral_clock().in_range(),
        ensures
            tx_created(
                old(r),
                final(r),
                old(s),
                final(s),
                old(sysctl),
                final(sysctl),
                (UartTx { info, kernel_clock, tx, cts, de: None, tx_dma }),
                config,
                res,
            ),
    {
        claim_clock(sysctl, &info);
        let mut this = UartTx { info, kernel_clock, tx, cts, de: None, tx_dma };
        match this.enable_and_configure(r, s, &config) {
            Ok(()) => Ok(this),
            Err(e) => {
                // the half that was being made is given up again
                let _ = drop_tx_rx(&this.info, s, sysctl);
                Err(e)
            },
        }
    }

    /// Counts the halves of the driver in and configures the UART.
    fn enable_and_configure(&mut self, r: &mut UartRegs, s: &mut State, config: &Config) -> (res:
        Result<(), ConfigError>)
        ensures
            *final(self) == *old(self),
            final(s).tx_rx_refcount == 1,
            final(s).saved_lsr == old(s).saved_lsr,
            res == configure_result(old(self).kernel_clock, *config, false, true),
            res is Err ==> *final(r) == *old(r),
            res is Ok ==> ({
                let (div, osc) = baudrate_setting(old(self).kernel_clock.0, config.baudrate).unwrap();
                *final(r) == configured(*old(r), old(self).info.features, div, osc, *config, false)
            }),
    {
        s.tx_rx_refcount = 1;
        configure(r, &self.info, self.kernel_clock, config, false, true)
    }

    /// Reconfigure the driver
    pub fn set_config(&mut self, r: &mut UartRegs, irq: &mut InterruptLine, config: &Config) -> (res:
        Result<(), ConfigError>)
        ensures
            *final(self) == *old(self),
            res == configure_result(old(self).kernel_clock, *config, true, true),
            res is Err ==> *final(r) == *old(r) && *final(irq) == (InterruptLine {
                enabled: false,
                ..*old(irq)
            }),
            res is Ok ==> ({
                let (div, osc) = baudrate_setting(old(self).kernel_clock.0, config.baudrate).unwrap();
                &&& *final(r) == configured(*old(r), old(self).info.features, div, osc, *config, true)
                &&& *final(irq) == InterruptLine { enabled: true, pending: false }
            }),
    {
        reconfigure(r, irq, &self.info, self.kernel_clock, config)
    }

    /// Initiate an asynchronous UART write.
    ///
    /// Switches DMA requests on and starts the transfer of `len` bytes from
    /// `buf_addr` to the transmitter holding register at `thr_addr`. The
    /// transfer holds the channel until it has stopped; then the channel
    /// goes back with [`UartTx::write_done`].
    pub fn write(
        &mut self,
        r: &mut UartRegs,
        dma: &mut DmaRegs,
        mux: &mut DmaMux,
        thr_addr: u32,
        buf_addr: u32,
        len: usize,
    ) -> (transfer: Transfer)
        requires
            old(self).tx_dma is Some,
            Transfer::buffer_well_formed(thr_addr, buf_addr, len, WordSize::OneByte),
        ensures
            *final(self) == old(self).with_tx_dma(None),
            *final(r) == with_dma_requests(*old(r), old(self).info.features, true),
            *transfer.channel() == old(self).tx_dma.unwrap().channel,
            !transfer.abort_requested(),
            old(self).tx_dma.unwrap().channel.spec_is_running(final(dma)),
            transfer_started(
                old(dma),
                final(dma),
                old(mux),
                final(mux),
                &old(self).tx_dma.unwrap().channel,
                old(self).tx_dma.unwrap().request,
                Dir::MemoryToPeripheral,
                thr_addr,
                buf_addr,
                len,
                true,
                WordSize::OneByte,
                TransferOptions::spec_default(),
            ),
    {
        set_dma_requests(r, self.info.features, true);
        let mut lent: Option<ChannelAndRequest> = None;
        core::mem::swap(&mut self.tx_dma, &mut lent);
        let ch = lent.unwrap();
        Transfer::new_write(
            ch.channel,
            dma,
            mux,
            ch.request,
            buf_addr,
            len,
            thr_addr,
            WordSize::OneByte,
            TransferOptions::default(),
        )
    }

    /// Ends an asynchronous write whose transfer has stopped: switches DMA
    /// requests off again and takes the channel back.
    pub fn write_done(&mut self, r: &mut UartRegs, channel: ChannelAndRequest) -> (res: Result<
        (),
        Error,
    >)
        ensures
            res is Ok,
            *final(self) == old(self).with_tx_dma(Some(channel)),
            *final(r) == with_dma_requests(*old(r), old(self).info.features, false),
    {
        set_dma_requests(r, self.info.features, false);
        self.tx_dma = Some(channel);
        Ok(())
    }

    /// One look of the wait until the transmission is complete; see
    /// [`blocking_flush`](blocking_flush()).
    pub fn flush(&mut self, lsr: Lsr, retry: u32) -> (step: WaitStep)
        ensures
            *final(self) == *old(self),
            step == wait_step(lsr.temt, retry),
    {
        self.blocking_flush(lsr, retry)
    }

    /// One look of the wait for room before the next byte of a blocking
    /// write: once it is `Done(Ok(()))` the byte is written to the
    /// transmitter and the count starts again for the byte after it.
    pub fn blocking_write(&mut self, lsr: Lsr, retry: u32) -> (step: WaitStep)
        ensures
            *final(self) == *old(self),
            step == wait_step(lsr.thre, retry),
    {
        blocking_write_step(lsr, retry)
    }

    /// One look of the wait until the transmission is complete; see
    /// [`blocking_flush`](blocking_flush()).
    pub fn blocking_flush(&mut self, lsr: Lsr, retry: u32) -> (step: WaitStep)
        ensures
            *final(self) == *old(self),
            step == wait_step(lsr.temt, retry),
    {
        blocking_flush(lsr, retry)
    }

    /// Gives the half up: counts it out and, if it was the last, releases
    /// the UART's clock resource; see [`drop_tx_rx`].
    ///
    /// Returns whether the caller has to wait until the resource is no
    /// longer busy, and the pins that go back to their default function:
    /// transmit, clear-to-send and driver-enable.
    pub fn release(self, state: &mut State, sysctl: &mut SysctlRegs) -> (out: (
        bool,
        [Option<AnyPin>; 3],
    ))
        requires
            old(state).tx_rx_refcount >= 1,
            resource_in_range(self.info.resource),
        ensures
            (final(state).tx_rx_refcount, *final(sysctl)) == after_drop(
                old(state).tx_rx_refcount,
                *old(sysctl),
                self.info.resource,
            ),
            final(state).saved_lsr == old(state).saved_lsr,
            out.0 == (old(state).tx_rx_refcount == 1 && is_resource(self.info.resource)),
            out.1@ == seq![self.tx, self.cts, self.de],
    {
        let pins = [self.tx, self.cts, self.de];
        let wait = drop_tx_rx(&self.info, state, sysctl);
        (wait, pins)
    }
}

} // verus!
