//! The receiving half of the UART driver.

use vstd::prelude::*;
use core::task::Waker;
use crate::dma::regs::{DmaMux, DmaRegs};
use crate::dma::v1::{transfer_started, Poll};
use crate::dma::word::WordSize;
use crate::dma::{ChannelAndRequest, Dir, Transfer, TransferOptions};
use crate::gpio::AnyPin;
use crate::sysctl::{after_remove, is_resource, resource_in_range, SysctlRegs};
use crate::time::Hertz;
use crate::uart::baudrate::baudrate_setting;
use crate::uart::blocking::{check_line_error, nb_read_outcome, rx_flags, NbError};
use crate::uart::config::{configure, configure_result, configured, reconfigure};
use crate::uart::read::{abort_outcome, arm_read, bytes_received, check_read_length};
use crate::uart::read::{cleanup_read, complete_read};
use crate::uart::read::{read_armed, read_completion, read_disarmed, read_precheck};
use crate::uart::read::{First, ReadCompletionEvent};
use crate::uart::regs::{InterruptLine, Lsr, UartRegs};
use crate::uart::state::{after_drop, claim_clock, drop_tx_rx, uart_clocked, State};
use crate::uart::{Config, ConfigError, Error, Info};

verus! {

/// Rx-only UART Driver.
#[derive(Debug)]
pub struct UartRx {
    /// The UART instance.
    pub info: Info,
    /// The clock that feeds the baud rate generator.
    pub kernel_clock: Hertz,
    /// The receive pin.
    pub rx: Option<AnyPin>,
    /// The request-to-send pin.
    pub rts: Option<AnyPin>,
    /// The DMA channel of the receiver, while no transfer holds it. A
    /// blocking driver has none.
    pub rx_dma: Option<ChannelAndRequest>,
    /// Whether a line error from before a read is reported by it.
    pub detect_previous_overrun: bool,
}

/// A receive that has been started.
#[derive(Debug)]
pub struct ReadStarted {
    /// The transfer that fills the buffer.
    pub transfer: Transfer,
    /// Whether the line status register is to be read once now, to clear
    /// what it holds from before the receive.
    pub clear_line_status: bool,
}

/// What the making of a receiver leaves behind.
///
/// Either the UART is configured for reception, its interrupt is on with
/// nothing pending, the driver is `made`, its one half is counted and the
/// UART's clock is claimed. Or the configuration was refused: then the
/// UART's registers and its interrupt are as before, the half that was
/// being made is given up again, so that none is counted, and the clock
/// that was claimed for it is released.
pub open spec fn rx_created(
    r0: &UartRegs,
    r1: &UartRegs,
    irq0: &InterruptLine,
    irq1: &InterruptLine,
    s0: &State,
    s1: &State,
    sysctl0: &SysctlRegs,
    sysctl1: &SysctlRegs,
    made: UartRx,
    config: Config,
    res: Result<UartRx, ConfigError>,
) -> bool {
    &&& s1.saved_lsr == s0.saved_lsr
    &&& match res {
        Err(e) => {
            &&& Err::<(), ConfigError>(e) == configure_result(made.kernel_clock, config, true, false)
            &&& r1 == r0
            &&& irq1 == irq0
            &&& s1.tx_rx_refcount == 0
            &&& *sysctl1 == after_remove(uart_clocked(*sysctl0, made.info), made.info.resource, 0)
        },
        Ok(rx) => {
            &&& configure_result(made.kernel_clock, config, true, false) is Ok
            &&& *r1 == configured(
                *r0,
                made.info.features,
                baudrate_setting(made.kernel_clock.0, config.baudrate).unwrap().0,
                baudrate_setting(made.kernel_clock.0, config.baudrate).unwrap().1,
                config,
                true,
            )
            &&& *irq1 == InterruptLine { enabled: true, pending: false }
            &&& s1.tx_rx_refcount == 1
            &&& *sysctl1 == uart_clocked(*sysctl0, made.info)
            &&& rx == made
        },
    }
}

/// What the beginning of a receive leaves behind.
///
/// A receive that is answered at once has touched nothing. One that was
/// started has lent the receiver's channel to a transfer from the receiver
/// buffer register into the buffer, with the default options, which is
/// running and has not been asked to stop, and has armed the UART; the
/// stale line status is to be cleared unless the driver reports earlier
/// overruns.
pub open spec fn read_begun(
    rx0: &UartRx,
    rx1: &UartRx,
    r0: &UartRegs,
    r1: &UartRegs,
    dma0: &DmaRegs,
    dma1: &DmaRegs,
    mux0: &DmaMux,
    mux1: &DmaMux,
    rbr_addr: u32,
    buf_addr: u32,
    buffer_len: usize,
    idle: bool,
    started: Result<ReadStarted, Result<usize, Error>>,
) -> bool {
    match read_precheck(buffer_len) {
        Some(early) => {
            &&& started == Err::<ReadStarted, Result<usize, Error>>(early)
            &&& r1 == r0
            &&& dma1 == dma0
            &&& mux1 == mux0
            &&& rx1 == rx0
        },
        None => {
            &&& started is Ok
            &&& *rx1 == rx0.with_rx_dma(None)
            &&& *started->Ok_0.transfer.channel() == rx0.rx_dma.unwrap().channel
            &&& !started->Ok_0.transfer.abort_requested()
            &&& started->Ok_0.clear_line_status == !rx0.detect_previous_overrun
            &&& *r1 == read_armed(*r0, rx0.info.features, idle)
            &&& transfer_started(
                dma0,
                dma1,
                mux0,
                mux1,
                &rx0.rx_dma.unwrap().channel,
                rx0.rx_dma.unwrap().request,
                Dir::PeripheralToMemory,
                rbr_addr,
                buf_addr,
                buffer_len,
                true,
                WordSize::OneByte,
                TransferOptions::spec_default(),
            )
            &&& rx0.rx_dma.unwrap().channel.spec_is_running(dma1)
        },
    }
}

impl UartRx {
    /// The driver with its DMA channel replaced.
    pub open spec fn with_rx_dma(self, rx_dma: Option<ChannelAndRequest>) -> Self {
        UartRx { rx_dma, ..self }
    }

    /// Create a new rx-only UART that receives through DMA.
    ///
    /// Useful if you only want Uart Rx. It saves 1 pin and consumes a
    /// little less power.
    pub fn new(
        r: &mut UartRegs,
        irq: &mut InterruptLine,
        s: &mut State,
        sysctl: &mut SysctlRegs,
        info: Info,
        kernel_clock: Hertz,
        rx: AnyPin,
        rx_dma: ChannelAndRequest,
        config: Config,
    ) -> (res: Result<Self, ConfigError>)
        requires
            info.spec_peripheral_clock().in_range(),
        ensures
            rx_created(
                old(r),
                final(r),
                old(irq),
                final(irq),
                old(s),
                final(s),
                old(sysctl),
                final(sysctl),
                (UartRx {
                    info,
                    kernel_clock,
                    rx: Some(rx),
                    rts: None,
                    rx_dma: Some(rx_dma),
                    detect_previous_overrun: config.detect_previous_overrun,
                }),
                config,
                res,
            ),
    {
        Self::new_inner(r, irq, s, sysctl, info, kernel_clock, Some(rx), None, Some(rx_dma), config)
    }

    /// Create a new rx-only UART with a request-to-send pin
    pub fn new_with_rts(
        r: &mut UartRegs,
        irq: &mut InterruptLine,
        s: &mut State,
        sysctl: &mut SysctlRegs,
        info: Info,
        kernel_clock: Hertz,
        rx: AnyPin,
        rts: AnyPin,
        rx_dma: ChannelAndRequest,
        config: Config,
    ) -> (res: Result<Self, ConfigError>)
        requires
            info.spec_peripheral_clock().in_range(),
        ensures
            rx_created(
                old(r),
                final(r),
                old(irq),
                final(irq),
                old(s),
                final(s),
                old(sysctl),
                final(sysctl),
                (UartRx {
                    info,
                    kernel_clock,
                    rx: Some(rx),
                    rts: Some(rts),
                    rx_dma: Some(rx_dma),
                    detect_previous_overrun: config.detect_previous_overrun,
                }),
                config,
                res,
            ),
    {
        Self::new_inner(r, irq, s, sysctl, info, kernel_clock, Some(rx), Some(rts), Some(rx_dma), config)
    }

    /// Create a new blocking rx-only UART with no hardware flow control.
    ///
    /// Useful if you only want Uart Rx. It saves 1 pin and consumes a
    /// little less power.
    pub fn new_blocking(
        r: &mut UartRegs,
        irq: &mut InterruptLine,
        s: &mut State,
        sysctl: &mut SysctlRegs,
        info: Info,
        kernel_clock: Hertz,
        rx: AnyPin,
        config: Config,
    ) -> (res: Result<Self, ConfigError>)
        requires
            info.spec_peripheral_clock().in_range(),
        ensures
            rx_created(
                old(r),
                final(r),
                old(irq),
                final(irq),
                old(s),
                final(s),
                old(sysctl),
                final(sysctl),
                (UartRx {
                    info,
                    kernel_clock,
                    rx: Some(rx),
                    rts: None,
                    rx_dma: None,
                    detect_previous_overrun: config.detect_previous_overrun,
                }),
                config,
                res,
            ),
    {
        Self::new_inner(r, irq, s, sysctl, info, kernel_clock, Some(rx), None, None, config)
    }

    /// Create a new blocking rx-only UART with a request-to-send pin
    pub fn new_blocking_with_rts(
        r: &mut UartRegs,
        irq: &mut InterruptLine,
        s: &mut State,
        sysctl: &mut SysctlRegs,
        info: Info,
        kernel_clock: Hertz,
        rx: AnyPin,
        rts: AnyPin,
        config: Config,
    ) -> (res: Result<Self, ConfigError>)
        requires
            info.spec_peripheral_clock().in_range(),
        ensures
            rx_created(
                old(r),
                final(r),
                old(irq),
                final(irq),
                old(s),
                final(s),
                old(sysctl),
                final(sysctl),
                (UartRx {
                    info,
                    kernel_clock,
                    rx: Some(rx),
                    rts: Some(rts),
                    rx_dma: None,
                    detect_previous_overrun: config.detect_previous_overrun,
                }),
                config,
                res,
            ),
    {
        Self::new_inner(r, irq, s, sysctl, info, kernel_clock, Some(rx), Some(rts), None, config)
    }

    /// Claims the clock, makes the receiver and configures the UART for it.
    fn new_inner(
        r: &mut UartRegs,
        irq: &mut InterruptLine,
        s: &mut State,
        sysctl: &mut SysctlRegs,
        info: Info,
        kernel_clock: Hertz,
        rx: Option<AnyPin>,
        rts: Option<AnyPin>,
        rx_dma: Option<ChannelAndRequest>,
        config: Config,
    ) -> (res: Result<Self, ConfigError>)
        requires
            info.spec_peripheral_clock().in_range(),
        ensures
            rx_created(
                old(r),
                final(r),
                old(irq),
                final(irq),
                old(s),
                final(s),
                old(sysctl),
                final(sysctl),
                (UartRx {
                    info,
                    kernel_clock,
                    rx,
                    rts,
                    rx_dma,
                    detect_previous_overrun: config.detect_previous_overrun,
                }),
                config,
                res,
            ),
    {
        claim_clock(sysctl, &info);
        let mut this = UartRx {
            info,
            kernel_clock,
            rx,
            rts,
            rx_dma,
            detect_previous_overrun: config.detect_previous_overrun,
        };
        match this.enable_and_configure(r, irq, s, &config) {
            Ok(()) => Ok(this),
            Err(e) => {
                // the half that was being made is given up again
                let _ = drop_tx_rx(&this.info, s, sysctl);
                Err(e)
            },
        }
    }

    /// Counts the halves of the driver in and configures the UART.
    fn enable_and_configure(
        &mut self,
        r: &mut UartRegs,
        irq: &mut InterruptLine,
        s: &mut State,
        config: &Config,
    ) -> (res: Result<(), ConfigError>)
        ensures
            *final(self) == *old(self),
            final(s).tx_rx_refcount == 1,
            final(s).saved_lsr == old(s).saved_lsr,
            res == configure_result(old(self).kernel_clock, *config, true, false),
            res is Err ==> *final(r) == *old(r) && *final(irq) == *old(irq),
            res is Ok ==> ({
                let (div, osc) = baudrate_setting(old(self).kernel_clock.0, config.baudrate).unwrap();
                &&& *final(r) == configured(*old(r), old(self).info.features, div, osc, *config, true)
                &&& *final(irq) == InterruptLine { enabled: true, pending: false }
            }),
    {
        s.tx_rx_refcount = 1;
        match configure(r, &self.info, self.kernel_clock, config, true, false) {
            Ok(()) => {},
            Err(e) => {
                return Err(e);
            },
        }
        irq.pending = false;
        irq.enabled = true;
        Ok(())
    }

    /// Reconfigure the driver
    pub fn set_config(&mut self, r: &mut UartRegs, irq: &mut InterruptLine, config: &Config) -> (res:
        Result<(), ConfigError>)
        ensures
            *final(self) == *old(self),
            res == configure_result(old(self).kernel_clock, *config, true, true),
            res is Err ==> *final(r) == *old(r) && *final(irq) == (InterruptLine {
                enabled: false,
                ..*old(irq)
            }),
            res is Ok ==> ({
                let (div, osc) = baudrate_setting(old(self).kernel_clock.0, config.baudrate).unwrap();
                &&& *final(r) == configured(*old(r), old(self).info.features, div, osc, *config, true)
                &&& *final(irq) == InterruptLine { enabled: true, pending: false }
            }),
    {
        reconfigure(r, irq, &self.info, self.kernel_clock, config)
    }

    /// Initiate an asynchronous UART read: [`UartRx::inner_read`] without
    /// idle line detection. It ends with [`UartRx::read_done`].
    pub fn read(
        &mut self,
        r: &mut UartRegs,
        dma: &mut DmaRegs,
        mux: &mut DmaMux,
        rbr_addr: u32,
        buf_addr: u32,
        buffer_len: usize,
    ) -> (started: Result<ReadStarted, Result<usize, Error>>)
        requires
            read_precheck(buffer_len) is None ==> old(self).rx_dma is Some,
        ensures
            read_begun(
                old(self),
                final(self),
                old(r),
                final(r),
                old(dma),
                final(dma),
                old(mux),
                final(mux),
                rbr_addr,
                buf_addr,
                buffer_len,
                false,
                started,
            ),
    {
        self.inner_read(r, dma, mux, rbr_addr, buf_addr, buffer_len, false)
    }

    /// Initiate an asynchronous read with idle line detection enabled:
    /// [`UartRx::inner_read`] with idle line detection. It ends with
    /// [`UartRx::inner_read_done`].
    pub fn read_until_idle(
        &mut self,
        r: &mut UartRegs,
        dma: &mut DmaRegs,
        mux: &mut DmaMux,
        rbr_addr: u32,
        buf_addr: u32,
        buffer_len: usize,
    ) -> (started: Result<ReadStarted, Result<usize, Error>>)
        requires
            read_precheck(buffer_len) is None ==> old(self).rx_dma is Some,
        ensures
            read_begun(
                old(self),
                final(self),
                old(r),
                final(r),
                old(dma),
                final(dma),
                old(mux),
                final(mux),
                rbr_addr,
                buf_addr,
                buffer_len,
                true,
                started,
            ),
    {
        self.inner_read(r, dma, mux, rbr_addr, buf_addr, buffer_len, true)
    }

    /// Starts the receive of `buffer_len` bytes into the buffer at
    /// `buf_addr` from the receiver buffer register at `rbr_addr`: starts
    /// the DMA transfer and arms the UART, with line status interrupt and
    /// DMA requests on, and idle detection on where
    /// `enable_idle_line_detection` asks for it.
    pub fn inner_read_run(
        &mut self,
        r: &mut UartRegs,
        dma: &mut DmaRegs,
        mux: &mut DmaMux,
        rbr_addr: u32,
        buf_addr: u32,
        buffer_len: usize,
        enable_idle_line_detection: bool,
    ) -> (started: ReadStarted)
        requires
            old(self).rx_dma is Some,
            read_precheck(buffer_len) is None,
        ensures
            read_begun(
                old(self),
                final(self),
                old(r),
                final(r),
                old(dma),
                final(dma),
                old(mux),
                final(mux),
                rbr_addr,
                buf_addr,
                buffer_len,
                enable_idle_line_detection,
                Ok(started),
            ),
    {
        let mut lent: Option<ChannelAndRequest> = None;
        core::mem::swap(&mut self.rx_dma, &mut lent);
        let ch = lent.unwrap();
        let transfer = Transfer::new_read(
            ch.channel,
            dma,
            mux,
            ch.request,
            rbr_addr,
            buf_addr,
            buffer_len,
            WordSize::OneByte,
            TransferOptions::default(),
        );
        *r = arm_read(*r, self.info.features, enable_idle_line_detection);
        ReadStarted { transfer, clear_line_status: !self.detect_previous_overrun }
    }

    /// Begins a receive into a buffer of `buffer_len` bytes.
    ///
    /// An empty buffer and one that is too long are answered at once, with
    /// no register touched. Otherwise the receive is started with
    /// [`UartRx::inner_read_run`]. It then waits for the transfer and for
    /// [`UartRx::poll_abort`], whichever is ready first, and ends with
    /// [`UartRx::inner_read_done`].
    pub fn inner_read(
        &mut self,
        r: &mut UartRegs,
        dma: &mut DmaRegs,
        mux: &mut DmaMux,
        rbr_addr: u32,
        buf_addr: u32,
        buffer_len: usize,
        enable_idle_line_detection: bool,
    ) -> (started: Result<ReadStarted, Result<usize, Error>>)
        requires
            read_precheck(buffer_len) is None ==> old(self).rx_dma is Some,
        ensures
            read_begun(
                old(self),
                final(self),
                old(r),
                final(r),
                old(dma),
                final(dma),
                old(mux),
                final(mux),
                rbr_addr,
                buf_addr,
                buffer_len,
                enable_idle_line_detection,
                started,
            ),
    {
        if let Some(early) = check_read_length(buffer_len) {
            return Err(early);
        }
        Ok(self.inner_read_run(r, dma, mux, rbr_addr, buf_addr, buffer_len, enable_idle_line_detection))
    }

    /// The line status check of a receive: one poll of the condition that
    /// ends it early.
    ///
    /// Leaves the task's waker with the UART first, then takes the line
    /// status that the interrupt handler saved, which leaves none saved.
    /// An error flag in it ends the receive with that error; failing that,
    /// an idle line ends it where the receive asked for idle detection.
    pub fn poll_abort(
        &self,
        s: &mut State,
        waker: &Waker,
        r: &UartRegs,
        enable_idle_line_detection: bool,
    ) -> (p: Poll<Result<(), Error>>)
        ensures
            final(s).saved_lsr == Lsr::spec_zero(),
            final(s).tx_rx_refcount == old(s).tx_rx_refcount,
            p == abort_outcome(
                self.info.features,
                old(s).saved_lsr,
                r.rxidle_flag,
                enable_idle_line_detection,
            ),
    {
        s.rx_waker.register(waker);
        let lsr = s.saved_lsr;
        s.saved_lsr = Lsr::zero();
        if let Some(e) = check_line_error(lsr) {
            // all Rx interrupts and the Rx DMA request have been cleared in
            // the interrupt handler
            return Poll::Ready(Err(e));
        }
        let features = self.info.features;
        if features.rx_idle_detect && features.nine_bit_mode {
            if enable_idle_line_detection && lsr.rxidle {
                return Poll::Ready(Ok(()));
            }
        }
        if features.e00018_fix {
            if enable_idle_line_detection && r.rxidle_flag {
                return Poll::Ready(Ok(()));
            }
        }
        Poll::Pending
    }

    /// Ends a receive of `buffer_len` bytes that was started.
    ///
    /// `first` says which of the two conditions came first, `remaining`
    /// how many transfers the channel had left then, and `channel` is the
    /// channel that the stopped transfer gave back. Whatever `first` is,
    /// the UART is brought back to its neutral state. Returns the number
    /// of bytes received: the whole buffer after the transfer completed,
    /// what the channel had moved when the line went idle, or the error.
    pub fn inner_read_done(
        &mut self,
        r: &mut UartRegs,
        first: First,
        buffer_len: usize,
        remaining: u32,
        channel: ChannelAndRequest,
    ) -> (res: Result<usize, Error>)
        requires
            remaining <= buffer_len,
        ensures
            res == bytes_received(buffer_len, read_completion(first, buffer_len, remaining)),
            *final(r) == read_disarmed(*old(r), old(self).info.features),
            *final(self) == old(self).with_rx_dma(Some(channel)),
    {
        let event = complete_read(first, buffer_len, remaining);
        cleanup_read(r, self.info.features);
        self.rx_dma = Some(channel);
        match event {
            Ok(ReadCompletionEvent::DmaCompleted) => Ok(buffer_len),
            Ok(ReadCompletionEvent::Idle(n)) => Ok(n),
            Err(e) => Err(e),
        }
    }

    /// Ends a receive without idle detection: [`UartRx::inner_read_done`],
    /// with success in place of the number of bytes.
    pub fn read_done(
        &mut self,
        r: &mut UartRegs,
        first: First,
        buffer_len: usize,
        remaining: u32,
        channel: ChannelAndRequest,
    ) -> (res: Result<(), Error>)
        requires
            remaining <= buffer_len,
        ensures
            res == (match bytes_received(buffer_len, read_completion(first, buffer_len, remaining)) {
                Ok(_) => Ok::<(), Error>(()),
                Err(e) => Err(e),
            }),
            *final(r) == read_disarmed(*old(r), old(self).info.features),
            *final(self) == old(self).with_rx_dma(Some(channel)),
    {
        match self.inner_read_done(r, first, buffer_len, remaining, channel) {
            Ok(_) => Ok(()),
            Err(e) => Err(e),
        }
    }

    /// Tells from a reading of the line status register, which clears its
    /// error flags, whether a byte is ready.
    pub fn check_rx_flags(&mut self, lsr: Lsr) -> (res: Result<bool, Error>)
        ensures
            *final(self) == *old(self),
            res == rx_flags(lsr),
    {
        if lsr.pe {
            return Err(Error::Parity);
        } else if lsr.fe {
            return Err(Error::Framing);
        } else if lsr.oe {
            return Err(Error::Overrun);
        } else if lsr.errf {
            return Err(Error::FIFO);
        } else if lsr.lbreak {
            return Err(Error::LineBreak);
        }
        Ok(lsr.dr)  // data ready
    }

    /// Whether a single byte can be read now: on `Ok` the caller takes it
    /// from the receiver buffer register.
    pub fn nb_read(&mut self, lsr: Lsr) -> (res: Result<(), NbError>)
        ensures
            *final(self) == *old(self),
            res == nb_read_outcome(lsr),
    {
        match self.check_rx_flags(lsr) {
            Err(e) => Err(NbError::Other(e)),
            Ok(true) => Ok(()),
            Ok(false) => Err(NbError::WouldBlock),
        }
    }

    /// One look of the wait for the next byte of a blocking read: on
    /// `Ok(true)` the caller takes the byte from the receiver buffer
    /// register, on `Ok(false)` it reads the line status again.
    pub fn blocking_read(&mut self, lsr: Lsr) -> (res: Result<bool, Error>)
        ensures
            *final(self) == *old(self),
            res == rx_flags(lsr),
    {
        self.check_rx_flags(lsr)
    }

    /// Gives the half up: counts it out and, if it was the last, releases
    /// the UART's clock resource; see [`drop_tx_rx`].
    ///
    /// Returns whether the caller has to wait until the resource is no
    /// longer busy, and the pins that go back to their default function:
    /// receive and request-to-send.
    pub fn release(self, state: &mut State, sysctl: &mut SysctlRegs) -> (out: (
        bool,
        [Option<AnyPin>; 2],
    ))
        requires
            old(state).tx_rx_refcount >= 1,
            resource_in_range(self.info.resource),
        ensures
            (final(state).tx_rx_refcount, *final(sysctl)) == after_drop(
                old(state).tx_rx_refcount,
                *old(sysctl),
                self.info.resource,
            ),
            final(state).saved_lsr == old(state).saved_lsr,
            out.0 == (old(state).tx_rx_refcount == 1 && is_resource(self.info.resource)),
            out.1@ == seq![self.rx, self.rts],
    {
        let pins = [self.rx, self.rts];
        let wait = drop_tx_rx(&self.info, state, sysctl);
        (wait, pins)
    }
}

} // verus!
