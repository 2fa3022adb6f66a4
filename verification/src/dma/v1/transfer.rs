//! The transfer: one configured and started operation of a channel.
//!
//! A transfer is made by programming and starting its channel. From then on
//! it holds the channel, and the channel comes back only from a look at the
//! controller that finds it stopped: after it has completed, or after an
//! abort that was requested has been carried out. Giving a transfer up is
//! such a wait, begun with the request to abort and ended with the channel
//! disabled.

use vstd::prelude::*;
use core::task::Waker;
use crate::dma::registry::ChannelRegistry;
use crate::dma::regs::{bit, AddrCtrl, ChannelControl, ChannelRegs, DmaMux, DmaRegs, MuxCfg};
use crate::dma::regs::ABORT_SHIFT;
use crate::dma::v1::channel::{channel_disabled, configured_control, irq_bits};
use crate::dma::v1::channel::{lemma_irq_bits_cleared, Poll};
use crate::dma::v1::options::{HandshakeMode, TransferOptions};
use crate::dma::word::WordSize;
use crate::dma::{AnyChannel, Dir, Request};

verus! {

/// How the source address moves in a transfer between memory and a
/// peripheral: the peripheral side is fixed, the memory side steps through
/// the buffer unless one word is repeated.
pub open spec fn src_addr_ctrl_of(dir: Dir, incr_mem: bool) -> AddrCtrl {
    if dir == Dir::MemoryToPeripheral && incr_mem {
        AddrCtrl::INCREMENT
    } else {
        AddrCtrl::FIXED
    }
}

/// How the destination address moves; see [`src_addr_ctrl_of`].
pub open spec fn dst_addr_ctrl_of(dir: Dir, incr_mem: bool) -> AddrCtrl {
    if dir == Dir::PeripheralToMemory && incr_mem {
        AddrCtrl::INCREMENT
    } else {
        AddrCtrl::FIXED
    }
}

/// The side whose request line paces a transfer: the peripheral's.
pub open spec fn handshake_of(dir: Dir) -> HandshakeMode {
    match dir {
        Dir::MemoryToPeripheral => HandshakeMode::Destination,
        Dir::PeripheralToMemory => HandshakeMode::Source,
    }
}

/// The registers of a channel on which a transfer has just been started.
pub open spec fn started_channel(
    channel: &AnyChannel,
    dir: Dir,
    peri_addr: u32,
    mem_addr: u32,
    mem_len: usize,
    incr_mem: bool,
    data_size: WordSize,
    options: TransferOptions,
) -> ChannelRegs {
    let src = if dir == Dir::MemoryToPeripheral {
        mem_addr
    } else {
        peri_addr
    };
    let dst = if dir == Dir::MemoryToPeripheral {
        peri_addr
    } else {
        mem_addr
    };
    ChannelRegs {
        ctrl: ChannelControl {
            enable: true,
            ..configured_control(
                channel.spec_id(),
                dir,
                data_size,
                src_addr_ctrl_of(dir, incr_mem),
                data_size,
                dst_addr_ctrl_of(dir, incr_mem),
                handshake_of(dir),
                options,
            )
        },
        tran_size: mem_len as u32,
        src_addr: channel.system_address(src),
        dst_addr: channel.system_address(dst),
        llpointer: 0,
    }
}

/// The controller and the multiplexer after a transfer has been started on
/// `channel`: the channel is programmed and enabled, its pending status bits
/// are cleared, its multiplexer output carries `request`, and nothing else
/// has changed.
pub open spec fn transfer_started(
    r0: &DmaRegs,
    r1: &DmaRegs,
    mux0: &DmaMux,
    mux1: &DmaMux,
    channel: &AnyChannel,
    request: Request,
    dir: Dir,
    peri_addr: u32,
    mem_addr: u32,
    mem_len: usize,
    incr_mem: bool,
    data_size: WordSize,
    options: TransferOptions,
) -> bool {
    &&& r1.chctrl@ == r0.chctrl@.update(
        channel.spec_num() as int,
        started_channel(channel, dir, peri_addr, mem_addr, mem_len, incr_mem, data_size, options),
    )
    &&& r1.int_status == r0.int_status & !irq_bits(channel.spec_num() as u32)
    &&& r1.ch_abort == r0.ch_abort
    &&& r1.reset == r0.reset
    &&& mux1.muxcfg@ == mux0.muxcfg@.update(
        channel.spec_mux_num() as int,
        MuxCfg { enable: true, source: request },
    )
}

/// Where a transfer stands. It is made running; from there it completes, or
/// it is asked to abort and is aborted.
#[derive(Debug, Copy, Clone, PartialEq, Eq, Structural)]
pub enum TransferState {
    /// The channel is moving data.
    Running,
    /// The channel is still moving data after it was asked to stop.
    Aborting,
    /// The channel has stopped without an abort.
    Completed,
    /// The channel has stopped on an abort.
    Aborted,
}

/// DMA transfer: one configured and started operation of a channel.
///
/// The transfer owns its channel. The channel comes back from
/// [`Transfer::blocking_wait`] or, where the transfer is given up, from
/// [`Transfer::cancel`], and only once the hardware has stopped using the
/// buffer.
#[must_use]
#[derive(Debug)]
pub struct Transfer {
    channel: AnyChannel,
    abort_requested: bool,
}

impl Transfer {
    /// The channel that carries the transfer.
    pub closed spec fn channel(&self) -> &AnyChannel {
        &self.channel
    }

    /// Whether the transfer has been asked to stop.
    pub closed spec fn abort_requested(&self) -> bool {
        self.abort_requested
    }

    /// Where the transfer stands, by an image of its controller.
    pub open spec fn spec_state(&self, r: &DmaRegs) -> TransferState {
        if self.channel().spec_is_running(r) {
            if self.abort_requested() {
                TransferState::Aborting
            } else {
                TransferState::Running
            }
        } else if r.abort(self.channel().spec_num()) {
            TransferState::Aborted
        } else {
            TransferState::Completed
        }
    }

    /// Where the transfer stands, by an image of its controller.
    #[verifier::when_used_as_spec(spec_state)]
    pub fn state(&self, r: &DmaRegs) -> (state: TransferState)
        ensures
            state == self.spec_state(r),
    {
        if self.channel.is_running(r) {
            if self.abort_requested {
                TransferState::Aborting
            } else {
                TransferState::Running
            }
        } else if bit(r.int_status, ABORT_SHIFT + self.channel.num() as u32) {
            TransferState::Aborted
        } else {
            TransferState::Completed
        }
    }

    /// A buffer of `mem_len` words of `data_size` at `mem_addr` can be
    /// moved to or from `peri_addr`: it is not empty, its length in bytes
    /// fits the size register, and both addresses are aligned to the word.
    pub open spec fn buffer_well_formed(
        peri_addr: u32,
        mem_addr: u32,
        mem_len: usize,
        data_size: WordSize,
    ) -> bool {
        &&& mem_len > 0
        &&& mem_len * data_size.spec_bytes() <= u32::MAX
        &&& data_size.spec_aligned(peri_addr)
        &&& data_size.spec_aligned(mem_addr)
    }

    /// Whether a buffer can be moved; see [`Transfer::buffer_well_formed`].
    pub fn check_buffer(peri_addr: u32, mem_addr: u32, mem_len: usize, data_size: WordSize) -> (ok:
        bool)
        ensures
            ok == Self::buffer_well_formed(peri_addr, mem_addr, mem_len, data_size),
    {
        mem_len > 0 && AnyChannel::check_transfer(peri_addr, data_size, mem_addr, data_size, mem_len)
    }

    /// Create a new read DMA transfer (peripheral to memory).
    pub fn new_read(
        channel: AnyChannel,
        r: &mut DmaRegs,
        mux: &mut DmaMux,
        request: Request,
        peri_addr: u32,
        buf_addr: u32,
        buf_len: usize,
        data_size: WordSize,
        options: TransferOptions,
    ) -> (t: Self)
        requires
            Self::buffer_well_formed(peri_addr, buf_addr, buf_len, data_size),
        ensures
            *t.channel() == channel,
            !t.abort_requested(),
            transfer_started(
                old(r),
                final(r),
                old(mux),
                final(mux),
                &channel,
                request,
                Dir::PeripheralToMemory,
                peri_addr,
                buf_addr,
                buf_len,
                true,
                data_size,
                options,
            ),
            channel.spec_is_running(final(r)),
    {
        Self::new_read_raw(channel, r, mux, request, peri_addr, buf_addr, buf_len, data_size, options)
    }

    /// Create a new read DMA transfer (peripheral to memory), from the
    /// buffer's address and length.
    pub fn new_read_raw(
        channel: AnyChannel,
        r: &mut DmaRegs,
        mux: &mut DmaMux,
        request: Request,
        peri_addr: u32,
        buf_addr: u32,
        buf_len: usize,
        data_size: WordSize,
        options: TransferOptions,
    ) -> (t: Self)
        requires
            Self::buffer_well_formed(peri_addr, buf_addr, buf_len, data_size),
        ensures
            *t.channel() == channel,
            !t.abort_requested(),
            transfer_started(
                old(r),
                final(r),
                old(mux),
                final(mux),
                &channel,
                request,
                Dir::PeripheralToMemory,
                peri_addr,
                buf_addr,
                buf_len,
                true,
                data_size,
                options,
            ),
            channel.spec_is_running(final(r)),
    {
        Self::new_inner(
            channel,
            r,
            mux,
            request,
            Dir::PeripheralToMemory,
            peri_addr,
            buf_addr,
            buf_len,
            true,
            data_size,
            options,
        )
    }

    /// Create a new write DMA transfer (memory to peripheral).
    pub fn new_write(
        channel: AnyChannel,
        r: &mut DmaRegs,
        mux: &mut DmaMux,
        request: Request,
        buf_addr: u32,
        buf_len: usize,
        peri_addr: u32,
        data_size: WordSize,
        options: TransferOptions,
    ) -> (t: Self)
        requires
            Self::buffer_well_formed(peri_addr, buf_addr, buf_len, data_size),
        ensures
            *t.channel() == channel,
            !t.abort_requested(),
            transfer_started(
                old(r),
                final(r),
                old(mux),
                final(mux),
                &channel,
                request,
                Dir::MemoryToPeripheral,
                peri_addr,
                buf_addr,
                buf_len,
                true,
                data_size,
                options,
            ),
            channel.spec_is_running(final(r)),
    {
        Self::new_write_raw(channel, r, mux, request, buf_addr, buf_len, peri_addr, data_size, options)
    }

    /// Create a new write DMA transfer (memory to peripheral), from the
    /// buffer's address and length.
    pub fn new_write_raw(
        channel: AnyChannel,
        r: &mut DmaRegs,
        mux: &mut DmaMux,
        request: Request,
        buf_addr: u32,
        buf_len: usize,
        peri_addr: u32,
        data_size: WordSize,
        options: TransferOptions,
    ) -> (t: Self)
        requires
            Self::buffer_well_formed(peri_addr, buf_addr, buf_len, data_size),
        ensures
            *t.channel() == channel,
            !t.abort_requested(),
            transfer_started(
                old(r),
                final(r),
                old(mux),
                final(mux),
                &channel,
                request,
                Dir::MemoryToPeripheral,
                peri_addr,
                buf_addr,
                buf_len,
                true,
                data_size,
                options,
            ),
            channel.spec_is_running(final(r)),
    {
        Self::new_inner(
            channel,
            r,
            mux,
            request,
            Dir::MemoryToPeripheral,
            peri_addr,
            buf_addr,
            buf_len,
            true,
            data_size,
            options,
        )
    }

    /// Create a new write DMA transfer (memory to peripheral), writing the
    /// same value repeatedly.
    pub fn new_write_repeated(
        channel: AnyChannel,
        r: &mut DmaRegs,
        mux: &mut DmaMux,
        request: Request,
        repeated_addr: u32,
        count: usize,
        peri_addr: u32,
        data_size: WordSize,
        options: TransferOptions,
    ) -> (t: Self)
        requires
            Self::buffer_well_formed(peri_addr, repeated_addr, count, data_size),
        ensures
            *t.channel() == channel,
            !t.abort_requested(),
            transfer_started(
                old(r),
                final(r),
                old(mux),
                final(mux),
                &channel,
                request,
                Dir::MemoryToPeripheral,
                peri_addr,
                repeated_addr,
                count,
                false,
                data_size,
                options,
            ),
            channel.spec_is_running(final(r)),
    {
        Self::new_inner(
            channel,
            r,
            mux,
            request,
            Dir::MemoryToPeripheral,
            peri_addr,
            repeated_addr,
            count,
            false,
            data_size,
            options,
        )
    }

    /// Programs the channel for the transfer and starts it.
    pub fn new_inner(
        channel: AnyChannel,
        r: &mut DmaRegs,
        mux: &mut DmaMux,
        request: Request,
        dir: Dir,
        peri_addr: u32,
        mem_addr: u32,
        mem_len: usize,
        incr_mem: bool,
        data_size: WordSize,
        options: TransferOptions,
    ) -> (t: Self)
        requires
            Self::buffer_well_formed(peri_addr, mem_addr, mem_len, data_size),
        ensures
            *t.channel() == channel,
            !t.abort_requested(),
            transfer_started(
                old(r),
                final(r),
                old(mux),
                final(mux),
                &channel,
                request,
                dir,
                peri_addr,
                mem_addr,
                mem_len,
                incr_mem,
                data_size,
                options,
            ),
            channel.spec_is_running(final(r)),
    {
        let src_addr;
        let dst_addr;
        let mut src_addr_ctrl = AddrCtrl::FIXED;
        let mut dst_addr_ctrl = AddrCtrl::FIXED;
        let handshake;
        match dir {
            Dir::MemoryToPeripheral => {
                src_addr = mem_addr;
                dst_addr = peri_addr;
                if incr_mem {
                    src_addr_ctrl = AddrCtrl::INCREMENT;
                }
                handshake = HandshakeMode::Destination;
            },
            Dir::PeripheralToMemory => {
                src_addr = peri_addr;
                dst_addr = mem_addr;
                if incr_mem {
                    dst_addr_ctrl = AddrCtrl::INCREMENT;
                }
                handshake = HandshakeMode::Source;
            },
        };
        channel.configure(
            r,
            mux,
            request,
            dir,
            src_addr,
            data_size,
            src_addr_ctrl,
            dst_addr,
            data_size,
            dst_addr_ctrl,
            mem_len,
            handshake,
            options,
        );
        channel.start(r);
        proof {
            lemma_irq_bits_cleared(old(r).int_status, channel.spec_num() as u32);
            assert(r.chctrl@ =~= old(r).chctrl@.update(
                channel.spec_num() as int,
                started_channel(
                    &channel,
                    dir,
                    peri_addr,
                    mem_addr,
                    mem_len,
                    incr_mem,
                    data_size,
                    options,
                ),
            ));
        }
        Transfer { channel, abort_requested: false }
    }

    /// Request the transfer to stop.
    ///
    /// This doesn't immediately stop the transfer, you have to wait until
    /// [`is_running`](Self::is_running) returns false.
    pub fn request_abort(&mut self, r: &mut DmaRegs)
        ensures
            final(self).channel() == old(self).channel(),
            final(self).abort_requested(),
            final(r).ch_abort == 1u32 << (old(self).channel().spec_num() as u32),
            final(r).int_status == old(r).int_status,
            final(r).chctrl == old(r).chctrl,
            final(r).reset == old(r).reset,
    {
        self.abort_requested = true;
        self.channel.abort(r)
    }

    /// Return whether this transfer is still running.
    ///
    /// If this returns `false`, it can be because either the transfer
    /// finished, or it was requested to stop early with
    /// [`request_abort`](Self::request_abort).
    pub fn is_running(&mut self, r: &DmaRegs) -> (running: bool)
        ensures
            *final(self) == *old(self),
            running == old(self).channel().spec_is_running(r),
    {
        self.channel.is_running(r)
    }

    /// Gets the total remaining transfers for the channel.
    ///
    /// This is zero for transfers that completed without cancellation.
    pub fn get_remaining_transfers(&self, r: &DmaRegs) -> (n: u32)
        ensures
            n == r.chctrl[self.channel().spec_num() as int].tran_size,
    {
        self.channel.get_remaining_transfers(r)
    }

    /// One look at the controller while waiting for the transfer to stop.
    ///
    /// Gives the channel back once the transfer is no longer running, and
    /// the transfer itself while it is: the wait goes on with a fresh image
    /// of the registers. A channel comes back only from a look that finds
    /// it stopped, so a wait never ends while the channel runs.
    pub fn blocking_wait(self, r: &DmaRegs) -> (done: Result<AnyChannel, Transfer>)
        ensures
            done is Ok <==> !self.channel().spec_is_running(r),
            done is Ok <==> self.spec_state(r) == TransferState::Completed || self.spec_state(r)
                == TransferState::Aborted,
            done is Ok ==> done->Ok_0 == *self.channel(),
            done is Err ==> done->Err_0 == self,
    {
        let mut this = self;
        if this.is_running(r) {
            Err(this)
        } else {
            Ok(this.channel)
        }
    }

    /// Gives the transfer up: one look of the wait that ends a transfer
    /// before it has finished.
    ///
    /// The first look requests the abort. Each look hands the channel back
    /// only if the transfer is no longer running, and then with the channel
    /// disabled; while the transfer runs, the transfer comes back and is
    /// given up again with a fresh image of the registers. So whoever gives
    /// a transfer up keeps waiting until the hardware has let go of the
    /// buffer, and gets a channel that is switched off.
    pub fn cancel(self, r: &mut DmaRegs) -> (done: Result<AnyChannel, Transfer>)
        ensures
            final(r).ch_abort == (if self.abort_requested() {
                old(r).ch_abort
            } else {
                1u32 << (self.channel().spec_num() as u32)
            }),
            final(r).int_status == old(r).int_status,
            final(r).reset == old(r).reset,
            done is Ok <==> !self.channel().spec_is_running(old(r)),
            done is Ok ==> {
                &&& done->Ok_0 == *self.channel()
                &&& final(r).chctrl@ == old(r).chctrl@.update(
                    self.channel().spec_num() as int,
                    channel_disabled(old(r).chctrl[self.channel().spec_num() as int]),
                )
                &&& !final(r).chctrl[self.channel().spec_num() as int].ctrl.enable
                &&& !self.channel().spec_is_running(final(r))
            },
            done is Err ==> {
                &&& final(r).chctrl == old(r).chctrl
                &&& done->Err_0.channel() == self.channel()
                &&& done->Err_0.abort_requested()
                &&& done->Err_0.spec_state(final(r)) == TransferState::Aborting
            },
    {
        let mut this = self;
        if !this.abort_requested {
            this.request_abort(r);
        }
        if this.is_running(r) {
            Err(this)
        } else {
            this.channel.disable(r);
            Ok(this.channel)
        }
    }

    /// One poll of the transfer as a future.
    ///
    /// Leaves the task's waker with the channel's registry slot first and
    /// looks at the controller second, so that a completion between the two
    /// still finds the waker.
    pub fn poll(&mut self, state: &ChannelRegistry, waker: &Waker, r: &DmaRegs) -> (p: Poll<()>)
        ensures
            *final(self) == *old(self),
            p == (if old(self).channel().spec_is_running(r) {
                Poll::<()>::Pending
            } else {
                Poll::Ready(())
            }),
    {
        state.register(self.channel.id() as usize, waker);
        if self.is_running(r) {
            Poll::Pending
        } else {
            Poll::Ready(())
        }
    }
}

} // verus!
