//! The operations on one channel: configure, start, abort, and the looks
//! at its status.

use vstd::prelude::*;
use crate::dma::regs::{bit, AddrCtrl, ChannelControl, ChannelRegs, DmaMux, DmaRegs, MuxCfg};
use crate::dma::regs::{ABORT_SHIFT, ERROR_SHIFT, TC_SHIFT};
use crate::dma::v1::address::{core_local_mem_to_sys_address, spec_core_local_mem_to_sys_address};
use crate::dma::v1::options::{HandshakeMode, TransferOptions};
use crate::dma::word::WordSize;
use crate::dma::{AnyChannel, Dir, Request};
use crate::sysctl::{add_waits, after_add, PeripheralClock, SysctlRegs};

verus! {

/// Whether an operation is finished.
#[derive(Debug, PartialEq, Eq)]
pub enum Poll<T> {
    /// It is, with this result.
    Ready(T),
    /// It is not yet: poll again after the next wake.
    Pending,
}

/// The error, abort and terminal count bits of channel `ch` in the
/// interrupt status word.
pub open spec fn irq_bits(ch: u32) -> u32 {
    (1u32 << (ERROR_SHIFT + ch) as u32) | (1u32 << (ABORT_SHIFT + ch) as u32) | (1u32 << (TC_SHIFT
        + ch) as u32)
}

/// Clearing the three status bits of a channel leaves them clear.
pub proof fn lemma_irq_bits_cleared(status: u32, ch: u32)
    by (bit_vector)
    requires
        ch < 8,
    ensures
        (status & !irq_bits(ch)) & (1u32 << ch) == 0,
        (status & !irq_bits(ch)) & (1u32 << (8 + ch) as u32) == 0,
        (status & !irq_bits(ch)) & (1u32 << (16 + ch) as u32) == 0,
{
}

/// Clearing the three status bits of a channel leaves every other bit as
/// it was.
pub proof fn lemma_irq_bits_frame(status: u32, ch: u32, k: u32)
    by (bit_vector)
    requires
        ch < 8,
        k < 32,
        k != ch,
        k != 8 + ch,
        k != 16 + ch,
    ensures
        (status & !irq_bits(ch)) & (1u32 << k) == status & (1u32 << k),
{
}

/// The registers of a channel with its enable bit clear.
pub open spec fn channel_disabled(regs: ChannelRegs) -> ChannelRegs {
    ChannelRegs { ctrl: ChannelControl { enable: false, ..regs.ctrl }, ..regs }
}

/// The control word that `configure` writes.
pub open spec fn configured_control(
    mux_ch: u8,
    dir: Dir,
    src_width: WordSize,
    src_addr_ctrl: AddrCtrl,
    dst_width: WordSize,
    dst_addr_ctrl: AddrCtrl,
    handshake: HandshakeMode,
    options: TransferOptions,
) -> ChannelControl {
    ChannelControl {
        srcbusinfidx: false,
        dstbusinfidx: false,
        priority: options.priority,
        srcburstsize: options.burst.spec_burstsize(),
        srcwidth: src_width.spec_width(),
        dstwidth: dst_width.spec_width(),
        srcmode: handshake.spec_src_mode(),
        dstmode: handshake.spec_dst_mode(),
        srcaddrctrl: src_addr_ctrl,
        dstaddrctrl: dst_addr_ctrl,
        srcreqsel: if dir == Dir::MemoryToPeripheral {
            0
        } else {
            mux_ch
        },
        dstreqsel: if dir == Dir::MemoryToPeripheral {
            mux_ch
        } else {
            0
        },
        inttcmask: !options.complete_transfer_irq,
        interrmask: false,
        intabtmask: true,
        enable: false,
    }
}

impl AnyChannel {
    /// The channel is enabled and has neither been aborted nor reached its
    /// terminal count.
    pub open spec fn spec_is_running(&self, r: &DmaRegs) -> bool {
        let num = self.spec_num();
        r.chctrl[num as int].ctrl.enable && !r.abort(num) && !r.tc(num)
    }

    /// The transfer `configure` is asked for keeps to the alignment the
    /// controller demands and to the width of its registers.
    pub open spec fn transfer_well_formed(
        src_addr: u32,
        src_width: WordSize,
        dst_addr: u32,
        dst_width: WordSize,
        size_in_words: usize,
    ) -> bool {
        &&& size_in_words * dst_width.spec_bytes() <= u32::MAX
        &&& src_width.spec_aligned(src_addr)
        &&& dst_width.spec_aligned(dst_addr)
    }

    /// Whether `configure` can be asked for a transfer; see
    /// [`AnyChannel::transfer_well_formed`].
    pub fn check_transfer(
        src_addr: u32,
        src_width: WordSize,
        dst_addr: u32,
        dst_width: WordSize,
        size_in_words: usize,
    ) -> (ok: bool)
        ensures
            ok == Self::transfer_well_formed(src_addr, src_width, dst_addr, dst_width, size_in_words),
    {
        let bytes = dst_width.bytes();
        assert(size_in_words * bytes <= u32::MAX <==> size_in_words <= (u32::MAX as usize) / bytes)
            by (nonlinear_arith)
            requires
                1 <= bytes <= 8,
        ;
        size_in_words <= (u32::MAX as usize) / bytes && src_width.aligned(src_addr)
            && dst_width.aligned(dst_addr)
    }

    /// Programs the channel for one transfer and leaves it disabled.
    ///
    /// Routes `request` to the channel's multiplexer output, writes the
    /// addresses (mapped where the channel works on core-local
    /// memory), the size and the control word, and clears the channel's
    /// pending status bits.
    pub fn configure(
        &self,
        r: &mut DmaRegs,
        mux: &mut DmaMux,
        request: Request,
        dir: Dir,
        src_addr: u32,
        src_width: WordSize,
        src_addr_ctrl: AddrCtrl,
        dst_addr: u32,
        dst_width: WordSize,
        dst_addr_ctrl: AddrCtrl,
        size_in_words: usize,
        handshake: HandshakeMode,
        options: TransferOptions,
    )
        requires
            Self::transfer_well_formed(src_addr, src_width, dst_addr, dst_width, size_in_words),
        ensures
            final(r).chctrl@ == old(r).chctrl@.update(
                self.spec_num() as int,
                ChannelRegs {
                    ctrl: configured_control(
                        self.spec_id(),
                        dir,
                        src_width,
                        src_addr_ctrl,
                        dst_width,
                        dst_addr_ctrl,
                        handshake,
                        options,
                    ),
                    tran_size: size_in_words as u32,
                    src_addr: self.system_address(src_addr),
                    dst_addr: self.system_address(dst_addr),
                    llpointer: 0,
                },
            ),
            final(r).int_status == old(r).int_status & !irq_bits(self.spec_num() as u32),
            final(r).ch_abort == old(r).ch_abort,
            final(r).reset == old(r).reset,
            !self.spec_is_running(final(r)),
            final(mux).muxcfg@ == old(mux).muxcfg@.update(
                self.spec_mux_num() as int,
                MuxCfg { enable: true, source: request },
            ),
    {
        let ch = self.num();
        let mux_ch = self.mux_num();
        let bytes = (size_in_words as u32) * (dst_width.bytes() as u32);
        assert(dst_width.spec_aligned(bytes)) by (nonlinear_arith)
            requires
                bytes == size_in_words * dst_width.spec_bytes(),
                dst_width.spec_bytes() > 0,
        ;
        let sys_src = self.to_system_address(src_addr);
        let sys_dst = self.to_system_address(dst_addr);
        mux.muxcfg[mux_ch] = MuxCfg { enable: true, source: request };
        let mut regs = r.chctrl[ch];
        regs.src_addr = sys_src;
        regs.dst_addr = sys_dst;
        regs.tran_size = size_in_words as u32;
        regs.llpointer = 0;
        r.chctrl[ch] = regs;
        self.clear_irqs(r);
        let mut w = ChannelControl::reset();
        w.srcbusinfidx = false;
        w.dstbusinfidx = false;
        w.priority = options.priority;
        w.srcburstsize = options.burst.burstsize();
        w.srcwidth = src_width.width();
        w.dstwidth = dst_width.width();
        w.srcmode = handshake.src_mode();
        w.dstmode = handshake.dst_mode();
        w.srcaddrctrl = src_addr_ctrl;
        w.dstaddrctrl = dst_addr_ctrl;
        if dir == Dir::MemoryToPeripheral {
            w.dstreqsel = self.id();
        } else {
            w.srcreqsel = self.id();
        }
        w.inttcmask = !options.complete_transfer_irq;
        w.interrmask = false;
        w.intabtmask = true;
        w.enable = false;
        let mut regs = r.chctrl[ch];
        regs.ctrl = w;
        r.chctrl[ch] = regs;
    }

    /// The address the controller is given for `addr`.
    pub open spec fn system_address(&self, addr: u32) -> u32 {
        if self.spec_core_local() {
            spec_core_local_mem_to_sys_address(0, addr)
        } else {
            addr
        }
    }

    /// The address the controller is given for `addr`.
    pub fn to_system_address(&self, addr: u32) -> (r: u32)
        ensures
            r == self.system_address(addr),
    {
        if self.core_local() {
            core_local_mem_to_sys_address(0, addr)
        } else {
            addr
        }
    }

    /// Enables the channel: the transfer begins.
    pub fn start(&self, r: &mut DmaRegs)
        ensures
            final(r).chctrl@ == old(r).chctrl@.update(
                self.spec_num() as int,
                ChannelRegs {
                    ctrl: ChannelControl { enable: true, ..old(r).chctrl[self.spec_num() as int].ctrl },
                    ..old(r).chctrl[self.spec_num() as int]
                },
            ),
            final(r).int_status == old(r).int_status,
            final(r).ch_abort == old(r).ch_abort,
            final(r).reset == old(r).reset,
    {
        let ch = self.num();
        let mut regs = r.chctrl[ch];
        regs.ctrl.enable = true;
        r.chctrl[ch] = regs;
    }

    /// Disables the channel.
    pub fn disable(&self, r: &mut DmaRegs)
        ensures
            final(r).chctrl@ == old(r).chctrl@.update(
                self.spec_num() as int,
                channel_disabled(old(r).chctrl[self.spec_num() as int]),
            ),
            !final(r).chctrl[self.spec_num() as int].ctrl.enable,
            !self.spec_is_running(final(r)),
            final(r).int_status == old(r).int_status,
            final(r).ch_abort == old(r).ch_abort,
            final(r).reset == old(r).reset,
    {
        let ch = self.num();
        let mut regs = r.chctrl[ch];
        regs.ctrl.enable = false;
        r.chctrl[ch] = regs;
    }

    /// Clears the channel's abort, terminal count and error status.
    pub fn clear_irqs(&self, r: &mut DmaRegs)
        ensures
            final(r).int_status == old(r).int_status & !irq_bits(self.spec_num() as u32),
            !final(r).error(self.spec_num()),
            !final(r).abort(self.spec_num()),
            !final(r).tc(self.spec_num()),
            final(r).chctrl == old(r).chctrl,
            final(r).ch_abort == old(r).ch_abort,
            final(r).reset == old(r).reset,
    {
        let ch = self.num() as u32;
        let w = (1u32 << (ERROR_SHIFT + ch)) | (1u32 << (ABORT_SHIFT + ch)) | (1u32 << (TC_SHIFT
            + ch));
        proof {
            lemma_irq_bits_cleared(r.int_status, ch);
        }
        r.int_status = r.int_status & !w;
    }

    /// Asks the controller to stop the channel. The channel stops some
    /// time later.
    pub fn abort(&self, r: &mut DmaRegs)
        ensures
            final(r).ch_abort == 1u32 << (self.spec_num() as u32),
            final(r).int_status == old(r).int_status,
            final(r).chctrl == old(r).chctrl,
            final(r).reset == old(r).reset,
    {
        let ch = self.num() as u32;
        r.ch_abort = 1u32 << ch;
    }

    /// Whether the channel is still moving data.
    #[verifier::when_used_as_spec(spec_is_running)]
    pub fn is_running(&self, r: &DmaRegs) -> (running: bool)
        ensures
            running == self.spec_is_running(r),
    {
        let num = self.num();
        r.chctrl[num].ctrl.enable && !bit(r.int_status, ABORT_SHIFT + num as u32) && !bit(
            r.int_status,
            TC_SHIFT + num as u32,
        )
    }

    /// The number of words the channel has still to move.
    pub fn get_remaining_transfers(&self, r: &DmaRegs) -> (n: u32)
        ensures
            n == r.chctrl[self.spec_num() as int].tran_size,
    {
        r.chctrl[self.num()].tran_size
    }

    /// Takes the channel out of circular mode.
    ///
    /// The driver never puts a channel into circular mode, and a channel
    /// that is in it cannot be taken out: nothing is written, and the return
    /// value says that the mode was not changed.
    pub fn disable_circular_mode(&self, r: &mut DmaRegs) -> (changed: bool)
        ensures
            !changed,
            *final(r) == *old(r),
    {
        false
    }

    /// Whether the channel has stopped.
    pub fn poll_stop(&self, r: &DmaRegs) -> (p: Poll<()>)
        ensures
            p == (if self.spec_is_running(r) {
                Poll::<()>::Pending
            } else {
                Poll::Ready(())
            }),
    {
        if self.is_running(r) {
            Poll::Pending
        } else {
            Poll::Ready(())
        }
    }
}

/// Brings a controller up: links its clock resource to group 0 and
/// resets it.
///
/// Returns whether the caller has to wait until the clock resource is no
/// longer busy before it resets the controller.
pub fn init(r: &mut DmaRegs, sysctl: &mut SysctlRegs, clock: &PeripheralClock) -> (wait: bool)
    requires
        clock.in_range(),
    ensures
        *final(sysctl) == after_add(*old(sysctl), clock.sysctl_resource, 0),
        wait == add_waits(*old(sysctl), clock.sysctl_resource, 0),
        final(r).reset,
        final(r).int_status == old(r).int_status,
        final(r).ch_abort == old(r).ch_abort,
        final(r).chctrl == old(r).chctrl,
{
    let wait = clock.add_resource_group(sysctl, 0);
    r.reset = true;
    wait
}

} // verus!
