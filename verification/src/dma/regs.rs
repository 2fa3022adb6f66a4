//! Register images of a DMA controller and of the request multiplexer.
//!
//! An image holds the value of each register as typed fields. The driver
//! reads and updates images; whoever owns the hardware loads an image from
//! the registers before a call and stores it back afterwards. Status bits
//! that the hardware clears when a one is written to them are cleared in
//! the image by the driver function that performs that write.

use vstd::prelude::*;
use crate::dma::word::Width;

verus! {

/// Position of the first error bit in the interrupt status word.
pub const ERROR_SHIFT: u32 = 0;

/// Position of the first abort bit in the interrupt status word.
pub const ABORT_SHIFT: u32 = 8;

/// Position of the first terminal count bit in the interrupt status word.
pub const TC_SHIFT: u32 = 16;

/// Bit `n` of `word` is set.
pub open spec fn spec_bit(word: u32, n: u32) -> bool {
    word & (1u32 << n) != 0
}

/// Whether bit `n` of `word` is set.
#[verifier::when_used_as_spec(spec_bit)]
pub fn bit(word: u32, n: u32) -> (r: bool)
    requires
        n < 32,
    ensures
        r == spec_bit(word, n),
{
    word & (1u32 << n) != 0
}

/// How a channel steps an address after each word.
#[allow(non_camel_case_types)]
#[derive(Debug, Copy, Clone, PartialEq, Eq, Structural)]
pub enum AddrCtrl {
    /// Increment address.
    INCREMENT,
    /// Decrement address.
    DECREMENT,
    /// Fixed address.
    FIXED,
}

/// Handshake mode of one side of a channel.
#[allow(non_camel_case_types)]
#[derive(Debug, Copy, Clone, PartialEq, Eq, Structural)]
pub enum Mode {
    /// Software-enabled, no request line.
    NORMAL,
    /// Paced by a request line of the multiplexer.
    HANDSHAKE,
}

/// Channel control register.
#[derive(Debug, Copy, Clone, PartialEq, Eq, Structural)]
pub struct ChannelControl {
    /// Bus interface index that source data is read from.
    pub srcbusinfidx: bool,
    /// Bus interface index that destination data is written to.
    pub dstbusinfidx: bool,
    /// Higher priority when set.
    pub priority: bool,
    /// Exponent of the number of transfers before re-arbitration.
    pub srcburstsize: u8,
    /// Source transfer width.
    pub srcwidth: Width,
    /// Destination transfer width.
    pub dstwidth: Width,
    /// Source handshake mode.
    pub srcmode: Mode,
    /// Destination handshake mode.
    pub dstmode: Mode,
    /// Source address control.
    pub srcaddrctrl: AddrCtrl,
    /// Destination address control.
    pub dstaddrctrl: AddrCtrl,
    /// Request line the source is paced by.
    pub srcreqsel: u8,
    /// Request line the destination is paced by.
    pub dstreqsel: u8,
    /// Masks the terminal count interrupt.
    pub inttcmask: bool,
    /// Masks the error interrupt.
    pub interrmask: bool,
    /// Masks the abort interrupt.
    pub intabtmask: bool,
    /// Channel enable.
    pub enable: bool,
}

impl ChannelControl {
    /// The value of the register after reset: every field zero.
    pub open spec fn spec_reset() -> Self {
        ChannelControl {
            srcbusinfidx: false,
            dstbusinfidx: false,
            priority: false,
            srcburstsize: 0,
            srcwidth: Width::BYTE,
            dstwidth: Width::BYTE,
            srcmode: Mode::NORMAL,
            dstmode: Mode::NORMAL,
            srcaddrctrl: AddrCtrl::INCREMENT,
            dstaddrctrl: AddrCtrl::INCREMENT,
            srcreqsel: 0,
            dstreqsel: 0,
            inttcmask: false,
            interrmask: false,
            intabtmask: false,
            enable: false,
        }
    }

    /// The value of the register after reset: every field zero.
    #[verifier::when_used_as_spec(spec_reset)]
    pub fn reset() -> (r: Self)
        ensures
            r == Self::spec_reset(),
    {
        ChannelControl {
            srcbusinfidx: false,
            dstbusinfidx: false,
            priority: false,
            srcburstsize: 0,
            srcwidth: Width::BYTE,
            dstwidth: Width::BYTE,
            srcmode: Mode::NORMAL,
            dstmode: Mode::NORMAL,
            srcaddrctrl: AddrCtrl::INCREMENT,
            dstaddrctrl: AddrCtrl::INCREMENT,
            srcreqsel: 0,
            dstreqsel: 0,
            inttcmask: false,
            interrmask: false,
            intabtmask: false,
            enable: false,
        }
    }
}

/// The registers of one channel.
#[derive(Debug, Copy, Clone, PartialEq, Eq, Structural)]
pub struct ChannelRegs {
    /// Control register.
    pub ctrl: ChannelControl,
    /// Transfer size: words still to move.
    pub tran_size: u32,
    /// Source address.
    pub src_addr: u32,
    /// Destination address.
    pub dst_addr: u32,
    /// Linked list pointer.
    pub llpointer: u32,
}

impl ChannelRegs {
    /// The registers of a channel after reset.
    pub open spec fn spec_reset() -> Self {
        ChannelRegs {
            ctrl: ChannelControl::spec_reset(),
            tran_size: 0,
            src_addr: 0,
            dst_addr: 0,
            llpointer: 0,
        }
    }

    /// The registers of a channel after reset.
    #[verifier::when_used_as_spec(spec_reset)]
    pub fn reset() -> (r: Self)
        ensures
            r == Self::spec_reset(),
    {
        ChannelRegs { ctrl: ChannelControl::reset(), tran_size: 0, src_addr: 0, dst_addr: 0, llpointer: 0 }
    }
}

/// The registers of one DMA controller.
#[derive(Debug, Copy, Clone, PartialEq, Eq)]
pub struct DmaRegs {
    /// Interrupt status: error bits 0..8, abort bits 8..16, terminal count
    /// bits 16..24, one of each per channel.
    pub int_status: u32,
    /// Channel abort requests, one bit per channel.
    pub ch_abort: u32,
    /// Set by a software reset of the controller.
    pub reset: bool,
    /// Per-channel registers.
    pub chctrl: [ChannelRegs; 8],
}

impl DmaRegs {
    /// Channel `n` has its error status set.
    pub open spec fn error(&self, n: usize) -> bool {
        spec_bit(self.int_status, (ERROR_SHIFT + n) as u32)
    }

    /// Channel `n` has its abort status set.
    pub open spec fn abort(&self, n: usize) -> bool {
        spec_bit(self.int_status, (ABORT_SHIFT + n) as u32)
    }

    /// Channel `n` has its terminal count status set.
    pub open spec fn tc(&self, n: usize) -> bool {
        spec_bit(self.int_status, (TC_SHIFT + n) as u32)
    }

    /// The status bits that are set in `before` and clear in this image:
    /// what is to be written to the interrupt status register, which clears
    /// the bits that are written as one, to get from the one to the other.
    pub fn status_cleared_since(&self, before: &DmaRegs) -> (mask: u32)
        ensures
            mask == before.int_status & !self.int_status,
    {
        before.int_status & !self.int_status
    }

    /// A controller after reset: nothing pending, every channel disabled.
    pub fn new() -> (r: Self)
        ensures
            r.int_status == 0,
            r.ch_abort == 0,
            !r.reset,
            forall|n: int| 0 <= n < 8 ==> r.chctrl[n] == ChannelRegs::spec_reset(),
    {
        DmaRegs { int_status: 0, ch_abort: 0, reset: false, chctrl: [ChannelRegs::reset();8] }
    }
}

/// One output of the request multiplexer.
#[derive(Debug, Copy, Clone, PartialEq, Eq, Structural)]
pub struct MuxCfg {
    /// The output is enabled.
    pub enable: bool,
    /// The peripheral request routed to the output.
    pub source: u8,
}

/// The registers of the request multiplexer.
#[derive(Debug, Copy, Clone, PartialEq, Eq)]
pub struct DmaMux {
    /// Per-output configuration.
    pub muxcfg: [MuxCfg; 64],
}

impl DmaMux {
    /// A multiplexer with every output disabled.
    pub fn new() -> (r: Self)
        ensures
            forall|n: int| 0 <= n < 64 ==> r.muxcfg[n] == (MuxCfg { enable: false, source: 0 }),
    {
        DmaMux { muxcfg: [MuxCfg { enable: false, source: 0 };64] }
    }
}

/// Where bits have only been cleared, writing the cleared bits as ones to
/// a register that clears what is written as one leads from the old value
/// to the new.
pub proof fn lemma_write_one_to_clear(before: u32, after: u32)
    by (bit_vector)
    requires
        after & !before == 0,
    ensures
        before & !(before & !after) == after,
{
}

} // verus!
