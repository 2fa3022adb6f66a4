//! The interrupt bridge: from the interrupt status of a controller to the
//! wakers of the channels that stopped.

use vstd::prelude::*;
use crate::dma::registry::ChannelRegistry;
use crate::dma::regs::{bit, spec_bit, DmaRegs, ABORT_SHIFT, ERROR_SHIFT, TC_SHIFT};
use crate::dma::{AnyChannel, CHANNEL_COUNT};

verus! {

/// The per-channel error bits of an interrupt status word.
pub open spec fn error_mask(status: u32) -> u32 {
    (status >> ERROR_SHIFT) & 0xFF
}

/// The error bits that a controller reports, one per channel: zero where
/// the interrupt bridge can go to work.
pub fn pending_errors(r: &DmaRegs) -> (errors: u32)
    ensures
        errors == error_mask(r.int_status),
{
    (r.int_status >> ERROR_SHIFT) & 0xFF
}

/// The per-channel abort bits of an interrupt status word.
pub open spec fn abort_mask(status: u32) -> u32 {
    (status >> ABORT_SHIFT) & 0xFF
}

/// The per-channel terminal count bits of an interrupt status word.
pub open spec fn tc_mask(status: u32) -> u32 {
    (status >> TC_SHIFT) & 0xFF
}

/// The positions below `upto` of the bits set in `mask`, ascending.
pub open spec fn set_bits_below(mask: u32, upto: nat) -> Seq<u32>
    decreases upto,
{
    if upto == 0 {
        Seq::empty()
    } else {
        let rest = set_bits_below(mask, (upto - 1) as nat);
        if spec_bit(mask, (upto - 1) as u32) {
            rest.push((upto - 1) as u32)
        } else {
            rest
        }
    }
}

/// The positions of the bits set in `mask`, ascending.
pub fn set_bits(mask: u32) -> (r: Vec<u32>)
    ensures
        r@ == set_bits_below(mask, 32),
{
    let mut out: Vec<u32> = Vec::new();
    let mut i: u32 = 0;
    while i < 32
        invariant
            i <= 32,
            out@ == set_bits_below(mask, i as nat),
        decreases 32 - i,
    {
        if bit(mask, i) {
            out.push(i);
        }
        i += 1;
    }
    out
}

/// `set_bits_below` lists exactly the set bits below `upto`, each once and
/// in ascending order.
pub proof fn lemma_set_bits_below(mask: u32, upto: nat)
    requires
        upto <= 32,
    ensures
        forall|k: int|
            0 <= k < set_bits_below(mask, upto).len() ==> #[trigger] set_bits_below(mask, upto)[k]
                < upto && spec_bit(mask, set_bits_below(mask, upto)[k]),
        forall|j: int, k: int|
            0 <= j < k < set_bits_below(mask, upto).len() ==> set_bits_below(mask, upto)[j]
                < set_bits_below(mask, upto)[k],
        forall|b: u32| b < upto && spec_bit(mask, b) ==> set_bits_below(mask, upto).contains(b),
    decreases upto,
{
    if upto > 0 {
        let rest = set_bits_below(mask, (upto - 1) as nat);
        lemma_set_bits_below(mask, (upto - 1) as nat);
        let all = set_bits_below(mask, upto);
        let top = (upto - 1) as u32;
        assert forall|b: u32| b < upto && spec_bit(mask, b) implies all.contains(b) by {
            if b == top {
                assert(all[all.len() - 1] == top);
            } else {
                let k = choose|k: int| 0 <= k < rest.len() && rest[k] == b;
                assert(all[k] == b);
            }
        }
    }
}

/// What the interrupt status word holds once the abort and terminal count
/// bits read from it have been written back to clear them.
pub open spec fn acknowledged(status: u32) -> u32 {
    status & !((tc_mask(status) << TC_SHIFT) | (abort_mask(status) << ABORT_SHIFT))
}

/// Acknowledging leaves no abort and no terminal count bit, and every
/// other bit as it was.
pub proof fn lemma_acknowledged(status: u32)
    by (bit_vector)
    ensures
        abort_mask(acknowledged(status)) == 0,
        tc_mask(acknowledged(status)) == 0,
        acknowledged(status) == status & 0xFF0000FFu32,
{
}

/// The channels of a controller that an interrupt status word reports as
/// stopped, by their numbers among all channels, ascending.
pub open spec fn stopped_channels(status: u32, mux_num_base: u32) -> Seq<usize> {
    set_bits_below(tc_mask(status) | abort_mask(status), 32).map_values(
        |i: u32| (i + mux_num_base) as usize,
    )
}

/// A channel is among the stopped channels of its controller exactly if its
/// abort or its terminal count status is set, and a channel whose status is
/// set is not running.
pub proof fn lemma_stopped_channels(r: DmaRegs, channel: AnyChannel)
    requires
        channel.spec_id() < CHANNEL_COUNT,
    ensures
        stopped_channels(r.int_status, channel.spec_controller().spec_mux_num_base()).contains(
            channel.spec_mux_num(),
        ) <==> r.abort(channel.spec_num()) || r.tc(channel.spec_num()),
        r.abort(channel.spec_num()) || r.tc(channel.spec_num()) ==> !channel.spec_is_running(&r),
{
    let status = r.int_status;
    let base = channel.spec_controller().spec_mux_num_base();
    let num = channel.spec_num() as u32;
    let mask = tc_mask(status) | abort_mask(status);
    let bits = set_bits_below(mask, 32);
    let ids = stopped_channels(status, base);
    lemma_set_bits_below(mask, 32);
    assert(spec_bit(mask, num) == (r.abort(channel.spec_num()) || r.tc(channel.spec_num()))) by {
        assert(((((status >> 16) & 0xFF) | ((status >> 8) & 0xFF)) & (1u32 << num) != 0) == ((status
            & (1u32 << (16 + num) as u32) != 0) || (status & (1u32 << (8 + num) as u32) != 0)))
            by (bit_vector)
            requires
                num < 8,
        ;
    }
    if spec_bit(mask, num) {
        let k = choose|k: int| 0 <= k < bits.len() && bits[k] == num;
        assert(ids[k] == num + base);
    }
    if ids.contains(channel.spec_mux_num()) {
        let k = choose|k: int| 0 <= k < ids.len() && ids[k] == channel.spec_mux_num();
        assert(bits[k] == num);
    }
}

/// The interrupt bridge of one controller.
///
/// Reads the interrupt status once, acknowledges the abort and terminal
/// count bits it finds, and wakes the waker of every channel that one of
/// them reports. Returns those channels. `mux_num_base` is the number of the
/// controller's first channel among all channels.
///
/// An error bit means that the hardware has lost data; the caller halts
/// before it gets here.
pub fn dma_on_irq(r: &mut DmaRegs, state: &ChannelRegistry, mux_num_base: u32) -> (woken: Vec<usize>)
    requires
        error_mask(old(r).int_status) == 0,
        mux_num_base + 8 <= CHANNEL_COUNT,
    ensures
        final(r).int_status == acknowledged(old(r).int_status),
        final(r).chctrl == old(r).chctrl,
        final(r).ch_abort == old(r).ch_abort,
        final(r).reset == old(r).reset,
        woken@ == stopped_channels(old(r).int_status, mux_num_base),
{
    let intstatus = r.int_status;
    let abort = (intstatus >> 8) & 0xFF;
    let tc = (intstatus >> 16) & 0xFF;
    let mut status = intstatus;
    if tc != 0 {
        status = status & !(tc << 16);
    }
    if abort != 0 {
        status = status & !(abort << 8);
    }
    assert(status == acknowledged(intstatus)) by (bit_vector)
        requires
            abort == (intstatus >> 8) & 0xFF,
            tc == (intstatus >> 16) & 0xFF,
            status == (if abort != 0 {
                (if tc != 0 {
                    intstatus & !(tc << 16)
                } else {
                    intstatus
                }) & !(abort << 8)
            } else {
                if tc != 0 {
                    intstatus & !(tc << 16)
                } else {
                    intstatus
                }
            }),
    ;
    r.int_status = status;
    let bits = set_bits(tc | abort);
    proof {
        lemma_set_bits_below(tc | abort, 32);
        assert forall|k: u32| 8 <= k < 32 implies !spec_bit(tc | abort, k) by {
            assert(((((intstatus >> 16) & 0xFF) | ((intstatus >> 8) & 0xFF)) & (1u32 << k)) == 0)
                by (bit_vector)
                requires
                    8 <= k < 32,
            ;
        }
    }
    let mut woken: Vec<usize> = Vec::new();
    let mut n: usize = 0;
    while n < bits.len()
        invariant
            n <= bits.len(),
            mux_num_base + 8 <= CHANNEL_COUNT,
            forall|k: int| 0 <= k < bits.len() ==> bits[k] < 8,
            woken@ == bits@.take(n as int).map_values(|i: u32| (i + mux_num_base) as usize),
        decreases bits.len() - n,
    {
        let id = (bits[n] + mux_num_base) as usize;
        state.wake(id);
        woken.push(id);
        proof {
            assert(bits@.take(n + 1) == bits@.take(n as int).push(bits[n as int]));
            assert(bits@.take(n + 1).map_values(|i: u32| (i + mux_num_base) as usize)
                == bits@.take(n as int).map_values(|i: u32| (i + mux_num_base) as usize).push(id));
        }
        n += 1;
    }
    proof {
        assert(bits@.take(bits.len() as int) == bits@);
    }
    woken
}

} // verus!
