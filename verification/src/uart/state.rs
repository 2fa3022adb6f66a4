//! What the two halves of a UART driver and its interrupt handler share, and
//! the clock that the halves keep running between them.

use vstd::prelude::*;
use embassy_sync::waitqueue::AtomicWaker;
use crate::sysctl::{after_add, after_remove, clock_remove_from_group, is_resource, link_bit};
use crate::sysctl::{link_word, resource_in_range, with_clock, ClockConfig, SysctlRegs};
use crate::sysctl::GROUP_LINK_WORDS;
use crate::uart::regs::Lsr;
use crate::uart::Info;

verus! {

/// The state of one UART instance that its driver halves and its interrupt
/// handler share.
pub struct State {
    /// The waker of the task that waits in the receive path.
    pub rx_waker: AtomicWaker,
    /// How many of the transmit and receive halves are alive.
    pub tx_rx_refcount: u8,
    /// The line status that the interrupt handler saw last, until the read
    /// path takes it.
    pub saved_lsr: Lsr,
}

impl State {
    /// The state of a UART that no driver holds.
    pub fn new() -> (s: Self)
        ensures
            s.tx_rx_refcount == 0,
            s.saved_lsr == Lsr::spec_zero(),
    {
        State { rx_waker: AtomicWaker::new(), tx_rx_refcount: 0, saved_lsr: Lsr::zero() }
    }

    /// Counts one half out. Returns whether it was the last.
    pub fn release_half(&mut self) -> (last: bool)
        requires
            old(self).tx_rx_refcount >= 1,
        ensures
            final(self).tx_rx_refcount == old(self).tx_rx_refcount - 1,
            final(self).saved_lsr == old(self).saved_lsr,
            last == (old(self).tx_rx_refcount == 1),
    {
        let refcount = self.tx_rx_refcount;
        self.tx_rx_refcount = refcount - 1;
        refcount == 1
    }
}

/// `critical_section::with` enters a critical section, runs its closure
/// once in it, leaves the section and returns what the closure returned.
/// The closure here is [`State::release_half`], so the contract is that of
/// `release_half`.
#[verifier::external_body]
fn release_half_in_critical_section(state: &mut State) -> (last: bool)
    requires
        old(state).tx_rx_refcount >= 1,
    ensures
        final(state).tx_rx_refcount == old(state).tx_rx_refcount - 1,
        final(state).saved_lsr == old(state).saved_lsr,
        last == (old(state).tx_rx_refcount == 1),
{
    critical_section::with(|_| state.release_half())
}

/// The count of live halves and the clock registers after one half of a
/// UART with clock resource `resource` has been dropped: the count goes
/// down by one, and the half that brings it to zero takes the resource out
/// of group 0.
pub open spec fn after_drop(refcount: u8, sysctl: SysctlRegs, resource: usize) -> (u8, SysctlRegs) {
    (
        (refcount - 1) as u8,
        if refcount == 1 {
            after_remove(sysctl, resource, 0)
        } else {
            sysctl
        },
    )
}

/// Gives up one half of a UART: counts it out and, if it was the last,
/// releases the UART's clock resource.
///
/// Returns whether the caller has to wait until the resource is no longer
/// busy.
pub fn drop_tx_rx(info: &Info, state: &mut State, sysctl: &mut SysctlRegs) -> (wait: bool)
    requires
        old(state).tx_rx_refcount >= 1,
        resource_in_range(info.resource),
    ensures
        (final(state).tx_rx_refcount, *final(sysctl)) == after_drop(
            old(state).tx_rx_refcount,
            *old(sysctl),
            info.resource,
        ),
        final(state).saved_lsr == old(state).saved_lsr,
        wait == (old(state).tx_rx_refcount == 1 && is_resource(info.resource)),
{
    let is_last_drop = release_half_in_critical_section(state);
    if is_last_drop {
        clock_remove_from_group(sysctl, info.resource, 0)
    } else {
        false
    }
}

/// Of two halves that share a UART, the first to be dropped leaves the
/// clock resource alone and the second releases it: after both, the count
/// is zero and the resource is out of group 0.
pub proof fn lemma_clock_released_by_last_half(sysctl: SysctlRegs, resource: usize)
    requires
        is_resource(resource),
        link_word(resource) < GROUP_LINK_WORDS,
    ensures
        ({
            let (one, first) = after_drop(2, sysctl, resource);
            let (none, second) = after_drop(one, first, resource);
            &&& one == 1
            &&& first == sysctl
            &&& none == 0
            &&& second == after_remove(sysctl, resource, 0)
            &&& !second.linked(resource, 0)
        }),
{
    let w = sysctl.group0[link_word(resource)];
    crate::sysctl::lemma_clear_bit(w, link_bit(resource), link_bit(resource));
}

/// The clock source of the UARTs: the 24 MHz oscillator.
pub const CLK_24M: u8 = 0;

/// The clock node setting that every UART driver starts from: the 24 MHz
/// oscillator, undivided.
pub open spec fn uart_clock() -> ClockConfig {
    ClockConfig { src: CLK_24M, raw_div: 0 }
}

/// The clock registers once a UART driver has claimed its clock: the
/// UART's clock node runs from the 24 MHz oscillator and its clock resource
/// is linked to group 0.
pub open spec fn uart_clocked(sysctl: SysctlRegs, info: Info) -> SysctlRegs {
    after_add(with_clock(sysctl, info.clock, uart_clock()), info.resource, 0)
}

/// Claims the clock of a UART; see [`uart_clocked`].
pub(crate) fn claim_clock(sysctl: &mut SysctlRegs, info: &Info)
    requires
        info.spec_peripheral_clock().in_range(),
    ensures
        *final(sysctl) == uart_clocked(*old(sysctl), *info),
{
    let clock = info.peripheral_clock();
    let _ = clock.set_clock(sysctl, ClockConfig::new(CLK_24M, 1));
    let _ = clock.add_resource_group(sysctl, 0);
}

} // verus!
