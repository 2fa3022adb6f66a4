//! System control: clock resources and the groups that keep them running.
//!
//! A resource stays clocked while it is linked to a resource group. Each
//! group keeps one link bit per resource, 32 to a word; the hardware offers
//! a set and a clear register for each word, so a link is made or undone by
//! writing the resource's bit alone.

use vstd::prelude::*;
use vstd::array::spec_array_update;
use crate::dma::regs::{bit, spec_bit};

verus! {

/// The number of the first resource that can be linked to a group.
pub const RESOURCE_START: usize = 256;

/// Number of link words of a group.
pub const GROUP_LINK_WORDS: usize = 3;

/// Number of clock nodes.
pub const CLOCK_NODES: usize = 67;

/// The multiplexer and divider of one clock node.
#[derive(Debug, Copy, Clone, PartialEq, Eq, Structural)]
pub struct ClockConfig {
    /// Clock source.
    pub src: u8,
    /// Divider less one.
    pub raw_div: u8,
}

/// The registers of the system control block that the drivers use.
#[derive(Debug, Copy, Clone, PartialEq, Eq)]
pub struct SysctlRegs {
    /// Link words of resource group 0.
    pub group0: [u32; 3],
    /// Link words of resource group 1, on chips with a second core.
    pub group1: [u32; 3],
    /// Whether the chip has a second core, and with it a second group.
    pub dual_core: bool,
    /// Clock nodes.
    pub clock: [ClockConfig; 67],
}

impl SysctlRegs {
    /// A system control block with nothing linked and every clock node on
    /// source 0, undivided.
    pub fn new(dual_core: bool) -> (r: Self)
        ensures
            r.dual_core == dual_core,
            forall|i: int| 0 <= i < 3 ==> r.group0[i] == 0 && r.group1[i] == 0,
            forall|i: int| 0 <= i < 67 ==> r.clock[i] == (ClockConfig { src: 0, raw_div: 0 }),
    {
        SysctlRegs {
            group0: [0u32;3],
            group1: [0u32;3],
            dual_core,
            clock: [ClockConfig { src: 0, raw_div: 0 };67],
        }
    }

    /// `resource` is linked to `group`.
    pub open spec fn linked(&self, resource: usize, group: usize) -> bool {
        let words = if group == 0 {
            self.group0
        } else {
            self.group1
        };
        spec_bit(words[link_word(resource)], link_bit(resource))
    }
}

/// `resource` names a resource that a group can hold.
pub open spec fn is_resource(resource: usize) -> bool {
    resource >= RESOURCE_START && resource != usize::MAX
}

/// The link word that holds the bit of `resource`.
pub open spec fn link_word(resource: usize) -> int {
    (resource - RESOURCE_START) / 32
}

/// The position of the bit of `resource` in its link word.
pub open spec fn link_bit(resource: usize) -> u32 {
    ((resource - RESOURCE_START) % 32) as u32
}

/// The link words have a bit for `resource`, if it names a resource.
pub open spec fn resource_in_range(resource: usize) -> bool {
    is_resource(resource) ==> link_word(resource) < GROUP_LINK_WORDS
}

/// Whether the link words have a bit for `resource`, if it names a
/// resource.
#[verifier::when_used_as_spec(resource_in_range)]
pub fn check_resource(resource: usize) -> (ok: bool)
    ensures
        ok == resource_in_range(resource),
{
    if resource < RESOURCE_START || resource == usize::MAX {
        true
    } else {
        (resource - RESOURCE_START) / 32 < GROUP_LINK_WORDS
    }
}

/// The links that are made between two values of a link word: the bits to
/// write to its set register.
pub fn links_made(before: u32, after: u32) -> (mask: u32)
    ensures
        mask == after & !before,
{
    after & !before
}

/// The links that are undone between two values of a link word: the bits
/// to write to its clear register.
pub fn links_undone(before: u32, after: u32) -> (mask: u32)
    ensures
        mask == before & !after,
{
    before & !after
}

/// Setting the links made and clearing the links undone leads from the one
/// value of a link word to the other.
pub proof fn lemma_links_lead_over(before: u32, after: u32)
    by (bit_vector)
    ensures
        (before | (after & !before)) & !(before & !after) == after,
{
}

/// The group whose link words a request for `group` reaches: group 0, the
/// second group where the chip has one, or none.
pub open spec fn group_reached(dual_core: bool, group: usize) -> Option<usize> {
    if group == 0 {
        Some(0)
    } else if dual_core {
        Some(1)
    } else {
        None
    }
}

/// The link words of `sysctl` with the bit of `resource` in the words of
/// group `reached` set or cleared.
pub open spec fn with_link(sysctl: SysctlRegs, reached: usize, resource: usize, on: bool)
    -> SysctlRegs {
    let word = link_word(resource);
    let mask = 1u32 << link_bit(resource);
    if reached == 0 {
        SysctlRegs {
            group0: if on {
                spec_array_update(sysctl.group0, word, sysctl.group0[word] | mask)
            } else {
                spec_array_update(sysctl.group0, word, sysctl.group0[word] & !mask)
            },
            ..sysctl
        }
    } else {
        SysctlRegs {
            group1: if on {
                spec_array_update(sysctl.group1, word, sysctl.group1[word] | mask)
            } else {
                spec_array_update(sysctl.group1, word, sysctl.group1[word] & !mask)
            },
            ..sysctl
        }
    }
}

/// What `clock_add_to_group` leaves in the registers: a link where there
/// was none, and no change where the resource cannot be linked, is linked
/// already, or the group does not exist.
pub open spec fn after_add(sysctl: SysctlRegs, resource: usize, group: usize) -> SysctlRegs {
    match group_reached(sysctl.dual_core, group) {
        Some(g) if is_resource(resource) && !sysctl.linked(resource, g) => with_link(
            sysctl,
            g,
            resource,
            true,
        ),
        _ => sysctl,
    }
}

/// Whether `clock_add_to_group` asks its caller to wait for the resource:
/// it does unless it returned early, which it does where the resource cannot
/// be linked or is linked already.
pub open spec fn add_waits(sysctl: SysctlRegs, resource: usize, group: usize) -> bool {
    is_resource(resource) && match group_reached(sysctl.dual_core, group) {
        Some(g) => !sysctl.linked(resource, g),
        None => true,
    }
}

/// What `clock_remove_from_group` leaves in the registers: no link of the
/// resource to the group.
pub open spec fn after_remove(sysctl: SysctlRegs, resource: usize, group: usize) -> SysctlRegs {
    match group_reached(sysctl.dual_core, group) {
        Some(g) if is_resource(resource) => with_link(sysctl, g, resource, false),
        _ => sysctl,
    }
}

/// Setting a bit of a word sets it and leaves the others.
pub proof fn lemma_set_bit(word: u32, n: u32, k: u32)
    by (bit_vector)
    requires
        n < 32,
        k < 32,
    ensures
        ((word | (1u32 << n)) & (1u32 << k) != 0) == (k == n || word & (1u32 << k) != 0),
{
}

/// Clearing a bit of a word clears it and leaves the others.
pub proof fn lemma_clear_bit(word: u32, n: u32, k: u32)
    by (bit_vector)
    requires
        n < 32,
        k < 32,
    ensures
        ((word & !(1u32 << n)) & (1u32 << k) != 0) == (k != n && word & (1u32 << k) != 0),
{
}

/// Add clock resource to a resource group.
///
/// Returns whether the caller has to wait until the resource is no longer
/// busy before it goes on.
pub fn clock_add_to_group(sysctl: &mut SysctlRegs, resource: usize, group: usize) -> (wait: bool)
    requires
        resource_in_range(resource),
    ensures
        *final(sysctl) == after_add(*old(sysctl), resource, group),
        wait == add_waits(*old(sysctl), resource, group),
{
    if resource < RESOURCE_START || resource == usize::MAX {
        return false;
    }
    let index = (resource - RESOURCE_START) / 32;
    let offset = ((resource - RESOURCE_START) % 32) as u32;
    if group == 0 {
        if bit(sysctl.group0[index], offset) {
            return false;
        }
        sysctl.group0[index] = sysctl.group0[index] | (1u32 << offset);
        assert(sysctl.group0 =~= spec_array_update(
            old(sysctl).group0,
            index as int,
            old(sysctl).group0[index as int] | (1u32 << offset),
        ));
    } else if sysctl.dual_core {
        if bit(sysctl.group1[index], offset) {
            return false;
        }
        sysctl.group1[index] = sysctl.group1[index] | (1u32 << offset);
        assert(sysctl.group1 =~= spec_array_update(
            old(sysctl).group1,
            index as int,
            old(sysctl).group1[index as int] | (1u32 << offset),
        ));
    }
    true
}

/// Remove clock resource from a resource group.
///
/// Returns whether the caller has to wait until the resource is no longer
/// busy before it goes on.
pub fn clock_remove_from_group(sysctl: &mut SysctlRegs, resource: usize, group: usize) -> (wait:
    bool)
    requires
        resource_in_range(resource),
    ensures
        *final(sysctl) == after_remove(*old(sysctl), resource, group),
        wait == is_resource(resource),
{
    if resource < RESOURCE_START || resource == usize::MAX {
        return false;
    }
    let index = (resource - RESOURCE_START) / 32;
    let offset = ((resource - RESOURCE_START) % 32) as u32;
    if group == 0 {
        sysctl.group0[index] = sysctl.group0[index] & !(1u32 << offset);
        assert(sysctl.group0 =~= spec_array_update(
            old(sysctl).group0,
            index as int,
            old(sysctl).group0[index as int] & !(1u32 << offset),
        ));
    } else if sysctl.dual_core {
        sysctl.group1[index] = sysctl.group1[index] & !(1u32 << offset);
        assert(sysctl.group1 =~= spec_array_update(
            old(sysctl).group1,
            index as int,
            old(sysctl).group1[index as int] & !(1u32 << offset),
        ));
    }
    true
}

/// After a resource has been added to a group that exists it is linked to
/// it, after it has been removed it is not, and either way every other
/// resource of the group is linked as before.
pub proof fn lemma_add_then_remove(sysctl: SysctlRegs, resource: usize, other: usize, group: usize)
    requires
        is_resource(resource),
        is_resource(other),
        other != resource,
        link_word(resource) < GROUP_LINK_WORDS,
        link_word(other) < GROUP_LINK_WORDS,
        group_reached(sysctl.dual_core, group) is Some,
    ensures
        ({
            let g = group_reached(sysctl.dual_core, group).unwrap();
            let added = after_add(sysctl, resource, group);
            let removed = after_remove(sysctl, resource, group);
            &&& added.linked(resource, g)
            &&& !removed.linked(resource, g)
            &&& added.linked(other, g) == sysctl.linked(other, g)
            &&& removed.linked(other, g) == sysctl.linked(other, g)
        }),
{
    let g = group_reached(sysctl.dual_core, group).unwrap();
    let words = if g == 0 {
        sysctl.group0
    } else {
        sysctl.group1
    };
    let w = words[link_word(resource)];
    lemma_set_bit(w, link_bit(resource), link_bit(resource));
    lemma_clear_bit(w, link_bit(resource), link_bit(resource));
    if link_word(other) == link_word(resource) {
        lemma_set_bit(w, link_bit(resource), link_bit(other));
        lemma_clear_bit(w, link_bit(resource), link_bit(other));
    }
}

impl ClockConfig {
    /// The setting for source `src` divided by `div`.
    pub fn new(src: u8, div: u16) -> (cfg: Self)
        requires
            1 <= div <= 256,
        ensures
            cfg == (ClockConfig { src, raw_div: (div - 1) as u8 }),
    {
        ClockConfig { src, raw_div: (div - 1) as u8 }
    }
}

/// The clock node and the clock resource of a peripheral. `usize::MAX`
/// stands for a peripheral that has none.
#[derive(Debug, Copy, Clone, PartialEq, Eq, Structural)]
pub struct PeripheralClock {
    /// The peripheral's clock node.
    pub sysctl_clock: usize,
    /// The peripheral's clock resource.
    pub sysctl_resource: usize,
}

/// The registers after clock node `clock` has been given the setting
/// `cfg`; unchanged where `clock` names no node.
pub open spec fn with_clock(sysctl: SysctlRegs, clock: usize, cfg: ClockConfig) -> SysctlRegs {
    if clock == usize::MAX {
        sysctl
    } else {
        SysctlRegs { clock: spec_array_update(sysctl.clock, clock as int, cfg), ..sysctl }
    }
}

impl PeripheralClock {
    /// The peripheral's clock node and resource exist in the registers.
    pub open spec fn in_range(&self) -> bool {
        &&& self.sysctl_clock != usize::MAX ==> self.sysctl_clock < CLOCK_NODES
        &&& resource_in_range(self.sysctl_resource)
    }

    /// Whether the peripheral's clock node and resource exist in the
    /// registers.
    pub fn check(&self) -> (ok: bool)
        ensures
            ok == self.in_range(),
    {
        (self.sysctl_clock == usize::MAX || self.sysctl_clock < CLOCK_NODES) && check_resource(
            self.sysctl_resource,
        )
    }

    /// Links the peripheral's clock resource to a resource group; see
    /// [`clock_add_to_group`].
    pub fn add_resource_group(&self, sysctl: &mut SysctlRegs, group: usize) -> (wait: bool)
        requires
            self.in_range(),
        ensures
            *final(sysctl) == after_add(*old(sysctl), self.sysctl_resource, group),
            wait == add_waits(*old(sysctl), self.sysctl_resource, group),
    {
        if self.sysctl_resource == usize::MAX {
            return false;
        }
        clock_add_to_group(sysctl, self.sysctl_resource, group)
    }

    /// Gives the peripheral's clock node its source and divider.
    ///
    /// Returns whether the caller has to wait until the node is no longer
    /// busy.
    pub fn set_clock(&self, sysctl: &mut SysctlRegs, cfg: ClockConfig) -> (wait: bool)
        requires
            self.in_range(),
        ensures
            *final(sysctl) == with_clock(*old(sysctl), self.sysctl_clock, cfg),
            wait == (self.sysctl_clock != usize::MAX),
    {
        if self.sysctl_clock == usize::MAX {
            return false;
        }
        sysctl.clock[self.sysctl_clock] = cfg;
        true
    }
}

/// A peripheral that is fed by a clock node of the system control block.
pub trait ClockPeripheral {
    /// The peripheral's clock node and resource.
    fn clock() -> PeripheralClock;
}

/// A peripheral that is fed by one of the analog clocks.
pub trait AnalogClockPeripheral {
    /// The number of the peripheral's analog clock.
    fn ana_clock() -> usize;

    /// The peripheral's clock resource.
    fn sysctl_resource() -> usize;
}

} // verus!
