//! Verified core of a hardware abstraction layer for HPMicro RISC-V
//! microcontrollers: DMA channels and transfers, the UART driver built on
//! them, and the clock resources that the drivers claim and release.
//!
//! Every driver operation is a function from images of the registers, and
//! from what the hardware has reported, to new images and a result. Reading
//! and writing the memory-mapped registers is left to the caller, and so is
//! waiting: where the hardware has to be waited for, an operation is one
//! look at it, and its result says whether to look again. What each
//! operation decides is stated in its contract and proved.
//!
//! The caller keeps the order of its register accesses with fences, as the
//! hardware demands: around every look at a channel that may be running,
//! and between saving a line status and waking its reader.
//!
//! - [`dma`]: channels, the transfer, the interrupt bridge, the registry of
//!   wakers.
//! - [`uart`]: configuration with the baud rate search, the interrupt
//!   handler, the blocking and the DMA paths of both directions.
//! - [`sysctl`]: resource groups and clock nodes.
//! - [`gpio`], [`time`]: pins and frequencies as the drivers name them.

pub mod dma;
pub mod gpio;
pub mod sysctl;
pub mod time;
pub mod uart;
