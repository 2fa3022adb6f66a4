//! DMA v1: the controllers with eight channels each.
//!
//! - [`options`]: what a transfer can be asked for.
//! - [`channel`]: the operations on one channel.
//! - [`transfer`]: one started operation of a channel, from its start to
//!   the return of the channel.
//! - [`bridge`]: the interrupt bridge, which wakes the transfers that
//!   stopped.
//! - [`address`]: core-local memory as the controllers see it.

pub mod address;
pub mod bridge;
pub mod channel;
pub mod options;
pub mod transfer;

pub use address::core_local_mem_to_sys_address;
pub use bridge::{dma_on_irq, pending_errors, set_bits};
pub use channel::{init, Poll};
pub use options::{Burst, HandshakeMode, TransferOptions};
pub use transfer::{transfer_started, Transfer, TransferState};
