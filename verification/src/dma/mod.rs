//! Direct Memory Access (DMA).

pub mod registry;
pub mod regs;
pub mod v1;
pub mod word;

pub use v1::{Burst, HandshakeMode, Transfer, TransferOptions};

use vstd::prelude::*;

verus! {

/// A peripheral request line of the request multiplexer.
pub type Request = u8;

/// Direction of a transfer.
#[derive(Debug, Copy, Clone, PartialEq, Eq, Structural)]
pub enum Dir {
    /// Memory is the source, a peripheral the destination.
    MemoryToPeripheral,
    /// A peripheral is the source, memory the destination.
    PeripheralToMemory,
}

/// Number of channels over all controllers.
pub const CHANNEL_COUNT: usize = 16;

/// The controller a channel belongs to.
#[derive(Debug, Copy, Clone, PartialEq, Eq, Structural)]
pub enum Controller {
    /// The peripheral bus controller, channels 0 to 7.
    Hdma,
    /// The system bus controller, channels 8 to 15.
    Xdma,
}

impl Controller {
    /// The number of the controller's first channel among all channels.
    pub open spec fn spec_mux_num_base(&self) -> u32 {
        match self {
            Controller::Hdma => 0,
            Controller::Xdma => 8,
        }
    }

    /// The number of the controller's first channel among all channels.
    #[verifier::when_used_as_spec(spec_mux_num_base)]
    pub fn mux_num_base(&self) -> (r: u32)
        ensures
            r == self.spec_mux_num_base(),
    {
        match self {
            Controller::Hdma => 0,
            Controller::Xdma => 8,
        }
    }
}

/// One physical DMA channel.
///
/// Channels are numbered flatly over all controllers; the number is also the
/// channel's output of the request multiplexer and its slot in the channel
/// registry.
#[derive(Debug)]
pub struct AnyChannel {
    id: u8,
    core_local: bool,
}

impl AnyChannel {
    #[verifier::type_invariant]
    spec fn in_range(self) -> bool {
        self.id < CHANNEL_COUNT
    }

    /// The channel's number among all channels.
    pub closed spec fn spec_id(&self) -> u8 {
        self.id
    }

    /// Whether the channel is given addresses as a core sees them.
    pub closed spec fn spec_core_local(&self) -> bool {
        self.core_local
    }

    /// The controller that serves the channel.
    pub open spec fn spec_controller(&self) -> Controller {
        if self.spec_id() < 8 {
            Controller::Hdma
        } else {
            Controller::Xdma
        }
    }

    /// The channel's number within its controller.
    pub open spec fn spec_num(&self) -> usize {
        (self.spec_id() % 8) as usize
    }

    /// The channel's output of the request multiplexer.
    pub open spec fn spec_mux_num(&self) -> usize {
        self.spec_id() as usize
    }

    /// The channel with number `id`, if there is one. With `core_local`
    /// set, the channel maps addresses of core-local memory to the
    /// addresses the system bus knows them by.
    pub fn new(id: u8, core_local: bool) -> (r: Option<Self>)
        ensures
            r is Some <==> id < CHANNEL_COUNT,
            r is Some ==> r.unwrap().spec_id() == id && r.unwrap().spec_core_local() == core_local,
    {
        if (id as usize) < CHANNEL_COUNT {
            Some(AnyChannel { id, core_local })
        } else {
            None
        }
    }

    /// The channel's number among all channels.
    #[verifier::when_used_as_spec(spec_id)]
    pub fn id(&self) -> (r: u8)
        ensures
            r == self.spec_id(),
            r < CHANNEL_COUNT,
    {
        proof {
            use_type_invariant(self);
        }
        self.id
    }

    /// Whether the channel is given addresses as a core sees them.
    #[verifier::when_used_as_spec(spec_core_local)]
    pub fn core_local(&self) -> (r: bool)
        ensures
            r == self.spec_core_local(),
    {
        self.core_local
    }

    /// The controller that serves the channel.
    #[verifier::when_used_as_spec(spec_controller)]
    pub fn controller(&self) -> (r: Controller)
        ensures
            r == self.spec_controller(),
    {
        if self.id < 8 {
            Controller::Hdma
        } else {
            Controller::Xdma
        }
    }

    /// The channel's number within its controller.
    #[verifier::when_used_as_spec(spec_num)]
    pub fn num(&self) -> (r: usize)
        ensures
            r == self.spec_num(),
            r < 8,
    {
        (self.id % 8) as usize
    }

    /// The channel's output of the request multiplexer.
    #[verifier::when_used_as_spec(spec_mux_num)]
    pub fn mux_num(&self) -> (r: usize)
        ensures
            r == self.spec_mux_num(),
            r < CHANNEL_COUNT,
    {
        proof {
            use_type_invariant(self);
        }
        self.id as usize
    }
}

/// A channel together with the peripheral request that paces it.
#[derive(Debug)]
pub struct ChannelAndRequest {
    /// The channel.
    pub channel: AnyChannel,
    /// The request line of the peripheral.
    pub request: Request,
}

} // verus!
