//! What a transfer can be asked for: burst length, priority, interrupts,
//! and the side that paces it.

use vstd::prelude::*;
use vstd::arithmetic::power2::pow2;
use crate::dma::regs::Mode;

verus! {

/// DMA transfer options.
#[derive(Debug, Copy, Clone, PartialEq, Eq, Structural)]
#[non_exhaustive]
pub struct TransferOptions {
    /// Number of transfers before the channel is arbitrated again.
    pub burst: Burst,
    /// Is high priority.
    pub priority: bool,
    /// Circular transfer mode.
    pub circular: bool,
    /// Enable transfer complete interrupt.
    pub complete_transfer_irq: bool,
}

impl TransferOptions {
    /// Single transfers, low priority, not circular, completion interrupt on.
    pub open spec fn spec_default() -> Self {
        TransferOptions {
            burst: Burst::Exponential(0),
            priority: false,
            circular: false,
            complete_transfer_irq: true,
        }
    }
}

impl Default for TransferOptions {
    fn default() -> (r: Self)
        ensures
            r == Self::spec_default(),
    {
        TransferOptions {
            burst: Burst::Exponential(0),
            priority: false,
            circular: false,
            complete_transfer_irq: true,
        }
    }
}

/// DMA transfer burst setting.
#[derive(Debug, Copy, Clone, PartialEq, Eq, Structural)]
pub enum Burst {
    /// `2^n` transfers per burst.
    Exponential(u8),
}

/// The number of times `n` can be halved before it is at most one.
pub open spec fn floor_log2(n: nat) -> nat
    decreases n,
{
    if n <= 1 {
        0
    } else {
        1 + floor_log2(n / 2)
    }
}

/// `floor_log2(n)` is the exponent of the largest power of two that is not
/// above `n`.
pub proof fn lemma_floor_log2_bounds(n: nat)
    requires
        n >= 1,
    ensures
        pow2(floor_log2(n)) <= n < 2 * pow2(floor_log2(n)),
    decreases n,
{
    vstd::arithmetic::power2::lemma2_to64();
    if n > 1 {
        lemma_floor_log2_bounds(n / 2);
        vstd::arithmetic::power2::lemma_pow2_unfold(floor_log2(n));
    }
}

/// A burst of `2^e` transfers is described by the exponent `e`.
pub proof fn lemma_floor_log2_of_pow2(e: nat)
    ensures
        floor_log2(pow2(e)) == e,
    decreases e,
{
    vstd::arithmetic::power2::lemma2_to64();
    if e > 0 {
        vstd::arithmetic::power2::lemma_pow2_unfold(e);
        vstd::arithmetic::power2::lemma_pow2_pos((e - 1) as nat);
        lemma_floor_log2_of_pow2((e - 1) as nat);
    }
}

/// A value that can still be halved after `i` halvings of a machine word
/// has been halved fewer than 63 times.
proof fn lemma_halving_step(n: usize, i: nat)
    requires
        n >= 2,
        n * pow2(i) <= usize::MAX,
    ensures
        i < 63,
        (n / 2) * pow2(i + 1) <= usize::MAX,
{
    vstd::arithmetic::power2::lemma2_to64();
    vstd::arithmetic::power2::lemma2_to64_rest();
    if i >= 63 {
        if i > 63 {
            vstd::arithmetic::power2::lemma_pow2_strictly_increases(63, i);
        }
        assert(n * pow2(i) >= 2 * pow2(63)) by (nonlinear_arith)
            requires
                n >= 2,
                pow2(i) >= pow2(63),
        ;
    }
    vstd::arithmetic::power2::lemma_pow2_unfold(i + 1);
    assert((n / 2) * (2 * pow2(i)) <= n * pow2(i)) by (nonlinear_arith)
        requires
            n >= 0,
    ;
}

impl Burst {
    /// The exponent of the burst length.
    pub open spec fn spec_burstsize(&self) -> u8 {
        match self {
            Burst::Exponential(n) => *n,
        }
    }

    /// The largest burst that is not longer than `n` transfers; a single
    /// transfer for `n == 0`.
    pub fn from_size(n: usize) -> (r: Self)
        ensures
            r == Burst::Exponential(floor_log2(n as nat) as u8),
            floor_log2(n as nat) <= 63,
    {
        let mut i: u8 = 0;
        let ghost n0 = n;
        let mut n: usize = n;
        proof {
            vstd::arithmetic::power2::lemma2_to64();
        }
        while n > 1
            invariant
                floor_log2(n0 as nat) == i + floor_log2(n as nat),
                n * pow2(i as nat) <= usize::MAX,
                i <= 63,
            decreases n,
        {
            assert(n >> 1 == n / 2) by (bit_vector);
            proof {
                lemma_halving_step(n, i as nat);
            }
            n >>= 1;
            i += 1;
        }
        Burst::Exponential(i)
    }

    /// The burst length in transfers.
    pub fn to_size(&self) -> (r: usize)
        requires
            self.spec_burstsize() < usize::BITS,
        ensures
            r == pow2(self.spec_burstsize() as nat),
    {
        match self {
            Burst::Exponential(n) => {
                proof {
                    vstd::bits::lemma_usize_pow2_no_overflow(*n as nat);
                    vstd::bits::lemma_usize_shl_is_mul(1usize, *n as usize);
                }
                1usize << *n
            },
        }
    }

    /// The exponent of the burst length, as the control register holds it.
    #[verifier::when_used_as_spec(spec_burstsize)]
    pub fn burstsize(&self) -> (r: u8)
        ensures
            r == self.spec_burstsize(),
    {
        match self {
            Burst::Exponential(n) => *n,
        }
    }
}

/// Which side of a channel waits for a request line.
#[derive(Debug, Copy, Clone, PartialEq, Eq, Structural)]
#[non_exhaustive]
pub enum HandshakeMode {
    /// Software enable control.
    Normal,
    /// Paced by the request line of the source.
    Source,
    /// Paced by the request line of the destination.
    Destination,
}

impl HandshakeMode {
    /// The handshake mode of the source side.
    pub open spec fn spec_src_mode(self) -> Mode {
        match self {
            HandshakeMode::Source => Mode::HANDSHAKE,
            _ => Mode::NORMAL,
        }
    }

    /// The handshake mode of the destination side.
    pub open spec fn spec_dst_mode(self) -> Mode {
        match self {
            HandshakeMode::Destination => Mode::HANDSHAKE,
            _ => Mode::NORMAL,
        }
    }

    /// The handshake mode of the source side.
    #[verifier::when_used_as_spec(spec_src_mode)]
    pub fn src_mode(self) -> (r: Mode)
        ensures
            r == self.spec_src_mode(),
    {
        match self {
            HandshakeMode::Normal => Mode::NORMAL,
            HandshakeMode::Source => Mode::HANDSHAKE,
            HandshakeMode::Destination => Mode::NORMAL,
        }
    }

    /// The handshake mode of the destination side.
    #[verifier::when_used_as_spec(spec_dst_mode)]
    pub fn dst_mode(self) -> (r: Mode)
        ensures
            r == self.spec_dst_mode(),
    {
        match self {
            HandshakeMode::Normal => Mode::NORMAL,
            HandshakeMode::Source => Mode::NORMAL,
            HandshakeMode::Destination => Mode::HANDSHAKE,
        }
    }
}

} // verus!
