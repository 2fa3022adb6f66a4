//! Widths of the words a DMA channel moves.

use vstd::prelude::*;

verus! {

/// Transfer width field of a channel control register.
#[allow(non_camel_case_types)]
#[derive(Debug, Copy, Clone, PartialEq, Eq, Structural)]
pub enum Width {
    /// 8 bits.
    BYTE,
    /// 16 bits.
    HALF_WORD,
    /// 32 bits.
    WORD,
    /// 64 bits.
    DOUBLE_WORD,
}

/// The size of one word of a memory buffer.
#[derive(Debug, Copy, Clone, PartialEq, Eq, Structural)]
pub enum WordSize {
    /// Byte (8 bits).
    OneByte,
    /// Half word (16 bits).
    TwoBytes,
    /// Word (32 bits).
    FourBytes,
    /// Double word (64 bits).
    EightBytes,
}

impl WordSize {
    /// Number of bytes in one word.
    pub open spec fn spec_bytes(&self) -> usize {
        match self {
            WordSize::OneByte => 1,
            WordSize::TwoBytes => 2,
            WordSize::FourBytes => 4,
            WordSize::EightBytes => 8,
        }
    }

    /// The width field that selects this word size.
    pub open spec fn spec_width(&self) -> Width {
        match self {
            WordSize::OneByte => Width::BYTE,
            WordSize::TwoBytes => Width::HALF_WORD,
            WordSize::FourBytes => Width::WORD,
            WordSize::EightBytes => Width::DOUBLE_WORD,
        }
    }

    /// The address or byte count is a multiple of the word size.
    pub open spec fn spec_aligned(&self, addr: u32) -> bool {
        addr as int % (self.spec_bytes() as int) == 0
    }

    /// Number of bytes in one word.
    #[verifier::when_used_as_spec(spec_bytes)]
    pub fn bytes(&self) -> (r: usize)
        ensures
            r == self.spec_bytes(),
    {
        match self {
            WordSize::OneByte => 1,
            WordSize::TwoBytes => 2,
            WordSize::FourBytes => 4,
            WordSize::EightBytes => 8,
        }
    }

    /// The width field that selects this word size.
    #[verifier::when_used_as_spec(spec_width)]
    pub fn width(&self) -> (r: Width)
        ensures
            r == self.spec_width(),
    {
        match self {
            WordSize::OneByte => Width::BYTE,
            WordSize::TwoBytes => Width::HALF_WORD,
            WordSize::FourBytes => Width::WORD,
            WordSize::EightBytes => Width::DOUBLE_WORD,
        }
    }

    /// Whether `addr` is a multiple of the word size.
    #[verifier::when_used_as_spec(spec_aligned)]
    pub fn aligned(&self, addr: u32) -> (r: bool)
        ensures
            r == self.spec_aligned(addr),
    {
        match self {
            WordSize::OneByte => true,
            WordSize::TwoBytes => addr % 2 == 0,
            WordSize::FourBytes => addr % 4 == 0,
            WordSize::EightBytes => addr % 8 == 0,
        }
    }
}

} // verus!
