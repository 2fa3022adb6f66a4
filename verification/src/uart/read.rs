//! The steps of a receive through DMA.
//!
//! A receive starts a transfer from the receiver into the buffer and arms
//! the UART. It then waits for two things at once and ends with the first:
//! the transfer completes, or the line status check resolves, with an idle
//! line or with an error. Whatever ends it, the UART is brought back to its
//! neutral state.

use vstd::prelude::*;
use crate::dma::v1::Poll;
use crate::uart::blocking::line_error;
use crate::uart::config::{dma_requests, set_dma_requests, with_dma_requests};
use crate::uart::interrupt::after_interrupt;
use crate::uart::regs::{IdleCfg, Ier, Lsr, UartRegs};
use crate::uart::{Error, Features, MAX_DMA_BUFFER};

verus! {

/// Which of the two conditions that a receive waits for came first.
#[derive(Debug, Eq, PartialEq, Copy, Clone)]
pub enum First {
    /// The DMA transfer completed.
    Transfer,
    /// The line status check resolved: with an idle line, or with an error.
    Abort(Result<(), Error>),
}

/// How a receive through DMA ended.
#[derive(Debug, Eq, PartialEq, Copy, Clone)]
pub enum ReadCompletionEvent {
    /// DMA Read transfer completed first
    DmaCompleted,
    /// Idle line detected first, after this many bytes
    Idle(usize),
}

/// What a receive into a buffer of `buffer_len` bytes returns without
/// touching the hardware, if anything: zero bytes for an empty buffer, an
/// error for one that is longer than a DMA transfer can be.
pub open spec fn read_precheck(buffer_len: usize) -> Option<Result<usize, Error>> {
    if buffer_len == 0 {
        Some(Ok(0))
    } else if buffer_len > MAX_DMA_BUFFER {
        Some(Err(Error::BufferTooLong))
    } else {
        None
    }
}

/// What a receive into a buffer of `buffer_len` bytes returns without
/// touching the hardware, if anything; see [`read_precheck`].
#[verifier::when_used_as_spec(read_precheck)]
pub fn check_read_length(buffer_len: usize) -> (early: Option<Result<usize, Error>>)
    ensures
        early == read_precheck(buffer_len),
{
    if buffer_len == 0 {
        Some(Ok(0))
    } else if buffer_len > MAX_DMA_BUFFER {
        Some(Err(Error::BufferTooLong))
    } else {
        None
    }
}

/// The registers with a receive armed: the line status interrupt and DMA
/// requests are on, and so is idle detection where the receive asks for it
/// and the UART has it.
pub open spec fn read_armed(r: UartRegs, features: Features, idle: bool) -> UartRegs {
    let dma = with_dma_requests(UartRegs { ier: Ier { elsi: true, ..r.ier }, ..r }, features, true);
    if features.rx_idle_detect && idle {
        UartRegs {
            ier: Ier { erxidle: true, ..dma.ier },
            idle_cfg: IdleCfg { rx_idle_en: true, ..dma.idle_cfg },
            ..dma
        }
    } else {
        dma
    }
}

/// Arms the registers for a receive; see [`read_armed`].
pub(crate) fn arm_read(r: UartRegs, features: Features, idle: bool) -> (out: UartRegs)
    ensures
        out == read_armed(r, features, idle),
{
    let mut dma = UartRegs { ier: Ier { elsi: true, ..r.ier }, ..r };
    set_dma_requests(&mut dma, features, true);
    if features.rx_idle_detect && idle {
        UartRegs {
            ier: Ier { erxidle: true, ..dma.ier },
            idle_cfg: IdleCfg { rx_idle_en: true, ..dma.idle_cfg },
            ..dma
        }
    } else {
        dma
    }
}

/// Whether the line has been seen idle, where the receive asked for idle
/// detection: by the line status on a UART that reports it there, by the
/// idle flag on a UART that keeps it in its own register.
pub open spec fn idle_seen(features: Features, lsr: Lsr, rxidle_flag: bool, enabled: bool) -> bool {
    enabled && ((features.rx_idle_detect && features.nine_bit_mode && lsr.rxidle) || (
    features.e00018_fix && rxidle_flag))
}

/// What the line status check of a receive resolves to: an error first,
/// then an idle line, else nothing yet.
pub open spec fn abort_outcome(features: Features, lsr: Lsr, rxidle_flag: bool, enabled: bool)
    -> Poll<Result<(), Error>> {
    match line_error(lsr) {
        Some(e) => Poll::Ready(Err(e)),
        None => if idle_seen(features, lsr, rxidle_flag, enabled) {
            Poll::Ready(Ok(()))
        } else {
            Poll::Pending
        },
    }
}

/// The end of a receive of `buffer_len` bytes, given which condition came
/// first and how many transfers the channel had left then.
pub open spec fn read_completion(first: First, buffer_len: usize, remaining: u32) -> Result<
    ReadCompletionEvent,
    Error,
> {
    match first {
        First::Transfer => Ok(ReadCompletionEvent::DmaCompleted),
        First::Abort(Ok(())) => Ok(ReadCompletionEvent::Idle((buffer_len - remaining) as usize)),
        First::Abort(Err(e)) => Err(e),
    }
}

/// How a receive ended, given which of its two conditions came first; see
/// [`read_completion`].
pub fn complete_read(first: First, buffer_len: usize, remaining: u32) -> (event: Result<
    ReadCompletionEvent,
    Error,
>)
    requires
        remaining <= buffer_len,
    ensures
        event == read_completion(first, buffer_len, remaining),
{
    match first {
        // DMA transfer completed first
        First::Transfer => Ok(ReadCompletionEvent::DmaCompleted),
        // Idle line detected first
        First::Abort(Ok(())) => Ok(ReadCompletionEvent::Idle(buffer_len - remaining as usize)),
        // error occurred
        First::Abort(Err(e)) => Err(e),
    }
}

/// The number of bytes a receive of `buffer_len` bytes reports.
pub open spec fn bytes_received(
    buffer_len: usize,
    event: Result<ReadCompletionEvent, Error>,
) -> Result<usize, Error> {
    match event {
        Ok(ReadCompletionEvent::DmaCompleted) => Ok(buffer_len),
        Ok(ReadCompletionEvent::Idle(n)) => Ok(n),
        Err(e) => Err(e),
    }
}

/// The registers back in their neutral state after a receive: no line
/// status, transmitter or idle interrupt, no idle detection, no DMA
/// requests.
pub open spec fn read_disarmed(r: UartRegs, features: Features) -> UartRegs {
    let ier = Ier {
        elsi: false,
        ethei: false,
        erxidle: if features.rx_idle_detect {
            false
        } else {
            r.ier.erxidle
        },
        etxidle: if features.nine_bit_mode {
            false
        } else {
            r.ier.etxidle
        },
        ..r.ier
    };
    let idle_cfg = if features.rx_idle_detect {
        IdleCfg { rx_idle_en: false, ..r.idle_cfg }
    } else {
        r.idle_cfg
    };
    with_dma_requests(UartRegs { ier, idle_cfg, ..r }, features, false)
}

/// Brings the registers back to their neutral state after a receive.
///
/// This runs at the end of every receive that was started, however it
/// ended, and also when a receive is abandoned.
pub fn cleanup_read(r: &mut UartRegs, features: Features)
    ensures
        *final(r) == read_disarmed(*old(r), features),
        !dma_requests(*final(r), features),
        !final(r).ier.elsi,
        features.rx_idle_detect ==> !final(r).idle_cfg.rx_idle_en && !final(r).ier.erxidle,
{
    let now = *r;
    let ier = Ier {
        elsi: false,
        ethei: false,
        erxidle: if features.rx_idle_detect {
            false
        } else {
            now.ier.erxidle
        },
        etxidle: if features.nine_bit_mode {
            false
        } else {
            now.ier.etxidle
        },
        ..now.ier
    };
    let idle_cfg = if features.rx_idle_detect {
        IdleCfg { rx_idle_en: false, ..now.idle_cfg }
    } else {
        now.idle_cfg
    };
    let mut next = UartRegs { ier, idle_cfg, ..now };
    set_dma_requests(&mut next, features, false);
    *r = next;
}

/// A receive that ends because the line went idle reports the bytes that
/// the channel had moved by then: the length asked for less the transfers
/// that were left. A receive that ends because the transfer completed
/// reports the whole length.
pub proof fn lemma_bytes_received(buffer_len: usize, remaining: u32)
    requires
        remaining <= buffer_len,
    ensures
        bytes_received(buffer_len, read_completion(First::Abort(Ok(())), buffer_len, remaining))
            == Ok::<usize, Error>((buffer_len - remaining) as usize),
        bytes_received(buffer_len, read_completion(First::Transfer, buffer_len, remaining)) == Ok::<
            usize,
            Error,
        >(buffer_len),
{
}

/// The reading in which `error` is the one error flag that is set.
pub open spec fn single_error(error: Error) -> Lsr {
    Lsr {
        pe: error == Error::Parity,
        fe: error == Error::Framing,
        oe: error == Error::Overrun,
        errf: error == Error::FIFO,
        lbreak: error == Error::LineBreak,
        ..Lsr::spec_zero()
    }
}

/// `error` is one of the five errors that the line status reports.
pub open spec fn is_line_error(error: Error) -> bool {
    error == Error::Parity || error == Error::Framing || error == Error::Overrun || error
        == Error::FIFO || error == Error::LineBreak
}

/// Each of the five error flags of the line status, set alone while a
/// receive is active, ends the receive with the error of its own kind, and
/// the UART is left with the line status interrupt, idle detection and DMA
/// requests off.
///
/// The flag reaches the receive through the interrupt handler, which saves
/// the reading; the line status check of the receive takes it from there;
/// the end of the receive returns it and disarms the UART.
pub proof fn lemma_line_error_ends_read(
    r: UartRegs,
    features: Features,
    error: Error,
    rxidle_flag: bool,
    idle: bool,
    buffer_len: usize,
    remaining: u32,
)
    requires
        is_line_error(error),
    ensures
        single_error(error).spec_has_errors(),
        line_error(single_error(error)) == Some(error),
        abort_outcome(features, single_error(error), rxidle_flag, idle) == Poll::Ready(
            Err::<(), Error>(error),
        ),
        bytes_received(buffer_len, read_completion(First::Abort(Err(error)), buffer_len, remaining))
            == Err::<usize, Error>(error),
        ({
            let done = read_disarmed(after_interrupt(r, features, single_error(error)), features);
            &&& !dma_requests(done, features)
            &&& !done.ier.elsi
            &&& features.rx_idle_detect ==> !done.idle_cfg.rx_idle_en && !done.ier.erxidle
        }),
{
}

/// Two readings with a single error flag each report the same error only
/// if it is the same flag.
pub proof fn lemma_line_errors_distinct(a: Error, b: Error)
    requires
        is_line_error(a),
        is_line_error(b),
    ensures
        line_error(single_error(a)) == line_error(single_error(b)) <==> a == b,
{
}

} // verus!
