//! The blocking paths: bounded waits for the transmitter and the look at
//! the line status that tells whether a byte has arrived.
//!
//! Each function here is one look at a reading of the line status
//! register. The caller reads the register, which clears its error flags,
//! and repeats the look as the result says.

use vstd::prelude::*;
use crate::uart::regs::Lsr;
use crate::uart::{Error, HPM_UART_DRV_RETRY_COUNT};

verus! {

/// What a bounded wait does after one look at the line status.
#[derive(Debug, Eq, PartialEq, Copy, Clone)]
pub enum WaitStep {
    /// The wait is over, with this result.
    Done(Result<(), Error>),
    /// Look again, with this count of looks that found nothing.
    Retry(u32),
}

/// One look of a bounded wait for `ready`, after `retry` looks that found
/// nothing: over once `ready` is seen, given up with a timeout once the
/// count has passed the budget, and otherwise to be repeated with the
/// count one higher.
pub open spec fn wait_step(ready: bool, retry: u32) -> WaitStep {
    if retry > HPM_UART_DRV_RETRY_COUNT {
        WaitStep::Done(Err(Error::Timeout))
    } else if ready {
        WaitStep::Done(Ok(()))
    } else {
        WaitStep::Retry((retry + 1) as u32)
    }
}

/// One look of the wait for the transmitter to run empty.
///
/// The caller starts with a count of zero and reads the line status anew
/// for every look.
pub fn blocking_flush(lsr: Lsr, retry: u32) -> (step: WaitStep)
    ensures
        step == wait_step(lsr.temt, retry),
{
    if !lsr.temt {
        if retry > HPM_UART_DRV_RETRY_COUNT {
            return WaitStep::Done(Err(Error::Timeout));
        }
        return WaitStep::Retry(retry + 1);
    }
    if retry > HPM_UART_DRV_RETRY_COUNT {
        return WaitStep::Done(Err(Error::Timeout));
    }
    WaitStep::Done(Ok(()))
}

/// One look of the wait for room in the transmitter, before a byte is
/// written to it; see [`wait_step`].
pub fn blocking_write_step(lsr: Lsr, retry: u32) -> (step: WaitStep)
    ensures
        step == wait_step(lsr.thre, retry),
{
    if retry > HPM_UART_DRV_RETRY_COUNT {
        WaitStep::Done(Err(Error::Timeout))
    } else if lsr.thre {
        WaitStep::Done(Ok(()))
    } else {
        WaitStep::Retry(retry + 1)
    }
}

/// A look gives up exactly when the count has passed the budget, and a
/// look that is to be repeated counts one up.
pub proof fn lemma_wait_is_bounded(ready: bool, retry: u32)
    ensures
        wait_step(ready, retry) == WaitStep::Done(Err(Error::Timeout)) <==> retry
            > HPM_UART_DRV_RETRY_COUNT,
        wait_step(ready, retry) matches WaitStep::Retry(n) ==> n == retry + 1 && n
            <= HPM_UART_DRV_RETRY_COUNT + 1,
{
}

/// How a wait ends that looks at the readings `ready` in turn, after
/// `retry` looks that found nothing; `None` where the readings run out
/// before it ends.
pub open spec fn wait_result(ready: Seq<bool>, retry: u32) -> Option<Result<(), Error>>
    decreases ready.len(),
{
    if ready.len() == 0 {
        None
    } else {
        match wait_step(ready[0], retry) {
            WaitStep::Done(res) => Some(res),
            WaitStep::Retry(n) => wait_result(ready.drop_first(), n),
        }
    }
}

/// A wait never hangs: counted from zero it has ended after two looks more
/// than the budget at the latest, whatever it sees.
pub proof fn lemma_wait_ends(ready: Seq<bool>, retry: u32)
    requires
        retry <= HPM_UART_DRV_RETRY_COUNT + 1,
        ready.len() + retry >= HPM_UART_DRV_RETRY_COUNT + 2,
    ensures
        wait_result(ready, retry) is Some,
    decreases ready.len(),
{
    if let WaitStep::Retry(n) = wait_step(ready[0], retry) {
        lemma_wait_ends(ready.drop_first(), n);
    }
}

/// Look `i` of a wait is the one at which it succeeds: it is reached before
/// the count, which started at `retry`, has passed the budget, it sees what
/// the wait is for, and no look before it did.
pub open spec fn wait_succeeds_at(ready: Seq<bool>, retry: u32, i: int) -> bool {
    &&& 0 <= i < ready.len()
    &&& retry + i <= HPM_UART_DRV_RETRY_COUNT
    &&& ready[i]
    &&& forall|j: int| 0 <= j < i ==> !ready[j]
}

/// A wait succeeds exactly if there is a look at which it succeeds.
pub proof fn lemma_wait_succeeds_iff(ready: Seq<bool>, retry: u32)
    ensures
        wait_result(ready, retry) == Some(Ok::<(), Error>(())) <==> exists|i: int|
            wait_succeeds_at(ready, retry, i),
    decreases ready.len(),
{
    if ready.len() > 0 {
        let rest = ready.drop_first();
        match wait_step(ready[0], retry) {
            WaitStep::Done(Ok(())) => {
                assert(wait_succeeds_at(ready, retry, 0));
            },
            WaitStep::Done(Err(_)) => {},
            WaitStep::Retry(n) => {
                lemma_wait_succeeds_iff(rest, n);
                if wait_result(ready, retry) == Some(Ok::<(), Error>(())) {
                    let i = choose|i: int| wait_succeeds_at(rest, n, i);
                    assert forall|j: int| 0 <= j < i + 1 implies !ready[j] by {
                        if j > 0 {
                            assert(rest[j - 1] == ready[j]);
                        }
                    }
                    assert(wait_succeeds_at(ready, retry, i + 1));
                }
                if exists|i: int| wait_succeeds_at(ready, retry, i) {
                    let i = choose|i: int| wait_succeeds_at(ready, retry, i);
                    assert forall|j: int| 0 <= j < i - 1 implies !rest[j] by {
                        assert(rest[j] == ready[j + 1]);
                    }
                    assert(wait_succeeds_at(rest, n, i - 1));
                }
            },
        }
    }
}

/// The error that a line status reading reports, if any. Where several
/// flags are set the first of parity, framing, overrun, FIFO and break is
/// reported.
pub open spec fn line_error(lsr: Lsr) -> Option<Error> {
    if lsr.pe {
        Some(Error::Parity)
    } else if lsr.fe {
        Some(Error::Framing)
    } else if lsr.oe {
        Some(Error::Overrun)
    } else if lsr.errf {
        Some(Error::FIFO)
    } else if lsr.lbreak {
        Some(Error::LineBreak)
    } else {
        None
    }
}

/// The error that a line status reading reports, if any.
#[verifier::when_used_as_spec(line_error)]
pub fn check_line_error(lsr: Lsr) -> (e: Option<Error>)
    ensures
        e == line_error(lsr),
{
    if lsr.pe {
        Some(Error::Parity)
    } else if lsr.fe {
        Some(Error::Framing)
    } else if lsr.oe {
        Some(Error::Overrun)
    } else if lsr.errf {
        Some(Error::FIFO)
    } else if lsr.lbreak {
        Some(Error::LineBreak)
    } else {
        None
    }
}

/// What `check_rx_flags` makes of a line status reading: the error it
/// reports, or else whether a byte is ready.
pub open spec fn rx_flags(lsr: Lsr) -> Result<bool, Error> {
    match line_error(lsr) {
        Some(e) => Err(e),
        None => Ok(lsr.dr),
    }
}

/// What came of one non-blocking attempt.
#[derive(Debug, Eq, PartialEq, Copy, Clone)]
pub enum NbError {
    /// The attempt failed with this error.
    Other(Error),
    /// Nothing is there yet: try again later.
    WouldBlock,
}

/// What `nb_read` makes of a line status reading: the byte may be read, or
/// there is none yet, or the line reports an error.
pub open spec fn nb_read_outcome(lsr: Lsr) -> Result<(), NbError> {
    match rx_flags(lsr) {
        Err(e) => Err(NbError::Other(e)),
        Ok(true) => Ok(()),
        Ok(false) => Err(NbError::WouldBlock),
    }
}

} // verus!
