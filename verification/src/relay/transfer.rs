//! Moving a whole buffer over a stream that never blocks.

use vstd::prelude::*;

use crate::io_error::{ErrorKind, IoError};

verus! {

/// How much of a buffer was read from or written to a stream.
pub struct Transfer {
    offset: usize,
    length: usize,
}

/// What to do next in a transfer.
pub enum TransferStep {
    /// The rest of the buffer can be tried at once.
    Continue,
    /// The stream can do nothing right now: wait a little and try again.
    Wait,
    /// The whole buffer went through.
    Done,
    /// The transfer failed.
    Failed(IoError),
}

/// How long to wait before a step, in milliseconds.
pub fn wait_millis(step: &TransferStep) -> (r: Option<u64>)
    ensures
        r == (if step is Wait {
            Some(1u64)
        } else {
            None
        }),
{
    match step {
        TransferStep::Wait => Some(1),
        _ => None,
    }
}

/// Whether a stream can answer like this when it is offered `n` bytes: it moves
/// some of them at most.
pub open spec fn possible(outcome: Result<usize, IoError>, n: nat) -> bool {
    outcome matches Ok(moved) ==> moved <= n
}

/// What an attempt leads to, when the stream moved nothing for the given
/// reason.
pub open spec fn leads_to(
    left: nat,
    outcome: Result<usize, IoError>,
    step: TransferStep,
    zero_kind: ErrorKind,
    zero_message: Seq<char>,
) -> bool {
    match outcome {
        Ok(moved) => if moved == 0 {
            step matches TransferStep::Failed(e) && e.says(zero_kind, zero_message)
        } else if moved == left {
            step is Done
        } else {
            step is Continue
        },
        Err(e) => if e.kind == ErrorKind::WouldBlock {
            step is Wait
        } else {
            step == TransferStep::Failed(e)
        },
    }
}

/// How many bytes an attempt moved.
pub open spec fn moved(outcome: Result<usize, IoError>) -> nat {
    match outcome {
        Ok(n) => n as nat,
        Err(_) => 0,
    }
}

impl Transfer {
    /// How many bytes went through.
    pub closed spec fn offset(&self) -> nat {
        self.offset as nat
    }

    /// How many bytes are to go through.
    pub closed spec fn length(&self) -> nat {
        self.length as nat
    }

    /// No more bytes went through than there are.
    pub open spec fn wf(&self) -> bool {
        self.offset() <= self.length()
    }

    /// A transfer of a buffer with `length` bytes, at its start.
    pub fn new(length: usize) -> (t: Transfer)
        ensures
            t.wf(),
            t.offset() == 0,
            t.length() == length,
    {
        Transfer { offset: 0, length }
    }

    /// Where the rest of the buffer starts.
    pub fn position(&self) -> (n: usize)
        ensures
            n == self.offset(),
    {
        self.offset
    }

    /// Whether the whole buffer went through.
    pub fn is_done(&self) -> (r: bool)
        requires
            self.wf(),
        ensures
            r == (self.offset() == self.length()),
    {
        self.offset >= self.length
    }

    fn advance(
        &mut self,
        outcome: Result<usize, IoError>,
        zero_kind: ErrorKind,
        zero_message: &str,
    ) -> (step: TransferStep)
        requires
            old(self).wf(),
            old(self).offset() < old(self).length(),
            possible(outcome, (old(self).length() - old(self).offset()) as nat),
        ensures
            final(self).wf(),
            final(self).length() == old(self).length(),
            final(self).offset() == old(self).offset() + moved(outcome),
            leads_to(
                (old(self).length() - old(self).offset()) as nat,
                outcome,
                step,
                zero_kind,
                zero_message@,
            ),
    {
        match outcome {
            Ok(n) => {
                if n == 0 {
                    TransferStep::Failed(IoError::new(zero_kind, zero_message))
                } else {
                    self.offset = self.offset + n;
                    if self.offset < self.length {
                        TransferStep::Continue
                    } else {
                        TransferStep::Done
                    }
                }
            },
            Err(e) => if e.kind == ErrorKind::WouldBlock {
                TransferStep::Wait
            } else {
                TransferStep::Failed(e)
            },
        }
    }

    /// Goes on with writing, after the rest of the buffer was offered to the
    /// stream.
    pub fn write_all(&mut self, outcome: Result<usize, IoError>) -> (step: TransferStep)
        requires
            old(self).wf(),
            old(self).offset() < old(self).length(),
            possible(outcome, (old(self).length() - old(self).offset()) as nat),
        ensures
            final(self).wf(),
            final(self).length() == old(self).length(),
            final(self).offset() == old(self).offset() + moved(outcome),
            leads_to(
                (old(self).length() - old(self).offset()) as nat,
                outcome,
                step,
                ErrorKind::WriteZero,
                "write zero"@,
            ),
    {
        self.advance(outcome, ErrorKind::WriteZero, "write zero")
    }

    /// Goes on with reading, after the stream was asked to fill the rest of the
    /// buffer.
    pub fn read_exact(&mut self, outcome: Result<usize, IoError>) -> (step: TransferStep)
        requires
            old(self).wf(),
            old(self).offset() < old(self).length(),
            possible(outcome, (old(self).length() - old(self).offset()) as nat),
        ensures
            final(self).wf(),
            final(self).length() == old(self).length(),
            final(self).offset() == old(self).offset() + moved(outcome),
            leads_to(
                (old(self).length() - old(self).offset()) as nat,
                outcome,
                step,
                ErrorKind::UnexpectedEof,
                "eof"@,
            ),
    {
        self.advance(outcome, ErrorKind::UnexpectedEof, "eof")
    }
}

/// How many bytes the attempts moved together.
pub open spec fn moved_in_all(outcomes: Seq<Result<usize, IoError>>) -> nat
    decreases outcomes.len(),
{
    if outcomes.len() == 0 {
        0
    } else {
        moved_in_all(outcomes.drop_last()) + moved(outcomes.last())
    }
}

/// The bytes that a stream takes when each attempt offers it the rest of the
/// buffer.
pub open spec fn taken_by_stream(
    buffer: Seq<u8>,
    outcomes: Seq<Result<usize, IoError>>,
) -> Seq<u8>
    decreases outcomes.len(),
{
    if outcomes.len() == 0 {
        Seq::empty()
    } else {
        let earlier = outcomes.drop_last();
        taken_by_stream(buffer, earlier) + buffer.skip(moved_in_all(earlier) as int).take(
            moved(outcomes.last()) as int,
        )
    }
}

/// The stream gets the bytes of the buffer in order, each once; when the
/// transfer is done it got all of them.
pub proof fn law_bytes_go_through_in_order(
    buffer: Seq<u8>,
    outcomes: Seq<Result<usize, IoError>>,
)
    requires
        moved_in_all(outcomes) <= buffer.len(),
    ensures
        taken_by_stream(buffer, outcomes) == buffer.take(moved_in_all(outcomes) as int),
        moved_in_all(outcomes) == buffer.len() ==> taken_by_stream(buffer, outcomes) == buffer,
    decreases outcomes.len(),
{
    if outcomes.len() > 0 {
        let earlier = outcomes.drop_last();
        law_bytes_go_through_in_order(buffer, earlier);
        assert(taken_by_stream(buffer, outcomes) =~= buffer.take(moved_in_all(outcomes) as int));
    }
    assert(buffer.take(buffer.len() as int) =~= buffer);
}

/// An attempt that moved some of the bytes that are left goes on with the others,
/// and is done exactly where none are left; an attempt that moved nothing fails
/// with the given error, one that could do nothing right now waits, and a stream
/// that fails ends the transfer with its own error.
pub proof fn law_attempts_lead_on(
    left: nat,
    n: usize,
    error: IoError,
    step: TransferStep,
    zero_kind: ErrorKind,
    zero_message: Seq<char>,
)
    requires
        left > 0,
        n <= left,
    ensures
        leads_to(left, Ok(n), step, zero_kind, zero_message) ==> {
            &&& step is Done <==> n == left
            &&& step is Continue <==> 0 < n < left
            &&& step is Failed <==> n == 0
            &&& step matches TransferStep::Failed(e) ==> e.kind == zero_kind && e.message@
                == zero_message
        },
        leads_to(left, Err(error), step, zero_kind, zero_message) ==> {
            &&& error.kind == ErrorKind::WouldBlock ==> step is Wait
            &&& error.kind != ErrorKind::WouldBlock ==> step == TransferStep::Failed(error)
        },
        moved(Ok(n)) == n,
        moved(Err(error)) == 0,
{
}

/// Every call moves a transfer on by what the stream took or gave, and tells what
/// to do next; a write that took nothing and a read at the end have errors of
/// their own.
pub proof fn law_calls_move_the_bytes(
    transfer: &mut Transfer,
    outcome: Result<usize, IoError>,
    step: TransferStep,
    length: usize,
    fixed: Transfer,
    n: usize,
    r: bool,
)
    ensures
        call_ensures(Transfer::write_all, (transfer, outcome), step) ==> {
            &&& final(transfer).length() == old(transfer).length()
            &&& final(transfer).offset() == old(transfer).offset() + moved(outcome)
            &&& leads_to(
                (old(transfer).length() - old(transfer).offset()) as nat,
                outcome,
                step,
                ErrorKind::WriteZero,
                "write zero"@,
            )
        },
        call_ensures(Transfer::read_exact, (transfer, outcome), step) ==> {
            &&& final(transfer).length() == old(transfer).length()
            &&& final(transfer).offset() == old(transfer).offset() + moved(outcome)
            &&& leads_to(
                (old(transfer).length() - old(transfer).offset()) as nat,
                outcome,
                step,
                ErrorKind::UnexpectedEof,
                "eof"@,
            )
        },
        call_ensures(Transfer::new, (length,), fixed) ==> fixed.offset() == 0 && fixed.length()
            == length,
        call_ensures(Transfer::position, (&fixed,), n) ==> n == fixed.offset(),
        call_ensures(Transfer::is_done, (&fixed,), r) ==> (r <==> fixed.offset()
            == fixed.length()),
{
}

/// Only a transfer that has to wait sleeps, for a millisecond.
pub proof fn law_calls_wait(step: TransferStep, millis: Option<u64>)
    ensures
        call_ensures(wait_millis, (&step,), millis) ==> (millis is Some <==> step is Wait) && (
        millis is Some ==> millis->0 == 1),
{
}

} // verus!
