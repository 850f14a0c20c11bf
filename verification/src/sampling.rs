//! The device adapter's write path and the periodic sampling loop.
//!
//! The device runs a single-threaded, non-blocking loop: on every timer
//! expiry it re-arms the countdown and attempts to write one freshly
//! built report; on every iteration — expired or not — it polls the USB
//! transport so protocol servicing is never gated on the sampling
//! period. A busy endpoint (would-block) is flow control, not an error:
//! the sample is dropped and the next period tries again. A fatal write
//! error ends the loop; nothing at this layer can recover.
//!
//! The functions here take the transport's answers as arguments: the
//! platform layer performs the actual endpoint writes and polls, and
//! hands back what happened. `run_loop` executes the whole schedule
//! against such a recorded environment, so every claim about cadence,
//! polling, and halting is stated — and proved — over it.

use vstd::prelude::*;
use crate::codec::CodecError;
use crate::codec::PedalReport;
use crate::codec::encode;
use crate::codec::spec_encode_byte;

verus! {

/// What the USB transport did with one attempted report write.
#[derive(Clone, Copy, Debug, PartialEq, Eq, Structural)]
pub enum WriteOutcome {
    /// The encoded bytes were queued on the IN endpoint.
    Queued,
    /// The endpoint buffer still holds the previous report; the caller
    /// retries on the next period.
    WouldBlock,
    /// An unrecoverable transport fault.
    Fault,
}

/// The adapter's answer to one write request.
#[derive(Clone, Copy, Debug, PartialEq, Eq, Structural)]
pub enum WriteError {
    /// The axis value cannot be represented in the declared logical
    /// range; nothing was handed to the transport.
    Serialization,
    /// Flow control: the endpoint is busy. Not a fault.
    WouldBlock,
    /// An unrecoverable transport fault.
    Transport,
}

/// The adapter's write path: encode the report, and interpret what the
/// transport did with the encoded byte. Encoding is checked first: an
/// out-of-range value is refused before the transport is involved.
pub fn adapter_write_report(report: &PedalReport, transport: WriteOutcome) -> (r: Result<
    u8,
    WriteError,
>)
    ensures
        r is Ok <==> report.valid() && transport is Queued,
        !report.valid() ==> r == Err::<u8, WriteError>(WriteError::Serialization),
        report.valid() && transport is Queued ==> r == Ok::<u8, WriteError>(
            spec_encode_byte(report.y as int),
        ),
        report.valid() && transport is WouldBlock ==> r == Err::<u8, WriteError>(
            WriteError::WouldBlock,
        ),
        report.valid() && transport is Fault ==> r == Err::<u8, WriteError>(WriteError::Transport),
{
    match encode(report) {
        Err(CodecError::SerializationError) => Err(WriteError::Serialization),
        Ok(bytes) => match transport {
            WriteOutcome::Queued => Ok(bytes[0]),
            WriteOutcome::WouldBlock => Err(WriteError::WouldBlock),
            WriteOutcome::Fault => Err(WriteError::Transport),
        },
    }
}

/// What the sampling loop does after one write attempt.
#[derive(Clone, Copy, Debug, PartialEq, Eq, Structural)]
pub enum LoopControl {
    /// Keep looping: the write was queued, or the endpoint was busy and
    /// the sample is dropped until the next period.
    Continue,
    /// A fatal error: leave the loop; no recovery path exists here.
    Halt,
}

/// The loop's decision on a write result: only success and would-block
/// let the loop continue; every other error is fatal.
pub fn control_after_write(r: &Result<u8, WriteError>) -> (c: LoopControl)
    ensures
        c is Halt <==> (r matches Err(e) && e !is WouldBlock),
{
    match r {
        Ok(_) => LoopControl::Continue,
        Err(WriteError::WouldBlock) => LoopControl::Continue,
        Err(_) => LoopControl::Halt,
    }
}

/// One iteration of the loop's environment: whether the countdown timer
/// was observed expired this iteration, and what the transport would do
/// with a write attempted this iteration.
#[derive(Clone, Copy, Debug, PartialEq, Eq, Structural)]
pub struct IterationInput {
    pub timer_expired: bool,
    pub write_outcome: WriteOutcome,
}

/// A write attempted on this iteration ends the loop: either the report
/// cannot be encoded, or the transport faults. Iterations without a
/// timer expiry attempt no write and can never be fatal.
pub open spec fn iteration_fatal(report: PedalReport, inp: IterationInput) -> bool {
    inp.timer_expired && (!report.valid() || inp.write_outcome is Fault)
}

/// How many iterations run to completion — each ends with a transport
/// poll — before a fatal write (if any) stops the loop.
pub open spec fn spec_polls(report: PedalReport, inputs: Seq<IterationInput>) -> nat
    decreases inputs.len(),
{
    if inputs.len() == 0 {
        0
    } else if iteration_fatal(report, inputs[0]) {
        0
    } else {
        1 + spec_polls(report, inputs.drop_first())
    }
}

/// How many report writes the loop attempts: one per observed timer
/// expiry, up to and including a fatal attempt.
pub open spec fn spec_write_attempts(report: PedalReport, inputs: Seq<IterationInput>) -> nat
    decreases inputs.len(),
{
    if inputs.len() == 0 {
        0
    } else if iteration_fatal(report, inputs[0]) {
        1
    } else {
        (if inputs[0].timer_expired {
            1nat
        } else {
            0nat
        }) + spec_write_attempts(report, inputs.drop_first())
    }
}

/// How many timer expiries the environment holds.
pub open spec fn spec_expiries(inputs: Seq<IterationInput>) -> nat
    decreases inputs.len(),
{
    if inputs.len() == 0 {
        0
    } else {
        (if inputs[0].timer_expired {
            1nat
        } else {
            0nat
        }) + spec_expiries(inputs.drop_first())
    }
}

/// The bytes the transport queues, in order: one encoded report for
/// every expiry iteration on which the transport accepted the write.
pub open spec fn spec_queued(report: PedalReport, inputs: Seq<IterationInput>) -> Seq<u8>
    decreases inputs.len(),
{
    if inputs.len() == 0 || iteration_fatal(report, inputs[0]) {
        Seq::empty()
    } else if inputs[0].timer_expired && inputs[0].write_outcome is Queued {
        seq![spec_encode_byte(report.y as int)] + spec_queued(report, inputs.drop_first())
    } else {
        spec_queued(report, inputs.drop_first())
    }
}

/// Whether the loop halts on a fatal write before exhausting the
/// environment.
pub open spec fn spec_fault(report: PedalReport, inputs: Seq<IterationInput>) -> bool
    decreases inputs.len(),
{
    if inputs.len() == 0 {
        false
    } else if iteration_fatal(report, inputs[0]) {
        true
    } else {
        spec_fault(report, inputs.drop_first())
    }
}

/// Everything observable about one run of the sampling loop.
pub struct LoopTrace {
    /// Report writes attempted (one per observed timer expiry).
    pub write_attempts: usize,
    /// Transport polls performed (one per completed iteration).
    pub polls: usize,
    /// Bytes the transport queued, in order.
    pub queued: Vec<u8>,
    /// Whether the loop stopped on a fatal write error.
    pub fault: bool,
}

/// Run the sampling loop against a recorded environment, one
/// `IterationInput` per iteration. Each iteration mirrors the device's
/// main loop exactly: if the countdown has expired, re-arm it and
/// attempt one report write, dropping the sample on would-block and
/// halting on a fatal error; then poll the USB transport.
pub fn run_loop(report: &PedalReport, inputs: &Vec<IterationInput>) -> (t: LoopTrace)
    ensures
        t.write_attempts == spec_write_attempts(*report, inputs@),
        t.polls == spec_polls(*report, inputs@),
        t.queued@ == spec_queued(*report, inputs@),
        t.fault == spec_fault(*report, inputs@),
{
    let mut write_attempts: usize = 0;
    let mut polls: usize = 0;
    let mut queued: Vec<u8> = Vec::new();
    let n = inputs.len();
    let mut i: usize = 0;
    proof {
        assert(inputs@.skip(0) =~= inputs@);
    }
    while i < n
        invariant
            i <= n,
            n == inputs@.len(),
            write_attempts <= i,
            polls <= i,
            spec_write_attempts(*report, inputs@) == write_attempts + spec_write_attempts(
                *report,
                inputs@.skip(i as int),
            ),
            spec_polls(*report, inputs@) == polls + spec_polls(*report, inputs@.skip(i as int)),
            spec_queued(*report, inputs@) == queued@ + spec_queued(
                *report,
                inputs@.skip(i as int),
            ),
            spec_fault(*report, inputs@) == spec_fault(*report, inputs@.skip(i as int)),
        decreases n - i,
    {
        proof {
            assert(inputs@.skip(i as int)[0] == inputs@[i as int]);
            assert(inputs@.skip(i as int).drop_first() =~= inputs@.skip(i as int + 1));
        }
        let inp = inputs[i];
        if inp.timer_expired {
            write_attempts = write_attempts + 1;
            let result = adapter_write_report(report, inp.write_outcome);
            match control_after_write(&result) {
                LoopControl::Halt => {
                    proof {
                        assert(spec_queued(*report, inputs@) =~= queued@);
                    }
                    return LoopTrace { write_attempts, polls, queued, fault: true };
                },
                LoopControl::Continue => {
                    if let Ok(b) = result {
                        queued.push(b);
                    }
                },
            }
        }
        polls = polls + 1;
        i = i + 1;
    }
    proof {
        assert(inputs@.skip(n as int) =~= Seq::<IterationInput>::empty());
        assert(spec_queued(*report, inputs@) =~= queued@);
    }
    LoopTrace { write_attempts, polls, queued, fault: false }
}

/// Failure to bring the device up.
#[derive(Clone, Copy, Debug, PartialEq, Eq, Structural)]
pub enum SessionError {
    /// The transport could not allocate the requested IN endpoint; a
    /// fatal configuration error at startup.
    Construction,
}

/// Bring the device up and run the sampling loop. Endpoint allocation
/// happens before the loop: when it fails the loop is never entered and
/// the construction fault is surfaced to the caller.
pub fn run_session(endpoint_allocated: bool, report: &PedalReport, inputs: &Vec<IterationInput>) -> (r: Result<
    LoopTrace,
    SessionError,
>)
    ensures
        r is Ok <==> endpoint_allocated,
        !endpoint_allocated ==> (r matches Err(e) && e is Construction),
        r matches Ok(t) ==> {
            &&& t.write_attempts == spec_write_attempts(*report, inputs@)
            &&& t.polls == spec_polls(*report, inputs@)
            &&& t.queued@ == spec_queued(*report, inputs@)
            &&& t.fault == spec_fault(*report, inputs@)
        },
{
    if !endpoint_allocated {
        Err(SessionError::Construction)
    } else {
        Ok(run_loop(report, inputs))
    }
}

/// Law: when the transport accepts every write, the loop attempts
/// exactly one report write per timer expiry — no double fires, no
/// skipped periods.
pub proof fn lemma_write_once_per_expiry(report: PedalReport, inputs: Seq<IterationInput>)
    requires
        report.valid(),
        forall|i: int| 0 <= i < inputs.len() ==> inputs[i].write_outcome is Queued,
    ensures
        spec_write_attempts(report, inputs) == spec_expiries(inputs),
    decreases inputs.len(),
{
    if inputs.len() > 0 {
        assert(!iteration_fatal(report, inputs[0]));
        assert(forall|i: int|
            0 <= i < inputs.drop_first().len() ==> inputs.drop_first()[i].write_outcome
                is Queued);
        lemma_write_once_per_expiry(report, inputs.drop_first());
    }
}

/// Law: a transport that answers would-block to every write never halts
/// the loop, never accumulates queued reports, and is still polled on
/// every iteration.
pub proof fn lemma_would_block_never_halts(report: PedalReport, inputs: Seq<IterationInput>)
    requires
        report.valid(),
        forall|i: int| 0 <= i < inputs.len() ==> inputs[i].write_outcome is WouldBlock,
    ensures
        !spec_fault(report, inputs),
        spec_polls(report, inputs) == inputs.len(),
        spec_queued(report, inputs) == Seq::<u8>::empty(),
    decreases inputs.len(),
{
    if inputs.len() > 0 {
        assert(!iteration_fatal(report, inputs[0]));
        assert(forall|i: int|
            0 <= i < inputs.drop_first().len() ==> inputs.drop_first()[i].write_outcome
                is WouldBlock);
        lemma_would_block_never_halts(report, inputs.drop_first());
    }
}

/// Law: while no fatal write occurs, the transport is polled on every
/// iteration — also on iterations whose timer has not expired — so the
/// poll count is never below the expiry count.
pub proof fn lemma_poll_every_iteration(report: PedalReport, inputs: Seq<IterationInput>)
    requires
        !spec_fault(report, inputs),
    ensures
        spec_polls(report, inputs) == inputs.len(),
        spec_polls(report, inputs) >= spec_expiries(inputs),
    decreases inputs.len(),
{
    if inputs.len() > 0 {
        lemma_poll_every_iteration(report, inputs.drop_first());
    }
}

} // verus!
