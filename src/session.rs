//! One invocation of the exchanger as a state machine: the channel is
//! opened, the payload sent, the reply collected, in that order and once.
//! Opening and sending can fail the invocation; receiving cannot.
use vstd::prelude::*;

verus! {

/// Why opening the channel failed.
#[derive(Clone, Copy, Debug, PartialEq, Eq, Structural)]
pub enum OpenFailure {
    /// The device does not exist or cannot be opened.
    Unavailable,
    /// The device driver rejected the configuration, such as the baud rate.
    Rejected,
}

/// An error that ends an invocation.
#[derive(Clone, Copy, Debug, PartialEq, Eq, Structural)]
pub enum TransferError {
    ChannelUnavailable,
    InvalidConfiguration,
    WriteFailure,
}

/// Where an invocation stands.
#[derive(Clone, Copy, Debug, PartialEq, Eq, Structural)]
pub enum Phase {
    Idle,
    Opened,
    Sent,
    Receiving,
    Done,
    Failed(TransferError),
}

/// What the caller reports after each piece of outside work.
#[derive(Clone, Copy, Debug, PartialEq, Eq, Structural)]
pub enum PhaseEvent {
    OpenSucceeded,
    OpenFailed(OpenFailure),
    SendFinished,
    SendAborted,
    ReceiveStarted,
    ReceiveEnded,
}

/// The error that a failure to open the channel is reported as.
pub open spec fn open_error(f: OpenFailure) -> TransferError {
    match f {
        OpenFailure::Unavailable => TransferError::ChannelUnavailable,
        OpenFailure::Rejected => TransferError::InvalidConfiguration,
    }
}

/// The next phase. An event that does not belong to the current phase
/// leaves it unchanged, so no phase is ever skipped.
pub open spec fn next_phase(p: Phase, e: PhaseEvent) -> Phase {
    match (p, e) {
        (Phase::Idle, PhaseEvent::OpenSucceeded) => Phase::Opened,
        (Phase::Idle, PhaseEvent::OpenFailed(f)) => Phase::Failed(open_error(f)),
        (Phase::Opened, PhaseEvent::SendFinished) => Phase::Sent,
        (Phase::Opened, PhaseEvent::SendAborted) => Phase::Failed(TransferError::WriteFailure),
        (Phase::Sent, PhaseEvent::ReceiveStarted) => Phase::Receiving,
        (Phase::Receiving, PhaseEvent::ReceiveEnded) => Phase::Done,
        _ => p,
    }
}

/// Position of a phase along the normal course of an invocation.
pub open spec fn rank(p: Phase) -> nat {
    match p {
        Phase::Idle => 0,
        Phase::Opened => 1,
        Phase::Sent => 2,
        Phase::Receiving => 3,
        Phase::Done => 4,
        Phase::Failed(_) => 5,
    }
}

/// The phase after the events `events`, in order, from `p`.
pub open spec fn run_phases(p: Phase, events: Seq<PhaseEvent>) -> Phase
    decreases events.len(),
{
    if events.len() == 0 {
        p
    } else {
        next_phase(run_phases(p, events.drop_last()), events.last())
    }
}

/// The next phase after `p` on the event `e`.
pub fn advance(p: Phase, e: PhaseEvent) -> (r: Phase)
    ensures
        r == next_phase(p, e),
{
    match (p, e) {
        (Phase::Idle, PhaseEvent::OpenSucceeded) => Phase::Opened,
        (Phase::Idle, PhaseEvent::OpenFailed(f)) => Phase::Failed(
            match f {
                OpenFailure::Unavailable => TransferError::ChannelUnavailable,
                OpenFailure::Rejected => TransferError::InvalidConfiguration,
            },
        ),
        (Phase::Opened, PhaseEvent::SendFinished) => Phase::Sent,
        (Phase::Opened, PhaseEvent::SendAborted) => Phase::Failed(TransferError::WriteFailure),
        (Phase::Sent, PhaseEvent::ReceiveStarted) => Phase::Receiving,
        (Phase::Receiving, PhaseEvent::ReceiveEnded) => Phase::Done,
        _ => p,
    }
}

/// Whether the raw received bytes go to the raw output: only when asked
/// for and only once the invocation has run to its end.
pub fn emits_raw_output(p: Phase, requested: bool) -> (r: bool)
    ensures
        r == (requested && p == Phase::Done),
{
    requested && p == Phase::Done
}

/// Which traces are shown: the outbound trace before the send and the
/// inbound trace after the receive.
#[derive(Clone, Copy, Debug, PartialEq, Eq, Structural)]
pub struct TraceGates {
    pub outbound: bool,
    pub inbound: bool,
}

impl TraceGates {
    /// Both traces shown unless quiet.
    pub fn from_quiet(quiet: bool) -> (r: TraceGates)
        ensures
            r.outbound == !quiet,
            r.inbound == !quiet,
    {
        TraceGates { outbound: !quiet, inbound: !quiet }
    }
}

/// Each step moves one phase forward along the normal course, or into
/// failure, or stays; failure comes only from opening or sending, and
/// finished or failed invocations never move again.
pub proof fn lemma_phase_steps(p: Phase, e: PhaseEvent)
    ensures
        next_phase(p, e) == p || rank(next_phase(p, e)) == rank(p) + 1
            || next_phase(p, e) is Failed,
        next_phase(p, e) is Failed && !(p is Failed) ==> (p == Phase::Idle || p == Phase::Opened),
        p == Phase::Done || p is Failed ==> next_phase(p, e) == p,
{
}

/// An invocation whose channel cannot be opened ends in failure with the
/// open error, and stays there: it never reaches the send phase, and no raw
/// output is emitted, whatever is reported afterwards.
pub proof fn lemma_open_failure_is_final(f: OpenFailure, events: Seq<PhaseEvent>)
    ensures
        run_phases(next_phase(Phase::Idle, PhaseEvent::OpenFailed(f)), events) == Phase::Failed(
            open_error(f),
        ),
        run_phases(next_phase(Phase::Idle, PhaseEvent::OpenFailed(f)), events) != Phase::Sent,
        run_phases(next_phase(Phase::Idle, PhaseEvent::OpenFailed(f)), events) != Phase::Done,
    decreases events.len(),
{
    if events.len() > 0 {
        lemma_open_failure_is_final(f, events.drop_last());
    }
}

/// Along any course of events, an invocation is done only after it has
/// passed through every phase before: the number of events that moved it
/// is at least the rank of where it stands, unless it failed.
pub proof fn lemma_no_phase_skipped(events: Seq<PhaseEvent>)
    ensures
        !(run_phases(Phase::Idle, events) is Failed) ==> rank(run_phases(Phase::Idle, events))
            <= events.len(),
    decreases events.len(),
{
    if events.len() > 0 {
        lemma_no_phase_skipped(events.drop_last());
        lemma_phase_steps(run_phases(Phase::Idle, events.drop_last()), events.last());
    }
}

} // verus!
