use crate::error::FdError;
use crate::platform::Platform;
use vstd::prelude::*;

verus! {

/// Where a non-blocking transfer stands.
#[derive(Clone, Copy, Debug, PartialEq, Eq, Structural)]
pub enum Phase {
    /// Waiting for the reactor to report the socket ready.
    Start,
    /// The socket was reported ready; one attempt of the syscall is due.
    Ready,
    /// Settled or cancelled; nothing more will happen.
    Done,
}

/// What the reactor answered to a readiness request.
#[derive(Clone, Copy, Debug, PartialEq, Eq, Structural)]
pub enum Readiness {
    Pending,
    Ready,
    Failed(FdError),
}

/// The result of one attempt of the syscall.
#[derive(Clone, Copy, Debug, PartialEq, Eq, Structural)]
pub enum Completion {
    /// `sendmsg` handed the descriptor to the kernel.
    Sent,
    /// `recv_fd` produced this descriptor, now owned by the caller.
    Received(i32),
    /// The attempt failed.
    Failed(FdError),
}

/// What happened to a pending transfer.
#[derive(Clone, Copy, Debug, PartialEq, Eq, Structural)]
pub enum Event {
    Readiness(Readiness),
    Attempted(Completion),
    /// The operation was dropped before it settled.
    Cancel,
}

/// What the driver of a transfer does next.
#[derive(Clone, Copy, Debug, PartialEq, Eq, Structural)]
pub enum Action {
    /// Yield to the reactor, which wakes the task on readiness.
    Suspend,
    /// Request readiness again: the attempt would have blocked.
    AwaitReadiness,
    /// Make one non-blocking attempt of the syscall.
    Attempt,
    /// Settle the operation with this result.
    Complete(Completion),
    /// Close this descriptor: it arrived where no result can carry it.
    Close(i32),
    /// Nothing.
    Idle,
}

/// Whether an attempt ended in a refusal that only asks to wait.
pub open spec fn blocked(p: Platform, c: Completion) -> bool {
    match c {
        Completion::Failed(e) => e == FdError::Os(p.eagain) || e == FdError::Os(p.ewouldblock),
        _ => false,
    }
}

/// The transition of a transfer in `phase` on `event`: the next phase and
/// the action to perform.
pub open spec fn next(p: Platform, phase: Phase, event: Event) -> (Phase, Action) {
    match event {
        Event::Cancel => (Phase::Done, Action::Idle),
        Event::Readiness(r) => if phase == Phase::Start {
            match r {
                Readiness::Pending => (Phase::Start, Action::Suspend),
                Readiness::Ready => (Phase::Ready, Action::Attempt),
                Readiness::Failed(e) => (Phase::Done, Action::Complete(Completion::Failed(e))),
            }
        } else {
            (phase, Action::Idle)
        },
        Event::Attempted(c) => if phase == Phase::Ready {
            if blocked(p, c) {
                (Phase::Start, Action::AwaitReadiness)
            } else {
                (Phase::Done, Action::Complete(c))
            }
        } else {
            match c {
                Completion::Received(fd) => (phase, Action::Close(fd)),
                _ => (phase, Action::Idle),
            }
        },
    }
}

/// Advances a transfer: wait for readiness, attempt once, wait again when
/// the attempt would have blocked, and settle on anything else. A
/// descriptor that arrives outside an attempt is closed, never dropped.
pub fn step(p: &Platform, phase: Phase, event: Event) -> (r: (Phase, Action))
    ensures
        r == next(*p, phase, event),
{
    match event {
        Event::Cancel => (Phase::Done, Action::Idle),
        Event::Readiness(r) => {
            if phase == Phase::Start {
                match r {
                    Readiness::Pending => (Phase::Start, Action::Suspend),
                    Readiness::Ready => (Phase::Ready, Action::Attempt),
                    Readiness::Failed(e) => (Phase::Done, Action::Complete(Completion::Failed(e))),
                }
            } else {
                (phase, Action::Idle)
            }
        },
        Event::Attempted(c) => {
            if phase == Phase::Ready {
                let would_block = match c {
                    Completion::Failed(e) => crate::transfer::is_would_block(p, &e),
                    _ => false,
                };
                if would_block {
                    (Phase::Start, Action::AwaitReadiness)
                } else {
                    (Phase::Done, Action::Complete(c))
                }
            } else {
                match c {
                    Completion::Received(fd) => (phase, Action::Close(fd)),
                    _ => (phase, Action::Idle),
                }
            }
        },
    }
}

} // verus!
