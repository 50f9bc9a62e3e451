//! Shutting the worker down.
//!
//! The worker is asked to stop and has some time to acknowledge; one that does not is
//! aborted. Then its end is awaited, and one that does not come to its end in time is
//! aborted too. What follows from each observation is decided here; sending, waiting
//! and aborting are left to whoever runs the shutdown.

use crate::error::{BackendError, ErrorKind, ErrorView};
use crate::text::joined;
use vstd::prelude::*;

verus! {

/// How the worker came to its end.
pub enum WorkerExit {
    /// It ran to its end.
    Finished,
    /// It was aborted; the text is that of the runtime's error.
    Cancelled(String),
    /// It panicked; the text is that of the runtime's error.
    Failed(String),
    /// It did not end in time.
    TimedOut,
}

#[verifier::ext_equal]
pub enum ExitView {
    Finished,
    Cancelled(Seq<char>),
    Failed(Seq<char>),
    TimedOut,
}

impl DeepView for WorkerExit {
    type V = ExitView;

    open spec fn deep_view(&self) -> ExitView {
        match self {
            WorkerExit::Finished => ExitView::Finished,
            WorkerExit::Cancelled(text) => ExitView::Cancelled(text@),
            WorkerExit::Failed(text) => ExitView::Failed(text@),
            WorkerExit::TimedOut => ExitView::TimedOut,
        }
    }
}

/// A result without a value, with its error seen through its model.
pub open spec fn outcome_view(result: Result<(), BackendError>) -> Result<(), ErrorView> {
    match result {
        Ok(_) => Ok(()),
        Err(error) => Err(error.deep_view()),
    }
}

/// The error for a worker that ended badly.
pub open spec fn worker_failed(text: Seq<char>) -> ErrorView {
    ErrorView { kind: ErrorKind::Other, message: "CloudStaff mock worker failed: "@ + text }
}

/// The result of a shutdown. A worker that did not acknowledge was aborted, so that it
/// was cancelled is no failure then.
pub open spec fn result_of(graceful: bool, exit: ExitView) -> Result<(), ErrorView> {
    match exit {
        ExitView::Finished => Ok(()),
        ExitView::Cancelled(text) => if graceful {
            Err(worker_failed(text))
        } else {
            Ok(())
        },
        ExitView::Failed(text) => Err(worker_failed(text)),
        ExitView::TimedOut => Err(
            ErrorView {
                kind: ErrorKind::TimedOut,
                message: "CloudStaff mock worker did not shut down"@,
            },
        ),
    }
}

/// The result of a shutdown.
pub fn shutdown_result(graceful: bool, exit: WorkerExit) -> (res: Result<(), BackendError>)
    ensures
        outcome_view(res) == result_of(graceful, exit.deep_view()),
{
    match exit {
        WorkerExit::Finished => Ok(()),
        WorkerExit::Cancelled(text) => if graceful {
            Err(worker_error(text.as_str()))
        } else {
            Ok(())
        },
        WorkerExit::Failed(text) => Err(worker_error(text.as_str())),
        WorkerExit::TimedOut => Err(
            BackendError::new(ErrorKind::TimedOut, "CloudStaff mock worker did not shut down"),
        ),
    }
}

fn worker_error(text: &str) -> (res: BackendError)
    ensures
        res.deep_view() == worker_failed(text@),
{
    BackendError::new(
        ErrorKind::Other,
        joined("CloudStaff mock worker failed: ", text).as_str(),
    )
}

/// An observation during a shutdown.
pub enum ShutdownEvent {
    /// The worker was asked to stop, or could not be asked in time.
    Asked { taken: bool },
    /// The worker acknowledged, or did not in time.
    Acknowledged { in_time: bool },
    /// The end of the worker was awaited.
    Joined(WorkerExit),
    /// The worker was aborted and came to its end.
    Reaped,
}

/// What is done next in a shutdown.
pub enum ShutdownAction {
    /// Wait for the worker's acknowledgement.
    AwaitAcknowledgement,
    /// Wait for the worker's end.
    Join,
    /// Abort the worker, then wait for its end.
    AbortAndJoin,
    /// Abort the worker, then wait for its end for as long as it takes.
    AbortAndReap,
    /// The shutdown is over.
    Return(Result<(), BackendError>),
}

#[verifier::ext_equal]
pub enum ShutdownEventView {
    Asked { taken: bool },
    Acknowledged { in_time: bool },
    Joined(ExitView),
    Reaped,
}

#[verifier::ext_equal]
pub enum ShutdownActionView {
    AwaitAcknowledgement,
    Join,
    AbortAndJoin,
    AbortAndReap,
    Return(Result<(), ErrorView>),
}

impl DeepView for ShutdownEvent {
    type V = ShutdownEventView;

    open spec fn deep_view(&self) -> ShutdownEventView {
        match self {
            ShutdownEvent::Asked { taken } => ShutdownEventView::Asked { taken: *taken },
            ShutdownEvent::Acknowledged { in_time } => ShutdownEventView::Acknowledged {
                in_time: *in_time,
            },
            ShutdownEvent::Joined(exit) => ShutdownEventView::Joined(exit.deep_view()),
            ShutdownEvent::Reaped => ShutdownEventView::Reaped,
        }
    }
}

impl DeepView for ShutdownAction {
    type V = ShutdownActionView;

    open spec fn deep_view(&self) -> ShutdownActionView {
        match self {
            ShutdownAction::AwaitAcknowledgement => ShutdownActionView::AwaitAcknowledgement,
            ShutdownAction::Join => ShutdownActionView::Join,
            ShutdownAction::AbortAndJoin => ShutdownActionView::AbortAndJoin,
            ShutdownAction::AbortAndReap => ShutdownActionView::AbortAndReap,
            ShutdownAction::Return(result) => ShutdownActionView::Return(outcome_view(*result)),
        }
    }
}

/// What follows from an observation, and whether the worker has acknowledged by then,
/// given whether it had before.
pub open spec fn shutdown_step(graceful: bool, event: ShutdownEventView) -> (
    bool,
    ShutdownActionView,
) {
    match event {
        ShutdownEventView::Asked { taken } => (
            false,
            if taken {
                ShutdownActionView::AwaitAcknowledgement
            } else {
                ShutdownActionView::AbortAndJoin
            },
        ),
        ShutdownEventView::Acknowledged { in_time } => (
            in_time,
            if in_time {
                ShutdownActionView::Join
            } else {
                ShutdownActionView::AbortAndJoin
            },
        ),
        ShutdownEventView::Joined(ExitView::TimedOut) => (
            graceful,
            ShutdownActionView::AbortAndReap,
        ),
        ShutdownEventView::Joined(exit) => (
            graceful,
            ShutdownActionView::Return(result_of(graceful, exit)),
        ),
        ShutdownEventView::Reaped => (
            graceful,
            ShutdownActionView::Return(result_of(graceful, ExitView::TimedOut)),
        ),
    }
}

/// A shutdown under way.
pub struct Shutdown {
    graceful: bool,
}

impl View for Shutdown {
    type V = bool;

    /// Whether the worker has acknowledged.
    closed spec fn view(&self) -> bool {
        self.graceful
    }
}

impl Shutdown {
    /// A shutdown of which nothing has been observed.
    pub fn new() -> (res: Shutdown)
        ensures
            !res@,
    {
        Shutdown { graceful: false }
    }

    /// Decides what follows from an observation.
    pub fn on_event(&mut self, event: ShutdownEvent) -> (res: ShutdownAction)
        ensures
            final(self)@ == shutdown_step(old(self)@, event.deep_view()).0,
            res.deep_view() == shutdown_step(old(self)@, event.deep_view()).1,
    {
        match event {
            ShutdownEvent::Asked { taken } => {
                self.graceful = false;
                if taken {
                    ShutdownAction::AwaitAcknowledgement
                } else {
                    ShutdownAction::AbortAndJoin
                }
            },
            ShutdownEvent::Acknowledged { in_time } => {
                self.graceful = in_time;
                if in_time {
                    ShutdownAction::Join
                } else {
                    ShutdownAction::AbortAndJoin
                }
            },
            ShutdownEvent::Joined(WorkerExit::TimedOut) => ShutdownAction::AbortAndReap,
            ShutdownEvent::Joined(exit) => ShutdownAction::Return(
                shutdown_result(self.graceful, exit),
            ),
            ShutdownEvent::Reaped => ShutdownAction::Return(
                shutdown_result(self.graceful, WorkerExit::TimedOut),
            ),
        }
    }
}

/// Whether the worker is known to have come to its end by an observation.
pub open spec fn worker_ended(event: ShutdownEventView) -> bool {
    match event {
        ShutdownEventView::Joined(exit) => !(exit is TimedOut),
        ShutdownEventView::Reaped => true,
        _ => false,
    }
}

/// Whether the worker has acknowledged after a number of observations.
pub open spec fn graceful_after(events: Seq<ShutdownEventView>) -> bool
    decreases events.len(),
{
    if events.len() == 0 {
        false
    } else {
        shutdown_step(graceful_after(events.drop_last()), events.last()).0
    }
}

/// What a shutdown does after a number of observations.
pub open spec fn action_after(events: Seq<ShutdownEventView>) -> ShutdownActionView {
    shutdown_step(graceful_after(events.drop_last()), events.last()).1
}

/// A shutdown is over exactly when the worker has come to its end: whatever was
/// observed before, it returns on the observation of that end and on no other.
pub proof fn law_shutdown_returns_with_the_worker_ended(events: Seq<ShutdownEventView>)
    requires
        events.len() > 0,
    ensures
        action_after(events) is Return <==> worker_ended(events.last()),
{
}

/// A worker that was asked and acknowledged in time is never aborted before its end was
/// awaited, and its result is that of its end.
pub proof fn law_acknowledged_shutdown_is_graceful(exit: ExitView)
    ensures
        ({
            let asked = seq![ShutdownEventView::Asked { taken: true }];
            let acknowledged = asked.push(ShutdownEventView::Acknowledged { in_time: true });
            let joined = acknowledged.push(ShutdownEventView::Joined(exit));
            &&& action_after(asked) is AwaitAcknowledgement
            &&& action_after(acknowledged) is Join
            &&& action_after(joined) == if exit is TimedOut {
                ShutdownActionView::AbortAndReap
            } else {
                ShutdownActionView::Return(result_of(true, exit))
            }
        }),
{
    let asked = seq![ShutdownEventView::Asked { taken: true }];
    let acknowledged = asked.push(ShutdownEventView::Acknowledged { in_time: true });
    let joined = acknowledged.push(ShutdownEventView::Joined(exit));
    assert(joined.drop_last() =~= acknowledged);
    assert(acknowledged.drop_last() =~= asked);
}

/// A worker that could not be asked, or did not acknowledge in time, is aborted before
/// its end is awaited, and that it was cancelled is then no failure.
pub proof fn law_unacknowledged_shutdown_aborts(text: Seq<char>)
    ensures
        ({
            let refused = seq![ShutdownEventView::Asked { taken: false }];
            let ignored = seq![
                ShutdownEventView::Asked { taken: true },
                ShutdownEventView::Acknowledged { in_time: false },
            ];
            let cancelled = ShutdownEventView::Joined(ExitView::Cancelled(text));
            &&& action_after(refused) is AbortAndJoin
            &&& action_after(ignored) is AbortAndJoin
            &&& action_after(refused.push(cancelled)) == ShutdownActionView::Return(Ok(()))
            &&& action_after(ignored.push(cancelled)) == ShutdownActionView::Return(Ok(()))
        }),
{
    let refused = seq![ShutdownEventView::Asked { taken: false }];
    let ignored = seq![
        ShutdownEventView::Asked { taken: true },
        ShutdownEventView::Acknowledged { in_time: false },
    ];
    let cancelled = ShutdownEventView::Joined(ExitView::Cancelled(text));
    assert(refused.push(cancelled).drop_last() =~= refused);
    assert(ignored.push(cancelled).drop_last() =~= ignored);
}

} // verus!
