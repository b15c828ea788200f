//! Clipboard access for terminal programs, as a core that performs no I/O.
//!
//! The library decides; the program around it acts. Every clipboard backend
//! (Wayland, the two X11 selections, Win32, Cocoa, the WSL shell bridge and
//! the headless no-op) is reached through actions that the library names
//! and events that it is told of, so each decision has a contract that
//! Verus proves.
//!
//! A program classifies its environment once ([`classify`]), starts a
//! session with one of the three functions below, and then performs each
//! [`Action`] and reports the [`Event`] until the session has an
//! [`Outcome`].
pub mod bridge;
pub mod environment;
pub mod error;
pub mod handle;
pub mod resolver;
pub mod session;

pub use environment::{classify, Environment, Markers, Os};
pub use error::{Backend, BackendFailure, ClipboardError, IoStage};
pub use handle::{AttemptOutcome, ClipboardHandle, Fault, Payload, Request};
pub use resolver::{Resolution, Resolver};
pub use session::{Action, Event, Keep, Outcome, Session, Step, Task};

use error::ErrorView;
use session::{start, StepView, TaskView};
use std::time::Duration;
use vstd::prelude::*;

verus! {

/// How the fork went that is to give the clipboard a daemon, as seen by
/// the process that asks.
#[derive(Debug, Clone, PartialEq, Eq)]
pub enum ForkOutcome {
    /// This process is the one that called; a child is running.
    Parent,
    /// This process is the child.
    Child,
    /// There is no child, for the given reason.
    Failed(String),
}

/// The mathematical value of a [`ForkOutcome`].
pub ghost enum ForkView {
    Parent,
    Child,
    Failed(Seq<char>),
}

impl View for ForkOutcome {
    type V = ForkView;

    open spec fn view(&self) -> ForkView {
        match self {
            ForkOutcome::Parent => ForkView::Parent,
            ForkOutcome::Child => ForkView::Child,
            ForkOutcome::Failed(reason) => ForkView::Failed(reason@),
        }
    }
}

/// What a process does after the fork.
#[derive(Debug, PartialEq, Eq)]
pub enum Launch {
    /// Return this to the caller, at once.
    Caller(Result<(), ClipboardError>),
    /// Be the daemon: run the session that begins with this step, and exit
    /// with the status of its outcome.
    Daemon(Step),
}

/// The mathematical value of a [`Launch`].
pub ghost enum LaunchView {
    Caller(Result<(), ErrorView>),
    Daemon(StepView),
}

impl View for Launch {
    type V = LaunchView;

    open spec fn view(&self) -> LaunchView {
        match self {
            Launch::Caller(result) => LaunchView::Caller(handle::done_result_view(*result)),
            Launch::Daemon(first) => LaunchView::Daemon(first@),
        }
    }
}

/// How long a daemon keeps the text: for the duration, or, without one,
/// until another writer has taken the clipboard.
pub open spec fn keep_for(duration: Option<Duration>) -> Keep {
    match duration {
        Some(d) => Keep::For(d),
        None => Keep::UntilOverwritten,
    }
}

/// What each of the two processes does after the fork. The caller gets
/// its answer from the fork alone: success if there is a child, whatever
/// becomes of it, and `ForkFailure` if there is none. Only the child gets
/// a session, so only the child ever opens a backend.
pub open spec fn launched(
    environment: Environment,
    data: Seq<char>,
    duration: Option<Duration>,
    fork: ForkView,
) -> LaunchView {
    match fork {
        ForkView::Parent => LaunchView::Caller(Ok(())),
        ForkView::Failed(reason) => LaunchView::Caller(Err(ErrorView::ForkFailure(reason))),
        ForkView::Child => LaunchView::Daemon(
            start(TaskView::Put(data, keep_for(duration)), environment),
        ),
    }
}

/// Begins a read of the clipboard in `environment`.
///
/// The session opens the environment's candidates in order and reads from
/// the first that opens. Its outcome is the text, or the error of the read,
/// or `AllBackendsExhausted` with every failure if no candidate opens
/// ([`session::lemma_get_session`]).
pub fn get_contents(environment: Environment) -> (first: Step)
    ensures
        first@ == start(TaskView::Get, environment),
{
    Session::start(Task::Get, environment)
}

/// Begins a write of `data` to the clipboard in `environment`.
///
/// The session opens the environment's candidates in order and writes to
/// the first that opens ([`session::lemma_set_session`]). On Wayland and
/// X11 the text is there for others only while the writing process lives;
/// [`set_contents_for_duration`] is for text that has to outlast it.
pub fn set_contents(environment: Environment, data: String) -> (first: Step)
    ensures
        first@ == start(TaskView::Put(data@, Keep::Release), environment),
{
    Session::start(Task::Put(data, Keep::Release), environment)
}

/// Begins a write of `data` that a daemon process keeps alive: for
/// `duration`, or, without one, until another writer takes the clipboard.
///
/// The program forks first and passes on how that went. The calling
/// process then has its answer and opens nothing; the child has a session
/// to run. Nothing that happens in the child reaches the caller.
pub fn set_contents_for_duration(
    environment: Environment,
    data: String,
    duration: Option<Duration>,
    fork: ForkOutcome,
) -> (launch: Launch)
    ensures
        launch@ == launched(environment, data@, duration, fork@),
{
    match fork {
        ForkOutcome::Parent => Launch::Caller(Ok(())),
        ForkOutcome::Failed(reason) => Launch::Caller(Err(ClipboardError::ForkFailure(reason))),
        ForkOutcome::Child => {
            let keep = match duration {
                Some(d) => Keep::For(d),
                None => Keep::UntilOverwritten,
            };
            Launch::Daemon(Session::start(Task::Put(data, keep), environment))
        },
    }
}

} // verus!
