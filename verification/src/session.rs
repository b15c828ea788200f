//! One clipboard operation from start to finish, as a state machine.
//!
//! A session knows what it is for (a [`Task`]) and how far it has come. It
//! never touches the platform: it names the next [`Action`], the program
//! performs it and reports the [`Event`] that came of it, and the session
//! answers with the action after that, until it has an [`Outcome`].
//!
//! The same machine runs a plain read, a plain write, and the write of a
//! daemon process that stays to keep the text alive. An event that does not
//! answer the action that is due changes nothing: the action is asked for
//! again.
use crate::environment::Environment;
use crate::error::{bound_to_owner, Backend, ClipboardError, ErrorView};
use crate::handle::{
    clear_request, done_reply_view, done_result, echo, lemma_round_trip, mirror_of,
    read_reply_view, read_request, read_result, write_request, AttemptOutcome, ClipboardHandle,
    Fault, FaultView, OutcomeView, Payload, Request, RequestView,
};
use crate::resolver::{initial_resolution, Resolution, ResolutionView, Resolver, ResolverView};
use std::time::Duration;
use vstd::prelude::*;

verus! {

/// Seconds between two looks at the clipboard while a daemon waits for
/// somebody else to overwrite it.
pub const POLL_INTERVAL_SECS: u64 = 30;

/// What is to happen once the text is written.
#[derive(Debug, Clone, Copy, PartialEq, Eq)]
pub enum Keep {
    /// Nothing: the session is over.
    Release,
    /// Stay for this long, then let go of the text.
    For(Duration),
    /// Stay until another writer has taken the clipboard.
    UntilOverwritten,
}

/// What a session is for.
#[derive(Debug, Clone, PartialEq, Eq)]
pub enum Task {
    /// Read the text.
    Get,
    /// Write the text, and then keep it as told.
    Put(String, Keep),
    /// Empty the clipboard.
    Clear,
}

/// The mathematical value of a [`Task`].
pub ghost enum TaskView {
    Get,
    Put(Seq<char>, Keep),
    Clear,
}

impl View for Task {
    type V = TaskView;

    open spec fn view(&self) -> TaskView {
        match self {
            Task::Get => TaskView::Get,
            Task::Put(data, keep) => TaskView::Put(data@, *keep),
            Task::Clear => TaskView::Clear,
        }
    }
}

/// What the program is asked to do next.
#[derive(Debug, PartialEq, Eq)]
pub enum Action {
    /// Try to open the backend; report `Event::Attempted`.
    Open(Backend),
    /// Carry out the request on the open backend; report `Event::Read`,
    /// `Event::Written` or `Event::Cleared`, whichever the request is.
    Perform(Request),
    /// Carry out the write if the backend it names can be opened, and
    /// report `Event::Written` however it went.
    Mirror(Request),
    /// Sleep for the duration; report `Event::Woke`.
    Sleep(Duration),
    /// Sleep for this many seconds; report `Event::Woke`.
    Pause(u64),
}

/// The mathematical value of an [`Action`].
pub ghost enum ActionView {
    Open(Backend),
    Perform(RequestView),
    Mirror(RequestView),
    Sleep(Duration),
    Pause(u64),
}

impl View for Action {
    type V = ActionView;

    open spec fn view(&self) -> ActionView {
        match self {
            Action::Open(backend) => ActionView::Open(*backend),
            Action::Perform(request) => ActionView::Perform(request@),
            Action::Mirror(request) => ActionView::Mirror(request@),
            Action::Sleep(duration) => ActionView::Sleep(*duration),
            Action::Pause(seconds) => ActionView::Pause(*seconds),
        }
    }
}

/// What came of an action.
#[derive(Debug, PartialEq, Eq)]
pub enum Event {
    Attempted(AttemptOutcome),
    Read(Result<Payload, Fault>),
    Written(Result<(), Fault>),
    Cleared(Result<(), Fault>),
    Woke,
}

/// The mathematical value of an [`Event`].
pub ghost enum EventView {
    Attempted(OutcomeView),
    Read(Result<Seq<char>, FaultView>),
    Written(Result<(), FaultView>),
    Cleared(Result<(), FaultView>),
    Woke,
}

impl View for Event {
    type V = EventView;

    open spec fn view(&self) -> EventView {
        match self {
            Event::Attempted(outcome) => EventView::Attempted(outcome@),
            Event::Read(reply) => EventView::Read(read_reply_view(*reply)),
            Event::Written(reply) => EventView::Written(done_reply_view(*reply)),
            Event::Cleared(reply) => EventView::Cleared(done_reply_view(*reply)),
            Event::Woke => EventView::Woke,
        }
    }
}

/// How a session ended.
#[derive(Debug, Clone, PartialEq, Eq)]
pub enum Outcome {
    /// A read ended with this text.
    Text(String),
    /// A write ended well; a daemon has nothing left to keep.
    Done,
    /// The session failed.
    Failed(ClipboardError),
}

/// The mathematical value of an [`Outcome`].
pub ghost enum OutcomeOfSession {
    Text(Seq<char>),
    Done,
    Failed(ErrorView),
}

impl View for Outcome {
    type V = OutcomeOfSession;

    open spec fn view(&self) -> OutcomeOfSession {
        match self {
            Outcome::Text(text) => OutcomeOfSession::Text(text@),
            Outcome::Done => OutcomeOfSession::Done,
            Outcome::Failed(error) => OutcomeOfSession::Failed(error@),
        }
    }
}

/// The mathematical value of a [`Session`]: how far it has come, and what
/// it still needs to know.
pub ghost enum SessionView {
    /// A candidate backend is being opened.
    Probing(ResolverView, TaskView),
    /// The text is being read.
    Reading(Backend),
    /// The text is being written.
    Writing(Backend, Seq<char>, Keep),
    /// The text is being written to the second selection.
    Mirroring(Backend, Seq<char>, Keep),
    /// The daemon sleeps until the text expires.
    Holding(Backend, Duration),
    /// The daemon sleeps between two looks at the clipboard.
    Pausing(Backend, Seq<char>),
    /// The daemon looks whether the clipboard still holds its text.
    Checking(Backend, Seq<char>),
    /// The clipboard is being emptied: because that is the task, or by a
    /// daemon whose text would outlive it.
    Wiping(Backend),
}

/// The mathematical value of a [`Step`].
pub ghost enum StepView {
    Continue(SessionView, ActionView),
    Finished(OutcomeOfSession),
}

/// The outcome of a read that returned `result`.
pub open spec fn text_outcome(result: Result<Seq<char>, ErrorView>) -> OutcomeOfSession {
    match result {
        Ok(text) => OutcomeOfSession::Text(text),
        Err(error) => OutcomeOfSession::Failed(error),
    }
}

/// The outcome of a last write or clear that returned `result`.
pub open spec fn done_outcome(result: Result<(), ErrorView>) -> OutcomeOfSession {
    match result {
        Ok(_) => OutcomeOfSession::Done,
        Err(error) => OutcomeOfSession::Failed(error),
    }
}

/// Goes on from `resolution`: opens the next candidate, starts the task on
/// the backend that opened, or fails with the list of failures.
pub open spec fn probe(resolution: ResolutionView, task: TaskView) -> StepView {
    match resolution {
        ResolutionView::Pending(resolver) => StepView::Continue(
            SessionView::Probing(resolver, task),
            ActionView::Open(resolver.remaining[0]),
        ),
        ResolutionView::Resolved(backend) => begin(backend, task),
        ResolutionView::Exhausted(error) => StepView::Finished(OutcomeOfSession::Failed(error)),
    }
}

/// Starts `task` on `backend`, which is open.
pub open spec fn begin(backend: Backend, task: TaskView) -> StepView {
    match task {
        TaskView::Get => read(backend),
        TaskView::Put(data, keep) => write(backend, data, keep),
        TaskView::Clear => wipe(backend),
    }
}

/// Reads from `backend`. A backend that is never asked answers at once.
pub open spec fn read(backend: Backend) -> StepView {
    match read_request(backend) {
        Some(request) => StepView::Continue(
            SessionView::Reading(backend),
            ActionView::Perform(request),
        ),
        None => StepView::Finished(text_outcome(read_result(backend, Ok(Seq::empty())))),
    }
}

/// Writes `data` to `backend`.
pub open spec fn write(backend: Backend, data: Seq<char>, keep: Keep) -> StepView {
    match write_request(backend, data) {
        Some(request) => StepView::Continue(
            SessionView::Writing(backend, data, keep),
            ActionView::Perform(request),
        ),
        None => written(backend, data, keep, Ok(())),
    }
}

/// Goes on after the write: a failed write ends the session.
pub open spec fn written(
    backend: Backend,
    data: Seq<char>,
    keep: Keep,
    reply: Result<(), FaultView>,
) -> StepView {
    match done_result(backend, reply) {
        Ok(_) => mirror(backend, data, keep),
        Err(error) => StepView::Finished(OutcomeOfSession::Failed(error)),
    }
}

/// Offers `data` to the second selection of `backend`, where it has one.
pub open spec fn mirror(backend: Backend, data: Seq<char>, keep: Keep) -> StepView {
    match mirror_of(backend) {
        Some(second) => StepView::Continue(
            SessionView::Mirroring(backend, data, keep),
            ActionView::Mirror(RequestView::Write(second, data)),
        ),
        None => hold(backend, data, keep),
    }
}

/// Keeps the text that was written, as `keep` says. To wait for another
/// writer makes sense only where the text is gone with its owner; anywhere
/// else the platform keeps it, and there is nothing to wait for.
pub open spec fn hold(backend: Backend, data: Seq<char>, keep: Keep) -> StepView {
    match keep {
        Keep::Release => StepView::Finished(OutcomeOfSession::Done),
        Keep::For(duration) => sleep(backend, duration),
        Keep::UntilOverwritten => if bound_to_owner(backend) {
            pause(backend, data)
        } else {
            StepView::Finished(OutcomeOfSession::Done)
        },
    }
}

/// Sleeps until the text expires.
pub open spec fn sleep(backend: Backend, duration: Duration) -> StepView {
    StepView::Continue(SessionView::Holding(backend, duration), ActionView::Sleep(duration))
}

/// Lets go of the text. Where it is gone with its owner, it is enough to
/// end; anywhere else the clipboard has to be emptied.
pub open spec fn expire(backend: Backend) -> StepView {
    if bound_to_owner(backend) {
        StepView::Finished(OutcomeOfSession::Done)
    } else {
        wipe(backend)
    }
}

/// Empties `backend`.
pub open spec fn wipe(backend: Backend) -> StepView {
    match clear_request(backend) {
        Some(request) => StepView::Continue(
            SessionView::Wiping(backend),
            ActionView::Perform(request),
        ),
        None => StepView::Finished(OutcomeOfSession::Done),
    }
}

/// Sleeps for one poll interval.
pub open spec fn pause(backend: Backend, data: Seq<char>) -> StepView {
    StepView::Continue(SessionView::Pausing(backend, data), ActionView::Pause(POLL_INTERVAL_SECS))
}

/// Looks at the clipboard.
pub open spec fn check(backend: Backend, data: Seq<char>) -> StepView {
    match read_request(backend) {
        Some(request) => StepView::Continue(
            SessionView::Checking(backend, data),
            ActionView::Perform(request),
        ),
        None => checked(backend, data, Ok(Seq::empty())),
    }
}

/// Goes on after the look: the daemon stays while the clipboard holds its
/// text, ends well when it holds another, and fails when it cannot be read.
pub open spec fn checked(backend: Backend, data: Seq<char>, reply: Result<Seq<char>, FaultView>)
    -> StepView {
    match read_result(backend, reply) {
        Ok(text) => if text == data {
            pause(backend, data)
        } else {
            StepView::Finished(OutcomeOfSession::Done)
        },
        Err(error) => StepView::Finished(OutcomeOfSession::Failed(error)),
    }
}

/// Asks again for the action that is due in `session`.
pub open spec fn resume(session: SessionView) -> StepView {
    match session {
        SessionView::Probing(resolver, task) => probe(resolver.settle(), task),
        SessionView::Reading(backend) => read(backend),
        SessionView::Writing(backend, data, keep) => write(backend, data, keep),
        SessionView::Mirroring(backend, data, keep) => mirror(backend, data, keep),
        SessionView::Holding(backend, duration) => sleep(backend, duration),
        SessionView::Pausing(backend, data) => pause(backend, data),
        SessionView::Checking(backend, data) => check(backend, data),
        SessionView::Wiping(backend) => wipe(backend),
    }
}

/// The first step of a session for `task` in `environment`.
pub open spec fn start(task: TaskView, environment: Environment) -> StepView {
    probe(initial_resolution(environment), task)
}

/// The step that `session` takes on `event`.
pub open spec fn step(session: SessionView, event: EventView) -> StepView {
    match (session, event) {
        (SessionView::Probing(resolver, task), EventView::Attempted(outcome)) => probe(
            resolver.advance(outcome),
            task,
        ),
        (SessionView::Reading(backend), EventView::Read(reply)) => StepView::Finished(
            text_outcome(read_result(backend, reply)),
        ),
        (SessionView::Writing(backend, data, keep), EventView::Written(reply)) => written(
            backend,
            data,
            keep,
            reply,
        ),
        (SessionView::Mirroring(backend, data, keep), EventView::Written(_)) => hold(
            backend,
            data,
            keep,
        ),
        (SessionView::Holding(backend, _), EventView::Woke) => expire(backend),
        (SessionView::Pausing(backend, data), EventView::Woke) => check(backend, data),
        (SessionView::Checking(backend, data), EventView::Read(reply)) => checked(
            backend,
            data,
            reply,
        ),
        (SessionView::Wiping(backend), EventView::Cleared(reply)) => StepView::Finished(
            done_outcome(done_result(backend, reply)),
        ),
        _ => resume(session),
    }
}

/// A session under way: an action is due, and the event that answers it is
/// awaited.
#[derive(Debug, PartialEq, Eq)]
pub struct Session {
    phase: Phase,
}

#[derive(Debug, PartialEq, Eq)]
enum Phase {
    Probing(Resolver, Task),
    Reading(ClipboardHandle),
    Writing(ClipboardHandle, String, Keep),
    Mirroring(ClipboardHandle, String, Keep),
    Holding(ClipboardHandle, Duration),
    Pausing(ClipboardHandle, String),
    Checking(ClipboardHandle, String),
    Wiping(ClipboardHandle),
}

/// Where a session stands after a step.
#[derive(Debug, PartialEq, Eq)]
pub enum Step {
    /// Perform the action and hand the event to [`Session::step`].
    Continue(Session, Action),
    /// The session is over.
    Finished(Outcome),
}

impl View for Session {
    type V = SessionView;

    closed spec fn view(&self) -> SessionView {
        match self.phase {
            Phase::Probing(resolver, task) => SessionView::Probing(resolver@, task@),
            Phase::Reading(handle) => SessionView::Reading(handle@),
            Phase::Writing(handle, data, keep) => SessionView::Writing(handle@, data@, keep),
            Phase::Mirroring(handle, data, keep) => SessionView::Mirroring(handle@, data@, keep),
            Phase::Holding(handle, duration) => SessionView::Holding(handle@, duration),
            Phase::Pausing(handle, data) => SessionView::Pausing(handle@, data@),
            Phase::Checking(handle, data) => SessionView::Checking(handle@, data@),
            Phase::Wiping(handle) => SessionView::Wiping(handle@),
        }
    }
}

impl View for Step {
    type V = StepView;

    open spec fn view(&self) -> StepView {
        match self {
            Step::Continue(session, action) => StepView::Continue(session@, action@),
            Step::Finished(outcome) => StepView::Finished(outcome@),
        }
    }
}

impl OutcomeOfSession {
    /// The exit status with which a daemon process ends on this outcome.
    pub open spec fn exit_code(self) -> i32 {
        match self {
            OutcomeOfSession::Failed(error) => error.exit_code(),
            _ => crate::error::EXIT_SUCCESS,
        }
    }

    /// The outcome as the result of a read. A session that wrote has no
    /// text to show.
    pub open spec fn text(self) -> Result<Seq<char>, ErrorView> {
        match self {
            OutcomeOfSession::Text(text) => Ok(text),
            OutcomeOfSession::Done => Ok(Seq::empty()),
            OutcomeOfSession::Failed(error) => Err(error),
        }
    }

    /// The outcome as the result of a write.
    pub open spec fn done(self) -> Result<(), ErrorView> {
        match self {
            OutcomeOfSession::Failed(error) => Err(error),
            _ => Ok(()),
        }
    }
}

impl Outcome {
    /// The exit status with which a daemon process ends on this outcome:
    /// success unless the session failed.
    pub fn exit_code(&self) -> (code: i32)
        ensures
            code == self@.exit_code(),
    {
        match self {
            Outcome::Failed(error) => error.exit_code(),
            _ => crate::error::EXIT_SUCCESS,
        }
    }

    /// The outcome as the result of a read.
    pub fn into_text(self) -> (result: Result<String, ClipboardError>)
        ensures
            crate::handle::text_result_view(result) == self@.text(),
    {
        match self {
            Outcome::Text(text) => Ok(text),
            Outcome::Done => Ok(String::new()),
            Outcome::Failed(error) => Err(error),
        }
    }

    /// The outcome as the result of a write.
    pub fn into_done(self) -> (result: Result<(), ClipboardError>)
        ensures
            crate::handle::done_result_view(result) == self@.done(),
    {
        match self {
            Outcome::Failed(error) => Err(error),
            _ => Ok(()),
        }
    }

    fn of_text(result: Result<String, ClipboardError>) -> (outcome: Outcome)
        ensures
            outcome@ == text_outcome(crate::handle::text_result_view(result)),
    {
        match result {
            Ok(text) => Outcome::Text(text),
            Err(error) => Outcome::Failed(error),
        }
    }

    fn of_done(result: Result<(), ClipboardError>) -> (outcome: Outcome)
        ensures
            outcome@ == done_outcome(crate::handle::done_result_view(result)),
    {
        match result {
            Ok(_) => Outcome::Done,
            Err(error) => Outcome::Failed(error),
        }
    }
}

impl Session {
    fn probe(resolution: Resolution, task: Task) -> (next: Step)
        ensures
            next@ == probe(resolution@, task@),
    {
        match resolution {
            Resolution::Pending(resolver) => {
                let backend = resolver.candidate();
                Step::Continue(
                    Session { phase: Phase::Probing(resolver, task) },
                    Action::Open(backend),
                )
            },
            Resolution::Resolved(handle) => Session::on(handle, task),
            Resolution::Exhausted(error) => Step::Finished(Outcome::Failed(error)),
        }
    }

    /// Starts a session for `task` on a backend that is open already. This
    /// is for a caller that keeps its backend open from one operation to
    /// the next.
    pub fn on(handle: ClipboardHandle, task: Task) -> (first: Step)
        ensures
            first@ == begin(handle@, task@),
    {
        match task {
            Task::Get => Session::read(handle),
            Task::Put(data, keep) => Session::write(handle, data, keep),
            Task::Clear => Session::wipe(handle),
        }
    }

    fn read(handle: ClipboardHandle) -> (next: Step)
        ensures
            next@ == read(handle@),
    {
        match handle.read_request() {
            Some(request) => Step::Continue(
                Session { phase: Phase::Reading(handle) },
                Action::Perform(request),
            ),
            None => Step::Finished(
                Outcome::of_text(handle.get_contents(Ok(Payload::Text(String::new())))),
            ),
        }
    }

    fn write(handle: ClipboardHandle, data: String, keep: Keep) -> (next: Step)
        ensures
            next@ == write(handle@, data@, keep),
    {
        match handle.write_request(data.clone()) {
            Some(request) => Step::Continue(
                Session { phase: Phase::Writing(handle, data, keep) },
                Action::Perform(request),
            ),
            None => Session::written(handle, data, keep, Ok(())),
        }
    }

    fn written(handle: ClipboardHandle, data: String, keep: Keep, reply: Result<(), Fault>) -> (next:
        Step)
        ensures
            next@ == written(handle@, data@, keep, done_reply_view(reply)),
    {
        match handle.set_contents(reply) {
            Ok(_) => Session::mirror(handle, data, keep),
            Err(error) => Step::Finished(Outcome::Failed(error)),
        }
    }

    fn mirror(handle: ClipboardHandle, data: String, keep: Keep) -> (next: Step)
        ensures
            next@ == mirror(handle@, data@, keep),
    {
        match handle.mirror() {
            Some(second) => {
                let copy = data.clone();
                Step::Continue(
                    Session { phase: Phase::Mirroring(handle, data, keep) },
                    Action::Mirror(Request::Write(second, copy)),
                )
            },
            None => Session::hold(handle, data, keep),
        }
    }

    fn hold(handle: ClipboardHandle, data: String, keep: Keep) -> (next: Step)
        ensures
            next@ == hold(handle@, data@, keep),
    {
        match keep {
            Keep::Release => Step::Finished(Outcome::Done),
            Keep::For(duration) => Session::sleep(handle, duration),
            Keep::UntilOverwritten => if handle.backend().is_bound_to_owner() {
                Session::pause(handle, data)
            } else {
                Step::Finished(Outcome::Done)
            },
        }
    }

    fn sleep(handle: ClipboardHandle, duration: Duration) -> (next: Step)
        ensures
            next@ == sleep(handle@, duration),
    {
        Step::Continue(Session { phase: Phase::Holding(handle, duration) }, Action::Sleep(duration))
    }

    fn expire(handle: ClipboardHandle) -> (next: Step)
        ensures
            next@ == expire(handle@),
    {
        if handle.backend().is_bound_to_owner() {
            Step::Finished(Outcome::Done)
        } else {
            Session::wipe(handle)
        }
    }

    fn wipe(handle: ClipboardHandle) -> (next: Step)
        ensures
            next@ == wipe(handle@),
    {
        match handle.clear_request() {
            Some(request) => Step::Continue(
                Session { phase: Phase::Wiping(handle) },
                Action::Perform(request),
            ),
            None => Step::Finished(Outcome::Done),
        }
    }

    fn pause(handle: ClipboardHandle, data: String) -> (next: Step)
        ensures
            next@ == pause(handle@, data@),
    {
        Step::Continue(
            Session { phase: Phase::Pausing(handle, data) },
            Action::Pause(POLL_INTERVAL_SECS),
        )
    }

    fn check(handle: ClipboardHandle, data: String) -> (next: Step)
        ensures
            next@ == check(handle@, data@),
    {
        match handle.read_request() {
            Some(request) => Step::Continue(
                Session { phase: Phase::Checking(handle, data) },
                Action::Perform(request),
            ),
            None => Session::checked(handle, data, Ok(Payload::Text(String::new()))),
        }
    }

    fn checked(handle: ClipboardHandle, data: String, reply: Result<Payload, Fault>) -> (next: Step)
        ensures
            next@ == checked(handle@, data@, read_reply_view(reply)),
    {
        match handle.get_contents(reply) {
            Ok(text) => if text == data {
                Session::pause(handle, data)
            } else {
                Step::Finished(Outcome::Done)
            },
            Err(error) => Step::Finished(Outcome::Failed(error)),
        }
    }

    fn resume(self) -> (next: Step)
        ensures
            next@ == resume(self@),
    {
        match self.phase {
            Phase::Probing(resolver, task) => {
                let backend = resolver.candidate();
                Step::Continue(
                    Session { phase: Phase::Probing(resolver, task) },
                    Action::Open(backend),
                )
            },
            Phase::Reading(handle) => Session::read(handle),
            Phase::Writing(handle, data, keep) => Session::write(handle, data, keep),
            Phase::Mirroring(handle, data, keep) => Session::mirror(handle, data, keep),
            Phase::Holding(handle, duration) => Session::sleep(handle, duration),
            Phase::Pausing(handle, data) => Session::pause(handle, data),
            Phase::Checking(handle, data) => Session::check(handle, data),
            Phase::Wiping(handle) => Session::wipe(handle),
        }
    }

    /// Starts a session for `task` in `environment`. The first step names
    /// the first candidate backend to open.
    pub fn start(task: Task, environment: Environment) -> (first: Step)
        ensures
            first@ == start(task@, environment),
    {
        Session::probe(Resolver::begin(environment), task)
    }

    /// Takes the event that came of the action that was due.
    pub fn step(self, event: Event) -> (next: Step)
        ensures
            next@ == step(self@, event@),
    {
        match self.phase {
            Phase::Probing(resolver, task) => match event {
                Event::Attempted(outcome) => Session::probe(resolver.advance(outcome), task),
                _ => Session { phase: Phase::Probing(resolver, task) }.resume(),
            },
            Phase::Reading(handle) => match event {
                Event::Read(reply) => Step::Finished(Outcome::of_text(handle.get_contents(reply))),
                _ => Session::read(handle),
            },
            Phase::Writing(handle, data, keep) => match event {
                Event::Written(reply) => Session::written(handle, data, keep, reply),
                _ => Session::write(handle, data, keep),
            },
            Phase::Mirroring(handle, data, keep) => match event {
                Event::Written(_) => Session::hold(handle, data, keep),
                _ => Session::mirror(handle, data, keep),
            },
            Phase::Holding(handle, duration) => match event {
                Event::Woke => Session::expire(handle),
                _ => Session::sleep(handle, duration),
            },
            Phase::Pausing(handle, data) => match event {
                Event::Woke => Session::check(handle, data),
                _ => Session::pause(handle, data),
            },
            Phase::Checking(handle, data) => match event {
                Event::Read(reply) => Session::checked(handle, data, reply),
                _ => Session::check(handle, data),
            },
            Phase::Wiping(handle) => match event {
                Event::Cleared(reply) => Step::Finished(Outcome::of_done(handle.clear(reply))),
                _ => Session::wipe(handle),
            },
        }
    }
}

/// Where the session that begins with `first` stands after `events`, one
/// after the other. Events that come after the end change nothing.
pub open spec fn run(first: StepView, events: Seq<EventView>) -> StepView
    decreases events.len(),
{
    if events.len() == 0 {
        first
    } else {
        match first {
            StepView::Continue(session, _) => run(step(session, events[0]), events.drop_first()),
            StepView::Finished(_) => first,
        }
    }
}

/// The events that report `outcomes`, one attempt each.
pub open spec fn attempts(outcomes: Seq<OutcomeView>) -> Seq<EventView> {
    outcomes.map_values(|outcome: OutcomeView| EventView::Attempted(outcome))
}

/// `k` candidates fail to open and the next one opens.
pub open spec fn opens_at(outcomes: Seq<OutcomeView>, k: int) -> bool {
    &&& outcomes.len() == k + 1
    &&& forall|i: int| 0 <= i < k ==> (#[trigger] outcomes[i]) is Failed
    &&& outcomes[k] is Opened
}

proof fn lemma_run_probing(
    resolver: ResolverView,
    task: TaskView,
    outcomes: Seq<OutcomeView>,
    k: int,
    rest: Seq<EventView>,
)
    requires
        0 <= k < resolver.remaining.len(),
        opens_at(outcomes, k),
    ensures
        run(
            StepView::Continue(
                SessionView::Probing(resolver, task),
                ActionView::Open(resolver.remaining[0]),
            ),
            attempts(outcomes) + rest,
        ) == run(probe(ResolutionView::Resolved(resolver.remaining[k]), task), rest),
    decreases k,
{
    let events = attempts(outcomes) + rest;
    let later = outcomes.drop_first();
    assert(events[0] == EventView::Attempted(outcomes[0]));
    assert(events.drop_first() =~= attempts(later) + rest);
    if k == 0 {
        assert(attempts(later) + rest =~= rest);
    } else {
        let next = ResolverView {
            remaining: resolver.remaining.drop_first(),
            failures: resolver.failures.push(
                crate::error::FailureView {
                    backend: resolver.remaining[0],
                    reason: outcomes[0]->Failed_0,
                },
            ),
        };
        assert(resolver.advance(outcomes[0]) == ResolutionView::Pending(next));
        assert(opens_at(later, k - 1)) by {
            assert forall|i: int| 0 <= i < k - 1 implies (#[trigger] later[i]) is Failed by {
                assert(later[i] == outcomes[i + 1]);
            }
        }
        lemma_run_probing(next, task, later, k - 1, rest);
    }
}

proof fn lemma_run_from_start(
    task: TaskView,
    environment: Environment,
    outcomes: Seq<OutcomeView>,
    k: int,
    rest: Seq<EventView>,
)
    requires
        0 <= k < crate::resolver::candidates(environment).len(),
        opens_at(outcomes, k),
    ensures
        run(start(task, environment), attempts(outcomes) + rest) == run(
            probe(ResolutionView::Resolved(crate::resolver::candidates(environment)[k]), task),
            rest,
        ),
{
    let resolver = ResolverView {
        remaining: crate::resolver::candidates(environment),
        failures: Seq::empty(),
    };
    lemma_run_probing(resolver, task, outcomes, k, rest);
}

/// A read session returns what the chosen backend holds. The backend is
/// the first candidate of the environment that opens; the outcome is that
/// backend's reading of the platform's answer, and nothing else bears on it.
pub proof fn lemma_get_session(
    environment: Environment,
    outcomes: Seq<OutcomeView>,
    k: int,
    reply: Result<Seq<char>, FaultView>,
)
    requires
        0 <= k < crate::resolver::candidates(environment).len(),
        opens_at(outcomes, k),
    ensures
        run(start(TaskView::Get, environment), attempts(outcomes).push(EventView::Read(reply)))
            == StepView::Finished(
            text_outcome(read_result(crate::resolver::candidates(environment)[k], reply)),
        ),
{
    let rest = seq![EventView::Read(reply)];
    lemma_run_from_start(TaskView::Get, environment, outcomes, k, rest);
    assert(attempts(outcomes).push(EventView::Read(reply)) =~= attempts(outcomes) + rest);
    let backend = crate::resolver::candidates(environment)[k];
    assert(rest.drop_first() =~= Seq::<EventView>::empty());
    let begun = read(backend);
    match begun {
        StepView::Continue(session, _) => {
            assert(run(step(session, rest[0]), rest.drop_first()) == step(session, rest[0]));
        },
        StepView::Finished(_) => {},
    }
}

/// A write session succeeds exactly when the chosen backend's write does.
/// The second selection is offered the text after a successful write, and
/// what becomes of that offer (`courtesy`) does not bear on the outcome.
pub proof fn lemma_set_session(
    environment: Environment,
    data: Seq<char>,
    outcomes: Seq<OutcomeView>,
    k: int,
    reply: Result<(), FaultView>,
    courtesy: Result<(), FaultView>,
)
    requires
        0 <= k < crate::resolver::candidates(environment).len(),
        opens_at(outcomes, k),
    ensures
        run(
            start(TaskView::Put(data, Keep::Release), environment),
            attempts(outcomes).push(EventView::Written(reply)).push(EventView::Written(courtesy)),
        ) == StepView::Finished(
            done_outcome(done_result(crate::resolver::candidates(environment)[k], reply)),
        ),
{
    let task = TaskView::Put(data, Keep::Release);
    let rest = seq![EventView::Written(reply), EventView::Written(courtesy)];
    lemma_run_from_start(task, environment, outcomes, k, rest);
    assert(attempts(outcomes).push(EventView::Written(reply)).push(EventView::Written(courtesy))
        =~= attempts(outcomes) + rest);
    let backend = crate::resolver::candidates(environment)[k];
    let last = seq![EventView::Written(courtesy)];
    assert(rest.drop_first() =~= last);
    assert(last.drop_first() =~= Seq::<EventView>::empty());
    let begun = write(backend, data, Keep::Release);
    match begun {
        StepView::Continue(session, _) => {
            let second = step(session, rest[0]);
            assert(run(begun, rest) == run(second, last));
            match second {
                StepView::Continue(mirroring, _) => {
                    assert(run(second, last) == run(step(mirroring, last[0]), last.drop_first()));
                },
                StepView::Finished(_) => {},
            }
        },
        StepView::Finished(_) => {},
    }
}

/// Round trip, from session to session. In any environment, a write
/// session that the platform accepts ends well, and a read session that
/// directly follows it, on a platform that keeps what it is given
/// ([`echo`]), returns the text that was written. The no-op backend is the
/// one exception: it gives back the empty text alone.
pub proof fn lemma_session_round_trip(
    environment: Environment,
    data: Seq<char>,
    outcomes: Seq<OutcomeView>,
    k: int,
    courtesy: Result<(), FaultView>,
)
    requires
        0 <= k < crate::resolver::candidates(environment).len(),
        opens_at(outcomes, k),
        crate::resolver::candidates(environment)[k] != Backend::Nop || data.len() == 0,
    ensures
        run(
            start(TaskView::Put(data, Keep::Release), environment),
            attempts(outcomes).push(EventView::Written(Ok(()))).push(EventView::Written(courtesy)),
        ) == StepView::Finished(OutcomeOfSession::Done),
        run(
            start(TaskView::Get, environment),
            attempts(outcomes).push(
                EventView::Read(echo(crate::resolver::candidates(environment)[k], data)),
            ),
        ) == StepView::Finished(OutcomeOfSession::Text(data)),
{
    let backend = crate::resolver::candidates(environment)[k];
    lemma_set_session(environment, data, outcomes, k, Ok(()), courtesy);
    lemma_round_trip(backend, data);
    lemma_get_session(environment, outcomes, k, echo(backend, data));
}

/// Whether `session` is past the point where it could write: it holds,
/// waits, looks or wipes.
pub open spec fn past_writing(session: SessionView) -> bool {
    session is Holding || session is Pausing || session is Checking || session is Wiping
}

/// Whether `action` puts text on a clipboard.
pub open spec fn writes(action: ActionView) -> bool {
    match action {
        ActionView::Perform(RequestView::Write(_, _)) => true,
        ActionView::Perform(RequestView::ShellWrite(_)) => true,
        ActionView::Mirror(_) => true,
        _ => false,
    }
}

/// A daemon writes once. After its write it only sleeps, reads and, where
/// the platform keeps the text, clears: whatever happens, and whoever else
/// writes to the clipboard, it never puts its text back.
pub proof fn lemma_daemon_writes_once(session: SessionView, event: EventView)
    requires
        past_writing(session),
    ensures
        step(session, event) matches StepView::Continue(next, action) ==> past_writing(next)
            && !writes(action),
{
}

/// A daemon that watches ends well as soon as a look finds a text that is
/// not its own, without touching the clipboard again. While it finds its
/// own text it stays for another interval.
pub proof fn lemma_watch(
    backend: Backend,
    data: Seq<char>,
    reply: Result<Seq<char>, FaultView>,
    found: Seq<char>,
)
    requires
        read_result(backend, reply) == Ok::<Seq<char>, ErrorView>(found),
    ensures
        found != data ==> step(SessionView::Checking(backend, data), EventView::Read(reply))
            == StepView::Finished(OutcomeOfSession::Done),
        found == data ==> step(SessionView::Checking(backend, data), EventView::Read(reply))
            == StepView::Continue(
            SessionView::Pausing(backend, data),
            ActionView::Pause(POLL_INTERVAL_SECS),
        ),
{
}

} // verus!
