//! One open backend, seen from the library's side.
//!
//! A [`ClipboardHandle`] stands for a clipboard session that the caller has
//! opened. For each operation it says what has to be asked of the platform
//! (a [`Request`]) and what the platform's answer means for the caller. The
//! backends differ in both: the no-op backend asks nothing, and the shell
//! bridge runs a subprocess and strips the line terminator from its output.
use crate::bridge::{
    clear_command, clear_script, decode_output, decoded, invocation, lemma_decoded_line,
    lemma_strip_undoes_crlf, read_command, read_script, strip_terminator, stripped,
    write_command, write_script, ShellCommand, ShellCommandView,
};
use crate::error::{Backend, BackendFailure, ClipboardError, ErrorView, FailureView, IoStage};
use vstd::prelude::*;
use vstd::utf8::encode_utf8;

verus! {

/// How an attempt to open a backend ended.
#[derive(Debug, Clone, PartialEq, Eq)]
pub enum AttemptOutcome {
    /// The backend is open.
    Opened,
    /// The backend cannot be reached, for the given reason.
    Failed(String),
}

/// The mathematical value of an [`AttemptOutcome`].
pub ghost enum OutcomeView {
    Opened,
    Failed(Seq<char>),
}

impl View for AttemptOutcome {
    type V = OutcomeView;

    open spec fn view(&self) -> OutcomeView {
        match self {
            AttemptOutcome::Opened => OutcomeView::Opened,
            AttemptOutcome::Failed(reason) => OutcomeView::Failed(reason@),
        }
    }
}

/// What a backend reported in place of a result.
#[derive(Debug, Clone, PartialEq, Eq)]
pub enum Fault {
    /// The bridge executable could not be started.
    Spawn(String),
    /// The data could not be moved to or from the backend.
    Transfer(String),
    /// The clipboard holds nothing that is valid any more, or nothing at
    /// all on a platform that can tell this from the empty string.
    SelectionLost,
}

/// The mathematical value of a [`Fault`].
pub ghost enum FaultView {
    Spawn(Seq<char>),
    Transfer(Seq<char>),
    SelectionLost,
}

impl FaultView {
    /// The error that a caller sees for this fault.
    pub open spec fn error(self) -> ErrorView {
        match self {
            FaultView::Spawn(reason) => ErrorView::IoFailure(IoStage::Spawn, reason),
            FaultView::Transfer(reason) => ErrorView::IoFailure(IoStage::Transfer, reason),
            FaultView::SelectionLost => ErrorView::SelectionLost,
        }
    }
}

impl View for Fault {
    type V = FaultView;

    open spec fn view(&self) -> FaultView {
        match self {
            Fault::Spawn(reason) => FaultView::Spawn(reason@),
            Fault::Transfer(reason) => FaultView::Transfer(reason@),
            Fault::SelectionLost => FaultView::SelectionLost,
        }
    }
}

impl Fault {
    /// The error that a caller sees for this fault.
    pub fn into_error(self) -> (error: ClipboardError)
        ensures
            error@ == self@.error(),
    {
        match self {
            Fault::Spawn(reason) => ClipboardError::IoFailure(IoStage::Spawn, reason),
            Fault::Transfer(reason) => ClipboardError::IoFailure(IoStage::Transfer, reason),
            Fault::SelectionLost => ClipboardError::SelectionLost,
        }
    }
}

/// What a read brought back.
#[derive(Debug, Clone, PartialEq, Eq)]
pub enum Payload {
    /// Text, as a platform API returns it.
    Text(String),
    /// The bytes that a bridge subprocess wrote to its standard output.
    Output(Vec<u8>),
}

impl View for Payload {
    type V = Seq<char>;

    /// The text that the payload carries.
    open spec fn view(&self) -> Seq<char> {
        match self {
            Payload::Text(text) => text@,
            Payload::Output(bytes) => decoded(bytes@),
        }
    }
}

impl Payload {
    /// The text that the payload carries; bytes are decoded as UTF-8, lossily.
    pub fn into_text(self) -> (text: String)
        ensures
            text@ == self@,
    {
        match self {
            Payload::Text(text) => text,
            Payload::Output(bytes) => decode_output(bytes.as_slice()),
        }
    }
}

/// What the caller is asked to do on the platform.
#[derive(Debug, Clone, PartialEq, Eq)]
pub enum Request {
    /// Read the text from the named backend.
    Read(Backend),
    /// Replace the text of the named backend.
    Write(Backend, String),
    /// Empty the named backend.
    Clear(Backend),
    /// Run the command and hand back its standard output.
    ShellRead(ShellCommand),
    /// Run the command, which takes the text from its standard input.
    ShellWrite(ShellCommand),
    /// Run the command, which empties the clipboard.
    ShellClear(ShellCommand),
}

/// The mathematical value of a [`Request`].
pub ghost enum RequestView {
    Read(Backend),
    Write(Backend, Seq<char>),
    Clear(Backend),
    ShellRead(ShellCommandView),
    ShellWrite(ShellCommandView),
    ShellClear(ShellCommandView),
}

impl View for Request {
    type V = RequestView;

    open spec fn view(&self) -> RequestView {
        match self {
            Request::Read(backend) => RequestView::Read(*backend),
            Request::Write(backend, data) => RequestView::Write(*backend, data@),
            Request::Clear(backend) => RequestView::Clear(*backend),
            Request::ShellRead(command) => RequestView::ShellRead(command@),
            Request::ShellWrite(command) => RequestView::ShellWrite(command@),
            Request::ShellClear(command) => RequestView::ShellClear(command@),
        }
    }
}

/// The view of a request that may be absent.
pub open spec fn request_view(request: Option<Request>) -> Option<RequestView> {
    match request {
        Some(r) => Some(r@),
        None => None,
    }
}

/// The view of the answer to a read.
pub open spec fn read_reply_view(reply: Result<Payload, Fault>) -> Result<Seq<char>, FaultView> {
    match reply {
        Ok(payload) => Ok(payload@),
        Err(fault) => Err(fault@),
    }
}

/// The view of the answer to a write or a clear.
pub open spec fn done_reply_view(reply: Result<(), Fault>) -> Result<(), FaultView> {
    match reply {
        Ok(_) => Ok(()),
        Err(fault) => Err(fault@),
    }
}

/// The view of what a read returns to the caller.
pub open spec fn text_result_view(result: Result<String, ClipboardError>) -> Result<
    Seq<char>,
    ErrorView,
> {
    match result {
        Ok(text) => Ok(text@),
        Err(error) => Err(error@),
    }
}

/// The view of what a write or a clear returns to the caller.
pub open spec fn done_result_view(result: Result<(), ClipboardError>) -> Result<(), ErrorView> {
    match result {
        Ok(_) => Ok(()),
        Err(error) => Err(error@),
    }
}

/// What a read on `backend` asks of the platform.
pub open spec fn read_request(backend: Backend) -> Option<RequestView> {
    match backend {
        Backend::Nop => None,
        Backend::ShellBridge => Some(
            RequestView::ShellRead(invocation(read_script(), Seq::<u8>::empty())),
        ),
        _ => Some(RequestView::Read(backend)),
    }
}

/// What a write of `data` on `backend` asks of the platform.
pub open spec fn write_request(backend: Backend, data: Seq<char>) -> Option<RequestView> {
    match backend {
        Backend::Nop => None,
        Backend::ShellBridge => Some(
            RequestView::ShellWrite(invocation(write_script(), encode_utf8(data))),
        ),
        _ => Some(RequestView::Write(backend, data)),
    }
}

/// What a clear on `backend` asks of the platform.
pub open spec fn clear_request(backend: Backend) -> Option<RequestView> {
    match backend {
        Backend::Nop => None,
        Backend::ShellBridge => Some(
            RequestView::ShellClear(invocation(clear_script(), Seq::<u8>::empty())),
        ),
        _ => Some(RequestView::Clear(backend)),
    }
}

/// The second selection that a write on `backend` should also reach, if any.
pub open spec fn mirror_of(backend: Backend) -> Option<Backend> {
    match backend {
        Backend::X11Clipboard => Some(Backend::X11Primary),
        _ => None,
    }
}

/// What a read on `backend` returns when the platform answered `reply`.
pub open spec fn read_result(backend: Backend, reply: Result<Seq<char>, FaultView>) -> Result<
    Seq<char>,
    ErrorView,
> {
    match backend {
        Backend::Nop => Ok(Seq::<char>::empty()),
        Backend::ShellBridge => match reply {
            Ok(text) => Ok(stripped(text)),
            Err(fault) => Err(fault.error()),
        },
        _ => match reply {
            Ok(text) => Ok(text),
            Err(fault) => Err(fault.error()),
        },
    }
}

/// What a write or a clear on `backend` returns when the platform answered
/// `reply`.
pub open spec fn done_result(backend: Backend, reply: Result<(), FaultView>) -> Result<
    (),
    ErrorView,
> {
    match backend {
        Backend::Nop => Ok(()),
        _ => match reply {
            Ok(_) => Ok(()),
            Err(fault) => Err(fault.error()),
        },
    }
}

/// One open clipboard session on one backend.
///
/// The value is a token: whoever holds it has opened the backend, and the
/// operating-system resource behind it is the holder's to release.
#[derive(Debug, PartialEq, Eq)]
pub struct ClipboardHandle {
    backend: Backend,
}

impl View for ClipboardHandle {
    type V = Backend;

    /// The backend that the handle is open on.
    closed spec fn view(&self) -> Backend {
        self.backend
    }
}

impl ClipboardHandle {
    /// Makes the handle for `backend` from the outcome of opening it. A
    /// failed attempt gives `BackendUnavailable`, with the backend and the
    /// reason; the resolver answers that error with its next candidate.
    pub fn new(backend: Backend, outcome: AttemptOutcome) -> (result: Result<
        ClipboardHandle,
        ClipboardError,
    >)
        ensures
            outcome is Opened ==> result is Ok && result->Ok_0@ == backend,
            outcome matches AttemptOutcome::Failed(reason) ==> result is Err && result->Err_0@
                == ErrorView::BackendUnavailable(FailureView { backend, reason: reason@ }),
    {
        match outcome {
            AttemptOutcome::Opened => Ok(ClipboardHandle::opened(backend)),
            AttemptOutcome::Failed(reason) => Err(
                ClipboardError::BackendUnavailable(BackendFailure { backend, reason }),
            ),
        }
    }

    /// The handle for a backend that is known to be open.
    pub(crate) fn opened(backend: Backend) -> (handle: ClipboardHandle)
        ensures
            handle@ == backend,
    {
        ClipboardHandle { backend }
    }

    /// The backend that the handle is open on.
    pub fn backend(&self) -> (backend: Backend)
        ensures
            backend == self@,
    {
        self.backend
    }

    /// The second selection that a write should also reach, as far as it
    /// can be reached: the primary selection beside the X11 clipboard. A
    /// write there is a courtesy, and its failure is nobody's error.
    pub fn mirror(&self) -> (target: Option<Backend>)
        ensures
            target == mirror_of(self@),
    {
        match self.backend {
            Backend::X11Clipboard => Some(Backend::X11Primary),
            _ => None,
        }
    }

    /// What to ask of the platform in order to read. `None` on the no-op
    /// backend, which is never asked anything.
    pub fn read_request(&self) -> (request: Option<Request>)
        ensures
            request_view(request) == read_request(self@),
    {
        match self.backend {
            Backend::Nop => None,
            Backend::ShellBridge => Some(Request::ShellRead(read_command())),
            backend => Some(Request::Read(backend)),
        }
    }

    /// What to ask of the platform in order to replace the text by `data`.
    pub fn write_request(&self, data: String) -> (request: Option<Request>)
        ensures
            request_view(request) == write_request(self@, data@),
    {
        match self.backend {
            Backend::Nop => None,
            Backend::ShellBridge => Some(Request::ShellWrite(write_command(data.as_str()))),
            backend => Some(Request::Write(backend, data)),
        }
    }

    /// What to ask of the platform in order to empty the clipboard.
    pub fn clear_request(&self) -> (request: Option<Request>)
        ensures
            request_view(request) == clear_request(self@),
    {
        match self.backend {
            Backend::Nop => None,
            Backend::ShellBridge => Some(Request::ShellClear(clear_command())),
            backend => Some(Request::Clear(backend)),
        }
    }

    /// The current clipboard text, from the platform's answer to
    /// [`read_request`](Self::read_request).
    ///
    /// The no-op backend always holds the empty string. The shell bridge
    /// loses the one line terminator that the shell added. A fault becomes
    /// the error that stands for it.
    pub fn get_contents(&self, reply: Result<Payload, Fault>) -> (result: Result<
        String,
        ClipboardError,
    >)
        ensures
            text_result_view(result) == read_result(self@, read_reply_view(reply)),
    {
        match self.backend {
            Backend::Nop => Ok(String::new()),
            Backend::ShellBridge => match reply {
                Ok(payload) => {
                    let text = payload.into_text();
                    Ok(strip_terminator(text.as_str()))
                },
                Err(fault) => Err(fault.into_error()),
            },
            _ => match reply {
                Ok(payload) => Ok(payload.into_text()),
                Err(fault) => Err(fault.into_error()),
            },
        }
    }

    /// The result of a write, from the platform's answer to
    /// [`write_request`](Self::write_request). On the no-op backend every
    /// write succeeds, and the data is gone.
    pub fn set_contents(&self, reply: Result<(), Fault>) -> (result: Result<(), ClipboardError>)
        ensures
            done_result_view(result) == done_result(self@, done_reply_view(reply)),
    {
        match self.backend {
            Backend::Nop => Ok(()),
            _ => match reply {
                Ok(_) => Ok(()),
                Err(fault) => Err(fault.into_error()),
            },
        }
    }

    /// The result of a clear, from the platform's answer to
    /// [`clear_request`](Self::clear_request). What a later read returns is
    /// the platform's affair: some give the empty string, some a
    /// `SelectionLost`.
    pub fn clear(&self, reply: Result<(), Fault>) -> (result: Result<(), ClipboardError>)
        ensures
            done_result_view(result) == done_result(self@, done_reply_view(reply)),
    {
        self.set_contents(reply)
    }
}

/// What a platform that keeps what it is given answers to a read that
/// directly follows a write of `data` on `backend`. A platform API hands
/// the text back as it is. The host shell prints the bytes it was fed and
/// ends the line with CR LF. Where nothing was asked of the platform,
/// nothing is there.
pub open spec fn echo(backend: Backend, data: Seq<char>) -> Result<Seq<char>, FaultView> {
    match write_request(backend, data) {
        Some(RequestView::Write(_, kept)) => Ok(kept),
        Some(RequestView::ShellWrite(command)) => Ok(
            decoded(command.stdin + seq![0x0du8, 0x0au8]),
        ),
        _ => Err(FaultView::SelectionLost),
    }
}

/// Round trip. Whatever text is written is the text that the next read
/// returns, the empty text and texts that end in line terminators
/// included, as long as the platform keeps what it is given. This holds on
/// every backend but the no-op one, which gives back the empty text alone.
pub proof fn lemma_round_trip(backend: Backend, data: Seq<char>)
    requires
        backend != Backend::Nop || data.len() == 0,
    ensures
        done_result(backend, Ok(())) == Ok::<(), ErrorView>(()),
        read_result(backend, echo(backend, data)) == Ok::<Seq<char>, ErrorView>(data),
{
    if backend == Backend::ShellBridge {
        lemma_decoded_line(data);
        lemma_strip_undoes_crlf(data);
    }
    if backend == Backend::Nop {
        assert(data =~= Seq::<char>::empty());
    }
}

} // verus!
