//! The backend set and the errors the library reports.
use vstd::prelude::*;

verus! {

/// One member of the closed set of clipboard backends.
#[derive(Debug, Clone, Copy, PartialEq, Eq, Structural)]
pub enum Backend {
    /// The Wayland data-control protocol.
    Wayland,
    /// The X11 `CLIPBOARD` selection.
    X11Clipboard,
    /// The X11 `PRIMARY` selection.
    X11Primary,
    /// The Win32 clipboard.
    Windows,
    /// The Cocoa general pasteboard.
    MacOs,
    /// The host scripting shell, reached as a subprocess from inside WSL.
    ShellBridge,
    /// No clipboard at all: reads give the empty string, writes are dropped.
    Nop,
}

/// Whether the text on `backend` lives only as long as the process that put
/// it there. That is so on Wayland and X11, where a selection is a promise
/// of its owner to answer requests. The other platforms store the text
/// themselves, and the no-op backend stores nothing.
pub open spec fn bound_to_owner(backend: Backend) -> bool {
    backend == Backend::Wayland || backend == Backend::X11Clipboard || backend
        == Backend::X11Primary
}

impl Backend {
    /// Whether the text on this backend is gone when the process that wrote
    /// it exits.
    pub fn is_bound_to_owner(self) -> (bound: bool)
        ensures
            bound == bound_to_owner(self),
    {
        match self {
            Backend::Wayland | Backend::X11Clipboard | Backend::X11Primary => true,
            _ => false,
        }
    }
}

/// Where on the way to a backend an I/O failure happened.
#[derive(Debug, Clone, Copy, PartialEq, Eq, Structural)]
pub enum IoStage {
    /// The bridge executable could not be started.
    Spawn,
    /// The data could not be moved to or from the backend.
    Transfer,
}

/// A backend that could not be opened, with the reason it gave.
#[derive(Debug, Clone, PartialEq, Eq)]
pub struct BackendFailure {
    pub backend: Backend,
    pub reason: String,
}

/// The mathematical value of a [`BackendFailure`].
pub ghost struct FailureView {
    pub backend: Backend,
    pub reason: Seq<char>,
}

impl View for BackendFailure {
    type V = FailureView;

    open spec fn view(&self) -> FailureView {
        FailureView { backend: self.backend, reason: self.reason@ }
    }
}

/// The views of a list of failures, in the same order.
pub open spec fn failure_views(failures: Seq<BackendFailure>) -> Seq<FailureView> {
    failures.map_values(|f: BackendFailure| f@)
}

/// Everything that can go wrong.
#[derive(Debug, Clone, PartialEq, Eq)]
pub enum ClipboardError {
    /// One backend failed to open. The resolver answers this with the next
    /// candidate; it reaches a caller only from [`crate::ClipboardHandle::new`].
    BackendUnavailable(BackendFailure),
    /// Every candidate failed to open; the failures are listed in the order
    /// of the attempts.
    AllBackendsExhausted(Vec<BackendFailure>),
    /// The bridge subprocess could not be started, or data could not be moved.
    IoFailure(IoStage, String),
    /// No daemon process could be forked.
    ForkFailure(String),
    /// The platform reports that the clipboard holds nothing valid any more.
    SelectionLost,
}

/// The mathematical value of a [`ClipboardError`].
pub ghost enum ErrorView {
    BackendUnavailable(FailureView),
    AllBackendsExhausted(Seq<FailureView>),
    IoFailure(IoStage, Seq<char>),
    ForkFailure(Seq<char>),
    SelectionLost,
}

impl View for ClipboardError {
    type V = ErrorView;

    open spec fn view(&self) -> ErrorView {
        match self {
            ClipboardError::BackendUnavailable(f) => ErrorView::BackendUnavailable(f@),
            ClipboardError::AllBackendsExhausted(fs) => ErrorView::AllBackendsExhausted(
                failure_views(fs@),
            ),
            ClipboardError::IoFailure(stage, reason) => ErrorView::IoFailure(*stage, reason@),
            ClipboardError::ForkFailure(reason) => ErrorView::ForkFailure(reason@),
            ClipboardError::SelectionLost => ErrorView::SelectionLost,
        }
    }
}

/// Exit status of a command-line program that succeeded.
pub const EXIT_SUCCESS: i32 = 0;

/// Exit status of a command-line program that failed for any reason but the
/// one below.
pub const EXIT_FAILURE: i32 = 1;

/// Exit status kept for one failure alone: the bridge executable could not
/// be started. It is the conventional status for a missing system file.
pub const EXIT_BRIDGE_MISSING: i32 = 72;

impl ErrorView {
    /// The exit status that stands for this error.
    pub open spec fn exit_code(self) -> i32 {
        match self {
            ErrorView::IoFailure(IoStage::Spawn, _) => EXIT_BRIDGE_MISSING,
            _ => EXIT_FAILURE,
        }
    }
}

impl ClipboardError {
    /// The exit status with which a command-line program reports this error.
    pub fn exit_code(&self) -> (code: i32)
        ensures
            code == self@.exit_code(),
            code != EXIT_SUCCESS,
    {
        match self {
            ClipboardError::IoFailure(IoStage::Spawn, _) => EXIT_BRIDGE_MISSING,
            _ => EXIT_FAILURE,
        }
    }
}

/// The name under which a backend appears in messages.
pub open spec fn backend_name(backend: Backend) -> Seq<char> {
    match backend {
        Backend::Wayland => "wayland"@,
        Backend::X11Clipboard => "x11 clipboard"@,
        Backend::X11Primary => "x11 primary"@,
        Backend::Windows => "windows"@,
        Backend::MacOs => "macos"@,
        Backend::ShellBridge => "shell bridge"@,
        Backend::Nop => "none"@,
    }
}

impl Backend {
    /// The name under which the backend appears in messages.
    pub fn name(self) -> (name: &'static str)
        ensures
            name@ == backend_name(self),
    {
        match self {
            Backend::Wayland => "wayland",
            Backend::X11Clipboard => "x11 clipboard",
            Backend::X11Primary => "x11 primary",
            Backend::Windows => "windows",
            Backend::MacOs => "macos",
            Backend::ShellBridge => "shell bridge",
            Backend::Nop => "none",
        }
    }
}

impl FailureView {
    /// The failure in words: the backend, a colon, the reason.
    pub open spec fn message(self) -> Seq<char> {
        backend_name(self.backend) + ": "@ + self.reason
    }
}

/// The first `count` of `failures` in words, each after the other, with a
/// semicolon between two.
pub open spec fn listed(failures: Seq<FailureView>, count: nat) -> Seq<char>
    decreases count,
{
    if count == 0 {
        Seq::empty()
    } else if count == 1 {
        failures[0].message()
    } else {
        listed(failures, (count - 1) as nat) + "; "@ + failures[count - 1].message()
    }
}

impl ErrorView {
    /// The error in words. An exhausted resolution names every backend
    /// that was tried, each with its own reason.
    pub open spec fn message(self) -> Seq<char> {
        match self {
            ErrorView::BackendUnavailable(failure) => "clipboard backend unavailable: "@
                + failure.message(),
            ErrorView::AllBackendsExhausted(failures) => "no clipboard backend available: "@
                + listed(failures, failures.len()),
            ErrorView::IoFailure(IoStage::Spawn, reason) => "cannot start the clipboard bridge: "@
                + reason,
            ErrorView::IoFailure(IoStage::Transfer, reason) => "clipboard transfer failed: "@
                + reason,
            ErrorView::ForkFailure(reason) => "cannot fork the clipboard daemon: "@ + reason,
            ErrorView::SelectionLost => "the clipboard holds no valid text"@,
        }
    }
}

impl BackendFailure {
    /// The failure in words: the backend, a colon, the reason.
    pub fn message(&self) -> (text: String)
        ensures
            text@ == self@.message(),
    {
        let mut text = self.backend.name().to_owned();
        text.append(": ");
        text.append(self.reason.as_str());
        text
    }
}

impl ClipboardError {
    /// The error in words, for a person to read.
    pub fn message(&self) -> (text: String)
        ensures
            text@ == self@.message(),
    {
        match self {
            ClipboardError::BackendUnavailable(failure) => {
                let mut text = "clipboard backend unavailable: ".to_owned();
                text.append(failure.message().as_str());
                text
            },
            ClipboardError::AllBackendsExhausted(failures) => {
                let mut text = "no clipboard backend available: ".to_owned();
                let ghost views = failure_views(failures@);
                let mut i: usize = 0;
                while i < failures.len()
                    invariant
                        i <= failures.len(),
                        views == failure_views(failures@),
                        text@ == "no clipboard backend available: "@ + listed(views, i as nat),
                    decreases failures.len() - i,
                {
                    assert(views[i as int] == failures@[i as int]@);
                    if i > 0 {
                        text.append("; ");
                    }
                    text.append(failures[i].message().as_str());
                    i += 1;
                    assert(text@ =~= "no clipboard backend available: "@ + listed(views, i as nat));
                }
                text
            },
            ClipboardError::IoFailure(IoStage::Spawn, reason) => {
                let mut text = "cannot start the clipboard bridge: ".to_owned();
                text.append(reason.as_str());
                text
            },
            ClipboardError::IoFailure(IoStage::Transfer, reason) => {
                let mut text = "clipboard transfer failed: ".to_owned();
                text.append(reason.as_str());
                text
            },
            ClipboardError::ForkFailure(reason) => {
                let mut text = "cannot fork the clipboard daemon: ".to_owned();
                text.append(reason.as_str());
                text
            },
            ClipboardError::SelectionLost => "the clipboard holds no valid text".to_owned(),
        }
    }
}

} // verus!
