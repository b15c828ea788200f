use cli_clipboard::error::{EXIT_BRIDGE_MISSING, EXIT_FAILURE, EXIT_SUCCESS};
use cli_clipboard::{
    AttemptOutcome, Backend, BackendFailure, ClipboardError, ClipboardHandle, Fault, IoStage,
    Outcome, Payload,
};

fn failure(backend: Backend, reason: &str) -> BackendFailure {
    BackendFailure { backend, reason: reason.to_string() }
}

fn open(backend: Backend) -> ClipboardHandle {
    ClipboardHandle::new(backend, AttemptOutcome::Opened).unwrap()
}

#[test]
fn exit_codes_are_the_conventional_ones() {
    assert_eq!(EXIT_SUCCESS, 0);
    assert_eq!(EXIT_FAILURE, 1);
    assert_eq!(EXIT_BRIDGE_MISSING, 72);
}

#[test]
fn only_a_missing_bridge_has_its_own_exit_code() {
    let spawn = ClipboardError::IoFailure(IoStage::Spawn, "powershell.exe: not found".to_string());
    assert_eq!(spawn.exit_code(), 72);
    let others = [
        ClipboardError::IoFailure(IoStage::Transfer, "broken pipe".to_string()),
        ClipboardError::BackendUnavailable(failure(Backend::Wayland, "no compositor")),
        ClipboardError::AllBackendsExhausted(vec![failure(Backend::ShellBridge, "gone")]),
        ClipboardError::AllBackendsExhausted(Vec::new()),
        ClipboardError::ForkFailure("out of processes".to_string()),
        ClipboardError::SelectionLost,
    ];
    for error in others {
        assert_eq!(error.exit_code(), 1);
    }
}

#[test]
fn outcomes_exit_with_success_unless_they_failed() {
    assert_eq!(Outcome::Done.exit_code(), 0);
    assert_eq!(Outcome::Text("x".to_string()).exit_code(), 0);
    assert_eq!(Outcome::Failed(ClipboardError::SelectionLost).exit_code(), 1);
    let spawn = ClipboardError::IoFailure(IoStage::Spawn, "missing".to_string());
    assert_eq!(Outcome::Failed(spawn).exit_code(), 72);
}

#[test]
fn outcomes_turn_into_results() {
    assert_eq!(Outcome::Text("x".to_string()).into_text(), Ok("x".to_string()));
    assert_eq!(Outcome::Done.into_text(), Ok(String::new()));
    assert_eq!(
        Outcome::Failed(ClipboardError::SelectionLost).into_text(),
        Err(ClipboardError::SelectionLost)
    );
    assert_eq!(Outcome::Done.into_done(), Ok(()));
    assert_eq!(Outcome::Text("x".to_string()).into_done(), Ok(()));
    assert_eq!(
        Outcome::Failed(ClipboardError::ForkFailure("none".to_string())).into_done(),
        Err(ClipboardError::ForkFailure("none".to_string()))
    );
}

#[test]
fn faults_become_errors() {
    assert_eq!(
        Fault::Spawn("not found".to_string()).into_error(),
        ClipboardError::IoFailure(IoStage::Spawn, "not found".to_string())
    );
    assert_eq!(
        Fault::Transfer("broken pipe".to_string()).into_error(),
        ClipboardError::IoFailure(IoStage::Transfer, "broken pipe".to_string())
    );
    assert_eq!(Fault::SelectionLost.into_error(), ClipboardError::SelectionLost);
}

#[test]
fn a_failed_read_is_an_error_not_a_text() {
    let handle = open(Backend::ShellBridge);
    assert_eq!(
        handle.get_contents(Err(Fault::Spawn("powershell.exe: not found".to_string()))),
        Err(ClipboardError::IoFailure(IoStage::Spawn, "powershell.exe: not found".to_string()))
    );
    let handle = open(Backend::X11Clipboard);
    assert_eq!(handle.get_contents(Err(Fault::SelectionLost)), Err(ClipboardError::SelectionLost));
    let handle = open(Backend::Windows);
    assert_eq!(
        handle.get_contents(Err(Fault::Transfer("clipboard busy".to_string()))),
        Err(ClipboardError::IoFailure(IoStage::Transfer, "clipboard busy".to_string()))
    );
}

#[test]
fn a_failed_write_or_clear_is_an_error() {
    let handle = open(Backend::Wayland);
    assert_eq!(handle.set_contents(Ok(())), Ok(()));
    assert_eq!(
        handle.set_contents(Err(Fault::Transfer("pipe closed".to_string()))),
        Err(ClipboardError::IoFailure(IoStage::Transfer, "pipe closed".to_string()))
    );
    assert_eq!(handle.clear(Ok(())), Ok(()));
    assert_eq!(handle.clear(Err(Fault::SelectionLost)), Err(ClipboardError::SelectionLost));
}

#[test]
fn the_nop_backend_never_fails_and_never_keeps() {
    let handle = open(Backend::Nop);
    assert_eq!(handle.read_request(), None);
    assert_eq!(handle.write_request("some string".to_string()), None);
    assert_eq!(handle.clear_request(), None);
    assert_eq!(handle.get_contents(Ok(Payload::Text("some string".to_string()))), Ok(String::new()));
    assert_eq!(handle.get_contents(Err(Fault::SelectionLost)), Ok(String::new()));
    assert_eq!(handle.set_contents(Err(Fault::Transfer("x".to_string()))), Ok(()));
    assert_eq!(handle.clear(Err(Fault::SelectionLost)), Ok(()));
}

#[test]
fn backends_have_names() {
    assert_eq!(Backend::Wayland.name(), "wayland");
    assert_eq!(Backend::X11Clipboard.name(), "x11 clipboard");
    assert_eq!(Backend::X11Primary.name(), "x11 primary");
    assert_eq!(Backend::Windows.name(), "windows");
    assert_eq!(Backend::MacOs.name(), "macos");
    assert_eq!(Backend::ShellBridge.name(), "shell bridge");
    assert_eq!(Backend::Nop.name(), "none");
}

#[test]
fn only_wayland_and_x11_text_dies_with_its_owner() {
    assert!(Backend::Wayland.is_bound_to_owner());
    assert!(Backend::X11Clipboard.is_bound_to_owner());
    assert!(Backend::X11Primary.is_bound_to_owner());
    assert!(!Backend::Windows.is_bound_to_owner());
    assert!(!Backend::MacOs.is_bound_to_owner());
    assert!(!Backend::ShellBridge.is_bound_to_owner());
    assert!(!Backend::Nop.is_bound_to_owner());
}

#[test]
fn messages_name_what_went_wrong() {
    assert_eq!(failure(Backend::Wayland, "no compositor").message(), "wayland: no compositor");
    assert_eq!(
        ClipboardError::BackendUnavailable(failure(Backend::MacOs, "no pasteboard")).message(),
        "clipboard backend unavailable: macos: no pasteboard"
    );
    assert_eq!(
        ClipboardError::IoFailure(IoStage::Spawn, "No such file".to_string()).message(),
        "cannot start the clipboard bridge: No such file"
    );
    assert_eq!(
        ClipboardError::IoFailure(IoStage::Transfer, "broken pipe".to_string()).message(),
        "clipboard transfer failed: broken pipe"
    );
    assert_eq!(
        ClipboardError::ForkFailure("EAGAIN".to_string()).message(),
        "cannot fork the clipboard daemon: EAGAIN"
    );
    assert_eq!(ClipboardError::SelectionLost.message(), "the clipboard holds no valid text");
}

#[test]
fn the_message_of_an_exhausted_resolution_names_every_backend() {
    let error = ClipboardError::AllBackendsExhausted(vec![
        failure(Backend::Wayland, "no compositor"),
        failure(Backend::X11Clipboard, "cannot open display"),
        failure(Backend::X11Primary, "cannot open display"),
    ]);
    assert_eq!(
        error.message(),
        "no clipboard backend available: wayland: no compositor; x11 clipboard: cannot open display; x11 primary: cannot open display"
    );
    let one = ClipboardError::AllBackendsExhausted(vec![failure(Backend::ShellBridge, "gone")]);
    assert_eq!(one.message(), "no clipboard backend available: shell bridge: gone");
    let none = ClipboardError::AllBackendsExhausted(Vec::new());
    assert_eq!(none.message(), "no clipboard backend available: ");
}
