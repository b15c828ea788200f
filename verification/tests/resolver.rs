use cli_clipboard::resolver::candidate_list;
use cli_clipboard::{
    AttemptOutcome, Backend, BackendFailure, ClipboardError, ClipboardHandle, Environment, Os,
    Resolution, Resolver,
};

fn failed(reason: &str) -> AttemptOutcome {
    AttemptOutcome::Failed(reason.to_string())
}

fn failure(backend: Backend, reason: &str) -> BackendFailure {
    BackendFailure { backend, reason: reason.to_string() }
}

/// Runs a resolution against a list of backends that refuse to open and
/// records the order of the attempts.
fn resolve(
    environment: Environment,
    down: &[Backend],
) -> (Vec<Backend>, Result<ClipboardHandle, ClipboardError>) {
    let mut tried = Vec::new();
    let mut resolution = Resolver::begin(environment);
    loop {
        match resolution {
            Resolution::Pending(resolver) => {
                let backend = resolver.candidate();
                tried.push(backend);
                let outcome = if down.contains(&backend) {
                    failed(&format!("{} is down", backend.name()))
                } else {
                    AttemptOutcome::Opened
                };
                resolution = resolver.advance(outcome);
            }
            Resolution::Resolved(handle) => return (tried, Ok(handle)),
            Resolution::Exhausted(error) => return (tried, Err(error)),
        }
    }
}

#[test]
fn candidates_of_each_environment() {
    let linux = vec![Backend::Wayland, Backend::X11Clipboard, Backend::X11Primary];
    assert_eq!(candidate_list(Environment::Native(Os::Linux)), linux);
    assert_eq!(candidate_list(Environment::Wsl2), linux);
    assert_eq!(candidate_list(Environment::Wsl1), vec![Backend::ShellBridge]);
    assert_eq!(candidate_list(Environment::Native(Os::MacOs)), vec![Backend::MacOs]);
    assert_eq!(candidate_list(Environment::Native(Os::Windows)), vec![Backend::Windows]);
    assert_eq!(candidate_list(Environment::Native(Os::Other)), vec![Backend::Nop]);
}

#[test]
fn wayland_is_tried_first_and_alone_when_it_opens() {
    let (tried, result) = resolve(Environment::Native(Os::Linux), &[]);
    assert_eq!(tried, vec![Backend::Wayland]);
    assert_eq!(result.unwrap().backend(), Backend::Wayland);
}

#[test]
fn x11_clipboard_comes_before_x11_primary() {
    let (tried, result) = resolve(Environment::Native(Os::Linux), &[Backend::Wayland]);
    assert_eq!(tried, vec![Backend::Wayland, Backend::X11Clipboard]);
    assert_eq!(result.unwrap().backend(), Backend::X11Clipboard);
}

#[test]
fn x11_primary_is_the_last_resort() {
    let (tried, result) =
        resolve(Environment::Wsl2, &[Backend::Wayland, Backend::X11Clipboard]);
    assert_eq!(tried, vec![Backend::Wayland, Backend::X11Clipboard, Backend::X11Primary]);
    assert_eq!(result.unwrap().backend(), Backend::X11Primary);
}

#[test]
fn exhaustion_lists_every_failure_in_order() {
    let down = [Backend::X11Primary, Backend::Wayland, Backend::X11Clipboard];
    let (tried, result) = resolve(Environment::Native(Os::Linux), &down);
    assert_eq!(tried, vec![Backend::Wayland, Backend::X11Clipboard, Backend::X11Primary]);
    assert_eq!(
        result,
        Err(ClipboardError::AllBackendsExhausted(vec![
            failure(Backend::Wayland, "wayland is down"),
            failure(Backend::X11Clipboard, "x11 clipboard is down"),
            failure(Backend::X11Primary, "x11 primary is down"),
        ]))
    );
}

#[test]
fn exhaustion_keeps_each_reason() {
    let Resolution::Pending(resolver) = Resolver::begin(Environment::Native(Os::Linux)) else {
        panic!("a candidate is due");
    };
    assert_eq!(resolver.candidate(), Backend::Wayland);
    let Resolution::Pending(resolver) = resolver.advance(failed("no compositor")) else {
        panic!("a candidate is due");
    };
    assert_eq!(resolver.candidate(), Backend::X11Clipboard);
    let Resolution::Pending(resolver) = resolver.advance(failed("cannot open display")) else {
        panic!("a candidate is due");
    };
    assert_eq!(resolver.candidate(), Backend::X11Primary);
    assert_eq!(
        resolver.advance(failed("")),
        Resolution::Exhausted(ClipboardError::AllBackendsExhausted(vec![
            failure(Backend::Wayland, "no compositor"),
            failure(Backend::X11Clipboard, "cannot open display"),
            failure(Backend::X11Primary, ""),
        ]))
    );
}

#[test]
fn wsl1_goes_straight_to_the_bridge() {
    let (tried, result) = resolve(Environment::Wsl1, &[]);
    assert_eq!(tried, vec![Backend::ShellBridge]);
    assert_eq!(result.unwrap().backend(), Backend::ShellBridge);
    let (tried, result) = resolve(Environment::Wsl1, &[Backend::ShellBridge]);
    assert_eq!(tried, vec![Backend::ShellBridge]);
    assert_eq!(
        result,
        Err(ClipboardError::AllBackendsExhausted(vec![failure(
            Backend::ShellBridge,
            "shell bridge is down"
        )]))
    );
}

#[test]
fn single_platforms_have_no_fallback() {
    let (tried, result) = resolve(Environment::Native(Os::MacOs), &[]);
    assert_eq!(tried, vec![Backend::MacOs]);
    assert_eq!(result.unwrap().backend(), Backend::MacOs);
    let (tried, result) = resolve(Environment::Native(Os::Windows), &[Backend::Windows]);
    assert_eq!(tried, vec![Backend::Windows]);
    assert_eq!(
        result,
        Err(ClipboardError::AllBackendsExhausted(vec![failure(
            Backend::Windows,
            "windows is down"
        )]))
    );
    let (tried, result) = resolve(Environment::Native(Os::Other), &[]);
    assert_eq!(tried, vec![Backend::Nop]);
    assert_eq!(result.unwrap().backend(), Backend::Nop);
}

#[test]
fn a_handle_is_made_from_an_attempt() {
    let handle = ClipboardHandle::new(Backend::MacOs, AttemptOutcome::Opened).unwrap();
    assert_eq!(handle.backend(), Backend::MacOs);
    assert_eq!(
        ClipboardHandle::new(Backend::Wayland, failed("no compositor")),
        Err(ClipboardError::BackendUnavailable(failure(Backend::Wayland, "no compositor")))
    );
}

#[test]
fn only_the_x11_clipboard_has_a_second_selection() {
    for backend in [
        Backend::Wayland,
        Backend::X11Primary,
        Backend::Windows,
        Backend::MacOs,
        Backend::ShellBridge,
        Backend::Nop,
    ] {
        let handle = ClipboardHandle::new(backend, AttemptOutcome::Opened).unwrap();
        assert_eq!(handle.mirror(), None);
    }
    let handle = ClipboardHandle::new(Backend::X11Clipboard, AttemptOutcome::Opened).unwrap();
    assert_eq!(handle.mirror(), Some(Backend::X11Primary));
}
