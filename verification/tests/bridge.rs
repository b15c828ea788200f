use cli_clipboard::bridge::{
    clear_command, decode_output, read_command, strip_terminator, write_command,
};
use cli_clipboard::{AttemptOutcome, Backend, ClipboardHandle, Payload, Request};

fn bridge() -> ClipboardHandle {
    ClipboardHandle::new(Backend::ShellBridge, AttemptOutcome::Opened).unwrap()
}

#[test]
fn strips_a_crlf() {
    assert_eq!(strip_terminator("hello\r\n"), "hello");
}

#[test]
fn strips_only_one_of_two_line_feeds() {
    assert_eq!(strip_terminator("hello\n\n"), "hello\n");
}

#[test]
fn strips_a_lone_terminator() {
    assert_eq!(strip_terminator("hello\n"), "hello");
    assert_eq!(strip_terminator("hello\r"), "hello");
    assert_eq!(strip_terminator("\n"), "");
    assert_eq!(strip_terminator("\r"), "");
    assert_eq!(strip_terminator("\r\n"), "");
}

#[test]
fn leaves_text_without_a_terminator_alone() {
    assert_eq!(strip_terminator("hello"), "hello");
    assert_eq!(strip_terminator(""), "");
    assert_eq!(strip_terminator("a\nb"), "a\nb");
    assert_eq!(strip_terminator("\r\nx"), "\r\nx");
}

#[test]
fn strips_at_most_one_terminator() {
    assert_eq!(strip_terminator("a\r\n\r\n"), "a\r\n");
    assert_eq!(strip_terminator("a\n\r\n"), "a\n");
    assert_eq!(strip_terminator("a\n\r"), "a\n");
    assert_eq!(strip_terminator("a\r\r"), "a\r");
    assert_eq!(strip_terminator("a\r\r\n"), "a\r");
}

#[test]
fn strips_by_character_not_by_byte() {
    assert_eq!(strip_terminator("h\u{e9}llo \u{1f600}\r\n"), "h\u{e9}llo \u{1f600}");
    assert_eq!(strip_terminator("\u{65e5}\u{672c}\n"), "\u{65e5}\u{672c}");
    assert_eq!(strip_terminator("\u{65e5}\u{672c}"), "\u{65e5}\u{672c}");
}

#[test]
fn bridge_read_drops_the_terminator_of_the_shell() {
    let handle = bridge();
    let got = handle.get_contents(Ok(Payload::Output(b"hello\r\n".to_vec())));
    assert_eq!(got, Ok("hello".to_string()));
    let got = handle.get_contents(Ok(Payload::Output(b"hello\n\n".to_vec())));
    assert_eq!(got, Ok("hello\n".to_string()));
    let got = handle.get_contents(Ok(Payload::Text("hello\r\n".to_string())));
    assert_eq!(got, Ok("hello".to_string()));
}

#[test]
fn other_backends_keep_their_terminators() {
    for backend in [
        Backend::Wayland,
        Backend::X11Clipboard,
        Backend::X11Primary,
        Backend::Windows,
        Backend::MacOs,
    ] {
        let handle = ClipboardHandle::new(backend, AttemptOutcome::Opened).unwrap();
        let got = handle.get_contents(Ok(Payload::Text("hello\r\n".to_string())));
        assert_eq!(got, Ok("hello\r\n".to_string()));
    }
}

#[test]
fn decodes_utf8_output() {
    assert_eq!(decode_output(b"hello"), "hello");
    assert_eq!(decode_output(&[0x63, 0x61, 0x66, 0xc3, 0xa9]), "caf\u{e9}");
    assert_eq!(decode_output(&[]), "");
}

#[test]
fn decodes_malformed_output_with_replacement_characters() {
    assert_eq!(decode_output(&[0x66, 0xff, 0x6f]), "f\u{fffd}o");
    assert_eq!(decode_output(&[0xc3]), "\u{fffd}");
    let handle = bridge();
    let got = handle.get_contents(Ok(Payload::Output(vec![0x61, 0xff, 0x0d, 0x0a])));
    assert_eq!(got, Ok("a\u{fffd}".to_string()));
}

#[test]
fn read_command_runs_the_shell_without_input() {
    let command = read_command();
    assert_eq!(command.program, "powershell.exe");
    assert_eq!(
        command.args,
        vec![
            "-nonInteractive".to_string(),
            "-noProfile".to_string(),
            "-executionPolicy".to_string(),
            "unrestricted".to_string(),
            "-command".to_string(),
            "add-type -AssemblyName System.Windows.Forms; [System.Windows.Forms.Clipboard]::GetText()"
                .to_string(),
        ]
    );
    assert!(command.stdin.is_empty());
}

#[test]
fn write_command_pipes_the_text_as_raw_utf8() {
    let command = write_command("h\u{e9}llo\n");
    assert_eq!(command.program, "powershell.exe");
    assert_eq!(command.args.len(), 6);
    assert_eq!(command.args[0], "-nonInteractive");
    assert_eq!(command.args[4], "-command");
    assert_eq!(
        command.args[5],
        "$i='';while([Console]::IsInputRedirected -and (($c=[Console]::Read()) -ne -1)){$i+=[Convert]::ToChar($c)}; add-type -AssemblyName System.Windows.Forms; [System.Windows.Forms.Clipboard]::SetText($i)"
    );
    assert_eq!(command.stdin, vec![0x68, 0xc3, 0xa9, 0x6c, 0x6c, 0x6f, 0x0a]);
    assert!(write_command("").stdin.is_empty());
}

#[test]
fn clear_command_runs_the_shell_without_input() {
    let command = clear_command();
    assert_eq!(command.program, "powershell.exe");
    assert_eq!(
        command.args[5],
        "add-type -AssemblyName System.Windows.Forms; [System.Windows.Forms.Clipboard]::Clear()"
    );
    assert!(command.stdin.is_empty());
}

#[test]
fn bridge_handle_asks_for_shell_runs() {
    let handle = bridge();
    assert_eq!(handle.read_request(), Some(Request::ShellRead(read_command())));
    assert_eq!(
        handle.write_request("some string".to_string()),
        Some(Request::ShellWrite(write_command("some string")))
    );
    assert_eq!(handle.clear_request(), Some(Request::ShellClear(clear_command())));
}
