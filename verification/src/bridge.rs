//! The shell bridge: how a WSL1 guest talks to the clipboard of its host.
//!
//! The host's scripting shell is run as a subprocess. A write pipes the text
//! to its standard input as raw UTF-8; a read takes its standard output,
//! which is the clipboard text followed by the one line terminator that the
//! shell adds. This module builds the invocations and takes the output apart.
//! Running the subprocess is left to the caller.
use std::borrow::Cow;
use vstd::prelude::*;
use vstd::string::StringSliceAdditionalSpecFns;
use vstd::utf8::{decode_utf8, encode_utf8, valid_utf8};

verus! {

/// One run of the host shell: what to start, and what to feed it.
#[derive(Debug, Clone, PartialEq, Eq)]
pub struct ShellCommand {
    pub program: String,
    pub args: Vec<String>,
    /// The bytes to write to the subprocess's standard input before closing it.
    pub stdin: Vec<u8>,
}

/// The mathematical value of a [`ShellCommand`].
pub ghost struct ShellCommandView {
    pub program: Seq<char>,
    pub args: Seq<Seq<char>>,
    pub stdin: Seq<u8>,
}

/// The views of a list of strings, in the same order.
pub open spec fn texts(strings: Seq<String>) -> Seq<Seq<char>> {
    strings.map_values(|s: String| s@)
}

impl View for ShellCommand {
    type V = ShellCommandView;

    open spec fn view(&self) -> ShellCommandView {
        ShellCommandView { program: self.program@, args: texts(self.args@), stdin: self.stdin@ }
    }
}

/// The executable that is started on the host.
pub open spec fn shell_program() -> Seq<char> {
    "powershell.exe"@
}

/// The script that prints the clipboard text.
pub open spec fn read_script() -> Seq<char> {
    "add-type -AssemblyName System.Windows.Forms; [System.Windows.Forms.Clipboard]::GetText()"@
}

/// The script that collects its standard input and puts it on the clipboard.
pub open spec fn write_script() -> Seq<char> {
    "$i='';while([Console]::IsInputRedirected -and (($c=[Console]::Read()) -ne -1)){$i+=[Convert]::ToChar($c)}; add-type -AssemblyName System.Windows.Forms; [System.Windows.Forms.Clipboard]::SetText($i)"@
}

/// The script that empties the clipboard.
pub open spec fn clear_script() -> Seq<char> {
    "add-type -AssemblyName System.Windows.Forms; [System.Windows.Forms.Clipboard]::Clear()"@
}

/// A non-interactive run of the shell on `script`, fed `stdin`.
pub open spec fn invocation(script: Seq<char>, stdin: Seq<u8>) -> ShellCommandView {
    ShellCommandView {
        program: shell_program(),
        args: seq![
            "-nonInteractive"@,
            "-noProfile"@,
            "-executionPolicy"@,
            "unrestricted"@,
            "-command"@,
            script,
        ],
        stdin,
    }
}

fn invoke(script: &str, stdin: Vec<u8>) -> (command: ShellCommand)
    ensures
        command@ == invocation(script@, stdin@),
{
    let mut args: Vec<String> = Vec::new();
    args.push("-nonInteractive".to_owned());
    args.push("-noProfile".to_owned());
    args.push("-executionPolicy".to_owned());
    args.push("unrestricted".to_owned());
    args.push("-command".to_owned());
    args.push(script.to_owned());
    let command = ShellCommand { program: "powershell.exe".to_owned(), args, stdin };
    assert(command@.args =~= invocation(script@, stdin@).args);
    command
}

/// The run that reads the host clipboard: nothing goes in, the text comes
/// out on standard output.
pub fn read_command() -> (command: ShellCommand)
    ensures
        command@ == invocation(read_script(), Seq::<u8>::empty()),
{
    invoke(
        "add-type -AssemblyName System.Windows.Forms; [System.Windows.Forms.Clipboard]::GetText()",
        Vec::new(),
    )
}

/// The run that writes `text` to the host clipboard: the text goes in as
/// its UTF-8 bytes, unframed.
pub fn write_command(text: &str) -> (command: ShellCommand)
    ensures
        command@ == invocation(write_script(), encode_utf8(text@)),
{
    invoke(
        "$i='';while([Console]::IsInputRedirected -and (($c=[Console]::Read()) -ne -1)){$i+=[Convert]::ToChar($c)}; add-type -AssemblyName System.Windows.Forms; [System.Windows.Forms.Clipboard]::SetText($i)",
        text.as_bytes_vec(),
    )
}

/// The run that empties the host clipboard.
pub fn clear_command() -> (command: ShellCommand)
    ensures
        command@ == invocation(clear_script(), Seq::<u8>::empty()),
{
    invoke(
        "add-type -AssemblyName System.Windows.Forms; [System.Windows.Forms.Clipboard]::Clear()",
        Vec::new(),
    )
}

/// `text` without the line terminator at its end, if it has one: a CR LF
/// pair, or else a single LF or CR. Whatever stands before that terminator
/// stays, further terminators included.
pub open spec fn stripped(text: Seq<char>) -> Seq<char> {
    let n = text.len() as int;
    if n >= 2 && text[n - 2] == '\r' && text[n - 1] == '\n' {
        text.subrange(0, n - 2)
    } else if n >= 1 && (text[n - 1] == '\n' || text[n - 1] == '\r') {
        text.subrange(0, n - 1)
    } else {
        text
    }
}

/// Removes the line terminator that the shell added to its output, once.
pub fn strip_terminator(text: &str) -> (out: String)
    ensures
        out@ == stripped(text@),
{
    let n = text.unicode_len();
    let keep = if n >= 2 && text.get_char(n - 2) == '\r' && text.get_char(n - 1) == '\n' {
        n - 2
    } else if n >= 1 && (text.get_char(n - 1) == '\n' || text.get_char(n - 1) == '\r') {
        n - 1
    } else {
        n
    };
    let out = text.substring_char(0, keep).to_owned();
    assert(text@.subrange(0, n as int) =~= text@);
    out
}

/// What lossy decoding makes of bytes that are no UTF-8: the characters
/// that can be decoded, with U+FFFD in place of each malformed sequence.
pub uninterp spec fn lossy_text(bytes: Seq<u8>) -> Seq<char>;

/// The text that `bytes` are read as. Valid UTF-8 is the text it encodes;
/// anything else is decoded lossily.
pub open spec fn decoded(bytes: Seq<u8>) -> Seq<char> {
    if valid_utf8(bytes) {
        decode_utf8(bytes)
    } else {
        lossy_text(bytes)
    }
}

/// `String::from_utf8_lossy` of the standard library. Its documentation
/// promises the string unchanged for bytes that are valid UTF-8. For other
/// bytes the result depends on the bytes alone, and is named
/// [`lossy_text`].
pub assume_specification<'a>[ String::from_utf8_lossy ](v: &'a [u8]) -> (text: Cow<'a, str>)
    ensures
        valid_utf8(v@) ==> text@ == decode_utf8(v@),
        !valid_utf8(v@) ==> text@ == lossy_text(v@),
;

/// Turns what the subprocess wrote to its standard output into text.
/// Bytes that are no UTF-8 do not fail the read: they come out as U+FFFD.
pub fn decode_output(stdout: &[u8]) -> (text: String)
    ensures
        text@ == decoded(stdout@),
{
    match String::from_utf8_lossy(stdout) {
        Cow::Borrowed(s) => s.to_owned(),
        Cow::Owned(s) => s,
    }
}

proof fn lemma_encode_concat(first: Seq<char>, second: Seq<char>)
    ensures
        encode_utf8(first + second) == encode_utf8(first) + encode_utf8(second),
    decreases first.len(),
{
    let both = first + second;
    if first.len() == 0 {
        assert(both =~= second);
        assert(encode_utf8(first) + encode_utf8(second) =~= encode_utf8(second));
    } else {
        assert(both[0] == first[0]);
        assert(both.drop_first() =~= first.drop_first() + second);
        lemma_encode_concat(first.drop_first(), second);
        assert(encode_utf8(both) =~= encode_utf8(first) + encode_utf8(second));
    }
}

proof fn lemma_encode_crlf()
    ensures
        encode_utf8(seq!['\r', '\n']) == seq![0x0du8, 0x0au8],
{
    let pair = seq!['\r', '\n'];
    let second = seq!['\n'];
    let none = Seq::<char>::empty();
    assert('\r' as u32 == 13u32);
    assert('\n' as u32 == 10u32);
    assert(13u32 & 0x7F == 13u32) by (bit_vector);
    assert(10u32 & 0x7F == 10u32) by (bit_vector);
    assert(vstd::utf8::encode_scalar(13u32) =~= seq![0x0du8]);
    assert(vstd::utf8::encode_scalar(10u32) =~= seq![0x0au8]);
    assert(encode_utf8(none) =~= Seq::<u8>::empty());
    assert(second.drop_first() =~= none);
    assert(encode_utf8(second) =~= seq![0x0au8]);
    assert(pair.drop_first() =~= second);
    assert(encode_utf8(pair) =~= seq![0x0du8, 0x0au8]);
}

/// A line of output is read as the text it carries and the CR LF that ends
/// it: the bytes of a text, followed by the two bytes 0D 0A, are valid
/// UTF-8 and decode to the text followed by CR LF.
pub proof fn lemma_decoded_line(text: Seq<char>)
    ensures
        decoded(encode_utf8(text) + seq![0x0du8, 0x0au8]) == text + seq!['\r', '\n'],
{
    let line = text + seq!['\r', '\n'];
    lemma_encode_concat(text, seq!['\r', '\n']);
    lemma_encode_crlf();
    vstd::utf8::encode_utf8_valid_utf8(line);
    vstd::utf8::encode_utf8_decode_utf8(line);
}

/// Stripping takes away exactly the CR LF that was appended, whatever the
/// text before it ends in.
pub proof fn lemma_strip_undoes_crlf(text: Seq<char>)
    ensures
        stripped(text + seq!['\r', '\n']) == text,
{
    let out = text + seq!['\r', '\n'];
    assert(out.subrange(0, out.len() - 2) =~= text);
}

/// Stripping takes away exactly the LF that was appended, unless the text
/// before it ends in CR (the pair then goes as one terminator).
pub proof fn lemma_strip_undoes_lf(text: Seq<char>)
    requires
        text.len() == 0 || text.last() != '\r',
    ensures
        stripped(text.push('\n')) == text,
{
    let out = text.push('\n');
    assert(out.subrange(0, out.len() - 1) =~= text);
}

/// Stripping removes a suffix of at most two characters, and two only for
/// CR LF: nothing before the last terminator is touched.
pub proof fn lemma_strip_at_most_once(text: Seq<char>)
    ensures
        stripped(text).len() + 2 >= text.len(),
        stripped(text) == text.subrange(0, stripped(text).len() as int),
        text.len() - stripped(text).len() == 2 ==> text.subrange(text.len() - 2, text.len() as int)
            == seq!['\r', '\n'],
{
    let n = text.len() as int;
    assert(text.subrange(0, n) =~= text);
    if n >= 2 && text[n - 2] == '\r' && text[n - 1] == '\n' {
        assert(text.subrange(n - 2, n) =~= seq!['\r', '\n']);
    }
    assert(stripped(text) =~= text.subrange(0, stripped(text).len() as int));
}

} // verus!
