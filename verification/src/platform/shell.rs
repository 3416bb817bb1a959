//! Opening threads and directories, describing the system, and the texts of
//! dialogs.

use vstd::prelude::*;

use crate::text::{
    ascii_folded, begins, cat, cat3, decimal, fold_ascii, from_chars, lines, number_text, opt,
    replace_char, replaced, same, signed_decimal, signed_text, starts_with, text_lines, to_chars,
    trim_char, views, without_leading, without_trailing,
};

verus! {

/// Why a thread could not be opened.
#[derive(Clone, Debug, PartialEq, Eq)]
pub enum OpenThreadError {
    Launch(String),
}

impl OpenThreadError {
    /// The text of the error.
    pub fn message(&self) -> (r: String)
        ensures
            r@ == "failed to launch thread target: "@ + self->Launch_0@,
    {
        match self {
            OpenThreadError::Launch(text) => cat(
                "failed to launch thread target: ",
                text.as_str(),
            ),
        }
    }
}

/// Why a directory could not be opened.
#[derive(Clone, Debug, PartialEq, Eq)]
pub enum OpenDirectoryError {
    Launch(String),
}

impl OpenDirectoryError {
    /// The text of the error.
    pub fn message(&self) -> (r: String)
        ensures
            r@ == "failed to open directory: "@ + self->Launch_0@,
    {
        match self {
            OpenDirectoryError::Launch(text) => cat("failed to open directory: ", text.as_str()),
        }
    }
}

/// Why the identity of the program could not be registered.
#[derive(Clone, Debug, PartialEq, Eq)]
pub enum IdentityError {
    Native(String),
}

impl IdentityError {
    /// The text of the error.
    pub fn message(&self) -> (r: String)
        ensures
            r@ == "failed to register the Longwatch application identity: "@ + self->Native_0@,
    {
        match self {
            IdentityError::Native(text) => cat(
                "failed to register the Longwatch application identity: ",
                text.as_str(),
            ),
        }
    }
}

/// Why a process could not be tied to this one.
#[derive(Clone, Debug, PartialEq, Eq)]
pub enum ProcessJobError {
    Native(String),
}

impl ProcessJobError {
    /// The text of the error.
    pub fn message(&self) -> (r: String)
        ensures
            r@ == "failed to create or assign the Windows process job: "@ + self->Native_0@,
    {
        match self {
            ProcessJobError::Native(text) => cat(
                "failed to create or assign the Windows process job: ",
                text.as_str(),
            ),
        }
    }
}

/// The link that opens a thread.
pub fn thread_target(thread_id: &str) -> (r: String)
    ensures
        r@ == "codex://threads/"@ + thread_id@,
{
    cat("codex://threads/", thread_id)
}

/// The arguments with which Codex resumes a thread.
pub fn resume_parameters(thread_id: &str) -> (r: String)
    ensures
        r@ == "resume "@ + thread_id@,
{
    cat("resume ", thread_id)
}

/// Whether the shell of Windows launched what it was asked to.
pub fn shell_launched(code: i64) -> (r: bool)
    ensures
        r == (code > 32),
{
    code > 32
}

/// What came of opening a thread under Windows with its link, and with the
/// command where that was tried: whether the thread is open.  `Ok(false)` asks
/// for the command.
pub fn open_thread(protocol_code: i64, fallback_code: Option<i64>) -> (r: Result<
    bool,
    OpenThreadError,
>)
    ensures
        match (protocol_code > 32, fallback_code) {
            (true, _) => r == Ok::<bool, OpenThreadError>(true),
            (false, None) => r == Ok::<bool, OpenThreadError>(false),
            (false, Some(code)) => if code > 32 {
                r == Ok::<bool, OpenThreadError>(true)
            } else {
                &&& r is Err
                &&& r->Err_0->Launch_0@ == "codex:// returned "@ + signed_decimal(
                    protocol_code as int,
                ) + "; Codex CLI fallback returned "@ + signed_decimal(code as int)
            },
        },
{
    if shell_launched(protocol_code) {
        return Ok(true);
    }
    match fallback_code {
        None => Ok(false),
        Some(code) => {
            if shell_launched(code) {
                Ok(true)
            } else {
                let mut text = cat3(
                    "codex:// returned ",
                    signed_text(protocol_code).as_str(),
                    "; Codex CLI fallback returned ",
                );
                text.push_str(signed_text(code).as_str());
                Err(OpenThreadError::Launch(text))
            }
        },
    }
}

/// A terminal of a Linux desktop and what stands before the command.
#[derive(Clone, Debug, PartialEq, Eq)]
pub struct Terminal {
    pub program: String,
    pub prefix: Option<String>,
}

/// The content of a [`Terminal`].
pub struct TerminalView {
    pub program: Seq<char>,
    pub prefix: Option<Seq<char>>,
}

impl View for Terminal {
    type V = TerminalView;

    open spec fn view(&self) -> TerminalView {
        TerminalView { program: self.program@, prefix: opt(self.prefix) }
    }
}

/// The terminals that are tried, in order.
pub open spec fn known_terminals() -> Seq<TerminalView> {
    seq![
        TerminalView { program: "x-terminal-emulator"@, prefix: Some("-e"@) },
        TerminalView { program: "gnome-terminal"@, prefix: Some("--"@) },
        TerminalView { program: "konsole"@, prefix: Some("-e"@) },
        TerminalView { program: "kitty"@, prefix: None },
        TerminalView { program: "alacritty"@, prefix: Some("-e"@) },
    ]
}

fn terminal(program: &str, prefix: Option<&str>) -> (r: Terminal)
    ensures
        r@ == (TerminalView { program: program@, prefix: opt(prefix) }),
{
    let prefix = match prefix {
        Some(prefix) => Some(prefix.to_owned()),
        None => None,
    };
    Terminal { program: program.to_owned(), prefix }
}

/// The terminals that are tried, in order.
pub fn terminals() -> (r: Vec<Terminal>)
    ensures
        views(r@) == known_terminals(),
{
    let mut out: Vec<Terminal> = Vec::new();
    out.push(terminal("x-terminal-emulator", Some("-e")));
    out.push(terminal("gnome-terminal", Some("--")));
    out.push(terminal("konsole", Some("-e")));
    out.push(terminal("kitty", None));
    out.push(terminal("alacritty", Some("-e")));
    assert(views(out@) =~= known_terminals());
    out
}

/// Whether a character needs no quotes in a command.
pub open spec fn plain_char(c: char) -> bool {
    'a' <= c <= 'z' || 'A' <= c <= 'Z' || '0' <= c <= '9' || c == '-' || c == '.' || c == '_' || c
        == '/'
}

/// Whether a text needs no quotes in a command.
pub open spec fn plain_word(text: Seq<char>) -> bool {
    forall|i: int| 0 <= i < text.len() ==> plain_char(#[trigger] text[i])
}

/// A text as one word of a command.
pub open spec fn quoted(text: Seq<char>) -> Seq<char> {
    if plain_word(text) {
        text
    } else {
        "'"@ + replaced(text, '\'', "'\\''"@) + "'"@
    }
}

/// A text as one word of a command.
pub fn quote_for_display(value: &str) -> (r: String)
    ensures
        r@ == quoted(value@),
{
    let chars = to_chars(value);
    let mut plain = true;
    let mut i: usize = 0;
    while i < chars.len() && plain
        invariant
            i <= chars@.len(),
            chars@ == value@,
            plain ==> forall|k: int| 0 <= k < i ==> plain_char(#[trigger] chars@[k]),
            !plain ==> !plain_word(value@),
        decreases chars.len() - i,
    {
        let c = chars[i];
        plain = ('a' <= c && c <= 'z') || ('A' <= c && c <= 'Z') || ('0' <= c && c <= '9') || c
            == '-' || c == '.' || c == '_' || c == '/';
        assert(plain == plain_char(value@[i as int]));
        i = i + 1;
    }
    if plain {
        value.to_owned()
    } else {
        cat3("'", replace_char(value, '\'', "'\\''").as_str(), "'")
    }
}

/// The command that resumes a thread, for the clipboard.
pub fn resume_command(codex_path: &str, thread_id: &str) -> (r: String)
    ensures
        r@ == quoted(codex_path@) + " resume "@ + quoted(thread_id@),
{
    cat3(
        quote_for_display(codex_path).as_str(),
        " resume ",
        quote_for_display(thread_id).as_str(),
    )
}

/// Why neither a terminal nor the clipboard could be used.
pub fn no_terminal(error: &str) -> (r: OpenThreadError)
    ensures
        r->Launch_0@
            == "no terminal launcher was available and the resume command could not be copied: "@
            + error@,
{
    OpenThreadError::Launch(
        cat(
            "no terminal launcher was available and the resume command could not be copied: ",
            error,
        ),
    )
}

/// The name that a Linux system gives itself: the first line of its description
/// that states it, without the quotes around it.
pub open spec fn pretty_name(lines: Seq<Seq<char>>) -> Option<Seq<char>>
    decreases lines.len(),
{
    if lines.len() == 0 {
        None
    } else if begins(lines[0], "PRETTY_NAME="@) {
        Some(
            without_trailing(
                without_leading(lines[0].skip("PRETTY_NAME="@.len() as int), '"'),
                '"',
            ),
        )
    } else {
        pretty_name(lines.skip(1))
    }
}

fn find_pretty_name(contents: &str) -> (r: Option<String>)
    ensures
        opt(r) == pretty_name(text_lines(contents@)),
{
    let parts = lines(contents);
    let key = to_chars("PRETTY_NAME=");
    let ghost all = views(parts@);
    let mut i: usize = 0;
    assert(all.skip(0) =~= all);
    while i < parts.len()
        invariant
            i <= parts@.len(),
            key@ == "PRETTY_NAME="@,
            all == views(parts@),
            all == text_lines(contents@),
            pretty_name(all) == pretty_name(all.skip(i as int)),
        decreases parts.len() - i,
    {
        assert(all.skip(i as int).skip(1) =~= all.skip(i + 1));
        assert(all.skip(i as int)[0] == parts@[i as int]@);
        if starts_with(parts[i].as_str(), "PRETTY_NAME=") {
            let chars = to_chars(parts[i].as_str());
            let rest = from_chars(&chars, key.len(), chars.len());
            assert(rest@ =~= parts@[i as int]@.skip(key@.len() as int));
            return Some(trim_char(rest.as_str(), '"'));
        }
        i = i + 1;
    }
    None
}

/// Describes a Linux system.
pub fn system_summary(os_release: &Option<String>, arch: &str) -> (r: String)
    ensures
        ({
            let named = match opt(*os_release) {
                Some(contents) => pretty_name(text_lines(contents)),
                None => None,
            };
            r@ == (match named {
                Some(name) => name,
                None => "Linux"@,
            }) + " ("@ + arch@ + ")"@
        }),
{
    let named = match os_release {
        Some(contents) => find_pretty_name(contents.as_str()),
        None => None,
    };
    let name = match named {
        Some(name) => name,
        None => "Linux".to_owned(),
    };
    let mut out = cat3(name.as_str(), " (", arch);
    out.push_str(")");
    out
}

/// What a Windows system says of itself.
#[derive(Debug)]
pub struct WindowsVersion {
    pub product: Option<String>,
    pub display_version: Option<String>,
    pub release_id: Option<String>,
    pub build: Option<String>,
    pub build_revision: Option<String>,
}

impl WindowsVersion {
    /// The name, the release and the build.
    pub open spec fn described(self) -> Seq<char> {
        let product = match self.product {
            Some(text) => text@,
            None => "Windows"@,
        };
        let release = match (self.display_version, self.release_id) {
            (Some(text), _) => " "@ + text@,
            (None, Some(text)) => " "@ + text@,
            (None, None) => Seq::empty(),
        };
        let build = match (self.build, self.build_revision) {
            (Some(build), Some(revision)) => " · build "@ + build@ + "."@ + revision@,
            (Some(build), None) => " · build "@ + build@,
            (None, _) => Seq::empty(),
        };
        product + release + build
    }
}

/// Describes a Windows system.
pub fn windows_summary(version: &WindowsVersion, arch: &str) -> (r: String)
    ensures
        r@ == version.described() + " ("@ + arch@ + ")"@,
{
    let product = match &version.product {
        Some(text) => text.clone(),
        None => "Windows".to_owned(),
    };
    let release = match &version.display_version {
        Some(text) => cat(" ", text.as_str()),
        None => match &version.release_id {
            Some(text) => cat(" ", text.as_str()),
            None => String::new(),
        },
    };
    let build = match &version.build {
        Some(build) => match &version.build_revision {
            Some(revision) => {
                let mut text = cat3(" · build ", build.as_str(), ".");
                text.push_str(revision.as_str());
                text
            },
            None => cat(" · build ", build.as_str()),
        },
        None => String::new(),
    };
    let mut out = cat3(product.as_str(), release.as_str(), build.as_str());
    assert(release@ =~= match (version.display_version, version.release_id) {
        (Some(text), _) => " "@ + text@,
        (None, Some(text)) => " "@ + text@,
        (None, None) => Seq::empty(),
    });
    assert(build@ =~= match (version.build, version.build_revision) {
        (Some(build), Some(revision)) => " · build "@ + build@ + "."@ + revision@,
        (Some(build), None) => " · build "@ + build@,
        (None, _) => Seq::empty(),
    });
    out.push_str(" (");
    out.push_str(arch);
    out.push_str(")");
    out
}

/// Describes a macOS system.
pub fn macos_summary(arch: &str) -> (r: String)
    ensures
        r@ == "macOS ("@ + arch@ + ")"@,
{
    cat3("macOS (", arch, ")")
}

/// Whether a name of the registry can hold a text: it has room for at least one unit.
pub fn registry_units(byte_count: u32) -> (r: Option<usize>)
    ensures
        r == (if byte_count < 2 {
            None
        } else {
            Some(((byte_count + 1) / 2) as usize)
        }),
{
    if byte_count < 2 {
        None
    } else {
        let units: u64 = (byte_count as u64 + 1) / 2;
        Some(units as usize)
    }
}

/// `char::from_u32`: the character of a code point; nothing where the number is
/// that of none.
pub assume_specification[ char::from_u32 ](i: u32) -> (r: Option<char>)
    ensures
        r == (if i < 0xd800 || 0xe000 <= i <= 0x10ffff {
            Some(i as char)
        } else {
            None
        }),
;

/// Whether a UTF-16 unit is the first half of a pair.
pub open spec fn leads_pair(unit: u16) -> bool {
    0xd800 <= unit <= 0xdbff
}

/// Whether a UTF-16 unit is the second half of a pair.
pub open spec fn ends_pair(unit: u16) -> bool {
    0xdc00 <= unit <= 0xdfff
}

/// The code point of a pair of UTF-16 units.
pub open spec fn pair_code(first: u16, second: u16) -> int {
    0x10000 + (first - 0xd800) * 0x400 + (second - 0xdc00)
}

/// The text of UTF-16 units; a half of a pair that stands alone is replaced.
pub open spec fn utf16_text(units: Seq<u16>) -> Seq<char>
    decreases units.len(),
{
    if units.len() == 0 {
        Seq::empty()
    } else if units.len() > 1 && leads_pair(units[0]) && ends_pair(units[1]) {
        seq![pair_code(units[0], units[1]) as char] + utf16_text(units.skip(2))
    } else if leads_pair(units[0]) || ends_pair(units[0]) {
        seq!['\u{fffd}'] + utf16_text(units.skip(1))
    } else {
        seq![units[0] as char] + utf16_text(units.skip(1))
    }
}

fn code_char(code: u32) -> (r: char)
    ensures
        r == (if code < 0xd800 || 0xe000 <= code <= 0x10ffff {
            code as char
        } else {
            '\u{fffd}'
        }),
{
    match char::from_u32(code) {
        Some(c) => c,
        None => '\u{fffd}',
    }
}

/// Reads UTF-16 units.
pub fn read_utf16(units: &Vec<u16>) -> (r: String)
    ensures
        r@ == utf16_text(units@),
{
    let mut text = String::new();
    let mut i: usize = 0;
    assert(units@.skip(0) =~= units@);
    assert(text@ + utf16_text(units@) =~= utf16_text(units@));
    while i < units.len()
        invariant
            i <= units@.len(),
            text@ + utf16_text(units@.skip(i as int)) == utf16_text(units@),
        decreases units.len() - i,
    {
        let ghost rest = units@.skip(i as int);
        let ghost before = text@;
        let first: u16 = units[i];
        assert(rest[0] == first);
        assert(rest.skip(1) =~= units@.skip(i + 1));
        if 0xd800 <= first && first <= 0xdbff && i + 1 < units.len() && 0xdc00 <= units[i + 1]
            && units[i + 1] <= 0xdfff {
            let second: u16 = units[i + 1];
            assert(rest[1] == second);
            assert(rest.skip(2) =~= units@.skip(i + 2));
            let code: u32 = 0x10000 + (first as u32 - 0xd800) * 0x400 + (second as u32 - 0xdc00);
            assert(code == pair_code(first, second));
            text.push(code_char(code));
            assert(text@ + utf16_text(units@.skip(i + 2)) =~= before + utf16_text(rest));
            i = i + 2;
        } else {
            text.push(code_char(first as u32));
            assert(text@ + utf16_text(units@.skip(i + 1)) =~= before + utf16_text(rest));
            i = i + 1;
        }
    }
    assert(text@ + Seq::<char>::empty() =~= text@);
    text
}

/// The text of a value of the registry, without the zeros that end it.
pub fn registry_text(units: &Vec<u16>) -> (r: String)
    ensures
        r@ == without_trailing(utf16_text(units@), '\0'),
{
    let text = read_utf16(units);
    let chars = to_chars(text.as_str());
    let mut to: usize = chars.len();
    assert(chars@.take(to as int) =~= chars@);
    while to > 0 && chars[to - 1] == '\0'
        invariant
            to <= chars@.len(),
            without_trailing(chars@.take(to as int), '\0') == without_trailing(chars@, '\0'),
        decreases to,
    {
        assert(chars@.take(to as int).drop_last() =~= chars@.take(to - 1));
        to = to - 1;
    }
    let out = from_chars(&chars, 0, to);
    assert(out@ =~= chars@.take(to as int));
    out
}

/// Whether the current Linux session is Wayland, by its environment.
pub fn is_wayland_session(wayland_display: bool, session_type: &Option<String>) -> (r: bool)
    ensures
        r == (wayland_display || (session_type matches Some(text) && ascii_folded(text@)
            == "wayland"@)),
{
    if wayland_display {
        return true;
    }
    match session_type {
        Some(text) => same(fold_ascii(text.as_str()).as_str(), "wayland"),
        None => false,
    }
}

/// Whether the earlier registration of the program could be removed; that there
/// was none is as good.
pub fn check_registry_removal(status: u32) -> (r: Result<(), IdentityError>)
    ensures
        r is Ok == (status == 0 || status == 2),
        r matches Err(error) ==> error->Native_0@ == "RegDeleteTreeW returned "@ + decimal(
            status as nat,
        ),
{
    if status == 0 || status == 2 {
        Ok(())
    } else {
        Err(
            IdentityError::Native(
                cat("RegDeleteTreeW returned ", number_text(status as u64).as_str()),
            ),
        )
    }
}

/// Whether a call into the registry succeeded.
pub fn check_registry_call(call: &str, status: u32) -> (r: Result<(), IdentityError>)
    ensures
        r is Ok == (status == 0),
        r matches Err(error) ==> error->Native_0@ == call@ + " returned "@ + decimal(status as nat),
{
    if status == 0 {
        Ok(())
    } else {
        Err(
            IdentityError::Native(
                cat3(call, " returned ", number_text(status as u64).as_str()),
            ),
        )
    }
}

/// What came of opening a directory under Windows.
pub fn open_directory(code: i64) -> (r: Result<(), OpenDirectoryError>)
    ensures
        r is Ok == (code > 32),
        r matches Err(error) ==> error->Launch_0@ == "ShellExecuteW returned "@ + signed_decimal(
            code as int,
        ),
{
    if shell_launched(code) {
        Ok(())
    } else {
        Err(
            OpenDirectoryError::Launch(
                cat("ShellExecuteW returned ", signed_text(code).as_str()),
            ),
        )
    }
}

/// The line that is written where there is no dialog.
pub fn show_error_dialog(title: &str, message: &str) -> (r: String)
    ensures
        r@ == title@ + ": "@ + message@,
{
    cat3(title, ": ", message)
}

/// Which icon the program shows in the dock of macOS, if another one than it
/// shows: the dark one is `true`.
pub fn dock_icon(shown: Option<bool>, dark: bool) -> (r: Option<bool>)
    ensures
        r == (if shown == Some(dark) {
            None
        } else {
            Some(dark)
        }),
{
    match shown {
        Some(current) => {
            if current == dark {
                None
            } else {
                Some(dark)
            }
        },
        None => Some(dark),
    }
}

} // verus!
