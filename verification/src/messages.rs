//! The build tool's output: one message on each line, of which a build
//! cares for the reports of executables.

use vstd::prelude::*;

verus! {

/// A message of the build tool, as far as a build cares: the report of an
/// executable, or anything else.
#[derive(Debug, Clone, PartialEq, Eq)]
pub enum CompilerMessage {
    /// An artifact was produced, and it is an executable at this path.
    Artifact(String),
    /// Any other message, or a line that is no message.
    Other,
}

/// A [`CompilerMessage`] as plain sequences.
pub enum CompilerMessageView {
    Artifact(Seq<char>),
    Other,
}

impl View for CompilerMessage {
    type V = CompilerMessageView;

    open spec fn view(&self) -> CompilerMessageView {
        match self {
            CompilerMessage::Artifact(path) => CompilerMessageView::Artifact(path@),
            CompilerMessage::Other => CompilerMessageView::Other,
        }
    }
}

/// The messages as plain sequences.
pub open spec fn message_views(messages: Seq<CompilerMessage>) -> Seq<CompilerMessageView> {
    Seq::new(messages.len(), |i: int| messages[i]@)
}

/// The path of the executable that the first line of `text` reports, as
/// `cargo_metadata` reads it: there is one where the line is a
/// `compiler-artifact` message of the build tool whose `executable` is set.
pub uninterp spec fn line_executable(text: Seq<char>) -> Option<Seq<char>>;

/// The deepest nesting of values that a line may show and still be decoded.
/// The decoder follows nested values as deep as they go.
pub const MAX_DEPTH: usize = 128;

/// A character that opens a nested value.
pub open spec fn is_opener(c: char) -> bool {
    c == '[' || c == '{'
}

/// A character that closes a nested value.
pub open spec fn is_closer(c: char) -> bool {
    c == ']' || c == '}'
}

/// What a reader of a text knows of the nesting at some place in it.
pub struct Scan {
    /// How many values are open here.
    pub depth: nat,
    /// The most values that were open at once up to here.
    pub deepest: nat,
    /// Whether this place lies in a quoted string.
    pub quoted: bool,
    /// Whether the character before, in a quoted string, was a backslash
    /// that takes the next character's meaning away.
    pub escaped: bool,
}

/// The nesting before any character is read.
pub open spec fn scan_start() -> Scan {
    Scan { depth: 0, deepest: 0, quoted: false, escaped: false }
}

/// The nesting behind one more character. Brackets count outside quoted
/// strings only; a quoted string runs from one quotation mark to the next
/// that no backslash stands before; a closing bracket where nothing is open
/// closes nothing.
pub open spec fn scan_step(scan: Scan, c: char) -> Scan {
    if scan.quoted {
        if scan.escaped {
            Scan { escaped: false, ..scan }
        } else if c == '\\' {
            Scan { escaped: true, ..scan }
        } else if c == '"' {
            Scan { quoted: false, ..scan }
        } else {
            scan
        }
    } else if c == '"' {
        Scan { quoted: true, ..scan }
    } else if is_opener(c) {
        Scan {
            depth: scan.depth + 1,
            deepest: if scan.depth + 1 > scan.deepest {
                scan.depth + 1
            } else {
                scan.deepest
            },
            ..scan
        }
    } else if is_closer(c) && scan.depth > 0 {
        Scan { depth: (scan.depth - 1) as nat, ..scan }
    } else {
        scan
    }
}

/// The nesting behind the whole of `text`.
pub open spec fn scanned(text: Seq<char>) -> Scan
    decreases text.len(),
{
    if text.len() == 0 {
        scan_start()
    } else {
        scan_step(scanned(text.drop_last()), text.last())
    }
}

/// A line that is handed to the decoder: nowhere in it are more than
/// [`MAX_DEPTH`] values open at once.
pub open spec fn decodable(text: Seq<char>) -> bool {
    scanned(text).deepest <= MAX_DEPTH
}

/// A longer beginning of a text shows no shallower nesting, and at no place
/// are more values open than were open at once up to there.
pub proof fn lemma_deepest_grows(text: Seq<char>, shorter: int, longer: int)
    requires
        0 <= shorter <= longer <= text.len(),
    ensures
        scanned(text.take(shorter)).deepest <= scanned(text.take(longer)).deepest,
        scanned(text.take(longer)).depth <= scanned(text.take(longer)).deepest,
    decreases longer,
{
    if longer > 0 {
        assert(text.take(longer).drop_last() == text.take(longer - 1));
        if shorter < longer {
            lemma_deepest_grows(text, shorter, longer - 1);
        } else {
            lemma_deepest_grows(text, shorter - 1, longer - 1);
        }
    }
}

/// Whether `line` is handed to the decoder.
pub fn is_decodable(line: &str) -> (fit: bool)
    ensures
        fit == decodable(line@),
{
    let chars = crate::text::chars_of(line);
    let mut depth: usize = 0;
    let mut deepest: usize = 0;
    let mut quoted = false;
    let mut escaped = false;
    let mut i: usize = 0;
    while i < chars.len()
        invariant
            i <= chars.len(),
            chars@ == line@,
            scanned(chars@.take(i as int)) == (Scan {
                depth: depth as nat,
                deepest: deepest as nat,
                quoted,
                escaped,
            }),
            depth <= deepest <= MAX_DEPTH,
        decreases chars.len() - i,
    {
        let c = chars[i];
        proof {
            assert(chars@.take(i + 1).drop_last() == chars@.take(i as int));
        }
        if quoted {
            if escaped {
                escaped = false;
            } else if c == '\\' {
                escaped = true;
            } else if c == '"' {
                quoted = false;
            }
        } else if c == '"' {
            quoted = true;
        } else if c == '[' || c == '{' {
            if depth == MAX_DEPTH {
                proof {
                    lemma_deepest_grows(chars@, i + 1, chars.len() as int);
                    assert(chars@.take(chars.len() as int) == chars@);
                }
                return false;
            }
            depth += 1;
            if depth > deepest {
                deepest = depth;
            }
        } else if (c == ']' || c == '}') && depth > 0 {
            depth -= 1;
        }
        i += 1;
    }
    proof {
        assert(chars@.take(chars.len() as int) == chars@);
    }
    true
}

/// Takes the first item of `cargo_metadata::Message::parse_stream` over the
/// bytes of `line`. From a `Message::CompilerArtifact` it hands out the
/// `executable`, which may be missing; every other item, and the lack of
/// one, gives `None`. The decoder sets no limit to the depth of nested
/// values, so lines that nest deeply are kept from it: as long as it reads
/// on, the values it has open are what [`scanned`] counts. The contract
/// names the outcome; it claims nothing else of it.
#[verifier::external_body]
fn decode_line(line: &str) -> (executable: Option<String>)
    requires
        decodable(line@),
    ensures
        crate::text::text_view(executable) == line_executable(line@),
{
    match cargo_metadata::Message::parse_stream(line.as_bytes()).next() {
        Some(Ok(cargo_metadata::Message::CompilerArtifact(artifact))) => artifact.executable.map(
            cargo_metadata::camino::Utf8PathBuf::into_string,
        ),
        _ => None,
    }
}

/// The message that a line stands for. A line that nests values deeper than
/// [`MAX_DEPTH`] is not decoded; no report of an executable comes near
/// that, and the line counts as any other.
pub open spec fn message_of(text: Seq<char>) -> CompilerMessageView {
    if decodable(text) {
        message_about(line_executable(text))
    } else {
        CompilerMessageView::Other
    }
}

/// The message that reports `executable`, or that reports nothing.
pub open spec fn message_about(executable: Option<Seq<char>>) -> CompilerMessageView {
    match executable {
        Some(path) => CompilerMessageView::Artifact(path),
        None => CompilerMessageView::Other,
    }
}

/// The message that reports `executable`, or that reports nothing.
pub fn message_from(executable: Option<String>) -> (message: CompilerMessage)
    ensures
        message@ == message_about(crate::text::text_view(executable)),
{
    match executable {
        Some(path) => CompilerMessage::Artifact(path),
        None => CompilerMessage::Other,
    }
}

/// Reads one line of the build tool's output.
pub fn parse_message(line: &str) -> (message: CompilerMessage)
    ensures
        message@ == message_of(line@),
{
    if is_decodable(line) {
        message_from(decode_line(line))
    } else {
        CompilerMessage::Other
    }
}

/// The executable that a message reports, if it reports one.
pub open spec fn reported(message: CompilerMessageView) -> Option<Seq<char>> {
    match message {
        CompilerMessageView::Artifact(path) => Some(path),
        CompilerMessageView::Other => None,
    }
}

/// The executables that `messages` report: one for each report, in the
/// order of the messages.
pub open spec fn reported_executables(messages: Seq<CompilerMessageView>) -> Seq<Seq<char>> {
    messages.filter_map(|message: CompilerMessageView| reported(message))
}

/// The executables that `messages` report, as [`reported_executables`]
/// reads them.
pub fn executables(messages: &Vec<CompilerMessage>) -> (found: Vec<String>)
    ensures
        found.deep_view() == reported_executables(message_views(messages@)),
{
    let mut found: Vec<String> = Vec::new();
    let mut i: usize = 0;
    let ghost pick = |message: CompilerMessageView| reported(message);
    while i < messages.len()
        invariant
            i <= messages.len(),
            pick == |message: CompilerMessageView| reported(message),
            found.deep_view() == message_views(messages@).take(i as int).filter_map(pick),
        decreases messages.len() - i,
    {
        proof {
            let all = message_views(messages@);
            all.lemma_filter_map_take_succ(pick, i as int);
        }
        match &messages[i] {
            CompilerMessage::Artifact(path) => {
                found.push(path.clone());
            },
            CompilerMessage::Other => {},
        }
        i += 1;
    }
    proof {
        assert(message_views(messages@).take(messages.len() as int) == message_views(messages@));
    }
    found
}

/// Why the simulator cannot be started.
#[derive(Debug, Clone, Copy, PartialEq, Eq, Structural)]
pub enum Misuse {
    /// The build made no executable, as a library does; the simulator runs
    /// executables only.
    NoExecutable,
}

impl Misuse {
    /// The message shown to the user.
    pub fn message(&self) -> (text: String)
        ensures
            text@ == "pros-simulator may not run libraries"@,
    {
        "pros-simulator may not run libraries".to_string()
    }
}

/// The executable that the simulator is started with: the last one that the
/// build reported. A build that reported none is a misuse.
pub fn simulator_binary(found: Vec<String>) -> (binary: Result<String, Misuse>)
    ensures
        match binary {
            Ok(path) => found.len() > 0 && path@ == found.deep_view().last(),
            Err(misuse) => found.len() == 0 && misuse == Misuse::NoExecutable,
        },
{
    let mut found = found;
    match found.pop() {
        Some(path) => Ok(path),
        None => Err(Misuse::NoExecutable),
    }
}

/// The readings of a sequence of lines, one message for each line.
pub open spec fn line_messages(lines: Seq<Seq<char>>) -> Seq<CompilerMessageView> {
    Seq::new(lines.len(), |i: int| message_of(lines[i]))
}

/// Reads the lines of the build tool's output and hands out the executables
/// that they report, in the order of the lines.
pub fn collect_executables(lines: &Vec<String>) -> (found: Vec<String>)
    ensures
        found.deep_view() == reported_executables(line_messages(lines.deep_view())),
{
    let mut messages: Vec<CompilerMessage> = Vec::new();
    let mut i: usize = 0;
    while i < lines.len()
        invariant
            i <= lines.len(),
            messages.len() == i,
            forall|k: int| 0 <= k < i ==> (#[trigger] messages@[k])@ == message_of(lines@[k]@),
        decreases lines.len() - i,
    {
        messages.push(parse_message(lines[i].as_str()));
        i += 1;
    }
    proof {
        assert(message_views(messages@) =~= line_messages(lines.deep_view()));
    }
    executables(&messages)
}

} // verus!
