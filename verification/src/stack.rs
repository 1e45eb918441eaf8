//! Stack frames, and the lines that report them.

use crate::json::{encode_lines, json_of_lines};
use crate::native_text::{has_nul, EncodeError};
use backtrace::{Backtrace, BacktraceFrame};
use vstd::prelude::*;
use vstd::string::StringExecFns;

verus! {

/// `backtrace::Backtrace`, a captured stack. Opaque here.
#[verifier::external_type_specification]
#[verifier::external_body]
pub struct ExBacktrace(Backtrace);

/// `backtrace::BacktraceFrame`, one frame of a captured stack. Opaque here.
#[verifier::external_type_specification]
#[verifier::external_body]
pub struct ExBacktraceFrame(BacktraceFrame);

/// What a captured stack holds: for each of its frames, innermost first,
/// the symbols that the frame resolved to.
pub uninterp spec fn stack_symbols(trace: Backtrace) -> Seq<Seq<FrameView>>;

/// What one frame holds: the symbols that it resolved to, innermost first,
/// each with its name as the `backtrace` crate displays it, its file as
/// text, and its line.
pub uninterp spec fn frame_symbols(frame: BacktraceFrame) -> Seq<FrameView>;

/// `Backtrace::new`: the calling thread's stack as it stands at the call,
/// symbols resolved. What it holds depends on the program and the machine,
/// so nothing is claimed of it.
#[verifier::external_body]
fn capture() -> Backtrace {
    Backtrace::new()
}

/// `Backtrace::frames`: the frames that a captured stack holds, in their
/// order. The contract only ties the two names together: what the stack
/// holds is, frame by frame, what these frames hold.
#[verifier::external_body]
fn frames_of<'a>(trace: &'a Backtrace) -> (frames: &'a [BacktraceFrame])
    ensures
        frames@.len() == stack_symbols(*trace).len(),
        forall|i: int|
            0 <= i < frames@.len() ==> frame_symbols(#[trigger] frames@[i]) == stack_symbols(
                *trace,
            )[i],
{
    trace.frames()
}

/// `BacktraceFrame::symbols`, each symbol handed out as plain values: its
/// name (`BacktraceSymbol::name`) written out as the crate displays it, its
/// file (`BacktraceSymbol::filename`) as text, with what is not Unicode in
/// the path replaced, and its line (`BacktraceSymbol::lineno`). These are
/// what the frame holds, in its order; the contract says no more.
#[verifier::external_body]
fn symbols_of(frame: &BacktraceFrame) -> (symbols: Vec<Frame>)
    ensures
        symbols.deep_view() == frame_symbols(*frame),
{
    frame.symbols().iter().map(|symbol| Frame {
        name: symbol.name().map(|name| name.to_string()),
        file: symbol.filename().map(|file| file.to_string_lossy().into_owned()),
        line: symbol.lineno(),
    }).collect()
}

/// What stands in a line for a file that is not known.
pub const UNKNOWN_FILE: &'static str = "no file";

/// What stands in a line for a symbol whose name is not known, where a line
/// is written for it all the same.
pub const UNKNOWN_SYMBOL: &'static str = "no symbol";

/// One resolved symbol of a captured stack.
#[derive(Debug, PartialEq, Eq)]
pub struct Frame {
    /// The symbol's name, demangled.
    pub name: Option<String>,
    /// The source file, where debug information gives one.
    pub file: Option<String>,
    /// The line in that file, where debug information gives one.
    pub line: Option<u32>,
}

/// A [`Frame`], with its texts as the characters they hold.
pub ghost struct FrameView {
    pub name: Option<Seq<char>>,
    pub file: Option<Seq<char>>,
    pub line: Option<u32>,
}

impl DeepView for Frame {
    type V = FrameView;

    open spec fn deep_view(&self) -> FrameView {
        FrameView { name: self.name.deep_view(), file: self.file.deep_view(), line: self.line }
    }
}

/// The character for a digit below ten.
pub open spec fn digit(d: nat) -> char
    recommends
        d < 10,
{
    ('0' as u32 + d) as char
}

/// `n` in decimal, without sign or leading zeros.
pub open spec fn decimal(n: nat) -> Seq<char>
    decreases n,
{
    if n < 10 {
        seq![digit(n)]
    } else {
        decimal(n / 10).push(digit(n % 10))
    }
}

impl FrameView {
    /// The line for this frame, `name file:line`. A name that is not known
    /// reads "no symbol", a file that is not known reads "no file", a line
    /// that is not known reads 0.
    pub open spec fn line(self) -> Seq<char> {
        let name = match self.name {
            Some(name) => name,
            None => UNKNOWN_SYMBOL@,
        };
        let file = match self.file {
            Some(file) => file,
            None => UNKNOWN_FILE@,
        };
        let line = match self.line {
            Some(line) => line as nat,
            None => 0,
        };
        name + seq![' '] + file + seq![':'] + decimal(line)
    }

    /// The line for this frame, where its name is known; a frame without a
    /// name has none.
    pub open spec fn rendered(self) -> Option<Seq<char>> {
        if self.name is Some {
            Some(self.line())
        } else {
            None
        }
    }
}

/// The lines for `frames`, in their order, names known or not.
pub open spec fn lines(frames: Seq<FrameView>) -> Seq<Seq<char>> {
    Seq::new(frames.len(), |i: int| frames[i].line())
}

/// The lines for `frames`, in their order; `None` if one of them has no
/// name.
pub open spec fn rendered_lines(frames: Seq<FrameView>) -> Option<Seq<Seq<char>>> {
    if forall|i: int| 0 <= i < frames.len() ==> (#[trigger] frames[i]).name is Some {
        Some(lines(frames))
    } else {
        None
    }
}

/// The text of one decimal digit.
fn digit_text(d: u32) -> (text: &'static str)
    requires
        d < 10,
    ensures
        text@ == seq![digit(d as nat)],
{
    proof {
        reveal_strlit("0");
        reveal_strlit("1");
        reveal_strlit("2");
        reveal_strlit("3");
        reveal_strlit("4");
        reveal_strlit("5");
        reveal_strlit("6");
        reveal_strlit("7");
        reveal_strlit("8");
        reveal_strlit("9");
    }
    let text = match d {
        0 => "0",
        1 => "1",
        2 => "2",
        3 => "3",
        4 => "4",
        5 => "5",
        6 => "6",
        7 => "7",
        8 => "8",
        _ => "9",
    };
    assert(text@ =~= seq![digit(d as nat)]);
    text
}

/// Appends `n` in decimal to `text`.
pub fn push_decimal(text: &mut String, n: u32)
    ensures
        final(text)@ == old(text)@ + decimal(n as nat),
    decreases n,
{
    if n >= 10 {
        push_decimal(text, n / 10);
    }
    text.append(digit_text(n % 10));
    assert(final(text)@ =~= old(text)@ + decimal(n as nat));
}

impl Frame {
    /// The line that reports this frame, whether its name is known or not.
    pub fn line(&self) -> (line: String)
        ensures
            line@ == self.deep_view().line(),
    {
        let mut line = match &self.name {
            Some(name) => String::from_str(name.as_str()),
            None => String::from_str(UNKNOWN_SYMBOL),
        };
        proof {
            reveal_strlit(" ");
            reveal_strlit(":");
        }
        line.append(" ");
        match &self.file {
            Some(file) => line.append(file.as_str()),
            None => line.append(UNKNOWN_FILE),
        }
        line.append(":");
        match self.line {
            Some(number) => push_decimal(&mut line, number),
            None => push_decimal(&mut line, 0),
        }
        assert(line@ =~= self.deep_view().line());
        line
    }

    /// The line that reports this frame. Fails if its name is not known.
    pub fn render(&self) -> (r: Result<String, EncodeError>)
        ensures
            match r {
                Ok(line) => self.deep_view().rendered() == Some(line@),
                Err(e) => self.deep_view().rendered() is None && e == EncodeError::MissingSymbolName,
            },
    {
        if self.name.is_none() {
            return Err(EncodeError::MissingSymbolName);
        }
        Ok(self.line())
    }
}

/// The lines that report `frames`, in their order, with "no symbol" for a
/// name that is not known.
pub fn frame_lines(frames: &Vec<Frame>) -> (r: Vec<String>)
    ensures
        r.deep_view() == lines(frames.deep_view()),
{
    let mut r: Vec<String> = Vec::new();
    let n = frames.len();
    let mut i: usize = 0;
    while i < n
        invariant
            i <= n,
            n == frames.len(),
            r.len() == i,
            forall|j: int| 0 <= j < i ==> (#[trigger] frames.deep_view()[j]).line() == r[j]@,
        decreases n - i,
    {
        let line = frames[i].line();
        assert(frames.deep_view()[i as int] == frames[i as int].deep_view());
        r.push(line);
        i += 1;
    }
    assert(r.deep_view() =~= lines(frames.deep_view()));
    r
}

/// The lines that report `frames`, in their order. Fails if a frame has no
/// symbol name.
pub fn render_frames(frames: &Vec<Frame>) -> (r: Result<Vec<String>, EncodeError>)
    ensures
        match r {
            Ok(lines) => rendered_lines(frames.deep_view()) == Some(lines.deep_view()),
            Err(e) => rendered_lines(frames.deep_view()) is None && e
                == EncodeError::MissingSymbolName,
        },
{
    let n = frames.len();
    let mut i: usize = 0;
    while i < n
        invariant
            i <= n,
            n == frames.len(),
            forall|j: int| 0 <= j < i ==> (#[trigger] frames.deep_view()[j]).name is Some,
        decreases n - i,
    {
        assert(frames.deep_view()[i as int] == frames[i as int].deep_view());
        if frames[i].name.is_none() {
            return Err(EncodeError::MissingSymbolName);
        }
        i += 1;
    }
    Ok(frame_lines(frames))
}

/// The JSON array that reports `frames`: one string per frame, in their
/// order. There is none where a frame has no name.
pub open spec fn backtrace_text(frames: Seq<FrameView>) -> Result<Seq<char>, EncodeError> {
    match rendered_lines(frames) {
        None => Err(EncodeError::MissingSymbolName),
        Some(lines) => Ok(json_of_lines(lines)),
    }
}

/// The JSON array that reports `frames`, with "no symbol" for a name that
/// is not known: one string per frame, in their order.
pub open spec fn lossy_backtrace_text(frames: Seq<FrameView>) -> Seq<char> {
    json_of_lines(lines(frames))
}

/// The JSON text of `lines`, which holds no NUL.
fn json_array(lines: &Vec<String>) -> (text: String)
    ensures
        text@ == json_of_lines(lines.deep_view()),
        !has_nul(text@),
{
    match encode_lines(lines) {
        Ok(text) => text,
        Err(_) => vstd::pervasive::unreached(),
    }
}

/// The JSON array that reports `frames`. Fails if a frame has no symbol
/// name, and on nothing else; the text can cross into the agent.
pub fn encode_backtrace(frames: &Vec<Frame>) -> (r: Result<String, EncodeError>)
    ensures
        match r {
            Ok(text) => backtrace_text(frames.deep_view()) == Ok::<Seq<char>, EncodeError>(text@)
                && !has_nul(text@),
            Err(e) => backtrace_text(frames.deep_view()) == Err::<Seq<char>, EncodeError>(e),
        },
{
    match render_frames(frames) {
        Ok(lines) => Ok(json_array(&lines)),
        Err(e) => Err(e),
    }
}

/// The JSON array that reports `frames`, with "no symbol" for a name that
/// is not known. It never fails, and the text can cross into the agent.
pub fn encode_backtrace_lossy(frames: &Vec<Frame>) -> (text: String)
    ensures
        text@ == lossy_backtrace_text(frames.deep_view()),
        !has_nul(text@),
{
    let lines = frame_lines(frames);
    json_array(&lines)
}

/// Everything that a captured stack holds, in one list: the symbols of its
/// first frame, then those of the next, and so on to the last.
pub fn frames_in(trace: &Backtrace) -> (frames: Vec<Frame>)
    ensures
        frames.deep_view() == stack_symbols(*trace).flatten(),
{
    let raw = frames_of(trace);
    let ghost held = stack_symbols(*trace);
    let mut frames: Vec<Frame> = Vec::new();
    let mut i: usize = 0;
    assert(held.take(0) =~= Seq::<Seq<FrameView>>::empty());
    assert(frames.deep_view() =~= held.take(0).flatten());
    while i < raw.len()
        invariant
            i <= raw@.len(),
            held == stack_symbols(*trace),
            raw@.len() == held.len(),
            forall|k: int| 0 <= k < raw@.len() ==> frame_symbols(#[trigger] raw@[k]) == held[k],
            frames.deep_view() == held.take(i as int).flatten(),
        decreases raw@.len() - i,
    {
        let ghost before = frames.deep_view();
        let mut symbols = symbols_of(&raw[i]);
        let ghost added = symbols.deep_view();
        frames.append(&mut symbols);
        proof {
            assert(added == held[i as int]);
            assert(frames.deep_view() =~= before + added);
            assert(held.take(i + 1) =~= held.take(i as int).push(held[i as int]));
            held.take(i as int).lemma_flatten_push(held[i as int]);
        }
        i += 1;
    }
    assert(held.take(i as int) =~= held);
    frames
}

/// The stack of the calling thread as it stands now: one entry for each
/// symbol that a frame resolved to, innermost first. Which stack that is
/// depends on where the call is made; what is returned is all that it
/// holds, in its order.
pub fn capture_frames() -> (frames: Vec<Frame>)
    ensures
        exists|trace: Backtrace| frames.deep_view() == stack_symbols(trace).flatten(),
{
    let trace = capture();
    frames_in(&trace)
}

} // verus!
