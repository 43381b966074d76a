//! The host's emergency log: lines out of a stream of bytes, and which are shown.
use vstd::prelude::*;
use vstd::utf8::valid_utf8;

verus! {

/// Most bytes of a line.
pub const HOST_EMERG_LINE_BUFFER_CAPACITY: usize = 4096;

/// The length at which a line is cut.
pub const HOST_EMERG_FORCE_FLUSH_THRESHOLD: usize = 512;

const NEWLINE: u8 = 10;

/// The lines of a stream so far, and the line that is being filled.
#[verifier::ext_equal]
pub struct LineState {
    pub lines: Seq<Seq<u8>>,
    pub line: Seq<u8>,
    /// How many more bytes memory allows.
    pub granted: int,
}

impl LineState {
    /// The line that is being filled is done.
    pub open spec fn flushed(self) -> LineState {
        LineState { lines: self.lines.push(self.line), line: seq![], ..self }
    }

    /// After one more byte: a newline ends the line; any other byte is added where
    /// memory allows, and a long line is cut.
    pub open spec fn fed(self, byte: u8) -> LineState {
        if byte == 10 {
            self.flushed()
        } else {
            let longer = if self.line.len() < HOST_EMERG_LINE_BUFFER_CAPACITY && self.granted > 0 {
                LineState { line: self.line.push(byte), granted: self.granted - 1, ..self }
            } else {
                self
            };
            if longer.line.len() >= HOST_EMERG_FORCE_FLUSH_THRESHOLD {
                longer.flushed()
            } else {
                longer
            }
        }
    }
}

/// The stream after bytes.
pub open spec fn fed_all(s: LineState, bytes: Seq<u8>) -> LineState
    decreases bytes.len(),
{
    if bytes.len() == 0 {
        s
    } else {
        fed_all(s, bytes.drop_last()).fed(bytes.last())
    }
}

/// The lines of a write: the line that is left at the end counts too.
pub open spec fn emerg_lines(line: Seq<u8>, bytes: Seq<u8>, granted: int) -> Seq<Seq<u8>> {
    let end = fed_all(LineState { lines: seq![], line, granted }, bytes);
    if end.line.len() > 0 {
        end.flushed().lines
    } else {
        end.lines
    }
}

/// The contents of lines.
pub open spec fn line_views(lines: Seq<Vec<u8>>) -> Seq<Seq<u8>> {
    Seq::new(lines.len(), |i: int| lines[i]@)
}

/// The buffer of the line that is being filled. It is empty between writes.
pub struct EmergBuffer {
    pub line: Vec<u8>,
}

impl View for EmergBuffer {
    type V = Seq<u8>;

    open spec fn view(&self) -> Seq<u8> {
        self.line@
    }
}

fn flush_line(buffer: &mut EmergBuffer, lines: &mut Vec<Vec<u8>>)
    ensures
        final(buffer)@ == Seq::<u8>::empty(),
        line_views(final(lines)@) == line_views(old(lines)@).push(old(buffer)@),
{
    let mut line: Vec<u8> = Vec::new();
    line.append(&mut buffer.line);
    assert(line@ =~= old(buffer)@);
    lines.push(line);
    assert(line_views(lines@) =~= line_views(old(lines)@).push(old(buffer)@));
}

impl EmergBuffer {
    /// No line yet.
    pub fn new() -> (b: EmergBuffer)
        ensures
            b@ == Seq::<u8>::empty(),
    {
        EmergBuffer { line: Vec::new() }
    }

    /// Writes bytes and gives the lines they make. `granted` is the number of bytes
    /// that memory allows.
    pub fn host_emerg_write_buffered(&mut self, bytes: &[u8], granted: usize) -> (lines: Vec<Vec<u8>>)
        ensures
            line_views(lines@) == emerg_lines(old(self)@, bytes@, granted as int),
            final(self)@ == Seq::<u8>::empty(),
    {
        let mut lines: Vec<Vec<u8>> = Vec::new();
        let ghost start = LineState { lines: seq![], line: self@, granted: granted as int };
        let mut left: usize = granted;
        let mut i: usize = 0;
        proof {
            assert(bytes@.take(0) =~= seq![]);
            assert(line_views(lines@) =~= seq![]);
        }
        while i < bytes.len()
            invariant
                i <= bytes@.len(),
                fed_all(start, bytes@.take(i as int)) == (LineState {
                    lines: line_views(lines@),
                    line: self@,
                    granted: left as int,
                }),
            decreases bytes@.len() - i,
        {
            let byte: u8 = bytes[i];
            proof {
                let t = bytes@.take(i + 1);
                assert(t.drop_last() =~= bytes@.take(i as int));
                assert(t.last() == byte);
            }
            i += 1;
            if byte == NEWLINE {
                flush_line(self, &mut lines);
            } else {
                if self.line.len() < HOST_EMERG_LINE_BUFFER_CAPACITY && left > 0 {
                    self.line.push(byte);
                    left -= 1;
                }
                if self.line.len() >= HOST_EMERG_FORCE_FLUSH_THRESHOLD {
                    flush_line(self, &mut lines);
                }
            }
        }
        assert(bytes@.take(bytes@.len() as int) =~= bytes@);
        if self.line.len() > 0 {
            flush_line(self, &mut lines);
        }
        assert(self@ =~= Seq::<u8>::empty());
        lines
    }

    /// Writes a message as a line of its own, after whatever it is cut into.
    pub fn adapter_emerg(&mut self, msg: &str, granted: usize) -> (lines: Vec<Vec<u8>>)
        ensures
            final(self)@ == Seq::<u8>::empty(),
            line_views(lines@) == emerg_lines(old(self)@, vstd::utf8::encode_utf8(msg@), granted as int).push(
                Seq::<u8>::empty(),
            ),
    {
        let mut lines = self.host_emerg_write_buffered(msg.as_bytes(), granted);
        let newline: [u8; 1] = [NEWLINE];
        let ghost before = self@;
        let mut last = self.host_emerg_write_buffered(&newline, 1);
        proof {
            let start = LineState { lines: seq![], line: before, granted: 1 };
            assert(newline@.drop_last() =~= seq![]);
            reveal_with_fuel(fed_all, 2);
            assert(fed_all(start, newline@) == start.flushed());
            assert(line_views(last@) =~= seq![Seq::<u8>::empty()]);
        }
        let ghost l0 = lines@;
        let ghost l1 = last@;
        lines.append(&mut last);
        assert(line_views(lines@) =~= line_views(l0) + line_views(l1));
        assert(line_views(lines@) =~= line_views(l0).push(Seq::<u8>::empty()));
        lines
    }
}

/// Writes bytes for a caller; without bytes there are no lines.
pub fn axvisor_linux_host_emerg_write_bytes(buffer: &mut EmergBuffer, bytes: Option<&[u8]>, granted: usize) -> (lines:
    Vec<Vec<u8>>)
    ensures
        (match bytes {
            Some(bytes) => bytes@.len() == 0,
            None => true,
        }) ==> lines@.len() == 0 && final(buffer)@ == old(buffer)@,
        bytes matches Some(bytes) ==> bytes@.len() > 0 ==> {
            &&& line_views(lines@) == emerg_lines(old(buffer)@, bytes@, granted as int)
            &&& final(buffer)@ == Seq::<u8>::empty()
        },
{
    match bytes {
        None => Vec::new(),
        Some(bytes) => if bytes.len() == 0 {
            Vec::new()
        } else {
            buffer.host_emerg_write_buffered(bytes, granted)
        },
    }
}

/// What becomes of a line.
#[derive(Clone, Copy, Debug, PartialEq, Eq, Structural)]
pub enum EmergLine {
    /// It is shown.
    Show,
    /// It is too noisy to show.
    Drop,
    /// It is no text: only its length is shown.
    NotText,
}

/// `line` begins with `prefix`.
pub open spec fn begins_with(line: Seq<u8>, prefix: Seq<u8>) -> bool {
    prefix.len() <= line.len() && line.take(prefix.len() as int) == prefix
}

/// `line` has `part` in it.
pub open spec fn has_part(line: Seq<u8>, part: Seq<u8>) -> bool {
    exists|i: int| 0 <= i <= line.len() - part.len() && #[trigger] line.subrange(i, i + part.len()) == part
}

/// The bytes of a text.
pub open spec fn text_bytes(text: &str) -> Seq<u8> {
    vstd::utf8::encode_utf8(text@)
}

/// A line that says nothing new.
pub open spec fn noisy_line(line: Seq<u8>) -> bool {
    ||| begins_with(line, text_bytes("shell::read byte"))
    ||| begins_with(line, text_bytes("vcpus::exit_reason nothing count="))
    ||| begins_with(line, text_bytes("riscv_vcpu::nothing count="))
}

/// A preview of guest console output that is worth showing.
pub open spec fn wanted_preview(line: Seq<u8>) -> bool {
    ||| has_part(line, text_bytes("Hello, world!"))
    ||| has_part(line, text_bytes("preview=\"\\n       d8888"))
    ||| has_part(line, text_bytes("preview=\"arch = "))
    ||| has_part(line, text_bytes("preview=\"8P\\\"   d88P\\\""))
}

/// What becomes of a line: noise is dropped, and so are previews of guest console
/// output but for the wanted ones and the raw ones.
pub open spec fn line_fate(line: Seq<u8>) -> EmergLine {
    if !valid_utf8(line) {
        EmergLine::NotText
    } else if !noisy_line(line) && (begins_with(line, text_bytes("dbcn_write_raw[")) || !begins_with(
        line,
        text_bytes("dbcn_write["),
    ) || wanted_preview(line)) {
        EmergLine::Show
    } else {
        EmergLine::Drop
    }
}

/// `core::str::from_utf8`: it succeeds exactly on valid UTF-8.
#[verifier::external_body]
fn is_utf8(line: &[u8]) -> (r: bool)
    ensures
        r == valid_utf8(line@),
{
    core::str::from_utf8(line).is_ok()
}

fn starts_with_text(line: &[u8], text: &str) -> (r: bool)
    ensures
        r == begins_with(line@, text_bytes(text)),
{
    let prefix: &[u8] = text.as_bytes();
    if prefix.len() > line.len() {
        return false;
    }
    let mut i: usize = 0;
    while i < prefix.len()
        invariant
            i <= prefix@.len() <= line@.len(),
            prefix@ == text_bytes(text),
            forall|j: int| 0 <= j < i ==> line@[j] == prefix@[j],
        decreases prefix@.len() - i,
    {
        if line[i] != prefix[i] {
            proof {
                assert(line@.take(prefix@.len() as int)[i as int] != prefix@[i as int]);
            }
            return false;
        }
        i += 1;
    }
    assert(line@.take(prefix@.len() as int) =~= prefix@);
    true
}

fn contains_text(line: &[u8], text: &str) -> (r: bool)
    ensures
        r == has_part(line@, text_bytes(text)),
{
    let part: &[u8] = text.as_bytes();
    if part.len() > line.len() {
        return false;
    }
    let last: usize = line.len() - part.len();
    let mut at: usize = 0;
    loop
        invariant
            at <= last,
            last + part@.len() == line@.len(),
            part@ == text_bytes(text),
            forall|i: int| 0 <= i < at ==> #[trigger] line@.subrange(i, i + part@.len()) != part@,
        decreases last - at,
    {
        let mut i: usize = 0;
        let total: usize = line.len();
        while i < part.len() && line[at + i] == part[i]
            invariant
                at <= last,
                total == line@.len(),
                i <= part@.len(),
                last + part@.len() == line@.len(),
                forall|j: int| 0 <= j < i ==> line@[at + j] == part@[j],
            decreases part@.len() - i,
        {
            i += 1;
        }
        if i == part.len() {
            assert(line@.subrange(at as int, at + part@.len()) =~= part@);
            return true;
        }
        assert(line@.subrange(at as int, at + part@.len())[i as int] != part@[i as int]);
        if at == last {
            return false;
        }
        at += 1;
    }
}

/// Decides what becomes of a line.
pub fn host_emerg_flush_line_bytes(line: &[u8]) -> (fate: EmergLine)
    ensures
        fate == line_fate(line@),
{
    if !is_utf8(line) {
        return EmergLine::NotText;
    }
    let noisy: bool = starts_with_text(line, "shell::read byte") || starts_with_text(
        line,
        "vcpus::exit_reason nothing count=",
    ) || starts_with_text(line, "riscv_vcpu::nothing count=");
    let is_preview: bool = starts_with_text(line, "dbcn_write[");
    let is_raw_preview: bool = starts_with_text(line, "dbcn_write_raw[");
    let wanted: bool = contains_text(line, "Hello, world!") || contains_text(
        line,
        "preview=\"\\n       d8888",
    ) || contains_text(line, "preview=\"arch = ") || contains_text(line, "preview=\"8P\\\"   d88P\\\"");
    if !noisy && (is_raw_preview || !is_preview || wanted) {
        EmergLine::Show
    } else {
        EmergLine::Drop
    }
}

/// The bytes of lines, one after the other.
pub open spec fn joined(lines: Seq<Seq<u8>>) -> Seq<u8>
    decreases lines.len(),
{
    if lines.len() == 0 {
        seq![]
    } else {
        joined(lines.drop_last()) + lines.last()
    }
}

/// Bytes without newlines.
pub open spec fn without_newlines(bytes: Seq<u8>) -> Seq<u8>
    decreases bytes.len(),
{
    if bytes.len() == 0 {
        seq![]
    } else if bytes.last() == 10 {
        without_newlines(bytes.drop_last())
    } else {
        without_newlines(bytes.drop_last()).push(bytes.last())
    }
}

proof fn lemma_fed_keeps_bytes(bytes: Seq<u8>, granted: int)
    requires
        granted >= bytes.len(),
    ensures
        ({
            let s = fed_all(LineState { lines: seq![], line: seq![], granted }, bytes);
            &&& joined(s.lines) + s.line == without_newlines(bytes)
            &&& s.line.len() < HOST_EMERG_FORCE_FLUSH_THRESHOLD
            &&& s.granted >= granted - bytes.len()
            &&& forall|i: int| 0 <= i < s.lines.len() ==> (#[trigger] s.lines[i]).len() <= HOST_EMERG_FORCE_FLUSH_THRESHOLD
        }),
    decreases bytes.len(),
{
    let start = LineState { lines: seq![], line: seq![], granted };
    if bytes.len() == 0 {
        assert(joined(start.lines) + start.line =~= seq![]);
    } else {
        let rest = bytes.drop_last();
        lemma_fed_keeps_bytes(rest, granted);
        let p = fed_all(start, rest);
        let byte = bytes.last();
        let s = p.fed(byte);
        assert(fed_all(start, bytes) == s);
        if byte == 10 {
            assert(s.lines.drop_last() =~= p.lines);
            assert(joined(s.lines) + s.line =~= joined(p.lines) + p.line);
        } else {
            let longer = p.line.push(byte);
            if longer.len() >= HOST_EMERG_FORCE_FLUSH_THRESHOLD {
                assert(s.lines.drop_last() =~= p.lines);
                assert(s.lines.last() == longer);
                assert(joined(s.lines) + s.line =~= (joined(p.lines) + p.line).push(byte));
            } else {
                assert(joined(s.lines) + s.line =~= (joined(p.lines) + p.line).push(byte));
            }
        }
    }
}

/// With memory for all of it, a write to an empty buffer loses nothing but the
/// newlines: its lines joined are its bytes without them, and no line is longer
/// than the length at which lines are cut.
pub proof fn emerg_lines_keep_the_bytes(bytes: Seq<u8>, granted: int)
    requires
        granted >= bytes.len(),
    ensures
        joined(emerg_lines(seq![], bytes, granted)) == without_newlines(bytes),
        forall|i: int|
            0 <= i < emerg_lines(seq![], bytes, granted).len() ==> (#[trigger] emerg_lines(
                seq![],
                bytes,
                granted,
            )[i]).len() <= HOST_EMERG_FORCE_FLUSH_THRESHOLD,
{
    lemma_fed_keeps_bytes(bytes, granted);
    let s = fed_all(LineState { lines: seq![], line: seq![], granted }, bytes);
    if s.line.len() > 0 {
        let all = s.flushed().lines;
        assert(all.drop_last() =~= s.lines);
        assert(joined(all) =~= joined(s.lines) + s.line);
    } else {
        assert(joined(s.lines) =~= joined(s.lines) + s.line);
    }
}

} // verus!
