//! The host's emergency log.
use vstd::prelude::*;
use vstd::utf8::{encode_utf8, valid_utf8};

use crate::emerg::{
    axvisor_linux_host_emerg_write_bytes, begins_with, emerg_lines, emerg_lines_keep_the_bytes, fed_all, has_part,
    host_emerg_flush_line_bytes, joined, line_views, without_newlines, EmergBuffer, EmergLine, LineState,
};

verus! {

/// The bytes of lines one after the other.
pub open spec fn all_bytes(lines: Seq<Vec<u8>>) -> Seq<u8>
    decreases lines.len(),
{
    if lines.len() == 0 {
        seq![]
    } else {
        all_bytes(lines.drop_last()) + lines.last()@
    }
}

/// Bytes without the newlines among them.
pub open spec fn no_newlines(bytes: Seq<u8>) -> Seq<u8> {
    bytes.filter(|b: u8| b != 10)
}

proof fn lemma_no_newlines(bytes: Seq<u8>)
    ensures
        without_newlines(bytes) == no_newlines(bytes),
    decreases bytes.len(),
{
    reveal(Seq::filter);
    if bytes.len() > 0 {
        lemma_no_newlines(bytes.drop_last());
    }
}

proof fn lemma_joined(lines: Seq<Vec<u8>>)
    ensures
        joined(line_views(lines)) == all_bytes(lines),
    decreases lines.len(),
{
    if lines.len() > 0 {
        lemma_joined(lines.drop_last());
        assert(line_views(lines).drop_last() =~= line_views(lines.drop_last()));
    }
}

/// With memory for all of it, a write into an empty buffer gives all of its bytes but the
/// newlines, in order, in lines that are cut at 512 bytes, and leaves nothing in the buffer.
pub proof fn written_bytes_come_out_as_lines(b: &mut EmergBuffer, bytes: &[u8], granted: usize, lines: Vec<Vec<u8>>, i: int)
    requires
        old(b).line@.len() == 0,
        granted >= bytes@.len(),
        call_ensures(EmergBuffer::host_emerg_write_buffered, (b, bytes, granted), lines),
    ensures
        all_bytes(lines@) == no_newlines(bytes@),
        0 <= i < lines@.len() ==> lines@[i]@.len() <= 512,
        final(b).line@.len() == 0,
{
    assert(old(b)@ =~= seq![]);
    emerg_lines_keep_the_bytes(bytes@, granted as int);
    lemma_no_newlines(bytes@);
    lemma_joined(lines@);
    if 0 <= i < lines@.len() {
        assert(line_views(lines@)[i] == lines@[i]@);
    }
}

proof fn lemma_one_line(line: Seq<u8>, bytes: Seq<u8>, granted: int)
    requires
        line.len() + bytes.len() < 512,
        granted >= bytes.len(),
        forall|i: int| 0 <= i < bytes.len() ==> #[trigger] bytes[i] != 10,
    ensures
        fed_all(LineState { lines: seq![], line, granted }, bytes) == (LineState {
            lines: seq![],
            line: line + bytes,
            granted: granted - bytes.len(),
        }),
    decreases bytes.len(),
{
    let start = LineState { lines: seq![], line, granted };
    if bytes.len() == 0 {
        assert(line + bytes =~= line);
    } else {
        let rest = bytes.drop_last();
        assert forall|i: int| 0 <= i < rest.len() implies #[trigger] rest[i] != 10 by {
            assert(bytes[i] != 10);
        }
        lemma_one_line(line, rest, granted);
        assert(bytes[bytes.len() - 1] != 10);
        assert((line + rest).push(bytes.last()) =~= line + bytes);
    }
}

/// A short write without a newline is one line: the bytes that waited and its own.
pub proof fn short_write_is_one_line(b: &mut EmergBuffer, bytes: &[u8], granted: usize, lines: Vec<Vec<u8>>)
    requires
        old(b).line@.len() + bytes@.len() < 512,
        bytes@.len() > 0,
        granted >= bytes@.len(),
        forall|i: int| 0 <= i < bytes@.len() ==> #[trigger] bytes@[i] != 10,
        call_ensures(EmergBuffer::host_emerg_write_buffered, (b, bytes, granted), lines),
    ensures
        lines@.len() == 1,
        lines@[0]@ == old(b).line@ + bytes@,
{
    lemma_one_line(old(b)@, bytes@, granted as int);
    assert(line_views(lines@).len() == 1);
    assert(line_views(lines@)[0] == lines@[0]@);
}

proof fn lemma_newline_ends(line: Seq<u8>, bytes: Seq<u8>, granted: int)
    requires
        line.len() + bytes.len() < 512,
        granted >= bytes.len(),
        forall|i: int| 0 <= i < bytes.len() ==> #[trigger] bytes[i] != 10,
    ensures
        emerg_lines(line, bytes.push(10u8), granted) == seq![line + bytes],
{
    lemma_one_line(line, bytes, granted);
    let all = bytes.push(10u8);
    assert(all.drop_last() =~= bytes);
    assert(all.last() == 10);
    assert(emerg_lines(line, all, granted) =~= seq![line + bytes]);
}

/// A newline ends a line, and is not in it.
pub proof fn newline_ends_a_line(b: &mut EmergBuffer, bytes: &[u8], granted: usize, lines: Vec<Vec<u8>>)
    requires
        bytes@.len() > 0,
        bytes@.last() == 10,
        old(b).line@.len() + bytes@.len() <= 512,
        granted >= bytes@.len(),
        forall|i: int| 0 <= i < bytes@.len() - 1 ==> #[trigger] bytes@[i] != 10,
        call_ensures(EmergBuffer::host_emerg_write_buffered, (b, bytes, granted), lines),
    ensures
        lines@.len() == 1,
        lines@[0]@ == old(b).line@ + bytes@.drop_last(),
{
    let text = bytes@.drop_last();
    assert forall|i: int| 0 <= i < text.len() implies #[trigger] text[i] != 10 by {
        assert(bytes@[i] != 10);
    }
    lemma_newline_ends(old(b)@, text, granted as int);
    assert(text.push(10u8) =~= bytes@);
    assert(line_views(lines@).len() == 1);
    assert(line_views(lines@)[0] == lines@[0]@);
}

/// Bytes for which there is no memory are lost, and nothing else is: without any, a write
/// without a newline leaves only what waited.
pub proof fn without_memory_bytes_are_lost(b: &mut EmergBuffer, bytes: &[u8], lines: Vec<Vec<u8>>)
    requires
        0 < old(b).line@.len() < 512,
        forall|i: int| 0 <= i < bytes@.len() ==> #[trigger] bytes@[i] != 10,
        call_ensures(EmergBuffer::host_emerg_write_buffered, (b, bytes, 0usize), lines),
    ensures
        lines@.len() == 1,
        lines@[0]@ == old(b).line@,
{
    lemma_nothing_added(old(b)@, bytes@);
    assert(line_views(lines@).len() == 1);
    assert(line_views(lines@)[0] == lines@[0]@);
}

proof fn lemma_nothing_added(line: Seq<u8>, bytes: Seq<u8>)
    requires
        line.len() < 512,
        forall|i: int| 0 <= i < bytes.len() ==> #[trigger] bytes[i] != 10,
    ensures
        fed_all(LineState { lines: seq![], line, granted: 0 }, bytes) == (LineState { lines: seq![], line, granted: 0 }),
    decreases bytes.len(),
{
    if bytes.len() > 0 {
        let rest = bytes.drop_last();
        assert forall|i: int| 0 <= i < rest.len() implies #[trigger] rest[i] != 10 by {
            assert(bytes[i] != 10);
        }
        lemma_nothing_added(line, rest);
        assert(bytes[bytes.len() - 1] != 10);
    }
}

/// A caller's bytes are written as they are, and without bytes there are no lines; a message
/// is written as its bytes, with an empty line after it.
pub proof fn callers_bytes_are_written(
    b: &mut EmergBuffer,
    given: Option<&[u8]>,
    granted: usize,
    lines: Vec<Vec<u8>>,
    c: &mut EmergBuffer,
    bytes: &[u8],
    same: Vec<Vec<u8>>,
    d: &mut EmergBuffer,
    msg: &str,
    told: Vec<Vec<u8>>,
    i: int,
)
    requires
        old(c).line@ == old(b).line@,
        old(d).line@ == old(b).line@,
        call_ensures(axvisor_linux_host_emerg_write_bytes, (b, given, granted), lines),
        call_ensures(EmergBuffer::host_emerg_write_buffered, (c, bytes, granted), same),
        call_ensures(EmergBuffer::adapter_emerg, (d, msg, granted), told),
        0 <= i < same@.len(),
    ensures
        given is None ==> lines@.len() == 0 && final(b).line@ == old(b).line@,
        given matches Some(g) ==> g@.len() == 0 ==> lines@.len() == 0,
        given matches Some(g) ==> g@.len() > 0 && g@ == bytes@ ==> lines@.len() == same@.len() && lines@[i]@ == same@[i]@
            && final(b).line@.len() == 0,
        bytes@ == encode_utf8(msg@) ==> {
            &&& told@.len() == same@.len() + 1
            &&& told@[i]@ == same@[i]@
            &&& told@[told@.len() - 1]@.len() == 0
        },
{
    assert(line_views(same@)[i] == same@[i]@);
    assert(line_views(same@).len() == same@.len());
    assert(line_views(lines@).len() == lines@.len());
    assert(line_views(told@).len() == told@.len());
    if let Some(g) = given {
        if g@.len() > 0 && g@ == bytes@ {
            assert(line_views(lines@) == line_views(same@));
            assert(line_views(lines@)[i] == lines@[i]@);
        }
    }
    if bytes@ == encode_utf8(msg@) {
        let all = line_views(same@).push(Seq::<u8>::empty());
        assert(line_views(told@) == all);
        assert(line_views(told@)[i] == told@[i]@);
        assert(line_views(told@)[told@.len() - 1] == told@[told@.len() - 1]@);
    }
}

/// A line that is no text is not shown as one. Of texts, those that begin as the three noisy
/// ones do are dropped, and so is a preview of guest output without one of the four wanted
/// parts; a raw preview and every other line is shown.
pub proof fn noise_is_dropped(line: &[u8], fate: EmergLine)
    requires
        call_ensures(host_emerg_flush_line_bytes, (line,), fate),
    ensures
        ({
            let begins = |t: &str| begins_with(line@, encode_utf8(t@));
            let has = |t: &str| has_part(line@, encode_utf8(t@));
            let noisy = begins("shell::read byte") || begins("vcpus::exit_reason nothing count=") || begins(
                "riscv_vcpu::nothing count=",
            );
            let wanted = has("Hello, world!") || has("preview=\"\\n       d8888") || has("preview=\"arch = ") || has(
                "preview=\"8P\\\"   d88P\\\"",
            );
            &&& fate is NotText <==> !valid_utf8(line@)
            &&& noisy && valid_utf8(line@) ==> fate is Drop
            &&& !noisy && valid_utf8(line@) && begins("dbcn_write_raw[") ==> fate is Show
            &&& !noisy && valid_utf8(line@) && !begins("dbcn_write_raw[") && begins("dbcn_write[") ==> (fate is Show
                <==> wanted)
            &&& !noisy && valid_utf8(line@) && !begins("dbcn_write_raw[") && !begins("dbcn_write[") ==> fate is Show
        }),
{
}

/// The bytes of a part stand in a line from a place on.
pub open spec fn stands_at(line: Seq<u8>, part: Seq<u8>, at: int) -> bool {
    &&& 0 <= at <= line.len() - part.len()
    &&& forall|i: int| 0 <= i < part.len() ==> #[trigger] part[i] == line[at + i]
}

/// To begin with bytes is to have them at the start, and to have a part is to have its bytes
/// one after the other somewhere.
pub proof fn beginning_and_part(line: Seq<u8>, part: Seq<u8>)
    ensures
        begins_with(line, part) <==> stands_at(line, part, 0),
        has_part(line, part) <==> exists|at: int| stands_at(line, part, at),
{
    assert forall|at: int| stands_at(line, part, at) implies line.subrange(at, at + part.len()) == part by {
        assert(line.subrange(at, at + part.len()) =~= part);
    }
    assert forall|at: int|
        0 <= at <= line.len() - part.len() && #[trigger] line.subrange(at, at + part.len()) == part implies stands_at(
        line,
        part,
        at,
    ) by {
        assert forall|i: int| 0 <= i < part.len() implies #[trigger] part[i] == line[at + i] by {
            assert(line.subrange(at, at + part.len())[i] == line[at + i]);
        }
    }
}

} // verus!
