//! The byte stream written to a graph consumer's stdin for JSONL input.
//!
//! Lines keep their bytes and terminators; an LF is appended to a line that
//! lacks one, so adjacent records cannot run together. An empty line thus
//! becomes a blank line. Batch boundaries are not encoded.

use vstd::prelude::*;

use crate::framing::{is_line_split, is_terminated_line, line_views, lemma_complete_lines_split};
use crate::line::{JsonlLine, LF, ends_with_lf, is_framed, line_content, CR};

verus! {

broadcast use vstd::seq::Seq::group_seq_flatten;

/// A line as written to the wire: terminated by LF.
pub open spec fn wire_line(s: Seq<u8>) -> Seq<u8> {
    if ends_with_lf(s) {
        s
    } else {
        s.push(LF)
    }
}

/// The wire bytes of a sequence of lines.
pub open spec fn wire_of(lines: Seq<Seq<u8>>) -> Seq<u8> {
    lines.map_values(|s: Seq<u8>| wire_line(s)).flatten()
}

/// Appends the wire form of `lines` to `buffer`.
pub fn write_wire_lines(buffer: &mut Vec<u8>, lines: &Vec<JsonlLine>)
    ensures
        final(buffer)@ == old(buffer)@ + wire_of(line_views(lines@)),
{
    let ghost start = buffer@;
    let n = lines.len();
    let mut i: usize = 0;
    while i < n
        invariant
            n == lines@.len(),
            i <= n,
            buffer@ == start + wire_of(line_views(lines@.take(i as int))),
        decreases n - i,
    {
        let bytes = lines[i].as_bytes();
        let ghost before = buffer@;
        let len = bytes.len();
        let mut j: usize = 0;
        while j < len
            invariant
                j <= len,
                len == bytes@.len(),
                buffer@ == before + bytes@.take(j as int),
            decreases len - j,
        {
            buffer.push(bytes[j]);
            assert(bytes@.take(j + 1) == bytes@.take(j as int).push(bytes@[j as int]));
            j = j + 1;
        }
        assert(bytes@.take(len as int) == bytes@);
        if !(len > 0 && bytes[len - 1] == LF) {
            buffer.push(LF);
        }
        proof {
            let prev = line_views(lines@.take(i as int));
            let next = line_views(lines@.take(i + 1));
            assert(next == prev.push(lines@[i as int]@));
            let wprev = prev.map_values(|s: Seq<u8>| wire_line(s));
            let wnext = next.map_values(|s: Seq<u8>| wire_line(s));
            assert(wnext == wprev.push(wire_line(lines@[i as int]@)));
            assert(buffer@ =~= start + wprev.flatten() + wire_line(lines@[i as int]@));
        }
        i = i + 1;
    }
    assert(lines@.take(n as int) == lines@);
}

/// Encodes lines for a consumer's stdin.
pub fn wire_bytes(lines: &Vec<JsonlLine>) -> (r: Vec<u8>)
    ensures
        r@ == wire_of(line_views(lines@)),
{
    let mut buffer: Vec<u8> = Vec::new();
    write_wire_lines(&mut buffer, lines);
    buffer
}


/// The wire form of a framed line is a complete record.
pub proof fn lemma_wire_line_terminated(s: Seq<u8>)
    requires
        is_framed(s),
    ensures
        is_terminated_line(wire_line(s)),
{
    if !ends_with_lf(s) {
        assert forall|i: int| 0 <= i < wire_line(s).len() - 1 implies wire_line(s)[i] != LF by {
            assert(wire_line(s)[i] == s[i]);
            if i == s.len() - 1 {
                assert(s.last() != LF);
            }
        }
    }
}

/// Framing the bytes written for a sequence of lines yields those lines again,
/// each terminated: the wire encoding and framing round-trip.
pub proof fn lemma_wire_round_trip(lines: Seq<Seq<u8>>)
    requires
        forall|i: int| 0 <= i < lines.len() ==> is_framed(#[trigger] lines[i]),
    ensures
        is_line_split(wire_of(lines), lines.map_values(|s: Seq<u8>| wire_line(s))),
{
    let wires = lines.map_values(|s: Seq<u8>| wire_line(s));
    assert forall|i: int| 0 <= i < wires.len() implies is_terminated_line(#[trigger] wires[i]) by {
        lemma_wire_line_terminated(lines[i]);
    }
    lemma_complete_lines_split(wires, Seq::<u8>::empty());
    assert(wires.flatten() + Seq::<u8>::empty() =~= wires.flatten());
}

/// Writing a line to the wire preserves its content, except that a bare CR at
/// the end of an unterminated line becomes part of a CRLF terminator.
pub proof fn lemma_wire_line_content(s: Seq<u8>)
    requires
        ends_with_lf(s) || s.len() == 0 || s.last() != CR,
    ensures
        line_content(wire_line(s)) == line_content(s),
{
    if !ends_with_lf(s) {
        assert(wire_line(s).drop_last() =~= s);
    }
}

} // verus!
