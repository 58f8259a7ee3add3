//! Runtime-independent JSONL framing of arbitrary transport chunks.
//!
//! Framing splits at LF, preserving LF/CRLF terminators, blank lines and a
//! final unterminated line. Neither UTF-8 nor JSON is parsed. A chunk is not
//! assumed to contain complete records: bytes of an incomplete line are carried
//! over to the next chunk.

use vstd::prelude::*;

use crate::buffers::{bytes_view, bytes_as_slice, bytes_slice, bytes_from_vec};
use crate::line::{JsonlLine, LF, is_framed, ends_with_lf};
use crate::search::{find_byte, absent, is_first_index};
use bytes::Bytes;

verus! {

broadcast use vstd::seq::Seq::group_seq_flatten;

/// A complete record: LF-terminated, with no other LF.
pub open spec fn is_terminated_line(s: Seq<u8>) -> bool {
    is_framed(s) && ends_with_lf(s)
}

/// The stored bytes of each line.
pub open spec fn line_views(lines: Seq<JsonlLine>) -> Seq<Seq<u8>> {
    lines.map_values(|l: JsonlLine| l@)
}

/// `lines` splits `s` into JSONL lines: they concatenate to `s`, every line
/// but the last is a complete record, and the last line is nonempty with LF at
/// most as its final byte.
pub open spec fn is_line_split(s: Seq<u8>, lines: Seq<Seq<u8>>) -> bool {
    &&& lines.flatten() == s
    &&& forall|i: int| 0 <= i < lines.len() - 1 ==> is_terminated_line(#[trigger] lines[i])
    &&& lines.len() > 0 ==> lines.last().len() > 0 && is_framed(lines.last())
}

/// Appends `src[start..end]` to `dst`.
fn append_range(dst: &mut Vec<u8>, src: &[u8], start: usize, end: usize)
    requires
        start <= end <= src@.len(),
    ensures
        final(dst)@ == old(dst)@ + src@.subrange(start as int, end as int),
{
    let mut i = start;
    while i < end
        invariant
            start <= i <= end <= src@.len(),
            dst@ == old(dst)@ + src@.subrange(start as int, i as int),
        decreases end - i,
    {
        dst.push(src[i]);
        assert(src@.subrange(start as int, i + 1) == src@.subrange(start as int, i as int).push(
            src@[i as int],
        ));
        i = i + 1;
    }
}

/// Incremental framing state: the bytes of a line whose LF has not arrived yet.
#[derive(Debug)]
pub struct LineFramer {
    partial: Vec<u8>,
}

impl LineFramer {
    #[verifier::type_invariant]
    spec fn incomplete(self) -> bool {
        absent(self.partial@, LF)
    }

    /// Bytes received since the last complete line.
    pub closed spec fn pending(self) -> Seq<u8> {
        self.partial@
    }

    /// A framer that has received no bytes.
    pub fn new() -> (r: Self)
        ensures
            r.pending() == Seq::<u8>::empty(),
    {
        LineFramer { partial: Vec::new() }
    }

    /// Pending bytes never contain an LF.
    pub fn pending_len(&self) -> (r: usize)
        ensures
            r == self.pending().len(),
            absent(self.pending(), LF),
    {
        proof {
            use_type_invariant(self);
        }
        self.partial.len()
    }

    /// Frames one transport chunk. Returns the lines it completes, in order;
    /// bytes after the chunk's last LF stay pending. A line contained in the
    /// chunk shares the chunk's storage; a line that continues earlier bytes is
    /// copied into its own allocation.
    pub fn push_chunk(&mut self, chunk: &Bytes) -> (lines: Vec<JsonlLine>)
        ensures
            line_views(lines@).flatten() + final(self).pending() == old(self).pending()
                + bytes_view(*chunk),
            forall|i: int| 0 <= i < lines@.len() ==> is_terminated_line(#[trigger] lines@[i]@),
            forall|i: int| 0 <= i < lines@.len() ==> (#[trigger] lines@[i]) is Shared,
            absent(final(self).pending(), LF),
    {
        proof {
            use_type_invariant(&*self);
        }
        let ghost before = self.partial@;
        let mut partial: Vec<u8> = Vec::new();
        core::mem::swap(&mut partial, &mut self.partial);
        let data = bytes_as_slice(chunk);
        let n = data.len();
        let mut start: usize = 0;
        let mut lines: Vec<JsonlLine> = Vec::new();
        while start < n
            invariant
                start <= n,
                n == data@.len(),
                data@ == bytes_view(*chunk),
                absent(partial@, LF),
                line_views(lines@).flatten() + partial@ == before + data@.take(start as int),
                forall|i: int| 0 <= i < lines@.len() ==> is_terminated_line(#[trigger] lines@[i]@),
                forall|i: int| 0 <= i < lines@.len() ==> (#[trigger] lines@[i]) is Shared,
                self.partial@ == Seq::<u8>::empty(),
            decreases n - start,
        {
            let rest = vstd::slice::slice_subrange(data, start, n);
            match find_byte(LF, rest) {
                Some(off) => {
                    let end = start + off + 1;
                    let ghost piece = data@.subrange(start as int, end as int);
                    assert(piece == rest@.take(off + 1));
                    let ghost old_lines = lines@;
                    let ghost old_partial = partial@;
                    let line;
                    if partial.len() == 0 {
                        let view = bytes_slice(chunk, start, end);
                        assert(is_framed(piece));
                        line = JsonlLine::framed(view);
                        assert(line@ == partial@ + piece);
                    } else {
                        append_range(&mut partial, data, start, end);
                        let mut whole: Vec<u8> = Vec::new();
                        core::mem::swap(&mut whole, &mut partial);
                        assert forall|i: int| 0 <= i < whole@.len() - 1 implies whole@[i] != LF by {
                            if i >= whole@.len() - piece.len() {
                                assert(whole@[i] == piece[i - (whole@.len() - piece.len())]);
                            }
                        }
                        line = JsonlLine::framed(bytes_from_vec(whole));
                    }
                    assert(line@ == old_partial + piece);
                    lines.push(line);
                    proof {
                        assert(line_views(lines@) == line_views(old_lines).push(line@));
                        assert(line_views(lines@).flatten() == line_views(old_lines).flatten()
                            + line@);
                        assert(data@.take(end as int) == data@.take(start as int) + piece);
                        assert(partial@ == Seq::<u8>::empty());
                        assert(line_views(lines@).flatten() + partial@ == line_views(
                            old_lines,
                        ).flatten() + old_partial + piece);
                        assert(before + data@.take(end as int) =~= before + data@.take(start as int)
                            + piece);
                        assert(line_views(old_lines).flatten() + old_partial + piece
                            =~= line_views(old_lines).flatten() + (old_partial + piece));
                    }
                    start = end;
                },
                None => {
                    let ghost old_partial = partial@;
                    append_range(&mut partial, data, start, n);
                    assert(line_views(lines@).flatten() + partial@ =~= line_views(lines@).flatten()
                        + old_partial + data@.subrange(start as int, n as int));
                    assert(before + data@.take(n as int) =~= before + data@.take(start as int)
                        + data@.subrange(start as int, n as int));
                    assert forall|i: int| 0 <= i < partial@.len() implies partial@[i] != LF by {
                        if i >= old_partial.len() {
                            assert(partial@[i] == rest@[i - old_partial.len()]);
                        }
                    }
                    assert(data@.take(n as int) == data@);
                    assert(data@.take(start as int) + data@.subrange(start as int, n as int)
                        == data@);
                    start = n;
                },
            }
        }
        assert(data@.take(n as int) == data@);
        self.partial = partial;
        lines
    }

    /// Ends framing: the pending bytes form a final unterminated line, if any.
    pub fn finish(self) -> (r: Option<JsonlLine>)
        ensures
            r is None <==> self.pending().len() == 0,
            r matches Some(line) ==> line@ == self.pending() && is_framed(line@) && line is Shared,
    {
        proof {
            use_type_invariant(&self);
        }
        if self.partial.len() == 0 {
            None
        } else {
            Some(JsonlLine::framed(bytes_from_vec(self.partial)))
        }
    }
}


/// The first JSONL line of `s`: up to and including its first LF, or all of
/// `s` when it holds no LF.
pub open spec fn first_line(s: Seq<u8>) -> Seq<u8> {
    if exists|p: int| is_first_index(s, LF, p) {
        let p = choose|p: int| is_first_index(s, LF, p);
        s.take(p + 1)
    } else {
        s
    }
}

proof fn lemma_first_index_unique(s: Seq<u8>, p: int, q: int)
    requires
        is_first_index(s, LF, p),
        is_first_index(s, LF, q),
    ensures
        p == q,
{
    if p < q {
        assert(s[p] != LF);
    }
    if q < p {
        assert(s[q] != LF);
    }
}

/// Every line of a split is nonempty.
proof fn lemma_split_lines_nonempty(s: Seq<u8>, lines: Seq<Seq<u8>>, i: int)
    requires
        is_line_split(s, lines),
        0 <= i < lines.len(),
    ensures
        lines[i].len() > 0,
{
    if i < lines.len() - 1 {
        assert(is_terminated_line(lines[i]));
    }
}

/// The first line of any split of `s` is `first_line(s)`.
proof fn lemma_split_first_line(s: Seq<u8>, lines: Seq<Seq<u8>>)
    requires
        is_line_split(s, lines),
        lines.len() > 0,
    ensures
        lines[0] == first_line(s),
        s == lines[0] + lines.drop_first().flatten(),
{
    let l0 = lines[0];
    assert(lines.flatten() == lines.first().add(lines.drop_first().flatten()));
    assert(s == l0 + lines.drop_first().flatten());
    if lines.len() == 1 {
        assert(lines.drop_first() =~= Seq::<Seq<u8>>::empty());
        assert(s =~= l0);
        if exists|p: int| is_first_index(s, LF, p) {
            let p = choose|p: int| is_first_index(s, LF, p);
            assert(p == s.len() - 1);
            assert(s.take(p + 1) =~= s);
        }
    } else {
        assert(is_terminated_line(lines[0]));
        let p = l0.len() - 1;
        assert(s[p] == l0[p]);
        assert forall|j: int| 0 <= j < p implies s[j] != LF by {
            assert(s[j] == l0[j]);
        }
        assert(is_first_index(s, LF, p));
        let q = choose|q: int| is_first_index(s, LF, q);
        lemma_first_index_unique(s, p, q);
        assert(s.take(p + 1) =~= l0);
    }
}

/// The rest of a split, after its first line, splits the remaining bytes.
proof fn lemma_split_rest(s: Seq<u8>, lines: Seq<Seq<u8>>)
    requires
        is_line_split(s, lines),
        lines.len() > 0,
    ensures
        is_line_split(s.skip(lines[0].len() as int), lines.drop_first()),
{
    lemma_split_first_line(s, lines);
    assert(s.skip(lines[0].len() as int) =~= lines.drop_first().flatten());
    let rest = lines.drop_first();
    assert forall|i: int| 0 <= i < rest.len() - 1 implies is_terminated_line(#[trigger] rest[i]) by {
        assert(rest[i] == lines[i + 1]);
    }
}

/// A byte sequence has exactly one JSONL split: whatever chunk boundaries a
/// transport delivers, framing the concatenated bytes yields the same lines.
pub proof fn lemma_line_split_unique(s: Seq<u8>, a: Seq<Seq<u8>>, b: Seq<Seq<u8>>)
    requires
        is_line_split(s, a),
        is_line_split(s, b),
    ensures
        a == b,
    decreases a.len(),
{
    if a.len() == 0 {
        if b.len() > 0 {
            lemma_split_first_line(s, b);
            lemma_split_lines_nonempty(s, b, 0);
            assert(s.len() == 0);
        }
        assert(a =~= b);
    } else if b.len() == 0 {
        lemma_split_first_line(s, a);
        lemma_split_lines_nonempty(s, a, 0);
    } else {
        lemma_split_first_line(s, a);
        lemma_split_first_line(s, b);
        lemma_split_rest(s, a);
        lemma_split_rest(s, b);
        lemma_line_split_unique(s.skip(a[0].len() as int), a.drop_first(), b.drop_first());
        assert(a =~= seq![a[0]] + a.drop_first());
        assert(b =~= seq![b[0]] + b.drop_first());
    }
}

/// Complete lines followed by an LF-free tail split their concatenation; the
/// tail is a final unterminated line unless it is empty.
pub proof fn lemma_complete_lines_split(lines: Seq<Seq<u8>>, tail: Seq<u8>)
    requires
        forall|i: int| 0 <= i < lines.len() ==> is_terminated_line(#[trigger] lines[i]),
        absent(tail, LF),
    ensures
        is_line_split(
            lines.flatten() + tail,
            if tail.len() == 0 {
                lines
            } else {
                lines.push(tail)
            },
        ),
{
    if tail.len() == 0 {
        assert(lines.flatten() + tail =~= lines.flatten());
        if lines.len() > 0 {
            assert(is_terminated_line(lines[lines.len() - 1]));
        }
    } else {
        let all = lines.push(tail);
        assert(all.flatten() == lines.flatten() + tail);
        assert forall|i: int| 0 <= i < all.len() - 1 implies is_terminated_line(#[trigger] all[i]) by {
            assert(all[i] == lines[i]);
        }
    }
}

/// The bytes of each transport chunk; a failed chunk contributes none.
pub open spec fn chunk_views<E>(chunks: Seq<Result<Bytes, E>>) -> Seq<Seq<u8>> {
    chunks.map_values(
        |c: Result<Bytes, E>|
            match c {
                Ok(b) => bytes_view(b),
                Err(_) => Seq::<u8>::empty(),
            },
    )
}

/// The stored bytes of each framed line; an error item contributes none.
pub open spec fn item_views<E>(items: Seq<Result<JsonlLine, E>>) -> Seq<Seq<u8>> {
    items.map_values(
        |c: Result<JsonlLine, E>|
            match c {
                Ok(l) => l@,
                Err(_) => Seq::<u8>::empty(),
            },
    )
}

/// Chunks before `k` all arrived successfully.
pub open spec fn chunks_ok_before<E>(chunks: Seq<Result<Bytes, E>>, k: int) -> bool {
    forall|j: int| 0 <= j < k ==> (#[trigger] chunks[j]) is Ok
}

/// Appends each line, in order, as a successful item.
fn append_items<E>(out: &mut Vec<Result<JsonlLine, E>>, lines: Vec<JsonlLine>)
    ensures
        final(out)@ == old(out)@ + lines@.map_values(|l: JsonlLine| Ok::<JsonlLine, E>(l)),
{
    let ghost start = out@;
    for line in it: lines
        invariant
            it.seq() == lines@,
            out@ == start + it.seq().take(it.index()).map_values(
                |l: JsonlLine| Ok::<JsonlLine, E>(l),
            ),
    {
        let ghost k = it.index();
        out.push(Ok(line));
        assert(it.seq().take(k + 1) == it.seq().take(k).push(line));
        assert(out@ =~= start + it.seq().take(k + 1).map_values(
            |l: JsonlLine| Ok::<JsonlLine, E>(l),
        ));
    }
    assert(lines@.take(lines@.len() as int) == lines@);
}


/// Frames arbitrary transport chunks into lines, preserving bytes and line
/// endings. A chunk is not assumed to hold complete records. On the first
/// failed chunk, the lines completed before it are followed by that error as
/// the final item; the bytes of its incomplete line are discarded and later
/// chunks are not read.
pub fn jsonl_lines_from_chunks<E>(chunks: Vec<Result<Bytes, E>>) -> (r: Vec<Result<JsonlLine, E>>)
    ensures
        forall|i: int| 0 <= i < r@.len() ==> ((#[trigger] r@[i]) matches Ok(l) ==> l is Shared),
        chunks_ok_before(chunks@, chunks@.len() as int) ==> {
            &&& forall|i: int| 0 <= i < r@.len() ==> (#[trigger] r@[i]) is Ok
            &&& is_line_split(chunk_views(chunks@).flatten(), item_views(r@))
        },
        forall|k: int|
            0 <= k < chunks@.len() && (#[trigger] chunks@[k]) is Err && chunks_ok_before(chunks@, k)
                ==> {
                let data = chunk_views(chunks@.take(k)).flatten();
                let done = item_views(r@.drop_last()).flatten();
                &&& r@.len() > 0
                &&& r@.last() == Err::<JsonlLine, E>(chunks@[k]->Err_0)
                &&& forall|i: int|
                    0 <= i < r@.len() - 1 ==> (#[trigger] r@[i]) is Ok && is_terminated_line(
                        item_views(r@)[i],
                    )
                &&& done.len() <= data.len()
                &&& data.take(done.len() as int) == done
                &&& absent(data.skip(done.len() as int), LF)
            },
{
    let ghost all = chunks@;
    let mut source = chunks;
    let mut framer = LineFramer::new();
    let mut out: Vec<Result<JsonlLine, E>> = Vec::new();
    let mut i: usize = 0;
    assert(chunk_views(all.take(0)) =~= Seq::<Seq<u8>>::empty());
    assert(item_views(out@) =~= Seq::<Seq<u8>>::empty());
    while i < source.len()
        invariant
            source@ == all,
            all == chunks@,
            i <= all.len(),
            chunks_ok_before(all, i as int),
            forall|j: int|
                0 <= j < out@.len() ==> (#[trigger] out@[j]) is Ok && is_terminated_line(
                    item_views(out@)[j],
                ),
            item_views(out@).flatten() + framer.pending() == chunk_views(all.take(i as int)).flatten(),
            absent(framer.pending(), LF),
            forall|j: int| 0 <= j < out@.len() ==> ((#[trigger] out@[j]) matches Ok(l) ==> l is Shared),
        decreases all.len() - i,
    {
        let is_ok = source[i].is_ok();
        if is_ok {
            let ghost before = framer.pending();
            let ghost old_out = out@;
            let lines = match &source[i] {
                Ok(b) => framer.push_chunk(b),
                Err(_) => Vec::new(),
            };
            let ghost chunk = bytes_view(all[i as int]->Ok_0);
            append_items(&mut out, lines);
            proof {
                let added = lines@.map_values(|l: JsonlLine| Ok::<JsonlLine, E>(l));
                assert(item_views(out@) =~= item_views(old_out) + line_views(lines@));
                assert forall|j: int| 0 <= j < out@.len() implies (#[trigger] out@[j]) is Ok
                    && is_terminated_line(item_views(out@)[j]) by {
                    if j >= old_out.len() {
                        assert(out@[j] == added[j - old_out.len()]);
                        assert(item_views(out@)[j] == lines@[j - old_out.len()]@);
                    }
                }
                assert forall|j: int| 0 <= j < out@.len() implies ((#[trigger] out@[j]) matches Ok(
                    l,
                ) ==> l is Shared) by {
                    if j >= old_out.len() {
                        assert(out@[j] == added[j - old_out.len()]);
                    } else {
                        assert(out@[j] == old_out[j]);
                    }
                }
                vstd::seq_lib::lemma_flatten_concat(item_views(old_out), line_views(lines@));
                assert(chunk_views(all.take(i + 1)) =~= chunk_views(all.take(i as int)).push(chunk));
                assert(chunk_views(all.take(i + 1)).flatten() == chunk_views(all.take(i as int)).flatten()
                    + chunk);
                assert(item_views(out@).flatten() + framer.pending() =~= item_views(old_out).flatten()
                    + (line_views(lines@).flatten() + framer.pending()));
                assert(item_views(old_out).flatten() + (before + chunk) =~= (item_views(
                    old_out,
                ).flatten() + before) + chunk);
                assert forall|j: int| 0 <= j < i + 1 implies (#[trigger] all[j]) is Ok by {}
            }
            i = i + 1;
        } else {
            let ghost done = item_views(out@).flatten();
            let ghost rest = framer.pending();
            let item = source.remove(i);
            match item {
                Err(e) => {
                    let ghost old_out = out@;
                    out.push(Err(e));
                    proof {
                        assert(out@.drop_last() == old_out);
                        let data = chunk_views(all.take(i as int)).flatten();
                        assert(data == done + rest);
                        assert(data.take(done.len() as int) =~= done);
                        assert(data.skip(done.len() as int) =~= rest);
                        assert forall|k: int|
                            0 <= k < all.len() && (#[trigger] all[k]) is Err && chunks_ok_before(
                                all,
                                k,
                            ) implies k == i by {
                            if k < i {
                                assert(all[k] is Ok);
                            }
                            if k > i {
                                assert(all[i as int] is Ok);
                            }
                        }
                        assert forall|j: int| 0 <= j < out@.len() - 1 implies (#[trigger] out@[j]) is Ok
                            && is_terminated_line(item_views(out@)[j]) by {
                            assert(out@[j] == old_out[j]);
                            assert(item_views(out@)[j] == item_views(old_out)[j]);
                        }
                        assert(all[i as int] == Err::<Bytes, E>(e));
                        assert(out@.last() == Err::<JsonlLine, E>(all[i as int]->Err_0));
                        assert(item_views(out@.drop_last()).flatten() == done);
                        assert(!chunks_ok_before(all, all.len() as int));
                    }
                    return out;
                },
                Ok(_) => {
                    assert(false);
                    return out;
                },
            }
        }
    }
    assert(all.take(all.len() as int) =~= all);
    let ghost complete = item_views(out@);
    let ghost tail = framer.pending();
    let ghost old_out = out@;
    proof {
        assert forall|j: int| 0 <= j < complete.len() implies is_terminated_line(
            #[trigger] complete[j],
        ) by {
            assert(out@[j] is Ok);
        }
        lemma_complete_lines_split(complete, tail);
    }
    match framer.finish() {
        Some(line) => {
            out.push(Ok(line));
            assert(item_views(out@) =~= complete.push(tail));
        },
        None => {},
    }
    out
}

} // verus!
