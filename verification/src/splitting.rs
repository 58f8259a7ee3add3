//! The unique JSONL split of a byte sequence.

use vstd::prelude::*;

use crate::framing::{is_line_split, is_terminated_line, lemma_line_split_unique};
use crate::line::LF;
use crate::search::is_first_index;

verus! {

broadcast use vstd::seq::Seq::group_seq_flatten;

/// An LF at `i` means that `s` has a first LF.
proof fn lemma_has_first_lf(s: Seq<u8>, i: int)
    requires
        0 <= i < s.len(),
        s[i] == LF,
    ensures
        exists|q: int| is_first_index(s, LF, q),
    decreases i,
{
    if forall|j: int| 0 <= j < i ==> s[j] != LF {
        assert(is_first_index(s, LF, i));
    } else {
        let j = choose|j: int| 0 <= j < i && s[j] == LF;
        lemma_has_first_lf(s, j);
    }
}

/// Builds a JSONL split of `s`: its first line, then a split of the rest.
proof fn lemma_split_witness(s: Seq<u8>) -> (lines: Seq<Seq<u8>>)
    ensures
        is_line_split(s, lines),
    decreases s.len(),
{
    if s.len() == 0 {
        let lines = Seq::<Seq<u8>>::empty();
        assert(lines.flatten() =~= s);
        lines
    } else if exists|p: int| is_first_index(s, LF, p) {
        let p = choose|p: int| is_first_index(s, LF, p);
        let head = s.take(p + 1);
        let rest = s.skip(p + 1);
        let tail = lemma_split_witness(rest);
        let lines = seq![head] + tail;
        vstd::seq_lib::lemma_flatten_concat(seq![head], tail);
        assert(seq![head].flatten() =~= head) by {
            assert(seq![head].drop_first() =~= Seq::<Seq<u8>>::empty());
        }
        assert(head + rest =~= s);
        assert(is_terminated_line(head)) by {
            assert forall|i: int| 0 <= i < head.len() - 1 implies head[i] != LF by {
                assert(head[i] == s[i]);
            }
        }
        assert forall|i: int| 0 <= i < lines.len() - 1 implies is_terminated_line(
            #[trigger] lines[i],
        ) by {
            if i > 0 {
                assert(lines[i] == tail[i - 1]);
            }
        }
        if tail.len() > 0 {
            assert(lines.last() == tail.last());
        }
        lines
    } else {
        let lines = seq![s];
        assert(lines.flatten() =~= s) by {
            assert(lines.drop_first() =~= Seq::<Seq<u8>>::empty());
        }
        assert forall|i: int| 0 <= i < s.len() - 1 implies s[i] != LF by {
            if s[i] == LF {
                lemma_has_first_lf(s, i);
            }
        }
        lines
    }
}

/// The JSONL lines of `s`: every byte sequence has exactly one split.
pub open spec fn line_split(s: Seq<u8>) -> Seq<Seq<u8>> {
    choose|lines: Seq<Seq<u8>>| is_line_split(s, lines)
}

/// `line_split(s)` splits `s`, and it is the only split of `s`.
pub proof fn lemma_line_split(s: Seq<u8>)
    ensures
        is_line_split(s, line_split(s)),
        forall|lines: Seq<Seq<u8>>| #[trigger] is_line_split(s, lines) ==> lines == line_split(s),
{
    let w = lemma_split_witness(s);
    assert(is_line_split(s, w));
    let c = line_split(s);
    assert forall|lines: Seq<Seq<u8>>| #[trigger] is_line_split(s, lines) implies lines == c by {
        lemma_line_split_unique(s, lines, c);
    }
}

} // verus!
