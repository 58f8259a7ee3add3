//! Parsing a resolver's captured output: UTF-8 absolute URLs, one per line,
//! kept in order and spelled exactly as written.

use vstd::prelude::*;
use vstd::string::*;
use vstd::utf8::{valid_utf8, decode_utf8};

use crate::framing::{is_line_split, is_terminated_line};
use crate::line::{LF, CR, line_content};
use crate::search::find_byte;
use crate::splitting::{line_split, lemma_line_split};
use crate::text::{decimal, decimal_spec};
use crate::uri::{is_absolute_uri, is_absolute_uri_text};
use crate::utf8::utf8_str;

verus! {

broadcast use vstd::seq::Seq::group_seq_flatten;

/// Malformed resolver output, reported as I/O `InvalidData`.
#[derive(Clone, Copy, Debug, PartialEq, Eq, Structural)]
pub enum ResolverOutputError {
    /// The output is not valid UTF-8.
    InvalidUtf8,
    /// The record on this one-based line is blank or not an absolute URL.
    InvalidRecord { line: usize },
}

/// The URL text of one output line: the line without its LF or CRLF
/// terminator, decoded from UTF-8.
pub open spec fn record_text(line: Seq<u8>) -> Seq<char> {
    decode_utf8(line_content(line))
}

/// The record on a line is an acceptable URL.
pub open spec fn record_ok(line: Seq<u8>) -> bool {
    is_absolute_uri(record_text(line))
}

/// What parsing `bytes` yields: an error for invalid UTF-8; otherwise the URL
/// of every line when all are acceptable, or the one-based number of the
/// first unacceptable line.
pub open spec fn parse_result(bytes: Seq<u8>, r: Result<Vec<String>, ResolverOutputError>) -> bool {
    let lines = line_split(bytes);
    if !valid_utf8(bytes) {
        r == Err::<Vec<String>, ResolverOutputError>(ResolverOutputError::InvalidUtf8)
    } else {
        match r {
            Ok(urls) => {
                &&& urls@.len() == lines.len()
                &&& forall|i: int| 0 <= i < lines.len() ==> #[trigger] record_ok(lines[i])
                &&& forall|i: int| 0 <= i < lines.len() ==> (#[trigger] urls@[i])@ == record_text(
                    lines[i],
                )
            },
            Err(ResolverOutputError::InvalidRecord { line }) => {
                &&& 1 <= line <= lines.len()
                &&& !record_ok(lines[line - 1])
                &&& forall|j: int| 0 <= j < line - 1 ==> #[trigger] record_ok(lines[j])
            },
            Err(ResolverOutputError::InvalidUtf8) => false,
        }
    }
}

/// An ASCII byte at `p` in valid UTF-8 starts a character.
proof fn lemma_ascii_boundary(b: Seq<u8>, p: int)
    requires
        valid_utf8(b),
        0 <= p < b.len(),
        b[p] < 0x80,
    ensures
        vstd::utf8::is_char_boundary(b, p),
{
    vstd::utf8::is_char_boundary_iff_is_leading_byte(b, p);
}

/// After a leading ASCII byte, the next byte starts a character.
proof fn lemma_after_ascii_boundary(b: Seq<u8>)
    requires
        valid_utf8(b),
        b.len() > 0,
        b[0] < 0x80,
    ensures
        vstd::utf8::is_char_boundary(b, 1),
{
    reveal_with_fuel(vstd::utf8::is_char_boundary, 2);
    assert(vstd::utf8::length_of_first_scalar(b) == 1);
}

/// The text of a string is the decoding of its bytes.
proof fn lemma_text_of_bytes(t: &str)
    ensures
        t@ == decode_utf8(t.spec_bytes()),
        valid_utf8(t.spec_bytes()),
{
    vstd::utf8::encode_utf8_decode_utf8(t@);
    vstd::utf8::encode_utf8_valid_utf8(t@);
}

/// Parses resolver output into its URLs. Lines end at LF; a CRLF terminator
/// and a final unterminated line are accepted; every record must be a
/// nonempty absolute URL without whitespace or control characters. URLs are
/// checked, never normalized, and keep their order and duplicates.
pub fn parse_urls(bytes: &[u8]) -> (r: Result<Vec<String>, ResolverOutputError>)
    ensures
        parse_result(bytes@, r),
{
    proof {
        lemma_line_split(bytes@);
    }
    let text = match utf8_str(bytes) {
        Some(t) => t,
        None => return Err(ResolverOutputError::InvalidUtf8),
    };
    proof {
        vstd::utf8::decode_utf8_encode_utf8(bytes@);
        lemma_text_of_bytes(text);
    }
    let mut rest: &str = text;
    let mut urls: Vec<String> = Vec::new();
    let ghost mut done: Seq<Seq<u8>> = Seq::empty();
    let mut index: usize = 0;
    let total = bytes.len();
    assert(done.flatten() =~= Seq::<u8>::empty());
    assert(rest.spec_bytes() == bytes@);
    loop
        invariant
            valid_utf8(bytes@),
            total == bytes@.len(),
            is_line_split(bytes@, line_split(bytes@)),
            forall|lines: Seq<Seq<u8>>| #[trigger]
                is_line_split(bytes@, lines) ==> lines == line_split(bytes@),
            done.flatten() + rest.spec_bytes() == bytes@,
            forall|i: int| 0 <= i < done.len() ==> is_terminated_line(#[trigger] done[i]),
            forall|i: int| 0 <= i < done.len() ==> #[trigger] record_ok(done[i]),
            urls@.len() == done.len(),
            index == done.len(),
            index <= done.flatten().len(),
            forall|i: int| 0 <= i < done.len() ==> (#[trigger] urls@[i])@ == record_text(done[i]),
        decreases rest.spec_bytes().len(),
    {
        let rb = rest.as_bytes();
        proof {
            lemma_text_of_bytes(rest);
        }
        let ghost rbs = rb@;
        assert(done.flatten().len() + rbs.len() == total);
        if rb.len() == 0 {
            proof {
                assert(done.flatten() =~= bytes@);
                crate::framing::lemma_complete_lines_split(done, rbs);
                assert(done.flatten() + rbs =~= done.flatten());
                assert(done == line_split(bytes@));
            }
            return Ok(urls);
        }
        match find_byte(LF, rb) {
            Some(p) => {
                proof {
                    lemma_ascii_boundary(rbs, p as int);
                }
                let (head, tail) = rest.split_at(p);
                proof {
                    lemma_text_of_bytes(tail);
                    assert(tail.spec_bytes()[0] == LF);
                    lemma_after_ascii_boundary(tail.spec_bytes());
                }
                let (_, next) = tail.split_at(1);
                let ghost line = rbs.take(p + 1);
                let hb = head.as_bytes();
                proof {
                    lemma_text_of_bytes(head);
                    assert(line.drop_last() =~= hb@);
                }
                let value: &str;
                if hb.len() > 0 && hb[hb.len() - 1] == CR {
                    proof {
                        lemma_ascii_boundary(hb@, hb.len() - 1);
                    }
                    let (v, _) = head.split_at(hb.len() - 1);
                    value = v;
                    assert(value.spec_bytes() =~= line_content(line));
                } else {
                    value = head;
                    assert(value.spec_bytes() =~= line_content(line));
                }
                proof {
                    lemma_text_of_bytes(value);
                    assert(is_terminated_line(line)) by {
                        assert forall|i: int| 0 <= i < line.len() - 1 implies line[i] != LF by {
                            assert(line[i] == rbs[i]);
                        }
                    }
                    assert(rbs =~= line + next.spec_bytes());
                }
                if !is_absolute_uri_text(value) {
                    proof {
                        let tail_lines = line_split(next.spec_bytes());
                        lemma_line_split(next.spec_bytes());
                        let all = done.push(line) + tail_lines;
                        vstd::seq_lib::lemma_flatten_concat(done.push(line), tail_lines);
                        assert(done.push(line).flatten() == done.flatten() + line);
                        assert(all.flatten() =~= bytes@);
                        assert forall|i: int| 0 <= i < all.len() - 1 implies is_terminated_line(
                            #[trigger] all[i],
                        ) by {
                            if i < done.len() {
                                assert(all[i] == done[i]);
                            } else if i == done.len() {
                                assert(all[i] == line);
                            } else {
                                assert(all[i] == tail_lines[i - done.len() - 1]);
                            }
                        }
                        if tail_lines.len() > 0 {
                            assert(all.last() == tail_lines.last());
                        } else {
                            assert(all.last() == line);
                        }
                        assert(is_line_split(bytes@, all));
                        assert(all == line_split(bytes@));
                        assert(all[index as int] == line);
                        assert forall|j: int| 0 <= j < index implies #[trigger] record_ok(
                            line_split(bytes@)[j],
                        ) by {
                            assert(all[j] == done[j]);
                        }
                    }
                    return Err(ResolverOutputError::InvalidRecord { line: index + 1 });
                }
                let ghost old_done = done;
                urls.push(String::from_str(value));
                proof {
                    done = done.push(line);
                    assert(done.flatten() == old_done.flatten() + line);
                    assert(done.flatten() + next.spec_bytes() =~= old_done.flatten() + rbs);
                    assert forall|i: int| 0 <= i < done.len() implies (#[trigger] urls@[i])@
                        == record_text(done[i]) by {
                        if i < old_done.len() {
                            assert(done[i] == old_done[i]);
                        }
                    }
                    assert forall|i: int| 0 <= i < done.len() implies is_terminated_line(
                        #[trigger] done[i],
                    ) by {
                        if i < old_done.len() {
                            assert(done[i] == old_done[i]);
                        }
                    }
                    assert forall|i: int| 0 <= i < done.len() implies #[trigger] record_ok(done[i]) by {
                        if i < old_done.len() {
                            assert(done[i] == old_done[i]);
                        }
                    }
                }
                rest = next;
                index = index + 1;
            },
            None => {
                proof {
                    crate::framing::lemma_complete_lines_split(done, rbs);
                    assert(done.flatten() + rbs == bytes@);
                    assert(done.push(rbs) == line_split(bytes@));
                    assert(line_content(rbs) == rbs);
                    assert(rest@ == record_text(rbs));
                }
                if !is_absolute_uri_text(rest) {
                    proof {
                        assert forall|j: int| 0 <= j < index implies #[trigger] record_ok(
                            line_split(bytes@)[j],
                        ) by {
                            assert(done.push(rbs)[j] == done[j]);
                        }
                    }
                    return Err(ResolverOutputError::InvalidRecord { line: index + 1 });
                }
                let ghost old_done = done;
                urls.push(String::from_str(rest));
                proof {
                    let all = old_done.push(rbs);
                    assert forall|i: int| 0 <= i < all.len() implies (#[trigger] urls@[i])@
                        == record_text(all[i]) by {
                        if i < old_done.len() {
                            assert(all[i] == old_done[i]);
                        }
                    }
                    assert forall|i: int| 0 <= i < all.len() implies #[trigger] record_ok(all[i]) by {
                        if i < old_done.len() {
                            assert(all[i] == old_done[i]);
                        }
                    }
                }
                return Ok(urls);
            },
        }
    }
}

impl ResolverOutputError {
    /// The message of a record error: `invalid URL on resolver output line N`.
    /// Invalid UTF-8 is described by the decoder's own error instead.
    pub fn record_message(line: usize) -> (r: String)
        ensures
            r@ == "invalid URL on resolver output line "@ + decimal_spec(line as nat),
    {
        let mut s = String::from_str("invalid URL on resolver output line ");
        let digits = decimal(line);
        s.append(digits.as_str());
        s
    }
}

} // verus!
