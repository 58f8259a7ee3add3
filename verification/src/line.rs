//! Immutable, framing-validated JSONL lines with owned or shared storage.

use vstd::prelude::*;

use crate::buffers::{bytes_view, bytes_len, bytes_as_slice, bytes_slice, bytes_from_vec};
use bytes::Bytes;
use crate::search::{find_byte, is_first_index};
use crate::definitions::{compare_bytes, NameOrder};
use crate::text::{decimal, decimal_spec};
use vstd::string::*;
use vstd::std_specs::cmp::PartialEqSpecImpl;
use vstd::std_specs::convert::TryFromSpecImpl;

verus! {

/// The line-feed byte that terminates JSONL records.
pub const LF: u8 = 10;
/// The carriage-return byte of a CRLF terminator.
pub const CR: u8 = 13;

/// LF occurs at most as the final byte of `s`.
pub open spec fn is_framed(s: Seq<u8>) -> bool {
    forall|i: int| 0 <= i < s.len() - 1 ==> s[i] != LF
}

/// Invalid framing or an invalid slice range supplied to a line constructor.
#[derive(Clone, Copy, Debug, PartialEq, Eq, Structural)]
pub enum JsonlLineError {
    /// An LF occurs before the end of the line. The offset is relative to the
    /// requested line, not the entire shared backing buffer.
    EmbeddedLf { offset: usize },
    /// A shared slice must satisfy `start <= end <= len`.
    InvalidRange { start: usize, end: usize, len: usize },
}

/// The error that validation reports for `s`: the first LF, when it is not
/// the final byte.
pub open spec fn framing_result(s: Seq<u8>, r: Result<(), JsonlLineError>) -> bool {
    match r {
        Ok(()) => is_framed(s),
        Err(JsonlLineError::EmbeddedLf { offset }) => {
            &&& is_first_index(s, LF, offset as int)
            &&& offset + 1 < s.len()
        },
        Err(JsonlLineError::InvalidRange { .. }) => false,
    }
}

/// Checks that LF occurs only as the final byte.
pub fn validate(bytes: &[u8]) -> (r: Result<(), JsonlLineError>)
    ensures
        framing_result(bytes@, r),
        r is Ok <==> is_framed(bytes@),
{
    let len = bytes.len();
    match find_byte(LF, bytes) {
        Some(offset) => {
            if offset + 1 != len {
                Err(JsonlLineError::EmbeddedLf { offset })
            } else {
                Ok(())
            }
        },
        None => Ok(()),
    }
}


/// `s` ends with an LF terminator.
pub open spec fn ends_with_lf(s: Seq<u8>) -> bool {
    s.len() > 0 && s.last() == LF
}

/// The content of a stored line: its bytes without an LF or CRLF terminator.
/// A bare CR without a following LF is content.
pub open spec fn line_content(s: Seq<u8>) -> Seq<u8> {
    if ends_with_lf(s) {
        let body = s.drop_last();
        if body.len() > 0 && body.last() == CR {
            body.drop_last()
        } else {
            body
        }
    } else {
        s
    }
}

/// An error describing an LF before the end of `s` at `offset`, the first LF.
pub open spec fn is_embedded_lf_error(s: Seq<u8>, e: JsonlLineError) -> bool {
    match e {
        JsonlLineError::EmbeddedLf { offset } => {
            &&& is_first_index(s, LF, offset as int)
            &&& offset + 1 < s.len()
        },
        JsonlLineError::InvalidRange { .. } => false,
    }
}

/// Validated owned storage for [`JsonlLine::Owned`]. The private payload prevents
/// constructing a variant with unchecked bytes or mutating a validated line.
#[derive(Debug)]
pub struct OwnedJsonlLine(Vec<u8>);

impl OwnedJsonlLine {
    #[verifier::type_invariant]
    spec fn framed(self) -> bool {
        is_framed(self.0@)
    }
}

impl View for OwnedJsonlLine {
    type V = Seq<u8>;

    closed spec fn view(&self) -> Seq<u8> {
        self.0@
    }
}

impl OwnedJsonlLine {
    /// Borrows the complete stored line, including its terminator when present.
    pub fn as_bytes(&self) -> (r: &[u8])
        ensures
            r@ == self@,
            is_framed(r@),
    {
        proof {
            use_type_invariant(self);
        }
        self.0.as_slice()
    }

    /// Consumes the validated storage, returning the same allocation. Mutated
    /// bytes must go through a checked constructor to become a line again.
    pub fn into_vec(self) -> (r: Vec<u8>)
        ensures
            r@ == self@,
            is_framed(r@),
    {
        proof {
            use_type_invariant(&self);
        }
        self.0
    }
}

/// Validated shared storage for [`JsonlLine::Shared`]. A line can retain a slice
/// of a larger immutable allocation; only the exact view is exposed.
#[derive(Debug)]
pub struct SharedJsonlLine(Bytes);

impl SharedJsonlLine {
    #[verifier::type_invariant]
    spec fn framed(self) -> bool {
        is_framed(bytes_view(self.0))
    }
}

impl View for SharedJsonlLine {
    type V = Seq<u8>;

    closed spec fn view(&self) -> Seq<u8> {
        bytes_view(self.0)
    }
}

impl SharedJsonlLine {
    /// Borrows only this line, not the rest of its shared backing buffer.
    pub fn as_bytes(&self) -> (r: &[u8])
        ensures
            r@ == self@,
            is_framed(r@),
    {
        proof {
            use_type_invariant(self);
        }
        bytes_as_slice(&self.0)
    }

    /// Consumes the line and returns an immutable, zero-copy view of its bytes.
    pub fn into_bytes(self) -> (r: Bytes)
        ensures
            bytes_view(r) == self@,
            is_framed(bytes_view(r)),
    {
        proof {
            use_type_invariant(&self);
        }
        self.0
    }
}

/// One immutable, framing-valid JSONL line.
///
/// LF may occur only as the final byte, so a line never holds several records.
/// The final LF, if present, is retained; a CR immediately before it forms a
/// CRLF terminator. Unterminated and blank lines, including the empty line,
/// are allowed. These are framing guarantees, not UTF-8 or JSON validation.
/// Equality compares the stored bytes, independently of the storage kind.
#[derive(Debug)]
pub enum JsonlLine {
    /// Exclusively owned, validated bytes.
    Owned(OwnedJsonlLine),
    /// Shared, validated bytes.
    Shared(SharedJsonlLine),
}

impl View for JsonlLine {
    type V = Seq<u8>;

    open spec fn view(&self) -> Seq<u8> {
        match self {
            JsonlLine::Owned(line) => line@,
            JsonlLine::Shared(line) => line@,
        }
    }
}

impl JsonlLine {
    /// Validates and takes ownership of a vector without copying its bytes.
    pub fn owned(bytes: Vec<u8>) -> (r: Result<Self, JsonlLineError>)
        ensures
            r is Ok <==> is_framed(bytes@),
            r matches Ok(line) ==> line@ == bytes@ && line is Owned,
            r matches Err(e) ==> is_embedded_lf_error(bytes@, e),
    {
        match validate(bytes.as_slice()) {
            Ok(()) => Ok(JsonlLine::Owned(OwnedJsonlLine(bytes))),
            Err(e) => Err(e),
        }
    }

    /// Validates an immutable byte buffer without copying its bytes.
    pub fn shared(bytes: Bytes) -> (r: Result<Self, JsonlLineError>)
        ensures
            r is Ok <==> is_framed(bytes_view(bytes)),
            r matches Ok(line) ==> line@ == bytes_view(bytes) && line is Shared,
            r matches Err(e) ==> is_embedded_lf_error(bytes_view(bytes), e),
    {
        match validate(bytes_as_slice(&bytes)) {
            Ok(()) => Ok(JsonlLine::Shared(SharedJsonlLine(bytes))),
            Err(e) => Err(e),
        }
    }

    /// Validates the line `range` within an immutable backing buffer. Bytes
    /// outside `range` need not form a single line. Stores only the resulting
    /// view, without copying its payload.
    pub fn shared_slice(backing: Bytes, range: core::ops::Range<usize>) -> (r: Result<
        Self,
        JsonlLineError,
    >)
        ensures
            ({
                let b = bytes_view(backing);
                let in_range = range.start <= range.end && range.end <= b.len();
                let line = b.subrange(range.start as int, range.end as int);
                &&& !in_range ==> r == Err::<Self, JsonlLineError>(
                    JsonlLineError::InvalidRange {
                        start: range.start,
                        end: range.end,
                        len: b.len() as usize,
                    },
                )
                &&& in_range ==> (r is Ok <==> is_framed(line))
                &&& in_range ==> (r matches Ok(l) ==> l@ == line && l is Shared)
                &&& in_range ==> (r matches Err(e) ==> is_embedded_lf_error(line, e))
            }),
    {
        let len = bytes_len(&backing);
        if !(range.start <= range.end && range.end <= len) {
            return Err(JsonlLineError::InvalidRange { start: range.start, end: range.end, len });
        }
        let all = bytes_as_slice(&backing);
        let part = vstd::slice::slice_subrange(all, range.start, range.end);
        match validate(part) {
            Ok(()) => {
                let view = bytes_slice(&backing, range.start, range.end);
                Ok(JsonlLine::Shared(SharedJsonlLine(view)))
            },
            Err(e) => Err(e),
        }
    }

    /// Checks framing before copying borrowed bytes into owned storage.
    pub fn copy_from_slice(bytes: &[u8]) -> (r: Result<Self, JsonlLineError>)
        ensures
            r is Ok <==> is_framed(bytes@),
            r matches Ok(line) ==> line@ == bytes@ && line is Owned,
            r matches Err(e) ==> is_embedded_lf_error(bytes@, e),
    {
        match validate(bytes) {
            Ok(()) => Ok(JsonlLine::Owned(OwnedJsonlLine(vstd::slice::slice_to_vec(bytes)))),
            Err(e) => Err(e),
        }
    }

    /// Wraps bytes that framing code has already checked, without rescanning.
    pub(crate) fn framed(bytes: Bytes) -> (r: Self)
        requires
            is_framed(bytes_view(bytes)),
        ensures
            r@ == bytes_view(bytes),
            r is Shared,
    {
        JsonlLine::Shared(SharedJsonlLine(bytes))
    }

    /// Borrows the stored bytes, including any LF/CRLF terminator.
    pub fn as_bytes(&self) -> (r: &[u8])
        ensures
            r@ == self@,
            is_framed(r@),
    {
        match self {
            JsonlLine::Owned(line) => line.as_bytes(),
            JsonlLine::Shared(line) => line.as_bytes(),
        }
    }

    /// Borrows content excluding an LF or CRLF terminator, without trimming
    /// whitespace or removing a bare CR from an unterminated line.
    pub fn content(&self) -> (r: &[u8])
        ensures
            r@ == line_content(self@),
    {
        let bytes = self.as_bytes();
        let n = bytes.len();
        if n > 0 && bytes[n - 1] == LF {
            if n > 1 && bytes[n - 2] == CR {
                vstd::slice::slice_subrange(bytes, 0, n - 2)
            } else {
                vstd::slice::slice_subrange(bytes, 0, n - 1)
            }
        } else {
            bytes
        }
    }

    /// Whether this line has an LF or CRLF terminator.
    pub fn is_terminated(&self) -> (r: bool)
        ensures
            r == ends_with_lf(self@),
    {
        let bytes = self.as_bytes();
        let n = bytes.len();
        n > 0 && bytes[n - 1] == LF
    }

    /// Stored byte length, including any terminator.
    pub fn len(&self) -> (r: usize)
        ensures
            r == self@.len(),
    {
        self.as_bytes().len()
    }

    /// Whether this is a blank unterminated line with no stored bytes.
    pub fn is_empty(&self) -> (r: bool)
        ensures
            r == (self@.len() == 0),
    {
        self.as_bytes().len() == 0
    }

    /// Extracts owned bytes. Owned storage is moved; shared storage is copied.
    pub fn into_vec(self) -> (r: Vec<u8>)
        ensures
            r@ == self@,
    {
        match self {
            JsonlLine::Owned(line) => line.into_vec(),
            JsonlLine::Shared(line) => vstd::slice::slice_to_vec(line.as_bytes()),
        }
    }

    /// Extracts immutable bytes without copying payload data. Owned vectors are
    /// adopted by `Bytes`; shared lines return their existing view.
    pub fn into_bytes(self) -> (r: Bytes)
        ensures
            bytes_view(r) == self@,
    {
        match self {
            JsonlLine::Owned(line) => bytes_from_vec(line.into_vec()),
            JsonlLine::Shared(line) => line.into_bytes(),
        }
    }

    /// Switches to shared storage without copying payload bytes or rescanning.
    pub fn into_shared(self) -> (r: Self)
        ensures
            r@ == self@,
            r is Shared,
    {
        match self {
            JsonlLine::Shared(line) => JsonlLine::Shared(line),
            JsonlLine::Owned(line) => {
                let v = line.into_vec();
                JsonlLine::Shared(SharedJsonlLine(bytes_from_vec(v)))
            },
        }
    }

    /// Copies this line into an independent, compact owned allocation, releasing
    /// its reference to any larger backing buffer. Stored bytes are unchanged.
    pub fn into_compact(self) -> (r: Self)
        ensures
            r@ == self@,
            r is Owned,
    {
        let bytes = self.as_bytes();
        JsonlLine::Owned(OwnedJsonlLine(vstd::slice::slice_to_vec(bytes)))
    }
}

impl PartialEq for JsonlLine {
    /// Compares the stored bytes, including terminators, whatever the storage.
    fn eq(&self, other: &Self) -> (r: bool) {
        compare_bytes(self.as_bytes(), other.as_bytes()) == NameOrder::Same
    }
}

impl Eq for JsonlLine {}

impl PartialEqSpecImpl for JsonlLine {
    open spec fn obeys_eq_spec() -> bool {
        true
    }

    open spec fn eq_spec(&self, other: &JsonlLine) -> bool {
        self@ == other@
    }
}

impl TryFrom<Vec<u8>> for JsonlLine {
    type Error = JsonlLineError;

    /// Validates and takes ownership of the vector, as [`JsonlLine::owned`].
    fn try_from(bytes: Vec<u8>) -> (r: Result<Self, JsonlLineError>)
        ensures
            r is Ok <==> is_framed(bytes@),
            r matches Ok(line) ==> line@ == bytes@ && line is Owned,
            r matches Err(e) ==> is_embedded_lf_error(bytes@, e),
    {
        JsonlLine::owned(bytes)
    }
}

impl TryFromSpecImpl<Vec<u8>> for JsonlLine {
    /// The conversion is specified by the `ensures` of `try_from` itself.
    open spec fn obeys_try_from_spec() -> bool {
        false
    }

    open spec fn try_from_spec(v: Vec<u8>) -> Result<Self, JsonlLineError> {
        arbitrary()
    }
}

impl TryFrom<Bytes> for JsonlLine {
    type Error = JsonlLineError;

    /// Validates the shared buffer, as [`JsonlLine::shared`].
    fn try_from(bytes: Bytes) -> (r: Result<Self, JsonlLineError>)
        ensures
            r is Ok <==> is_framed(bytes_view(bytes)),
            r matches Ok(line) ==> line@ == bytes_view(bytes) && line is Shared,
            r matches Err(e) ==> is_embedded_lf_error(bytes_view(bytes), e),
    {
        JsonlLine::shared(bytes)
    }
}

impl TryFromSpecImpl<Bytes> for JsonlLine {
    /// The conversion is specified by the `ensures` of `try_from` itself.
    open spec fn obeys_try_from_spec() -> bool {
        false
    }

    open spec fn try_from_spec(v: Bytes) -> Result<Self, JsonlLineError> {
        arbitrary()
    }
}

impl TryFrom<String> for JsonlLine {
    type Error = JsonlLineError;

    /// Validates the text's UTF-8 bytes, copying them into owned storage.
    fn try_from(text: String) -> (r: Result<Self, JsonlLineError>)
        ensures
            r is Ok <==> is_framed(vstd::utf8::encode_utf8(text@)),
            r matches Ok(line) ==> line@ == vstd::utf8::encode_utf8(text@),
            r matches Err(e) ==> is_embedded_lf_error(vstd::utf8::encode_utf8(text@), e),
    {
        JsonlLine::copy_from_slice(text.as_str().as_bytes())
    }
}

impl TryFromSpecImpl<String> for JsonlLine {
    /// The conversion is specified by the `ensures` of `try_from` itself.
    open spec fn obeys_try_from_spec() -> bool {
        false
    }

    open spec fn try_from_spec(v: String) -> Result<Self, JsonlLineError> {
        arbitrary()
    }
}

/// The description of a framing or range error.
pub open spec fn line_error_message(e: JsonlLineError) -> Seq<char> {
    match e {
        JsonlLineError::EmbeddedLf { offset } => "JSONL line contains an embedded LF at byte "@
            + decimal_spec(offset as nat),
        JsonlLineError::InvalidRange { start, end, len } => "JSONL line range "@ + decimal_spec(
            start as nat,
        ) + ".."@ + decimal_spec(end as nat) + " is outside a "@ + decimal_spec(len as nat)
            + "-byte buffer"@,
    }
}

impl JsonlLineError {
    /// Describes the error, as its `Display` text.
    pub fn message(&self) -> (r: String)
        ensures
            r@ == line_error_message(*self),
    {
        match self {
            JsonlLineError::EmbeddedLf { offset } => {
                let mut s = String::from_str("JSONL line contains an embedded LF at byte ");
                let d = decimal(*offset);
                s.append(d.as_str());
                s
            },
            JsonlLineError::InvalidRange { start, end, len } => {
                let mut s = String::from_str("JSONL line range ");
                let a = decimal(*start);
                s.append(a.as_str());
                s.append("..");
                let b = decimal(*end);
                s.append(b.as_str());
                s.append(" is outside a ");
                let c = decimal(*len);
                s.append(c.as_str());
                s.append("-byte buffer");
                s
            },
        }
    }
}

impl Clone for JsonlLine {
    /// Owned lines copy their bytes; shared lines share their storage.
    fn clone(&self) -> (r: Self)
        ensures
            r@ == self@,
            (r is Owned) == (*self is Owned),
    {
        match self {
            JsonlLine::Owned(line) => {
                proof {
                    use_type_invariant(line);
                }
                JsonlLine::Owned(OwnedJsonlLine(vstd::slice::slice_to_vec(line.0.as_slice())))
            },
            JsonlLine::Shared(line) => {
                proof {
                    use_type_invariant(line);
                }
                JsonlLine::Shared(SharedJsonlLine(line.0.clone()))
            },
        }
    }
}

/// `<[T] as Hash>::hash` feeds the slice's length and elements to the hasher;
/// nothing about the hasher's state is claimed.
pub assume_specification<T: core::hash::Hash, H: core::hash::Hasher>[ <[T] as core::hash::Hash>::hash::<H> ](
    data: &[T],
    state: &mut H,
);

impl core::hash::Hash for JsonlLine {
    /// Hashes the stored bytes, so that equal lines hash equally whatever
    /// their storage.
    fn hash<H: core::hash::Hasher>(&self, state: &mut H) {
        self.as_bytes().hash(state);
    }
}

} // verus!
