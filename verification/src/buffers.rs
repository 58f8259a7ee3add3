//! Immutable shared byte buffers from the `bytes` crate, as used for shared
//! JSONL line storage.

use vstd::prelude::*;

verus! {

#[verifier::external_type_specification]
#[verifier::external_body]
pub struct ExBytes(bytes::Bytes);

/// The bytes visible through a `Bytes` view (its exact slice, not the backing
/// allocation it may retain).
pub uninterp spec fn bytes_view(b: bytes::Bytes) -> Seq<u8>;

/// `<Bytes as Clone>::clone` yields another view of the same bytes.
pub assume_specification[ <bytes::Bytes as Clone>::clone ](b: &bytes::Bytes) -> (r: bytes::Bytes)
    ensures
        bytes_view(r) == bytes_view(*b),
;

/// Calls `Bytes::len`, which returns the number of bytes in the view.
#[verifier::external_body]
pub fn bytes_len(b: &bytes::Bytes) -> (n: usize)
    ensures
        n == bytes_view(*b).len(),
{
    b.len()
}

/// Borrows the viewed bytes through `<Bytes as AsRef<[u8]>>::as_ref`.
#[verifier::external_body]
pub fn bytes_as_slice(b: &bytes::Bytes) -> (s: &[u8])
    ensures
        s@ == bytes_view(*b),
{
    b.as_ref()
}

/// Calls `Bytes::slice`, which returns a view of `start..end` sharing the same
/// allocation; it panics unless `start <= end <= len`, which is required here.
#[verifier::external_body]
pub fn bytes_slice(b: &bytes::Bytes, start: usize, end: usize) -> (r: bytes::Bytes)
    requires
        start <= end <= bytes_view(*b).len(),
    ensures
        bytes_view(r) == bytes_view(*b).subrange(start as int, end as int),
{
    b.slice(start..end)
}

/// Calls `<Bytes as From<Vec<u8>>>::from`, which adopts the vector's bytes.
#[verifier::external_body]
pub fn bytes_from_vec(v: Vec<u8>) -> (r: bytes::Bytes)
    ensures
        bytes_view(r) == v@,
{
    bytes::Bytes::from(v)
}

} // verus!
