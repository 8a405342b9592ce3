//! The byte containers of the `bytes` crate, as the library uses them.
//!
//! `Bytes` and `BytesMut` are opaque to the verifier; what they hold is named
//! by [`bytes_view`] and [`bytes_mut_view`], and each operation the library
//! performs on them is a small trusted function whose contract states what
//! the `bytes` source shows it does to those contents.

use bytes::{Bytes, BytesMut};
use vstd::prelude::*;

verus! {

#[verifier::external_type_specification]
#[verifier::external_body]
pub struct ExBytes(bytes::Bytes);

#[verifier::external_type_specification]
#[verifier::external_body]
pub struct ExBytesMut(bytes::BytesMut);

/// The sequence of bytes a `Bytes` value holds.
pub uninterp spec fn bytes_view(b: Bytes) -> Seq<u8>;

/// The sequence of bytes a `BytesMut` value holds.
pub uninterp spec fn bytes_mut_view(b: BytesMut) -> Seq<u8>;

/// `<Bytes as Clone>::clone`: another handle on the same bytes.
pub assume_specification[ <Bytes as Clone>::clone ](b: &Bytes) -> (r: Bytes)
    ensures
        bytes_view(r) == bytes_view(*b),
;

/// `Bytes::from(Vec<u8>)`: takes over the vector; the contents are the vector's elements.
#[verifier::external_body]
pub(crate) fn bytes_from_vec(v: Vec<u8>) -> (b: Bytes)
    ensures
        bytes_view(b) == v@,
{
    Bytes::from(v)
}

/// `Bytes::copy_from_slice`: a new buffer holding a copy of the slice.
#[verifier::external_body]
pub(crate) fn bytes_copy_from_slice(s: &[u8]) -> (b: Bytes)
    ensures
        bytes_view(b) == s@,
{
    Bytes::copy_from_slice(s)
}

/// `Bytes::new`: an empty buffer.
#[verifier::external_body]
pub(crate) fn bytes_new() -> (b: Bytes)
    ensures
        bytes_view(b) == Seq::<u8>::empty(),
{
    Bytes::new()
}

/// `Bytes::from_static`: a buffer over the static slice, holding its bytes.
#[verifier::external_body]
pub(crate) fn bytes_from_static(s: &'static [u8]) -> (b: Bytes)
    ensures
        bytes_view(b) == s@,
{
    Bytes::from_static(s)
}

/// `<Bytes as AsRef<[u8]>>::as_ref`: the contents as a slice.
#[verifier::external_body]
pub(crate) fn bytes_as_slice(b: &Bytes) -> (s: &[u8])
    ensures
        s@ == bytes_view(*b),
{
    b.as_ref()
}

/// `BytesMut::new`: an empty buffer.
#[verifier::external_body]
pub(crate) fn bytes_mut_new() -> (b: BytesMut)
    ensures
        bytes_mut_view(b) == Seq::<u8>::empty(),
{
    BytesMut::new()
}

/// `BytesMut::extend_from_slice`: appends the slice. It reserves room first,
/// which panics when the new length overflows; `requires` keeps the total
/// within `isize::MAX`.
#[verifier::external_body]
pub(crate) fn bytes_mut_extend_from_slice(b: &mut BytesMut, s: &[u8])
    requires
        bytes_mut_view(*old(b)).len() + s@.len() <= isize::MAX,
    ensures
        bytes_mut_view(*final(b)) == bytes_mut_view(*old(b)) + s@,
{
    b.extend_from_slice(s)
}

/// `<BytesMut as AsRef<[u8]>>::as_ref`: the contents as a slice.
#[verifier::external_body]
pub(crate) fn bytes_mut_as_slice(b: &BytesMut) -> (s: &[u8])
    ensures
        s@ == bytes_mut_view(*b),
{
    b.as_ref()
}

/// `BytesMut::split_to`: the first `at` bytes are returned and removed from
/// the buffer. It panics when `at` exceeds the length, which `requires` rules out.
#[verifier::external_body]
pub(crate) fn bytes_mut_split_to(b: &mut BytesMut, at: usize) -> (front: BytesMut)
    requires
        at <= bytes_mut_view(*old(b)).len(),
    ensures
        bytes_mut_view(front) == bytes_mut_view(*old(b)).take(at as int),
        bytes_mut_view(*final(b)) == bytes_mut_view(*old(b)).skip(at as int),
{
    b.split_to(at)
}

/// `BytesMut::freeze`: the same contents as an immutable `Bytes`.
#[verifier::external_body]
pub(crate) fn bytes_mut_freeze(b: BytesMut) -> (r: Bytes)
    ensures
        bytes_view(r) == bytes_mut_view(b),
{
    b.freeze()
}

} // verus!
