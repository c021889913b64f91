//! The byte buffers of a connection: `bytes::BytesMut`, with what this
//! library relies on stated for the calls it makes.

use bytes::BytesMut;
use vstd::prelude::*;

verus! {

#[verifier::external_type_specification]
#[verifier::external_body]
pub struct ExBytesMut(bytes::BytesMut);

/// The bytes that a buffer holds, first to last.
pub uninterp spec fn contents(buf: BytesMut) -> Seq<u8>;

/// Trusted: `BytesMut::with_capacity` wraps a fresh `Vec` of that capacity
/// and of length zero. `Vec::with_capacity` panics when asked for more than
/// an allocation can have, which the bound leaves out.
pub assume_specification[ BytesMut::with_capacity ](capacity: usize) -> (buf: BytesMut)
    requires
        capacity <= isize::MAX,
    ensures
        contents(buf) == Seq::<u8>::empty(),
;

/// Trusted: `BytesMut::clear` sets the length to zero and keeps the
/// allocation.
pub assume_specification[ BytesMut::clear ](buf: &mut BytesMut)
    ensures
        contents(*final(buf)) == Seq::<u8>::empty(),
;

/// Trusted: `BytesMut::len` returns the number of bytes held.
pub assume_specification[ BytesMut::len ](buf: &BytesMut) -> (n: usize)
    ensures
        n == contents(*buf).len(),
;

/// Trusted: `BytesMut::extend_from_slice` reserves room for `extend` and
/// copies it behind the bytes already held. Reserving panics when the new
/// length is more than an allocation can have, which the bound leaves out.
pub assume_specification[ BytesMut::extend_from_slice ](buf: &mut BytesMut, extend: &[u8])
    requires
        contents(*old(buf)).len() + extend@.len() <= isize::MAX,
    ensures
        contents(*final(buf)) == contents(*old(buf)) + extend@,
;

/// The bytes of a buffer as a slice.
///
/// Trusted: calls `<BytesMut as AsRef<[u8]>>::as_ref`, which borrows the
/// bytes held, all of them and in order.
#[verifier::external_body]
pub(crate) fn as_slice(buf: &BytesMut) -> (bytes: &[u8])
    ensures
        bytes@ == contents(*buf),
{
    buf.as_ref()
}

} // verus!
