use vstd::prelude::*;

use bytes::BytesMut;

verus! {

#[verifier::external_type_specification]
#[verifier::external_body]
pub struct ExBytesMut(BytesMut);

/// The bytes a `BytesMut` holds, in order.
pub uninterp spec fn bytes_of(b: BytesMut) -> Seq<u8>;

/// Relies on `BytesMut::new`: the new buffer holds no bytes.
#[verifier::external_body]
pub(crate) fn scratch_new() -> (r: BytesMut)
    ensures
        bytes_of(r) == Seq::<u8>::empty(),
{
    BytesMut::new()
}

/// Relies on `BytesMut::len`: the number of bytes held.
#[verifier::external_body]
pub(crate) fn scratch_len(b: &BytesMut) -> (r: usize)
    ensures
        r == bytes_of(*b).len(),
{
    b.len()
}

/// Relies on `BytesMut::resize`: truncates to `new_len`, or extends with
/// `value` up to `new_len`. Reserving more than `isize::MAX` bytes panics.
#[verifier::external_body]
pub(crate) fn scratch_resize(b: &mut BytesMut, new_len: usize, value: u8)
    requires
        new_len <= isize::MAX,
    ensures
        bytes_of(*final(b)) == if new_len <= bytes_of(*old(b)).len() {
            bytes_of(*old(b)).take(new_len as int)
        } else {
            bytes_of(*old(b)) + Seq::new((new_len - bytes_of(*old(b)).len()) as nat, |i: int| value)
        },
{
    b.resize(new_len, value)
}

/// Relies on `BytesMut::clear`: no bytes remain.
#[verifier::external_body]
pub(crate) fn scratch_clear(b: &mut BytesMut)
    ensures
        bytes_of(*final(b)) == Seq::<u8>::empty(),
{
    b.clear()
}

/// Relies on `BytesMut::extend_from_slice`: appends the bytes of `s`.
#[verifier::external_body]
pub(crate) fn scratch_extend(b: &mut BytesMut, s: &[u8])
    requires
        bytes_of(*old(b)).len() + s@.len() <= isize::MAX,
    ensures
        bytes_of(*final(b)) == bytes_of(*old(b)) + s@,
{
    b.extend_from_slice(s)
}

/// Relies on the slice view of `BytesMut` (`Deref<Target = [u8]>`): copies
/// out its first `n` bytes.
#[verifier::external_body]
pub(crate) fn scratch_prefix(b: &BytesMut, n: usize) -> (r: Vec<u8>)
    requires
        n <= bytes_of(*b).len(),
    ensures
        r@ == bytes_of(*b).take(n as int),
{
    b[..n].to_vec()
}

} // verus!
