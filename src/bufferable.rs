//! Values that can be uploaded into a device buffer as raw bytes.
use vstd::prelude::*;

verus! {

/// Byte `k` of `x`, counting from the least significant one.
pub open spec fn byte_at(x: int, k: int) -> u8 {
    ((x / vstd::arithmetic::power2::pow2((8 * k) as nat) as int) % 256) as u8
}

/// The `n` bytes of `x`, least significant first.
pub open spec fn le_image(x: int, n: nat) -> Seq<u8> {
    Seq::new(n, |k: int| byte_at(x, k))
}

/// The `n` bytes of `x`, most significant first.
pub open spec fn be_image(x: int, n: nat) -> Seq<u8> {
    Seq::new(n, |k: int| byte_at(x, n - 1 - k))
}

/// The items of `s` one after the other, each as its four bytes, least
/// significant first.
pub open spec fn le_words(s: Seq<u32>) -> Seq<u8> {
    Seq::new(4 * s.len(), |i: int| byte_at(s[i / 4] as int, i % 4))
}

/// The items of `s` one after the other, each as its four bytes, most
/// significant first.
pub open spec fn be_words(s: Seq<u32>) -> Seq<u8> {
    Seq::new(4 * s.len(), |i: int| byte_at(s[i / 4] as int, 3 - i % 4))
}

/// A value whose in-memory bytes are uploaded as they stand: the byte
/// image of the value in the machine's byte order, which is little-endian
/// or big-endian.
pub trait Bufferable {
    /// The value's bytes on a little-endian machine.
    spec fn le_data(&self) -> Seq<u8>;

    /// The value's bytes on a big-endian machine.
    spec fn be_data(&self) -> Seq<u8>;

    fn data(&self) -> (r: &[u8])
        ensures
            r@ == self.le_data() || r@ == self.be_data(),
    ;
}

/// Relies on bytemuck::bytes_of: the in-memory bytes of one `u32`, in the
/// machine's byte order.
#[verifier::external_body]
fn bytes_of_u32(v: &u32) -> (r: &[u8])
    ensures
        r@ == le_image(*v as int, 4) || r@ == be_image(*v as int, 4),
{
    bytemuck::bytes_of(v)
}

/// Relies on bytemuck::bytes_of: the in-memory bytes of one `u64`, in the
/// machine's byte order.
#[verifier::external_body]
fn bytes_of_u64(v: &u64) -> (r: &[u8])
    ensures
        r@ == le_image(*v as int, 8) || r@ == be_image(*v as int, 8),
{
    bytemuck::bytes_of(v)
}

/// Relies on bytemuck::cast_slice from `u32` to `u8`: the in-memory bytes
/// of the items, four for each, in the machine's byte order (a byte has no
/// alignment need, so the cast cannot fail).
#[verifier::external_body]
fn cast_slice_u32(v: &[u32]) -> (r: &[u8])
    ensures
        r@ == le_words(v@) || r@ == be_words(v@),
{
    bytemuck::cast_slice(v)
}

impl Bufferable for u32 {
    open spec fn le_data(&self) -> Seq<u8> {
        le_image(*self as int, 4)
    }

    open spec fn be_data(&self) -> Seq<u8> {
        be_image(*self as int, 4)
    }

    fn data(&self) -> (r: &[u8]) {
        bytes_of_u32(self)
    }
}

impl Bufferable for u64 {
    open spec fn le_data(&self) -> Seq<u8> {
        le_image(*self as int, 8)
    }

    open spec fn be_data(&self) -> Seq<u8> {
        be_image(*self as int, 8)
    }

    fn data(&self) -> (r: &[u8]) {
        bytes_of_u64(self)
    }
}

impl<'s> Bufferable for &'s [u32] {
    open spec fn le_data(&self) -> Seq<u8> {
        le_words(self@)
    }

    open spec fn be_data(&self) -> Seq<u8> {
        be_words(self@)
    }

    fn data(&self) -> (r: &[u8]) {
        cast_slice_u32(*self)
    }
}

impl Bufferable for Vec<u32> {
    open spec fn le_data(&self) -> Seq<u8> {
        le_words(self@)
    }

    open spec fn be_data(&self) -> Seq<u8> {
        be_words(self@)
    }

    fn data(&self) -> (r: &[u8]) {
        cast_slice_u32(self.as_slice())
    }
}

} // verus!
