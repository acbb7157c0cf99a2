//! Storage for the bytes of a frame.
//!
//! A frame buffer is a run of bytes of fixed length.  It can live on the
//! heap, in a `Vec`, or in place, in a `heapless::Vec` of fixed capacity.

use vstd::prelude::*;

verus! {

/// A run of `len` zero bytes.
pub open spec fn zeros(len: nat) -> Seq<u8> {
    Seq::new(len, |i: int| 0u8)
}

/// The capacity of the in-place storage.
pub const HEAPLESS_CAPACITY: usize = 256;

/// Storage for the bytes of a frame: made once with a length, then read
/// and overwritten byte by byte.
pub trait LedPixelData: Sized {
    /// The bytes held.
    spec fn bytes(&self) -> Seq<u8>;

    /// The largest number of bytes that a storage of this type holds.
    spec fn max_len() -> nat;

    /// The largest number of bytes that a storage of this type holds.
    fn capacity() -> (n: usize)
        ensures
            n == Self::max_len(),
    ;

    /// A storage of `len` zero bytes.
    fn zeroed(len: usize) -> (data: Self)
        requires
            len <= Self::max_len(),
        ensures
            data.bytes() == zeros(len as nat),
    ;

    /// The bytes held, borrowed.
    fn as_bytes(&self) -> (s: &[u8])
        ensures
            s@ == self.bytes(),
    ;

    /// Overwrites the byte at `index`.
    fn set_byte(&mut self, index: usize, value: u8)
        requires
            index < old(self).bytes().len(),
        ensures
            final(self).bytes() == old(self).bytes().update(index as int, value),
    ;
}

impl LedPixelData for Vec<u8> {
    open spec fn bytes(&self) -> Seq<u8> {
        self@
    }

    open spec fn max_len() -> nat {
        isize::MAX as nat
    }

    fn capacity() -> (n: usize) {
        isize::MAX as usize
    }

    fn zeroed(len: usize) -> (data: Self) {
        let data = vec![0u8; len];
        data
    }

    fn as_bytes(&self) -> (s: &[u8]) {
        self.as_slice()
    }

    fn set_byte(&mut self, index: usize, value: u8) {
        self[index] = value;
    }
}

/// The fixed-capacity vector of the `heapless` crate.
#[verifier::external_type_specification]
#[verifier::external_body]
#[verifier::reject_recursive_types(T)]
pub struct ExHeaplessVec<T, const N: usize>(heapless::Vec<T, N>);

/// The bytes that an in-place storage holds, first to last.
pub uninterp spec fn heapless_bytes(v: heapless::Vec<u8, 256>) -> Seq<u8>;

/// `heapless::Vec::new`: a vector that holds nothing.
#[verifier::external_body]
fn heapless_new() -> (v: heapless::Vec<u8, 256>)
    ensures
        heapless_bytes(v) == Seq::<u8>::empty(),
{
    heapless::Vec::new()
}

/// `heapless::Vec::push`: while the vector holds fewer items than its
/// capacity, the item is appended and `Ok` comes back; in a full vector
/// nothing changes and the item comes back in `Err`.
#[verifier::external_body]
fn heapless_push(v: &mut heapless::Vec<u8, 256>, item: u8) -> (r: Result<(), u8>)
    ensures
        r is Ok <==> heapless_bytes(*old(v)).len() < HEAPLESS_CAPACITY,
        r is Ok ==> heapless_bytes(*final(v)) == heapless_bytes(*old(v)).push(item),
        r matches Err(back) ==> back == item && heapless_bytes(*final(v)) == heapless_bytes(
            *old(v),
        ),
{
    v.push(item)
}

/// `heapless::Vec::as_slice`: the items held, first to last, as a slice.
#[verifier::external_body]
fn heapless_as_slice(v: &heapless::Vec<u8, 256>) -> (s: &[u8])
    ensures
        s@ == heapless_bytes(*v),
{
    v.as_slice()
}

/// `heapless::Vec::as_mut_slice`: the items held, as a slice that can be
/// written; what is written to the slice is what the vector holds
/// afterwards.
#[verifier::external_body]
fn heapless_as_mut_slice(v: &mut heapless::Vec<u8, 256>) -> (s: &mut [u8])
    ensures
        s@ == heapless_bytes(*old(v)),
        heapless_bytes(*final(v)) == final(s)@,
{
    v.as_mut_slice()
}

impl LedPixelData for heapless::Vec<u8, 256> {
    open spec fn bytes(&self) -> Seq<u8> {
        heapless_bytes(*self)
    }

    open spec fn max_len() -> nat {
        HEAPLESS_CAPACITY as nat
    }

    fn capacity() -> (n: usize) {
        HEAPLESS_CAPACITY
    }

    fn zeroed(len: usize) -> (data: Self) {
        let mut data = heapless_new();
        let mut n: usize = 0;
        while n < len
            invariant
                n <= len <= HEAPLESS_CAPACITY,
                heapless_bytes(data) == zeros(n as nat),
            decreases len - n,
        {
            let pushed = heapless_push(&mut data, 0);
            n = n + 1;
        }
        data
    }

    fn as_bytes(&self) -> (s: &[u8]) {
        heapless_as_slice(self)
    }

    fn set_byte(&mut self, index: usize, value: u8) {
        let s = heapless_as_mut_slice(self);
        s[index] = value;
    }
}

} // verus!
