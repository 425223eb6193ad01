//! A data frame assembled in a fixed-capacity buffer: the data control
//! byte followed by at most 31 display bytes, 32 bytes in all.

use vstd::prelude::*;

verus! {

#[verifier::external_type_specification]
#[verifier::external_body]
#[verifier::reject_recursive_types(T)]
pub struct ExHeaplessVec<T, const N: usize>(heapless::Vec<T, N>);

/// What a 32-byte heapless vector holds, in order.
pub uninterp spec fn buffer_bytes(v: heapless::Vec<u8, 32>) -> Seq<u8>;

/// Relies on heapless::Vec::new: the vector starts empty.
#[verifier::external_body]
fn buffer_new() -> (r: heapless::Vec<u8, 32>)
    ensures
        buffer_bytes(r) == Seq::<u8>::empty(),
{
    heapless::Vec::new()
}

/// Relies on heapless::Vec::push: appends when fewer than 32 bytes are
/// held, and otherwise hands the byte back and changes nothing.
#[verifier::external_body]
fn buffer_push(v: &mut heapless::Vec<u8, 32>, b: u8) -> (r: Result<(), u8>)
    ensures
        32 > buffer_bytes(*old(v)).len() ==> (r is Ok),
        32 > buffer_bytes(*old(v)).len() ==> buffer_bytes(*final(v)) == buffer_bytes(*old(v)).push(b),
        buffer_bytes(*old(v)).len() >= 32 ==> (r matches Err(x) && x == b),
        buffer_bytes(*old(v)).len() >= 32 ==> buffer_bytes(*final(v)) == buffer_bytes(*old(v)),
{
    v.push(b)
}

/// Relies on heapless::Vec::extend_from_slice: appends all of `other` in
/// order when it fits in the 32 bytes, and otherwise fails and changes
/// nothing.
#[verifier::external_body]
fn buffer_extend(v: &mut heapless::Vec<u8, 32>, other: &[u8]) -> (r: Result<(), ()>)
    ensures
        buffer_bytes(*old(v)).len() + other@.len() <= 32 ==> (r is Ok),
        buffer_bytes(*old(v)).len() + other@.len() <= 32 ==> buffer_bytes(*final(v)) == buffer_bytes(*old(v)) + other@,
        buffer_bytes(*old(v)).len() + other@.len() > 32 ==> (r is Err),
        buffer_bytes(*old(v)).len() + other@.len() > 32 ==> buffer_bytes(*final(v)) == buffer_bytes(*old(v)),
{
    v.extend_from_slice(other)
}

/// Relies on heapless::Vec::as_slice: the held bytes, in order.
#[verifier::external_body]
fn buffer_slice(v: &heapless::Vec<u8, 32>) -> (r: &[u8])
    ensures
        r@ == buffer_bytes(*v),
{
    v.as_slice()
}

/// A data frame: the control byte `mode` followed by `data`.
pub struct DataFrame {
    buf: heapless::Vec<u8, 32>,
}

impl DataFrame {
    pub closed spec fn bytes(&self) -> Seq<u8> {
        buffer_bytes(self.buf)
    }

    /// Builds the frame `mode` + `data`; `data` holds at most 31 bytes.
    pub fn new(mode: u8, data: &[u8]) -> (r: Self)
        requires
            data@.len() <= 31,
        ensures
            r.bytes() == seq![mode] + data@,
    {
        let mut buf = buffer_new();
        // Neither can fail: the frame holds at most 32 bytes.
        let _ = buffer_push(&mut buf, mode);
        let _ = buffer_extend(&mut buf, data);
        assert(seq![mode] =~= Seq::<u8>::empty().push(mode));
        DataFrame { buf }
    }

    pub fn as_slice(&self) -> (r: &[u8])
        ensures
            r@ == self.bytes(),
    {
        buffer_slice(&self.buf)
    }
}

} // verus!
