//! The bounded buffer that holds one outbound frame.
use crate::frame::MAX_FRAME;
use vstd::prelude::*;

verus! {

#[verifier::external_type_specification]
#[verifier::external_body]
#[verifier::reject_recursive_types(T)]
pub struct ExHeaplessVec<T, const N: usize>(heapless::Vec<T, N>);

/// The bytes that a frame buffer holds, in order.
pub uninterp spec fn frame_contents(v: heapless::Vec<u8, 256>) -> Seq<u8>;

/// Relies on heapless::Vec::new: a new vector holds nothing.
#[verifier::external_body]
pub(crate) fn new_frame() -> (r: heapless::Vec<u8, 256>)
    ensures
        frame_contents(r) == Seq::<u8>::empty(),
{
    heapless::Vec::new()
}

/// Relies on heapless::Vec::extend_from_slice: when the bytes fit in the
/// capacity (`MAX_FRAME`) they are appended in order; otherwise nothing changes
/// and an error comes back.
#[verifier::external_body]
pub(crate) fn frame_extend(v: &mut heapless::Vec<u8, 256>, bytes: &[u8]) -> (r: bool)
    ensures
        r == (frame_contents(*old(v)).len() + bytes@.len() <= MAX_FRAME),
        r ==> frame_contents(*final(v)) == frame_contents(*old(v)) + bytes@,
        !r ==> frame_contents(*final(v)) == frame_contents(*old(v)),
{
    v.extend_from_slice(bytes).is_ok()
}

} // verus!
