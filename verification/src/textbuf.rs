//! The bounded text buffer that responses are assembled in.
//!
//! The responder builds its reply in a fixed-capacity, stack-allocated
//! string of the heapless crate, as the node has no allocator.  The buffer
//! type is taken on trust: the contracts here say what its operations do to
//! the held text, as the crate's source shows, and the logic that fills the
//! buffer is verified against them.

use vstd::prelude::*;
use vstd::utf8::is_ascii_chars;

verus! {

/// Byte capacity of a response buffer.
pub const RESPONSE_CAPACITY: usize = 256;

/// Declares the fixed-capacity string type of the heapless crate, so that it
/// can stand in signatures.  Its values are opaque; the contracts below speak
/// of them through [`buffer_chars`].
#[verifier::external_type_specification]
#[verifier::external_body]
pub struct ExHeaplessString<const N: usize>(heapless::String<N>);

/// The text a response buffer holds.
pub uninterp spec fn buffer_chars(s: heapless::String<256>) -> Seq<char>;

/// Relies on heapless::String::new: a fresh buffer holds nothing.
#[verifier::external_body]
pub(crate) fn buffer_new() -> (s: heapless::String<256>)
    ensures
        buffer_chars(s) == Seq::<char>::empty(),
{
    heapless::String::new()
}

/// Relies on heapless::String::push_str: it appends the whole slice when its
/// bytes fit within the remaining capacity and otherwise reports an error
/// and leaves the buffer untouched.  For ASCII text one character is one
/// byte, so the capacity check can be stated over character counts.
#[verifier::external_body]
pub(crate) fn buffer_push_str(s: &mut heapless::String<256>, piece: &str) -> (r: Result<(), ()>)
    ensures
        r is Ok ==> buffer_chars(*final(s)) == buffer_chars(*old(s)) + piece@,
        r is Err ==> buffer_chars(*final(s)) == buffer_chars(*old(s)),
        is_ascii_chars(buffer_chars(*old(s))) && is_ascii_chars(piece@) ==> (r is Ok
            <==> buffer_chars(*old(s)).len() + piece@.len() <= RESPONSE_CAPACITY),
{
    s.push_str(piece)
}

} // verus!
