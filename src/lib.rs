use vstd::prelude::*;

pub mod order;
pub mod status;
pub mod title;

verus! {

/// Length of a text in bytes of its UTF-8 encoding.
pub open spec fn byte_len(s: Seq<char>) -> nat {
    vstd::utf8::encode_utf8(s).len()
}

} // verus!
