//! What a manager owns, and the keys it is asked by.

use vstd::prelude::*;
use vstd::utf8::{encode_utf8, encode_utf8_decode_utf8};

verus! {

/// A compiled object that a manager owns and hands out by reference.
pub trait Resource {

}

/// A compiled text is a resource.
impl Resource for String {

}

/// Compiled bytes are a resource.
impl Resource for Vec<u8> {

}

/// A caller-supplied token that names one raw source.
///
/// A manager tells identifiers apart by their names alone: two identifiers
/// with the same name are the same identifier to it.
pub trait Identifier: Sized {
    /// The bytes that tell this identifier from every other.
    spec fn name(&self) -> Seq<u8>;

    /// The name, for comparing and hashing.
    fn name_bytes(&self) -> (bytes: &[u8])
        ensures
            bytes@ == self.name(),
    ;
}

impl<'a> Identifier for &'a str {
    open spec fn name(&self) -> Seq<u8> {
        encode_utf8(self@)
    }

    fn name_bytes(&self) -> (bytes: &[u8]) {
        self.as_bytes()
    }
}

impl Identifier for String {
    open spec fn name(&self) -> Seq<u8> {
        encode_utf8(self@)
    }

    fn name_bytes(&self) -> (bytes: &[u8]) {
        self.as_str().as_bytes()
    }
}

/// Two texts have the same name exactly if they are the same text: strings
/// that differ never stand for one identifier.
pub proof fn law_text_names(left: Seq<char>, right: Seq<char>)
    ensures
        encode_utf8(left) == encode_utf8(right) <==> left == right,
{
    encode_utf8_decode_utf8(left);
    encode_utf8_decode_utf8(right);
}

/// Whether two names are the same, byte for byte.
pub fn same_name(left: &[u8], right: &[u8]) -> (same: bool)
    ensures
        same == (left@ == right@),
{
    if left.len() != right.len() {
        return false;
    }
    let mut at: usize = 0;
    while at < left.len()
        invariant
            left.len() == right.len(),
            at <= left.len(),
            forall|i: int| 0 <= i < at ==> left@[i] == right@[i],
        decreases left.len() - at,
    {
        if left[at] != right[at] {
            return false;
        }
        at += 1;
    }
    assert(left@ =~= right@);
    true
}

} // verus!
