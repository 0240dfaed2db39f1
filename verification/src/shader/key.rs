//! The compound key under which a compiled object is kept.

use std::collections::hash_map::DefaultHasher;
use std::hash::Hasher;
use vstd::bytes::{lemma_auto_spec_u64_to_from_le_bytes, spec_u64_to_le_bytes, u64_to_le_bytes};
use vstd::prelude::*;
use vstd::std_specs::hash::DefaultHasherAdditionalSpecFns;

verus! {

/// What one hash state is fed for the ordered pair of names `(first, second)`:
/// each name behind its length, the first name first.
pub open spec fn fed(first: Seq<u8>, second: Seq<u8>) -> Seq<Seq<u8>> {
    seq![
        spec_u64_to_le_bytes(first.len() as u64),
        first,
        spec_u64_to_le_bytes(second.len() as u64),
        second,
    ]
}

/// The compound key of the ordered pair of names `(first, second)`: the digest
/// of one hash state, started from the fixed seed, that was fed both in order.
pub open spec fn combine(first: Seq<u8>, second: Seq<u8>) -> u64 {
    DefaultHasher::spec_finish(fed(first, second))
}

/// Feeds one name, behind its length, into a hash state.
fn feed(state: &mut DefaultHasher, name: &[u8])
    ensures
        final(state)@ == old(state)@.push(spec_u64_to_le_bytes(name@.len() as u64)).push(name@),
{
    let length = u64_to_le_bytes(name.len() as u64);
    state.write(length.as_slice());
    state.write(name);
}

/// Derives the compound key of an ordered pair of names.
pub fn pair_key(first: &[u8], second: &[u8]) -> (key: u64)
    ensures
        key == combine(first@, second@),
{
    let mut state = DefaultHasher::new();
    feed(&mut state, first);
    feed(&mut state, second);
    assert(state@ =~= fed(first@, second@));
    state.finish()
}

/// The bytes that reach the hash state for the ordered pair `(first, second)`:
/// what it is fed, end to end.
pub open spec fn stream(first: Seq<u8>, second: Seq<u8>) -> Seq<u8> {
    spec_u64_to_le_bytes(first.len() as u64) + first + spec_u64_to_le_bytes(second.len() as u64)
        + second
}

/// The stream is what the hash state is fed, one piece behind the other:
/// `combine` is the digest of a state that has taken in exactly these bytes.
pub proof fn law_stream_is_fed(first: Seq<u8>, second: Seq<u8>)
    ensures
        fed(first, second).len() == 4,
        stream(first, second) == fed(first, second).flatten(),
        stream(first, second) == fed(first, second)[0] + fed(first, second)[1] + fed(
            first,
            second,
        )[2] + fed(first, second)[3],
{
    let pieces = fed(first, second);
    let one = pieces.drop_first();
    let two = one.drop_first();
    let three = two.drop_first();
    assert(three.drop_first().len() == 0);
    assert(three.flatten() =~= pieces[3]) by {
        assert(three.drop_first().flatten() =~= Seq::<u8>::empty());
    }
    assert(two.flatten() =~= pieces[2] + pieces[3]);
    assert(one.flatten() =~= pieces[1] + pieces[2] + pieces[3]);
    assert(pieces.flatten() =~= pieces[0] + pieces[1] + pieces[2] + pieces[3]);
}

/// What is hashed tells every ordered pair from every other: two pairs of
/// names reach the hash state as the same bytes only if they are the same
/// pair, in the same order. Two pairs share a key only where the digest
/// itself collides.
pub proof fn law_stream_tells_pairs_apart(
    first: Seq<u8>,
    second: Seq<u8>,
    other_first: Seq<u8>,
    other_second: Seq<u8>,
)
    requires
        first.len() <= u64::MAX,
        second.len() <= u64::MAX,
        other_first.len() <= u64::MAX,
        other_second.len() <= u64::MAX,
    ensures
        stream(first, second) == stream(other_first, other_second) <==> first == other_first
            && second == other_second,
{
    lemma_auto_spec_u64_to_from_le_bytes();
    let left = stream(first, second);
    let right = stream(other_first, other_second);
    if left == right {
        let a = first.len() as int;
        let c = other_first.len() as int;
        assert(left.subrange(0, 8) =~= spec_u64_to_le_bytes(first.len() as u64));
        assert(right.subrange(0, 8) =~= spec_u64_to_le_bytes(other_first.len() as u64));
        assert(first.len() as u64 == other_first.len() as u64);
        assert(a == c);
        assert(left.subrange(8, 8 + a) =~= first);
        assert(right.subrange(8, 8 + c) =~= other_first);
        let b = second.len() as int;
        let d = other_second.len() as int;
        assert(left.subrange(8 + a, 16 + a) =~= spec_u64_to_le_bytes(second.len() as u64));
        assert(right.subrange(8 + c, 16 + c) =~= spec_u64_to_le_bytes(
            other_second.len() as u64,
        ));
        assert(second.len() as u64 == other_second.len() as u64);
        assert(b == d);
        assert(left.subrange(16 + a, 16 + a + b) =~= second);
        assert(right.subrange(16 + c, 16 + c + d) =~= other_second);
    }
}

} // verus!
