//! Two byte strings written as one: the length of the first in eight bytes
//! (least significant first), the first, then the second. Envelopes and key
//! bundles are built from this.

use vstd::bytes::{
    lemma_auto_spec_u64_to_from_le_bytes, spec_u64_from_le_bytes, spec_u64_to_le_bytes,
    u64_from_le_bytes, u64_to_le_bytes,
};
use vstd::prelude::*;
use vstd::slice::slice_subrange;

verus! {

/// Length of the length prefix, in bytes.
pub const PREFIX_SIZE: usize = 8;

/// `head` and `tail` written as one byte string.
pub open spec fn join_spec(head: Seq<u8>, tail: Seq<u8>) -> Seq<u8> {
    spec_u64_to_le_bytes(head.len() as u64) + head + tail
}

/// The two byte strings that `bytes` holds. `None` where `bytes` is too
/// short for a prefix, or for the length that the prefix announces.
pub open spec fn split_spec(bytes: Seq<u8>) -> Option<(Seq<u8>, Seq<u8>)> {
    if bytes.len() < PREFIX_SIZE {
        None
    } else {
        let announced = spec_u64_from_le_bytes(bytes.subrange(0, PREFIX_SIZE as int));
        if announced > bytes.len() - PREFIX_SIZE {
            None
        } else {
            Some(
                (
                    bytes.subrange(PREFIX_SIZE as int, PREFIX_SIZE + announced),
                    bytes.subrange(PREFIX_SIZE + announced, bytes.len() as int),
                ),
            )
        }
    }
}

/// Splitting inverts joining.
pub proof fn lemma_split_inverts_join(head: Seq<u8>, tail: Seq<u8>)
    requires
        head.len() <= u64::MAX,
    ensures
        split_spec(join_spec(head, tail)) == Some((head, tail)),
        join_spec(head, tail).len() == PREFIX_SIZE + head.len() + tail.len(),
{
    lemma_auto_spec_u64_to_from_le_bytes();
    let prefix = spec_u64_to_le_bytes(head.len() as u64);
    let bytes = join_spec(head, tail);
    assert(bytes.subrange(0, PREFIX_SIZE as int) == prefix);
}

/// Joining tells its parts apart: equal joined forms have equal heads and
/// equal tails.
pub proof fn lemma_join_is_injective(head_a: Seq<u8>, tail_a: Seq<u8>, head_b: Seq<u8>, tail_b: Seq<u8>)
    requires
        head_a.len() <= u64::MAX,
        head_b.len() <= u64::MAX,
        join_spec(head_a, tail_a) == join_spec(head_b, tail_b),
    ensures
        head_a == head_b,
        tail_a == tail_b,
{
    lemma_split_inverts_join(head_a, tail_a);
    lemma_split_inverts_join(head_b, tail_b);
}

/// Writes `head` and `tail` as one byte string.
pub fn join(head: &[u8], tail: &[u8]) -> (bytes: Vec<u8>)
    ensures
        bytes@ == join_spec(head@, tail@),
        split_spec(bytes@) == Some((head@, tail@)),
        bytes@.len() == PREFIX_SIZE + head@.len() + tail@.len(),
{
    let head_len = head.len();
    proof {
        lemma_split_inverts_join(head@, tail@);
    }
    let mut bytes = u64_to_le_bytes(head_len as u64);
    bytes.extend_from_slice(head);
    bytes.extend_from_slice(tail);
    proof {
        assert(bytes@ == join_spec(head@, tail@));
    }
    bytes
}

/// Splits `bytes` into the two byte strings it holds.
pub fn split(bytes: &[u8]) -> (parts: Option<(&[u8], &[u8])>)
    ensures
        match split_spec(bytes@) {
            Some(pair) => parts matches Some(out) && out.0@ == pair.0 && out.1@ == pair.1,
            None => parts is None,
        },
{
    if bytes.len() < PREFIX_SIZE {
        return None;
    }
    let announced = u64_from_le_bytes(slice_subrange(bytes, 0, PREFIX_SIZE));
    if announced > (bytes.len() - PREFIX_SIZE) as u64 {
        return None;
    }
    let end = PREFIX_SIZE + announced as usize;
    Some((slice_subrange(bytes, PREFIX_SIZE, end), slice_subrange(bytes, end, bytes.len())))
}

} // verus!
