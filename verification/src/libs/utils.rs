//! Byte-buffer and set helpers that the wire codec and the subscription
//! index are built on.

use vstd::prelude::*;
use vstd::bytes::{
    spec_u16_from_le_bytes, spec_u32_from_le_bytes, spec_u64_from_le_bytes, u16_from_le_bytes,
    u32_from_le_bytes, u64_from_le_bytes,
};
use vstd::slice::{slice_subrange, slice_to_vec};
use crate::libs::types::TopicId;

verus! {

broadcast use {
    Seq::<_>::lemma_push_to_set_commute,
    Seq::<_>::lemma_take_succ_push,
    Seq::<_>::lemma_index_contains,
    Seq::<_>::lemma_take_len,
};

/// The bytes of `buffer` from `from` to `to`, both bounds included — except
/// that equal bounds give an empty vector rather than one byte.
pub fn get_bytes_from_slice(buffer: &[u8], from: usize, to: usize) -> (out: Vec<u8>)
    requires
        from <= to,
        to < buffer.len(),
    ensures
        out@ == if to == from {
            Seq::<u8>::empty()
        } else {
            buffer@.subrange(from as int, to + 1)
        },
{
    if to == from {
        let empty: Vec<u8> = Vec::new();
        return empty;
    }
    slice_to_vec(slice_subrange(buffer, from, to + 1))
}

/// The little-endian `u64` whose eight bytes start at `position`.
pub fn get_u64_at_pos(buffer: &[u8], position: usize) -> (out: Result<u64, &'static str>)
    requires
        position + 8 <= buffer.len(),
    ensures
        out == Ok::<u64, &'static str>(
            spec_u64_from_le_bytes(buffer@.subrange(position as int, position + 8)),
        ),
{
    Ok(u64_from_le_bytes(slice_subrange(buffer, position, position + 8)))
}

/// The little-endian `u32` whose four bytes start at `position`.
pub fn get_u32_at_pos(buffer: &[u8], position: usize) -> (out: Result<u32, &'static str>)
    requires
        position + 4 <= buffer.len(),
    ensures
        out == Ok::<u32, &'static str>(
            spec_u32_from_le_bytes(buffer@.subrange(position as int, position + 4)),
        ),
{
    Ok(u32_from_le_bytes(slice_subrange(buffer, position, position + 4)))
}

/// The little-endian `u16` whose two bytes start at `position`.
pub fn get_u16_at_pos(buffer: &[u8], position: usize) -> (out: Result<u16, &'static str>)
    requires
        position + 2 <= buffer.len(),
    ensures
        out == Ok::<u16, &'static str>(
            spec_u16_from_le_bytes(buffer@.subrange(position as int, position + 2)),
        ),
{
    Ok(u16_from_le_bytes(slice_subrange(buffer, position, position + 2)))
}

/// The two deltas between an incoming topic set and the current one: the
/// values only the new set holds, and the values only the current one holds,
/// each in the order of the set it comes from.
pub fn diff_hashsets(new_set: &Vec<TopicId>, current_set: &Vec<TopicId>) -> (deltas: (
    Vec<TopicId>,
    Vec<TopicId>,
))
    ensures
        deltas.0@ == new_set@.filter(|t: TopicId| !current_set@.contains(t)),
        deltas.1@ == current_set@.filter(|t: TopicId| !new_set@.contains(t)),
{
    let added = values_not_in(new_set, current_set);
    let removed = values_not_in(current_set, new_set);
    (added, removed)
}

/// The values of `from` that `excluded` does not hold, in `from`'s order.
fn values_not_in(from: &Vec<TopicId>, excluded: &Vec<TopicId>) -> (out: Vec<TopicId>)
    ensures
        out@ == from@.filter(|t: TopicId| !excluded@.contains(t)),
{
    let mut out: Vec<TopicId> = Vec::new();
    let mut i: usize = 0;
    while i < from.len()
        invariant
            i <= from@.len(),
            out@ == from@.take(i as int).filter(|t: TopicId| !excluded@.contains(t)),
        decreases from@.len() - i,
    {
        let ghost pred = |t: TopicId| !excluded@.contains(t);
        let candidate = from[i];
        if !contains_id(excluded, candidate) {
            out.push(candidate);
        }
        proof {
            reveal_with_fuel(Seq::<_>::filter, 2);
            assert(from@.take(i + 1).drop_last() =~= from@.take(i as int));
            assert(from@.take(i + 1).last() == from@[i as int]);
            assert(out@ == from@.take(i + 1).filter(pred));
        }
        i = i + 1;
    }
    proof {
        assert(from@.take(from@.len() as int) =~= from@);
    }
    out
}

/// Whether `values` holds `id`.
pub fn contains_id(values: &Vec<u64>, id: u64) -> (present: bool)
    ensures
        present == values@.contains(id),
{
    let mut i: usize = 0;
    while i < values.len()
        invariant
            i <= values@.len(),
            forall|j: int| 0 <= j < i ==> values@[j] != id,
        decreases values@.len() - i,
    {
        if values[i] == id {
            return true;
        }
        i = i + 1;
    }
    false
}

/// The value of a bitfield of eight bits, most significant first.
pub open spec fn spec_bits_value(bits: Seq<u8>) -> u8
    recommends
        bits.len() == 8,
{
    (bits[0] * 128 + bits[1] * 64 + bits[2] * 32 + bits[3] * 16 + bits[4] * 8 + bits[5] * 4
        + bits[6] * 2 + bits[7]) as u8
}

/// The byte that a bitfield of eight bits stands for, most significant bit
/// first. Each entry must be 0 or 1.
pub fn vec_to_u8(bitfield: Vec<u8>) -> (out: u8)
    requires
        bitfield@.len() == 8,
        forall|i: int| 0 <= i < 8 ==> bitfield@[i] <= 1,
    ensures
        out == spec_bits_value(bitfield@),
{
    let out = (bitfield[0] << 7u8) | (bitfield[1] << 6u8) | (bitfield[2] << 5u8) | (bitfield[3]
        << 4u8) | (bitfield[4] << 3u8) | (bitfield[5] << 2u8) | (bitfield[6] << 1u8) | bitfield[7];
    proof {
        let b0 = bitfield@[0];
        let b1 = bitfield@[1];
        let b2 = bitfield@[2];
        let b3 = bitfield@[3];
        let b4 = bitfield@[4];
        let b5 = bitfield@[5];
        let b6 = bitfield@[6];
        let b7 = bitfield@[7];
        assert((b0 << 7u8) | (b1 << 6u8) | (b2 << 5u8) | (b3 << 4u8) | (b4 << 3u8) | (b5 << 2u8) | (
        b6 << 1u8) | b7 == (b0 * 128 + b1 * 64 + b2 * 32 + b3 * 16 + b4 * 8 + b5 * 4 + b6 * 2
            + b7) as u8) by (bit_vector)
            requires
                b0 <= 1 && b1 <= 1 && b2 <= 1 && b3 <= 1 && b4 <= 1 && b5 <= 1 && b6 <= 1 && b7
                    <= 1,
        ;
    }
    out
}

/// Bit `i` of `number`, counted with the most significant bit as bit 0.
pub open spec fn spec_bit_at(number: u8, i: int) -> u8 {
    if (number >> (7 - i) as u8) & 1 == 1 {
        1u8
    } else {
        0u8
    }
}

/// The bitfield image of a byte, most significant bit first.
pub fn u8_to_vec_be(number: u8) -> (bits: Vec<u8>)
    ensures
        bits@.len() == 8,
        forall|i: int| 0 <= i < 8 ==> bits@[i] == spec_bit_at(number, i),
{
    let mut bits: Vec<u8> = Vec::with_capacity(8);
    let mut i: usize = 0;
    while i < 8
        invariant
            i <= 8,
            bits@.len() == i,
            forall|j: int| 0 <= j < i ==> bits@[j] == spec_bit_at(number, j),
        decreases 8 - i,
    {
        let shift = (7 - i) as u8;
        let bit = if (number >> shift) & 1 == 1 {
            1u8
        } else {
            0u8
        };
        bits.push(bit);
        i = i + 1;
    }
    bits
}

/// A copy of a byte payload, element for element.
pub fn clone_bytes(payload: &Vec<u8>) -> (out: Vec<u8>)
    ensures
        out@ == payload@,
{
    let mut out: Vec<u8> = Vec::with_capacity(payload.len());
    let mut i: usize = 0;
    while i < payload.len()
        invariant
            i <= payload@.len(),
            out@ == payload@.take(i as int),
        decreases payload@.len() - i,
    {
        out.push(payload[i]);
        proof {
            assert(out@ =~= payload@.take(i + 1));
        }
        i = i + 1;
    }
    proof {
        assert(payload@.take(payload@.len() as int) == payload@);
    }
    out
}

/// A copy of an identifier list, element for element.
pub fn clone_ids(values: &Vec<u64>) -> (out: Vec<u64>)
    ensures
        out@ == values@,
{
    let mut out: Vec<u64> = Vec::with_capacity(values.len());
    let mut i: usize = 0;
    while i < values.len()
        invariant
            i <= values@.len(),
            out@ == values@.take(i as int),
        decreases values@.len() - i,
    {
        out.push(values[i]);
        proof {
            assert(out@ =~= values@.take(i + 1));
        }
        i = i + 1;
    }
    proof {
        assert(values@.take(values@.len() as int) == values@);
    }
    out
}

/// The values of `values` other than `id`, in their order, without
/// repetition.
pub fn remove_id(values: &Vec<u64>, id: u64) -> (out: Vec<u64>)
    ensures
        out@.to_set() == values@.to_set().remove(id),
        out@.no_duplicates(),
        !out@.contains(id),
{
    let mut out: Vec<u64> = Vec::new();
    let mut i: usize = 0;
    while i < values.len()
        invariant
            i <= values@.len(),
            out@.to_set() == values@.take(i as int).to_set().remove(id),
            out@.no_duplicates(),
            !out@.contains(id),
        decreases values@.len() - i,
    {
        let candidate = values[i];
        if candidate != id && !contains_id(&out, candidate) {
            out.push(candidate);
        }
        proof {
            assert(values@.take(i + 1).to_set() =~= values@.take(i as int).to_set().insert(
                values@[i as int],
            )) by {
                assert forall|x: u64| #[trigger]
                    values@.take(i + 1).contains(x) == (values@.take(i as int).contains(x) || x
                        == values@[i as int]) by {
                    if values@.take(i + 1).contains(x) {
                        let j = choose|j: int| 0 <= j < i + 1 && #[trigger] values@.take(i + 1)[j] == x;
                        if j < i {
                            assert(values@.take(i as int)[j] == x);
                        }
                    }
                    if values@.take(i as int).contains(x) {
                        let j = choose|j: int| 0 <= j < i && #[trigger] values@.take(i as int)[j] == x;
                        assert(values@.take(i + 1)[j] == x);
                    }
                    if x == values@[i as int] {
                        assert(values@.take(i + 1)[i as int] == x);
                    }
                }
            }
            assert(out@.to_set() =~= values@.take(i + 1).to_set().remove(id));
        }
        i = i + 1;
    }
    proof {
        assert(values@.take(values@.len() as int) == values@);
    }
    out
}
} // verus!
