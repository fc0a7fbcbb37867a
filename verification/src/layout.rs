//! Reading and writing the fixed layouts of the stored records.
//!
//! A record is stored as its fields one after the other, in the order of
//! its declaration: an address as its 32 bytes, a 64-bit count as eight
//! bytes with the lowest first, a bump seed as one byte.
use crate::address::{lemma_address_ext, Address};
use vstd::bytes::{
    lemma_auto_spec_u64_to_from_le_bytes, spec_u64_from_le_bytes, spec_u64_to_le_bytes,
    u64_from_le_bytes, u64_to_le_bytes,
};
use vstd::prelude::*;
use vstd::slice::slice_subrange;

verus! {

/// Appends `bytes` to `into`.
pub fn put(into: &mut Vec<u8>, bytes: &Vec<u8>)
    ensures
        final(into)@ == old(into)@ + bytes@,
{
    let mut i: usize = 0;
    while i < bytes.len()
        invariant
            i <= bytes.len(),
            into@ == old(into)@ + bytes@.subrange(0, i as int),
        decreases bytes.len() - i,
    {
        into.push(bytes[i]);
        i += 1;
        assert(into@ =~= old(into)@ + bytes@.subrange(0, i as int));
    }
    assert(bytes@.subrange(0, bytes@.len() as int) =~= bytes@);
}

/// Appends the address to `into`.
pub fn put_address(into: &mut Vec<u8>, address: &Address)
    ensures
        final(into)@ == old(into)@ + address@,
{
    let bytes = address.to_vec();
    put(into, &bytes);
}

/// Appends the count to `into`, lowest byte first.
pub fn put_u64(into: &mut Vec<u8>, count: u64)
    ensures
        final(into)@ == old(into)@ + spec_u64_to_le_bytes(count),
{
    let bytes = u64_to_le_bytes(count);
    put(into, &bytes);
}

/// The address stored in `data` from the place `at` on.
pub fn read_address(data: &[u8], at: usize) -> (a: Address)
    requires
        at + 32 <= data.len(),
    ensures
        a@ == data@.subrange(at as int, at + 32),
{
    let mut bytes = [0u8; 32];
    let mut i: usize = 0;
    while i < 32
        invariant
            i <= 32,
            at + 32 <= data.len(),
            forall|j: int| 0 <= j < i ==> bytes[j] == data@[at + j],
        decreases 32 - i,
    {
        bytes[i] = data[at + i];
        i += 1;
    }
    let a = Address { bytes };
    assert(a@ =~= data@.subrange(at as int, at + 32));
    a
}

/// The count stored in `data` from the place `at` on, lowest byte first.
pub fn read_u64(data: &[u8], at: usize) -> (count: u64)
    requires
        at + 8 <= data.len(),
    ensures
        count == spec_u64_from_le_bytes(data@.subrange(at as int, at + 8)),
        spec_u64_to_le_bytes(count) == data@.subrange(at as int, at + 8),
{
    proof {
        lemma_auto_spec_u64_to_from_le_bytes();
    }
    u64_from_le_bytes(slice_subrange(data, at, at + 8))
}

/// Two counts with the same stored form are the same count.
pub proof fn lemma_u64_bytes_are_injective(a: u64, b: u64)
    requires
        spec_u64_to_le_bytes(a) == spec_u64_to_le_bytes(b),
    ensures
        a == b,
{
    lemma_auto_spec_u64_to_from_le_bytes();
    assert(spec_u64_from_le_bytes(spec_u64_to_le_bytes(a)) == a);
    assert(spec_u64_from_le_bytes(spec_u64_to_le_bytes(b)) == b);
}

/// A stored count takes eight bytes.
pub proof fn lemma_u64_bytes_len(a: u64)
    ensures
        spec_u64_to_le_bytes(a).len() == 8,
{
    lemma_auto_spec_u64_to_from_le_bytes();
}

/// Two addresses with the same stored form are the same address.
pub proof fn lemma_address_bytes_are_injective(a: Address, b: Address)
    requires
        a@ == b@,
    ensures
        a == b,
{
    lemma_address_ext(a, b);
}

} // verus!
