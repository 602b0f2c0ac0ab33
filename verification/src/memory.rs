//! The memory of the guest, as the host writes to it: bytes, and numbers
//! with their lowest byte first.
use vstd::prelude::*;
use vstd::bytes::spec_u32_to_le_bytes;
use vstd::bytes::spec_u64_to_le_bytes;
use vstd::bytes::u32_to_le_bytes;
use vstd::bytes::u64_to_le_bytes;
use vstd::bytes::lemma_auto_spec_u32_to_from_le_bytes;
use crate::error::Error;

verus! {

/// The memory `memory` with `bytes` stored from the place `start` on.
pub open spec fn spec_store(memory: Seq<u8>, start: int, bytes: Seq<u8>) -> Seq<u8> {
    Seq::new(
        memory.len(),
        |i: int|
            if start <= i < start + bytes.len() {
                bytes[i - start]
            } else {
                memory[i]
            },
    )
}

/// What storing `bytes` at the guest address `ptr` gives: the memory with
/// the bytes in it, or `EINVAL` where they do not lie within the memory.
pub open spec fn spec_enc_bytes(memory: Seq<u8>, ptr: u32, bytes: Seq<u8>) -> Result<
    Seq<u8>,
    Error,
> {
    if ptr + bytes.len() <= memory.len() {
        Ok(spec_store(memory, ptr as int, bytes))
    } else {
        Err(Error::EINVAL)
    }
}

/// Whether the result `r` is the result `expected`.
pub open spec fn spec_is_result(r: Result<(), Error>, expected: Result<(), Error>) -> bool {
    match expected {
        Ok(_) => r is Ok,
        Err(e) => r == Err::<(), Error>(e),
    }
}

/// Whether the memory after a store and the result of the store are what
/// `expected` says: the new memory, or the failure with the memory as it
/// was.
pub open spec fn spec_stored(
    before: Seq<u8>,
    after: Seq<u8>,
    r: Result<(), Error>,
    expected: Result<Seq<u8>, Error>,
) -> bool {
    match expected {
        Ok(memory) => r is Ok && after == memory,
        Err(e) => r == Err::<(), Error>(e) && after == before,
    }
}

fn store(memory: &mut Vec<u8>, start: usize, bytes: &Vec<u8>)
    requires
        start + bytes@.len() <= old(memory)@.len(),
    ensures
        final(memory)@ == spec_store(old(memory)@, start as int, bytes@),
{
    let ghost before = memory@;
    let size: usize = memory.len();
    let mut i: usize = 0;
    while i < bytes.len()
        invariant
            i <= bytes@.len(),
            before.len() == size,
            start + bytes@.len() <= before.len(),
            memory@.len() == before.len(),
            forall|j: int|
                0 <= j < before.len() ==> memory@[j] == if start <= j < start + i {
                    bytes@[j - start]
                } else {
                    before[j]
                },
        decreases bytes@.len() - i,
    {
        memory.set(start + i, bytes[i]);
        i = i + 1;
    }
    assert(memory@ =~= spec_store(before, start as int, bytes@));
}

/// Stores `slice` at the guest address `ptr`.
pub fn enc_slice_of(memory: &mut Vec<u8>, slice: &Vec<u8>, ptr: u32) -> (r: Result<(), Error>)
    ensures
        spec_stored(old(memory)@, final(memory)@, r, spec_enc_bytes(old(memory)@, ptr, slice@)),
        final(memory)@.len() == old(memory)@.len(),
{
    let start: usize = ptr as usize;
    if start > memory.len() || slice.len() > memory.len() - start {
        return Err(Error::EINVAL);
    }
    store(memory, start, slice);
    Ok(())
}

/// Stores `value` at the guest address `ptr`, in four bytes, the lowest
/// first.
pub fn enc_u32_byref(memory: &mut Vec<u8>, ptr: u32, value: u32) -> (r: Result<(), Error>)
    ensures
        spec_stored(
            old(memory)@,
            final(memory)@,
            r,
            spec_enc_bytes(old(memory)@, ptr, spec_u32_to_le_bytes(value)),
        ),
        final(memory)@.len() == old(memory)@.len(),
{
    let bytes = u32_to_le_bytes(value);
    enc_slice_of(memory, &bytes, ptr)
}

/// Stores the timestamp `value` at the guest address `ptr`, in eight bytes,
/// the lowest first.
pub fn enc_timestamp_byref(memory: &mut Vec<u8>, ptr: u32, value: u64) -> (r: Result<(), Error>)
    ensures
        spec_stored(
            old(memory)@,
            final(memory)@,
            r,
            spec_enc_bytes(old(memory)@, ptr, spec_u64_to_le_bytes(value)),
        ),
        final(memory)@.len() == old(memory)@.len(),
{
    let bytes = u64_to_le_bytes(value);
    enc_slice_of(memory, &bytes, ptr)
}

/// The bytes of the numbers `values`, four for each, the lowest first.
pub open spec fn spec_u32s_to_le_bytes(values: Seq<u32>) -> Seq<u8>
    decreases values.len(),
{
    if values.len() == 0 {
        Seq::empty()
    } else {
        spec_u32s_to_le_bytes(values.drop_last()) + spec_u32_to_le_bytes(values.last())
    }
}

/// Each number takes four bytes.
pub proof fn lemma_u32s_to_le_bytes_len(values: Seq<u32>)
    ensures
        spec_u32s_to_le_bytes(values).len() == 4 * values.len(),
    decreases values.len(),
{
    lemma_auto_spec_u32_to_from_le_bytes();
    if values.len() > 0 {
        lemma_u32s_to_le_bytes_len(values.drop_last());
    }
}

/// Stores the numbers `slice` at the guest address `ptr`, one after the
/// other, each in four bytes, the lowest first.
pub fn enc_slice_of_u32(memory: &mut Vec<u8>, slice: &Vec<u32>, ptr: u32) -> (r: Result<(), Error>)
    ensures
        spec_stored(
            old(memory)@,
            final(memory)@,
            r,
            spec_enc_bytes(old(memory)@, ptr, spec_u32s_to_le_bytes(slice@)),
        ),
        final(memory)@.len() == old(memory)@.len(),
{
    proof {
        lemma_u32s_to_le_bytes_len(slice@);
    }
    let start: usize = ptr as usize;
    if start > memory.len() || slice.len() > (memory.len() - start) / 4 {
        return Err(Error::EINVAL);
    }
    let mut bytes: Vec<u8> = Vec::new();
    let mut i: usize = 0;
    while i < slice.len()
        invariant
            i <= slice@.len(),
            bytes@ == spec_u32s_to_le_bytes(slice@.take(i as int)),
        decreases slice@.len() - i,
    {
        let mut next = u32_to_le_bytes(slice[i]);
        bytes.append(&mut next);
        proof {
            assert(slice@.take(i + 1).drop_last() =~= slice@.take(i as int));
        }
        i = i + 1;
    }
    proof {
        assert(slice@.take(i as int) =~= slice@);
    }
    store(memory, start, &bytes);
    Ok(())
}

} // verus!
