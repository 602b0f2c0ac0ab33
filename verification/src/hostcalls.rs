//! The calls of the guest that hand it its arguments, its environment, the
//! time and random bytes: each writes its answer into the memory of the
//! guest.
use vstd::prelude::*;
use vstd::bytes::spec_u32_to_le_bytes;
use vstd::bytes::spec_u64_to_le_bytes;
use crate::clock;
use crate::ctx::WasiCtx;
use crate::ctx::spec_strings;
use crate::error::Error;
use crate::memory::enc_slice_of;
use crate::memory::enc_slice_of_u32;
use crate::memory::enc_timestamp_byref;
use crate::memory::enc_u32_byref;
use crate::memory::spec_enc_bytes;
use crate::memory::spec_is_result;
use crate::memory::spec_stored;
use crate::memory::spec_u32s_to_le_bytes;
use crate::os;

verus! {

/// The memory and the result after the first `n` of the strings `strings`
/// have been stored, each closed by a zero byte, one after the other from
/// the guest address `buf` on: with the result go the number of bytes
/// stored and the address of each string. The first string that does not
/// lie within the memory fails with `EINVAL`, an address or a number of
/// bytes that does not fit in 32 bits with `EOVERFLOW`; what was stored
/// before stays.
pub open spec fn spec_enc_strings(memory: Seq<u8>, strings: Seq<Seq<u8>>, buf: u32, n: nat) -> (
    Seq<u8>,
    Result<(u32, Seq<u32>), Error>,
)
    decreases n,
{
    if n == 0 {
        (memory, Ok((0, Seq::empty())))
    } else {
        let (stored, r) = spec_enc_strings(memory, strings, buf, (n - 1) as nat);
        match r {
            Err(e) => (stored, Err(e)),
            Ok((offset, pointers)) => {
                let bytes = strings[n - 1].push(0u8);
                if buf + offset > u32::MAX {
                    (stored, Err(Error::EOVERFLOW))
                } else {
                    match spec_enc_bytes(stored, (buf + offset) as u32, bytes) {
                        Err(e) => (stored, Err(e)),
                        Ok(next) => if offset + bytes.len() > u32::MAX {
                            (next, Err(Error::EOVERFLOW))
                        } else {
                            (
                                next,
                                Ok(
                                    (
                                        (offset + bytes.len()) as u32,
                                        pointers.push((buf + offset) as u32),
                                    ),
                                ),
                            )
                        },
                    }
                }
            },
        }
    }
}

/// The memory and the result after the strings `strings` have been stored
/// from the guest address `buf` on, and then their addresses, four bytes
/// each, from the guest address `ptr` on.
pub open spec fn spec_strings_get(memory: Seq<u8>, strings: Seq<Seq<u8>>, ptr: u32, buf: u32) -> (
    Seq<u8>,
    Result<(), Error>,
) {
    let (stored, r) = spec_enc_strings(memory, strings, buf, strings.len());
    match r {
        Err(e) => (stored, Err(e)),
        Ok((_, pointers)) => match spec_enc_bytes(stored, ptr, spec_u32s_to_le_bytes(pointers)) {
            Ok(done) => (done, Ok(())),
            Err(e) => (stored, Err(e)),
        },
    }
}

/// Once storing the first `m` strings has failed, storing more of them
/// fails in the same way and leaves the same memory.
proof fn lemma_enc_strings_failure_stays(
    memory: Seq<u8>,
    strings: Seq<Seq<u8>>,
    buf: u32,
    m: nat,
    n: nat,
)
    requires
        m <= n,
        spec_enc_strings(memory, strings, buf, m).1 is Err,
    ensures
        spec_enc_strings(memory, strings, buf, n) == spec_enc_strings(memory, strings, buf, m),
    decreases n,
{
    if m < n {
        lemma_enc_strings_failure_stays(memory, strings, buf, m, (n - 1) as nat);
    }
}

fn with_nul(string: &Vec<u8>) -> (bytes: Vec<u8>)
    requires
        string@.len() < usize::MAX,
    ensures
        bytes@ == string@.push(0u8),
{
    let mut bytes: Vec<u8> = Vec::new();
    let mut i: usize = 0;
    while i < string.len()
        invariant
            i <= string@.len(),
            bytes@ == string@.take(i as int),
        decreases string@.len() - i,
    {
        bytes.push(string[i]);
        assert(string@.take(i + 1) =~= string@.take(i as int).push(string@[i as int]));
        i = i + 1;
    }
    assert(string@.take(i as int) =~= string@);
    bytes.push(0);
    bytes
}

fn strings_get(memory: &mut Vec<u8>, strings: &Vec<Vec<u8>>, ptr: u32, buf: u32) -> (r: Result<
    (),
    Error,
>)
    ensures
        final(memory)@ == spec_strings_get(old(memory)@, spec_strings(strings@), ptr, buf).0,
        spec_is_result(r, spec_strings_get(old(memory)@, spec_strings(strings@), ptr, buf).1),
        final(memory)@.len() == old(memory)@.len(),
{
    let ghost before = memory@;
    let ghost all = spec_strings(strings@);
    let mut offset: u32 = 0;
    let mut pointers: Vec<u32> = Vec::new();
    let mut i: usize = 0;
    while i < strings.len()
        invariant
            i <= strings@.len(),
            all == spec_strings(strings@),
            before == old(memory)@,
            memory@.len() == before.len(),
            spec_enc_strings(before, all, buf, i as nat) == (
                memory@,
                Ok::<(u32, Seq<u32>), Error>((offset, pointers@)),
            ),
        decreases strings@.len() - i,
    {
        let ghost stored = memory@;
        assert(all[i as int] == strings@[i as int]@);
        let pointer = match buf.checked_add(offset) {
            Some(pointer) => pointer,
            None => {
                proof {
                    lemma_enc_strings_failure_stays(
                        before,
                        all,
                        buf,
                        (i + 1) as nat,
                        strings@.len(),
                    );
                }
                return Err(Error::EOVERFLOW);
            },
        };
        if strings[i].len() >= memory.len() {
            proof {
                lemma_enc_strings_failure_stays(before, all, buf, (i + 1) as nat, strings@.len());
            }
            return Err(Error::EINVAL);
        }
        let bytes = with_nul(&strings[i]);
        match enc_slice_of(memory, &bytes, pointer) {
            Ok(()) => {},
            Err(e) => {
                proof {
                    lemma_enc_strings_failure_stays(
                        before,
                        all,
                        buf,
                        (i + 1) as nat,
                        strings@.len(),
                    );
                }
                return Err(e);
            },
        }
        let len: u32 = if bytes.len() > 0xffff_ffff {
            proof {
                lemma_enc_strings_failure_stays(before, all, buf, (i + 1) as nat, strings@.len());
            }
            return Err(Error::EOVERFLOW);
        } else {
            bytes.len() as u32
        };
        offset = match offset.checked_add(len) {
            Some(offset) => offset,
            None => {
                proof {
                    lemma_enc_strings_failure_stays(
                        before,
                        all,
                        buf,
                        (i + 1) as nat,
                        strings@.len(),
                    );
                }
                return Err(Error::EOVERFLOW);
            },
        };
        pointers.push(pointer);
        i = i + 1;
    }
    let ghost stored = memory@;
    let r = enc_slice_of_u32(memory, &pointers, ptr);
    proof {
        assert(all.len() == strings@.len());
        assert(spec_enc_strings(before, all, buf, all.len()) == (
            stored,
            Ok::<(u32, Seq<u32>), Error>((offset, pointers@)),
        ));
        match spec_enc_bytes(stored, ptr, spec_u32s_to_le_bytes(pointers@)) {
            Ok(done) => {
                assert(r is Ok);
                assert(memory@ == done);
            },
            Err(e) => {
                assert(r == Err::<(), Error>(e));
                assert(memory@ == stored);
            },
        }
    }
    r
}

/// Writes the arguments of the guest into its memory: the arguments, each
/// closed by a zero byte, one after the other from `argv_buf` on, and their
/// addresses from `argv_ptr` on.
pub fn args_get(wasi_ctx: &WasiCtx, memory: &mut Vec<u8>, argv_ptr: u32, argv_buf: u32) -> (r:
    Result<(), Error>)
    ensures
        final(memory)@ == spec_strings_get(old(memory)@, wasi_ctx@.args, argv_ptr, argv_buf).0,
        spec_is_result(
            r,
            spec_strings_get(old(memory)@, wasi_ctx@.args, argv_ptr, argv_buf).1,
        ),
        final(memory)@.len() == old(memory)@.len(),
{
    strings_get(memory, wasi_ctx.args(), argv_ptr, argv_buf)
}

/// Writes the environment of the guest into its memory: the pairs, each
/// closed by a zero byte, one after the other from `environ_buf` on, and
/// their addresses from `environ_ptr` on.
pub fn environ_get(
    wasi_ctx: &WasiCtx,
    memory: &mut Vec<u8>,
    environ_ptr: u32,
    environ_buf: u32,
) -> (r: Result<(), Error>)
    ensures
        final(memory)@ == spec_strings_get(
            old(memory)@,
            wasi_ctx@.env,
            environ_ptr,
            environ_buf,
        ).0,
        spec_is_result(
            r,
            spec_strings_get(old(memory)@, wasi_ctx@.env, environ_ptr, environ_buf).1,
        ),
        final(memory)@.len() == old(memory)@.len(),
{
    strings_get(memory, wasi_ctx.env(), environ_ptr, environ_buf)
}

/// The number of bytes that the first `n` of the strings `strings` take,
/// each with its closing zero byte.
pub open spec fn spec_size_of_first(strings: Seq<Seq<u8>>, n: nat) -> nat
    decreases n,
{
    if n == 0 {
        0
    } else {
        spec_size_of_first(strings, (n - 1) as nat) + strings[n - 1].len() + 1
    }
}

/// The number of bytes that the strings `strings` take, each with its
/// closing zero byte.
pub open spec fn spec_size(strings: Seq<Seq<u8>>) -> nat {
    spec_size_of_first(strings, strings.len())
}

/// More strings take no fewer bytes.
proof fn lemma_size_of_first_grows(strings: Seq<Seq<u8>>, m: nat, n: nat)
    requires
        m <= n,
    ensures
        spec_size_of_first(strings, m) <= spec_size_of_first(strings, n),
    decreases n,
{
    if m < n {
        lemma_size_of_first_grows(strings, m, (n - 1) as nat);
    }
}

/// The memory and the result after the number of the strings `strings` has
/// been stored at the guest address `count_ptr` and the number of bytes that
/// they take at `size_ptr`, four bytes each. Where one of the two numbers
/// does not fit in 32 bits, nothing is stored and the result is
/// `EOVERFLOW`.
pub open spec fn spec_sizes_get(
    memory: Seq<u8>,
    strings: Seq<Seq<u8>>,
    count_ptr: u32,
    size_ptr: u32,
) -> (Seq<u8>, Result<(), Error>) {
    if strings.len() > u32::MAX || spec_size(strings) > u32::MAX {
        (memory, Err(Error::EOVERFLOW))
    } else {
        match spec_enc_bytes(memory, count_ptr, spec_u32_to_le_bytes(strings.len() as u32)) {
            Err(e) => (memory, Err(e)),
            Ok(counted) => match spec_enc_bytes(
                counted,
                size_ptr,
                spec_u32_to_le_bytes(spec_size(strings) as u32),
            ) {
                Err(e) => (counted, Err(e)),
                Ok(done) => (done, Ok(())),
            },
        }
    }
}

/// The number of bytes that the strings take, if it fits in 32 bits.
fn size_of(strings: &Vec<Vec<u8>>) -> (size: Option<u32>)
    ensures
        match size {
            Some(size) => size == spec_size(spec_strings(strings@)),
            None => spec_size(spec_strings(strings@)) > u32::MAX,
        },
{
    let ghost all = spec_strings(strings@);
    let mut size: u32 = 0;
    let mut i: usize = 0;
    while i < strings.len()
        invariant
            i <= strings@.len(),
            all == spec_strings(strings@),
            size == spec_size_of_first(all, i as nat),
        decreases strings@.len() - i,
    {
        assert(all[i as int] == strings@[i as int]@);
        proof {
            lemma_size_of_first_grows(all, (i + 1) as nat, all.len());
        }
        if strings[i].len() >= 0xffff_ffff {
            return None;
        }
        let len: u32 = strings[i].len() as u32 + 1;
        size = match size.checked_add(len) {
            Some(size) => size,
            None => {
                return None;
            },
        };
        i = i + 1;
    }
    Some(size)
}

fn sizes_get(memory: &mut Vec<u8>, strings: &Vec<Vec<u8>>, count_ptr: u32, size_ptr: u32) -> (r:
    Result<(), Error>)
    ensures
        final(memory)@ == spec_sizes_get(
            old(memory)@,
            spec_strings(strings@),
            count_ptr,
            size_ptr,
        ).0,
        spec_is_result(
            r,
            spec_sizes_get(old(memory)@, spec_strings(strings@), count_ptr, size_ptr).1,
        ),
        final(memory)@.len() == old(memory)@.len(),
{
    if strings.len() > 0xffff_ffff {
        return Err(Error::EOVERFLOW);
    }
    let count: u32 = strings.len() as u32;
    let size = match size_of(strings) {
        Some(size) => size,
        None => {
            return Err(Error::EOVERFLOW);
        },
    };
    match enc_u32_byref(memory, count_ptr, count) {
        Ok(()) => {},
        Err(e) => {
            return Err(e);
        },
    }
    enc_u32_byref(memory, size_ptr, size)
}

/// Writes into the memory of the guest how many arguments it has, at
/// `argc_ptr`, and how many bytes they take, at `argv_buf_size_ptr`.
pub fn args_sizes_get(
    wasi_ctx: &WasiCtx,
    memory: &mut Vec<u8>,
    argc_ptr: u32,
    argv_buf_size_ptr: u32,
) -> (r: Result<(), Error>)
    ensures
        final(memory)@ == spec_sizes_get(
            old(memory)@,
            wasi_ctx@.args,
            argc_ptr,
            argv_buf_size_ptr,
        ).0,
        spec_is_result(
            r,
            spec_sizes_get(old(memory)@, wasi_ctx@.args, argc_ptr, argv_buf_size_ptr).1,
        ),
        final(memory)@.len() == old(memory)@.len(),
{
    sizes_get(memory, wasi_ctx.args(), argc_ptr, argv_buf_size_ptr)
}

/// Writes into the memory of the guest how many pairs its environment has,
/// at `environ_count_ptr`, and how many bytes they take, at
/// `environ_size_ptr`.
pub fn environ_sizes_get(
    wasi_ctx: &WasiCtx,
    memory: &mut Vec<u8>,
    environ_count_ptr: u32,
    environ_size_ptr: u32,
) -> (r: Result<(), Error>)
    ensures
        final(memory)@ == spec_sizes_get(
            old(memory)@,
            wasi_ctx@.env,
            environ_count_ptr,
            environ_size_ptr,
        ).0,
        spec_is_result(
            r,
            spec_sizes_get(old(memory)@, wasi_ctx@.env, environ_count_ptr, environ_size_ptr).1,
        ),
        final(memory)@.len() == old(memory)@.len(),
{
    sizes_get(memory, wasi_ctx.env(), environ_count_ptr, environ_size_ptr)
}

/// What the answer `answer` of a clock does to the memory of the guest: its
/// nanoseconds are stored at the guest address `ptr`; a failure of the clock
/// leaves the memory as it was.
pub open spec fn spec_store_clock_answer(
    memory: Seq<u8>,
    answer: Result<u64, Error>,
    ptr: u32,
) -> Result<Seq<u8>, Error> {
    match answer {
        Ok(nanoseconds) => spec_enc_bytes(memory, ptr, spec_u64_to_le_bytes(nanoseconds)),
        Err(e) => Err(e),
    }
}

pub fn store_clock_answer(memory: &mut Vec<u8>, answer: Result<u64, Error>, ptr: u32) -> (r: Result<
    (),
    Error,
>)
    ensures
        spec_stored(
            old(memory)@,
            final(memory)@,
            r,
            spec_store_clock_answer(old(memory)@, answer, ptr),
        ),
        final(memory)@.len() == old(memory)@.len(),
{
    match answer {
        Ok(nanoseconds) => enc_timestamp_byref(memory, ptr, nanoseconds),
        Err(e) => Err(e),
    }
}

/// Writes the resolution of the clock `clock_id`, in nanoseconds, into the
/// memory of the guest at `resolution_ptr`. A clock that the guest ABI does
/// not name fails with `EINVAL`. Else, whatever the host answers, the
/// resolution that its answer stands for is stored at that address, and its
/// failure is handed on. A failure leaves the memory as it was.
pub fn clock_res_get(memory: &mut Vec<u8>, clock_id: u32, resolution_ptr: u32) -> (r: Result<
    (),
    Error,
>)
    ensures
        clock::spec_host_clock(clock_id) is None ==> r == Err::<(), Error>(Error::EINVAL),
        clock::spec_host_clock(clock_id) is Some ==> exists|answer: Result<(i64, i64), i32>|
            spec_stored(
                old(memory)@,
                final(memory)@,
                r,
                spec_store_clock_answer(
                    old(memory)@,
                    #[trigger] clock::spec_clock_answer(answer, true),
                    resolution_ptr,
                ),
            ),
        r is Err ==> final(memory)@ == old(memory)@,
        final(memory)@.len() == old(memory)@.len(),
{
    let resolution = clock::clock_res_get(clock_id);
    store_clock_answer(memory, resolution, resolution_ptr)
}

/// Writes the time on the clock `clock_id`, in nanoseconds, into the memory
/// of the guest at `time_ptr`. The precision asked for is not used. A clock
/// that the guest ABI does not name fails with `EINVAL`. Else, whatever the
/// host answers, the time that its answer stands for is stored at that
/// address, and its failure is handed on. A failure leaves the memory as it
/// was.
pub fn clock_time_get(memory: &mut Vec<u8>, clock_id: u32, precision: u64, time_ptr: u32) -> (r:
    Result<(), Error>)
    ensures
        clock::spec_host_clock(clock_id) is None ==> r == Err::<(), Error>(Error::EINVAL),
        clock::spec_host_clock(clock_id) is Some ==> exists|answer: Result<(i64, i64), i32>|
            spec_stored(
                old(memory)@,
                final(memory)@,
                r,
                spec_store_clock_answer(
                    old(memory)@,
                    #[trigger] clock::spec_clock_answer(answer, false),
                    time_ptr,
                ),
            ),
        r is Err ==> final(memory)@ == old(memory)@,
        final(memory)@.len() == old(memory)@.len(),
{
    let time = clock::clock_time_get(clock_id);
    store_clock_answer(memory, time, time_ptr)
}

/// Fills `buf_len` bytes of the memory of the guest from `buf_ptr` on with
/// random bytes. Bytes that do not lie within the memory fail with `EINVAL`
/// and leave it as it was. Of the random bytes nothing is known; the rest
/// of the memory stays.
pub fn random_get(memory: &mut Vec<u8>, buf_ptr: u32, buf_len: u32) -> (r: Result<(), Error>)
    ensures
        r is Ok <==> buf_ptr + buf_len <= old(memory)@.len(),
        r matches Err(e) ==> e == Error::EINVAL && final(memory)@ == old(memory)@,
        final(memory)@.len() == old(memory)@.len(),
        forall|i: int|
            0 <= i < old(memory)@.len() && !(buf_ptr <= i < buf_ptr + buf_len)
                ==> final(memory)@[i] == old(memory)@[i],
{
    let start: usize = buf_ptr as usize;
    let len: usize = buf_len as usize;
    if start > memory.len() || len > memory.len() - start {
        return Err(Error::EINVAL);
    }
    os::fill_random(memory, start, len);
    Ok(())
}

} // verus!
