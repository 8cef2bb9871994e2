//! Reading little-endian integers and addresses out of raw account data.
use vstd::prelude::*;
use vstd::bytes::{spec_u128_from_le_bytes, spec_u64_from_le_bytes, u128_from_le_bytes, u64_from_le_bytes};
use vstd::slice::slice_subrange;
use crate::pubkey::Pubkey;

verus! {

/// The `u64` stored little-endian at byte offset `off`.
pub open spec fn le_u64_at(d: Seq<u8>, off: int) -> u64 {
    spec_u64_from_le_bytes(d.subrange(off, off + 8))
}

/// The `u128` stored little-endian at byte offset `off`.
pub open spec fn le_u128_at(d: Seq<u8>, off: int) -> u128 {
    spec_u128_from_le_bytes(d.subrange(off, off + 16))
}

/// The address stored at byte offset `off` is `k`.
pub open spec fn pubkey_at(d: Seq<u8>, off: int, k: Pubkey) -> bool {
    k.bytes@ == d.subrange(off, off + 32)
}

/// `N` consecutive `u64`s stored from byte offset `off`.
pub open spec fn u64s_at<const N: usize>(d: Seq<u8>, off: int, a: [u64; N]) -> bool {
    forall|i: int| 0 <= i < N ==> #[trigger] a@[i] == le_u64_at(d, off + 8 * i)
}

/// Reads a little-endian `u64`.
pub fn read_u64(data: &[u8], off: usize) -> (r: u64)
    requires
        off + 8 <= data@.len(),
    ensures
        r == le_u64_at(data@, off as int),
{
    let _n = data.len();
    u64_from_le_bytes(slice_subrange(data, off, off + 8))
}

/// Reads a little-endian `u128`.
pub fn read_u128(data: &[u8], off: usize) -> (r: u128)
    requires
        off + 16 <= data@.len(),
    ensures
        r == le_u128_at(data@, off as int),
{
    let _n = data.len();
    u128_from_le_bytes(slice_subrange(data, off, off + 16))
}

/// Reads a 32-byte address.
pub fn read_pubkey(data: &[u8], off: usize) -> (r: Pubkey)
    requires
        off + 32 <= data@.len(),
    ensures
        pubkey_at(data@, off as int, r),
{
    let n = data.len();
    let mut bytes = [0u8; 32];
    let mut i: usize = 0;
    while i < 32
        invariant
            0 <= i <= 32,
            off + 32 <= data@.len(),
            n == data@.len(),
            forall|j: int| 0 <= j < i ==> bytes@[j] == data@[off + j],
        decreases 32 - i,
    {
        bytes[i] = data[off + i];
        i = i + 1;
    }
    let r = Pubkey { bytes };
    assert(r.bytes@ =~= data@.subrange(off as int, off + 32));
    r
}

/// Reads `N` consecutive little-endian `u64`s.
pub fn read_u64s<const N: usize>(data: &[u8], off: usize) -> (r: [u64; N])
    requires
        off + 8 * N <= data@.len(),
    ensures
        u64s_at(data@, off as int, r),
{
    let n = data.len();
    let mut a: [u64; N] = vstd::array::array_fill_for_copy_types(0u64);
    let mut i: usize = 0;
    while i < N
        invariant
            0 <= i <= N,
            off + 8 * N <= data@.len(),
            n == data@.len(),
            a@.len() == N,
            forall|j: int| 0 <= j < i ==> #[trigger] a@[j] == le_u64_at(data@, off + 8 * j),
        decreases N - i,
    {
        let v = read_u64(data, off + 8 * i);
        a[i] = v;
        i = i + 1;
    }
    a
}

} // verus!
