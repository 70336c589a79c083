use vstd::prelude::*;
use crate::identity::Pubkey;

verus! {

/// The little-endian 64-bit word stored at `b[at..at + 8]`.
pub open spec fn le_u64(b: Seq<u8>, at: int) -> u64 {
    (b[at] as u64) | ((b[at + 1] as u64) << 8u64) | ((b[at + 2] as u64) << 16u64) | ((b[at + 3]
        as u64) << 24u64) | ((b[at + 4] as u64) << 32u64) | ((b[at + 5] as u64) << 40u64) | ((b[at
        + 6] as u64) << 48u64) | ((b[at + 7] as u64) << 56u64)
}

/// The address stored at `b[at..at + 32]`.
pub open spec fn pubkey_at(b: Seq<u8>, at: int) -> Pubkey {
    Pubkey { w0: le_u64(b, at), w1: le_u64(b, at + 8), w2: le_u64(b, at + 16), w3: le_u64(b, at + 24) }
}

/// Reads the little-endian 64-bit word at `data[at..at + 8]`.
pub fn read_u64_le(data: &Vec<u8>, at: usize) -> (r: u64)
    requires
        at + 8 <= data@.len(),
    ensures
        r == le_u64(data@, at as int),
{
    let len = data.len();
    assert(at + 8 <= len);
    (data[at] as u64) | ((data[at + 1] as u64) << 8u64) | ((data[at + 2] as u64) << 16u64) | ((
    data[at + 3] as u64) << 24u64) | ((data[at + 4] as u64) << 32u64) | ((data[at + 5] as u64)
        << 40u64) | ((data[at + 6] as u64) << 48u64) | ((data[at + 7] as u64) << 56u64)
}

/// Reads the address at `data[at..at + 32]`.
pub fn read_pubkey(data: &Vec<u8>, at: usize) -> (r: Pubkey)
    requires
        at + 32 <= data@.len(),
    ensures
        r == pubkey_at(data@, at as int),
{
    let len = data.len();
    assert(at + 32 <= len);
    Pubkey {
        w0: read_u64_le(data, at),
        w1: read_u64_le(data, at + 8),
        w2: read_u64_le(data, at + 16),
        w3: read_u64_le(data, at + 24),
    }
}

} // verus!
