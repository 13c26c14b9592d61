//! Proof that an intent was signed by its owner.
//!
//! The host hands over the data of the Ed25519 signature-verification
//! instruction that precedes the call in the same transaction; the runtime
//! only executes a transaction whose Ed25519 instruction verifies. That data
//! holds a count of signatures, a padding byte, then for each signature
//! seven little-endian `u16` fields: signature offset and instruction index,
//! public key offset and instruction index, message offset, size and
//! instruction index. An index of `u16::MAX` designates the instruction's
//! own data.

use vstd::prelude::*;
use vstd::bytes::{spec_u16_from_le_bytes, u16_from_le_bytes};

verus! {

/// Length of an Ed25519 signature.
pub const SIGNATURE_LEN: usize = 64;

/// Instruction index that designates the verification instruction itself.
pub const OWN_DATA: u16 = 0xffff;

/// The little-endian `u16` at offset `i` of `d`.
pub open spec fn u16_at(d: Seq<u8>, i: int) -> int {
    spec_u16_from_le_bytes(d.subrange(i, i + 2)) as int
}

/// Whether `d` holds `expected` at offset `off`.
pub open spec fn holds_at(d: Seq<u8>, off: int, expected: Seq<u8>) -> bool {
    off + expected.len() <= d.len() && d.subrange(off, off + expected.len()) == expected
}

/// Whether the verification instruction data `d` attests, in its first
/// entry and from its own data, that `signature` by `key` signs `message`.
pub open spec fn attests(d: Seq<u8>, key: Seq<u8>, message: Seq<u8>, signature: Seq<u8>) -> bool {
    &&& d.len() >= 16
    &&& d[0] >= 1
    &&& u16_at(d, 4) == OWN_DATA && u16_at(d, 8) == OWN_DATA && u16_at(d, 14) == OWN_DATA
    &&& signature.len() == SIGNATURE_LEN && holds_at(d, u16_at(d, 2), signature)
    &&& holds_at(d, u16_at(d, 6), key)
    &&& u16_at(d, 12) == message.len() && holds_at(d, u16_at(d, 10), message)
}

fn read_u16(d: &[u8], i: usize) -> (r: u16)
    requires
        i + 2 <= d@.len(),
    ensures
        r as int == u16_at(d@, i as int),
{
    let _len = d.len();
    u16_from_le_bytes(vstd::slice::slice_subrange(d, i, i + 2))
}

/// Whether `d` holds `expected` at offset `off`.
pub fn holds_bytes_at(d: &[u8], off: usize, expected: &[u8]) -> (r: bool)
    ensures
        r == holds_at(d@, off as int, expected@),
{
    let n = d.len();
    let m = expected.len();
    if off > n || m > n - off {
        return false;
    }
    let mut i: usize = 0;
    while i < m
        invariant
            i <= m,
            n == d@.len(),
            m == expected@.len(),
            off + m <= n,
            forall|j: int| 0 <= j < i ==> d@[off + j] == expected@[j],
        decreases m - i,
    {
        if d[off + i] != expected[i] {
            return false;
        }
        i = i + 1;
    }
    assert(d@.subrange(off as int, off + m) =~= expected@);
    true
}

/// Checks an attestation of `signature` by `key` over `message`.
pub fn check_attestation(d: &[u8], key: &[u8], message: &[u8], signature: &[u8]) -> (r: bool)
    ensures
        r == attests(d@, key@, message@, signature@),
{
    if d.len() < 16 || d[0] < 1 {
        return false;
    }
    if read_u16(d, 4) != OWN_DATA || read_u16(d, 8) != OWN_DATA || read_u16(d, 14) != OWN_DATA {
        return false;
    }
    if signature.len() != SIGNATURE_LEN || !holds_bytes_at(d, read_u16(d, 2) as usize, signature) {
        return false;
    }
    if !holds_bytes_at(d, read_u16(d, 6) as usize, key) {
        return false;
    }
    read_u16(d, 12) as usize == message.len() && holds_bytes_at(d, read_u16(d, 10) as usize, message)
}

} // verus!
