//! The wire format of the confidential-compute coprocessor.
//!
//! Every call is one request: an 8-byte selector naming the operation,
//! then its arguments. The coprocessor answers through the return channel
//! with a 16-byte little-endian value: an encrypted handle, or for the
//! comparisons a flag that reads false when zero.

use vstd::prelude::*;
use vstd::bytes::{spec_u128_from_le_bytes, spec_u128_to_le_bytes, spec_u32_to_le_bytes};
use crate::error::ErrorCode;

verus! {

/// The SHA-256 digest of `data`.
pub uninterp spec fn sha256_of(data: Seq<u8>) -> Seq<u8>;

/// Relies on solana_program's `hash::hash`: the 32-byte SHA-256 digest of
/// its input, which depends on the input alone.
#[verifier::external_body]
fn sha256(data: &[u8]) -> (r: [u8; 32])
    ensures
        r@ == sha256_of(data@),
{
    solana_program::hash::hash(data).to_bytes()
}

/// The operations of the coprocessor that the vault uses.
#[derive(Clone, Copy, Debug, PartialEq, Eq, Structural)]
pub enum Operator {
    /// Ingest a user-supplied ciphertext.
    NewEuint128,
    /// Encrypt a plaintext known to the vault.
    AsEuint128,
    EAdd,
    ESub,
    /// Encrypted `lhs >= rhs`.
    EGe,
    /// Encrypted `lhs == rhs`.
    EEq,
}

/// The instruction name of an operation, as bytes.
pub open spec fn operator_name(op: Operator) -> Seq<u8> {
    match op {
        // "new_euint128"
        Operator::NewEuint128 => seq![110u8, 101, 119, 95, 101, 117, 105, 110, 116, 49, 50, 56],
        // "as_euint128"
        Operator::AsEuint128 => seq![97u8, 115, 95, 101, 117, 105, 110, 116, 49, 50, 56],
        // "e_add"
        Operator::EAdd => seq![101u8, 95, 97, 100, 100],
        // "e_sub"
        Operator::ESub => seq![101u8, 95, 115, 117, 98],
        // "e_ge"
        Operator::EGe => seq![101u8, 95, 103, 101],
        // "e_eq"
        Operator::EEq => seq![101u8, 95, 101, 113],
    }
}

/// The bytes of "global:", the namespace of instruction selectors.
pub open spec fn global_prefix() -> Seq<u8> {
    seq![103u8, 108, 111, 98, 97, 108, 58]
}

/// The selector of an operation: the first 8 bytes of the SHA-256 digest of
/// "global:" followed by its name.
pub open spec fn selector(op: Operator) -> Seq<u8> {
    sha256_of(global_prefix() + operator_name(op)).subrange(0, 8)
}

fn operator_name_bytes(op: Operator) -> (r: Vec<u8>)
    ensures
        r@ == operator_name(op),
{
    let r = match op {
        Operator::NewEuint128 => vec![110u8, 101, 119, 95, 101, 117, 105, 110, 116, 49, 50, 56],
        Operator::AsEuint128 => vec![97u8, 115, 95, 101, 117, 105, 110, 116, 49, 50, 56],
        Operator::EAdd => vec![101u8, 95, 97, 100, 100],
        Operator::ESub => vec![101u8, 95, 115, 117, 98],
        Operator::EGe => vec![101u8, 95, 103, 101],
        Operator::EEq => vec![101u8, 95, 101, 113],
    };
    assert(r@ =~= operator_name(op));
    r
}

/// The 8-byte selector of `op`.
pub fn inco_sighash(op: Operator) -> (r: Vec<u8>)
    ensures
        r@ == selector(op),
        r@.len() == 8,
{
    let mut preimage = vec![103u8, 108, 111, 98, 97, 108, 58];
    let mut name = operator_name_bytes(op);
    preimage.append(&mut name);
    assert(preimage@ =~= global_prefix() + operator_name(op));
    let digest = sha256(preimage.as_slice());
    let r = vstd::slice::slice_to_vec(vstd::slice::slice_subrange(digest.as_slice(), 0, 8));
    assert(r@ =~= selector(op));
    r
}

/// Request that ingests `ciphertext` of the given input type.
pub open spec fn new_euint128_request(ciphertext: Seq<u8>, input_type: u8) -> Seq<u8> {
    selector(Operator::NewEuint128) + spec_u32_to_le_bytes(ciphertext.len() as u32) + ciphertext
        + seq![input_type]
}

/// Request that encrypts the plaintext `value`.
pub open spec fn as_euint128_request(value: u128) -> Seq<u8> {
    selector(Operator::AsEuint128) + spec_u128_to_le_bytes(value)
}

/// Whether `op` takes two handles.
pub open spec fn is_binary(op: Operator) -> bool {
    op == Operator::EAdd || op == Operator::ESub || op == Operator::EGe || op == Operator::EEq
}

/// Request that applies the binary operation `op` to two handles; the
/// trailing zero byte marks the left operand as a handle, not a scalar.
pub open spec fn binary_request(op: Operator, lhs: u128, rhs: u128) -> Seq<u8> {
    selector(op) + spec_u128_to_le_bytes(lhs) + spec_u128_to_le_bytes(rhs) + seq![0u8]
}

pub fn inco_new_euint128(ciphertext: &Vec<u8>, input_type: u8) -> (r: Vec<u8>)
    requires
        ciphertext@.len() <= u32::MAX,
    ensures
        r@ == new_euint128_request(ciphertext@, input_type),
{
    let mut r = inco_sighash(Operator::NewEuint128);
    let mut len = vstd::bytes::u32_to_le_bytes(ciphertext.len() as u32);
    r.append(&mut len);
    let mut body = vstd::slice::slice_to_vec(ciphertext.as_slice());
    r.append(&mut body);
    r.push(input_type);
    assert(r@ =~= new_euint128_request(ciphertext@, input_type));
    r
}

pub fn inco_as_euint128(value: u128) -> (r: Vec<u8>)
    ensures
        r@ == as_euint128_request(value),
{
    let mut r = inco_sighash(Operator::AsEuint128);
    let mut v = vstd::bytes::u128_to_le_bytes(value);
    r.append(&mut v);
    assert(r@ =~= as_euint128_request(value));
    r
}

pub fn inco_binary(op: Operator, lhs: u128, rhs: u128) -> (r: Vec<u8>)
    requires
        is_binary(op),
    ensures
        r@ == binary_request(op, lhs, rhs),
{
    let mut r = inco_sighash(op);
    let mut a = vstd::bytes::u128_to_le_bytes(lhs);
    let mut b = vstd::bytes::u128_to_le_bytes(rhs);
    r.append(&mut a);
    r.append(&mut b);
    r.push(0u8);
    assert(r@ =~= binary_request(op, lhs, rhs));
    r
}

/// The value a reply carries: its first 16 bytes, little-endian; a shorter
/// reply carries none.
pub open spec fn reply_value(data: Seq<u8>) -> Option<u128> {
    if data.len() < 16 {
        None
    } else {
        Some(spec_u128_from_le_bytes(data.subrange(0, 16)))
    }
}

/// Decodes a reply of the coprocessor.
pub fn inco_return_u128(data: &[u8]) -> (r: Result<u128, ErrorCode>)
    ensures
        match r {
            Ok(v) => reply_value(data@) == Some(v),
            Err(e) => reply_value(data@).is_none() && e == ErrorCode::ExternalService,
        },
{
    if data.len() < 16 {
        return Err(ErrorCode::ExternalService);
    }
    Ok(vstd::bytes::u128_from_le_bytes(vstd::slice::slice_subrange(data, 0, 16)))
}

} // verus!
