//! Decoding of the instruction payload: a one-byte operation tag followed by
//! the operation's fixed or length-prefixed fields.

use vstd::prelude::*;
use vstd::bytes::{spec_u32_from_le_bytes, spec_u64_from_le_bytes, u32_from_le_bytes, u64_from_le_bytes};
use vstd::slice::{slice_subrange, slice_to_vec};
use crate::codec::read_key;
use crate::error::ErrorCode;

verus! {

pub const INITIALIZE: u8 = 0;
pub const DEPOSIT: u8 = 1;
pub const WITHDRAW: u8 = 2;
pub const EXECUTE_WITH_INTENT: u8 = 3;

/// A decoded instruction.
#[derive(Clone, Debug, PartialEq, Eq)]
pub enum VaultInstruction {
    Initialize { execution_account: [u8; 32] },
    Deposit { amount: u64, ciphertext: Vec<u8>, input_type: u8 },
    Withdraw { amount: u64 },
    ExecuteWithIntent {
        intent_hash: [u8; 32],
        signature: Vec<u8>,
        amount: u64,
        ciphertext: Vec<u8>,
        input_type: u8,
    },
}

/// The mathematical content of a decoded instruction.
pub enum InstructionModel {
    Initialize { execution_account: Seq<u8> },
    Deposit { amount: u64, ciphertext: Seq<u8>, input_type: u8 },
    Withdraw { amount: u64 },
    ExecuteWithIntent {
        intent_hash: Seq<u8>,
        signature: Seq<u8>,
        amount: u64,
        ciphertext: Seq<u8>,
        input_type: u8,
    },
}

impl View for VaultInstruction {
    type V = InstructionModel;

    open spec fn view(&self) -> InstructionModel {
        match self {
            VaultInstruction::Initialize { execution_account } => InstructionModel::Initialize {
                execution_account: execution_account@,
            },
            VaultInstruction::Deposit { amount, ciphertext, input_type } => InstructionModel::Deposit {
                amount: *amount,
                ciphertext: ciphertext@,
                input_type: *input_type,
            },
            VaultInstruction::Withdraw { amount } => InstructionModel::Withdraw { amount: *amount },
            VaultInstruction::ExecuteWithIntent {
                intent_hash,
                signature,
                amount,
                ciphertext,
                input_type,
            } => InstructionModel::ExecuteWithIntent {
                intent_hash: intent_hash@,
                signature: signature@,
                amount: *amount,
                ciphertext: ciphertext@,
                input_type: *input_type,
            },
        }
    }
}

/// The little-endian `u32` at offset `i` of `p`.
pub open spec fn u32_at(p: Seq<u8>, i: int) -> u32 {
    spec_u32_from_le_bytes(p.subrange(i, i + 4))
}

/// The little-endian `u64` at offset `i` of `p`.
pub open spec fn u64_at(p: Seq<u8>, i: int) -> u64 {
    spec_u64_from_le_bytes(p.subrange(i, i + 8))
}

/// Deposit fields: `amount(8) | ciphertext_len(4) | ciphertext | input_type(1)`.
pub open spec fn parse_deposit(p: Seq<u8>) -> Option<InstructionModel> {
    if p.len() < 13 {
        None
    } else {
        let n = u32_at(p, 8) as int;
        if p.len() < 13 + n {
            None
        } else {
            Some(InstructionModel::Deposit {
                amount: u64_at(p, 0),
                ciphertext: p.subrange(12, 12 + n),
                input_type: p[12 + n],
            })
        }
    }
}

/// Intent fields: `intent_hash(32) | signature_len(4) | signature |
/// amount(8) | ciphertext_len(4) | ciphertext | input_type(1)`.
pub open spec fn parse_intent(p: Seq<u8>) -> Option<InstructionModel> {
    if p.len() < 36 {
        None
    } else {
        let s = u32_at(p, 32) as int;
        if p.len() < 49 + s {
            None
        } else {
            let c = u32_at(p, 44 + s) as int;
            if p.len() < 49 + s + c {
                None
            } else {
                Some(InstructionModel::ExecuteWithIntent {
                    intent_hash: p.subrange(0, 32),
                    signature: p.subrange(36, 36 + s),
                    amount: u64_at(p, 36 + s),
                    ciphertext: p.subrange(48 + s, 48 + s + c),
                    input_type: p[48 + s + c],
                })
            }
        }
    }
}

/// The instruction that `data` encodes, if any. Bytes after the last field
/// are ignored.
pub open spec fn parse(data: Seq<u8>) -> Option<InstructionModel> {
    if data.len() == 0 {
        None
    } else {
        let p = data.drop_first();
        if data[0] == INITIALIZE {
            if p.len() < 32 {
                None
            } else {
                Some(InstructionModel::Initialize { execution_account: p.subrange(0, 32) })
            }
        } else if data[0] == DEPOSIT {
            parse_deposit(p)
        } else if data[0] == WITHDRAW {
            if p.len() < 8 {
                None
            } else {
                Some(InstructionModel::Withdraw { amount: u64_at(p, 0) })
            }
        } else if data[0] == EXECUTE_WITH_INTENT {
            parse_intent(p)
        } else {
            None
        }
    }
}

fn read_u32(p: &[u8], i: usize) -> (r: u32)
    requires
        i + 4 <= p@.len(),
    ensures
        r == u32_at(p@, i as int),
{
    let _len = p.len();
    u32_from_le_bytes(slice_subrange(p, i, i + 4))
}

fn read_u64(p: &[u8], i: usize) -> (r: u64)
    requires
        i + 8 <= p@.len(),
    ensures
        r == u64_at(p@, i as int),
{
    let _len = p.len();
    u64_from_le_bytes(slice_subrange(p, i, i + 8))
}

fn parse_deposit_fields(p: &[u8]) -> (r: Option<VaultInstruction>)
    ensures
        match r {
            Some(i) => parse_deposit(p@) == Some(i@),
            None => parse_deposit(p@).is_none(),
        },
{
    let len = p.len();
    if len < 13 {
        return None;
    }
    let n = read_u32(p, 8) as usize;
    if (len as u64) < 13 + n as u64 {
        return None;
    }
    let amount = read_u64(p, 0);
    let ciphertext = slice_to_vec(slice_subrange(p, 12, 12 + n));
    let input_type = p[12 + n];
    Some(VaultInstruction::Deposit { amount, ciphertext, input_type })
}

fn parse_intent_fields(p: &[u8]) -> (r: Option<VaultInstruction>)
    ensures
        match r {
            Some(i) => parse_intent(p@) == Some(i@),
            None => parse_intent(p@).is_none(),
        },
{
    let len = p.len();
    if len < 36 {
        return None;
    }
    let s = read_u32(p, 32) as usize;
    if (len as u64) < 49 + s as u64 {
        return None;
    }
    let c = read_u32(p, 44 + s) as usize;
    if (len as u64) < 49 + s as u64 + c as u64 {
        return None;
    }
    let intent_hash = read_key(p, 0);
    let signature = slice_to_vec(slice_subrange(p, 36, 36 + s));
    let amount = read_u64(p, 36 + s);
    let ciphertext = slice_to_vec(slice_subrange(p, 48 + s, 48 + s + c));
    let input_type = p[48 + s + c];
    Some(VaultInstruction::ExecuteWithIntent { intent_hash, signature, amount, ciphertext, input_type })
}

/// Decodes an instruction payload; truncated or unknown payloads are
/// refused before anything else is looked at.
pub fn parse_instruction(data: &[u8]) -> (r: Result<VaultInstruction, ErrorCode>)
    ensures
        match r {
            Ok(i) => parse(data@) == Some(i@),
            Err(e) => parse(data@).is_none() && e == ErrorCode::InvalidInstructionData,
        },
{
    let len = data.len();
    if len == 0 {
        return Err(ErrorCode::InvalidInstructionData);
    }
    let p = slice_subrange(data, 1, len);
    assert(p@ =~= data@.drop_first());
    let tag = data[0];
    let parsed = if tag == INITIALIZE {
        if p.len() < 32 {
            None
        } else {
            Some(VaultInstruction::Initialize { execution_account: read_key(p, 0) })
        }
    } else if tag == DEPOSIT {
        parse_deposit_fields(p)
    } else if tag == WITHDRAW {
        if p.len() < 8 {
            None
        } else {
            Some(VaultInstruction::Withdraw { amount: read_u64(p, 0) })
        }
    } else if tag == EXECUTE_WITH_INTENT {
        parse_intent_fields(p)
    } else {
        None
    };
    match parsed {
        Some(i) => Ok(i),
        None => Err(ErrorCode::InvalidInstructionData),
    }
}

} // verus!
