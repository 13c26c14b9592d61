//! The plaintext schema: participant balances kept as `u64` in the clear,
//! with checked arithmetic. A deployment uses this schema or the encrypted
//! one, never both.

use vstd::prelude::*;
use vstd::bytes::{spec_u64_from_le_bytes, spec_u64_to_le_bytes, u64_from_le_bytes};
use crate::codec::{keys_equal, read_key};
use crate::error::ErrorCode;

verus! {

/// Size in bytes of a plaintext participant record.
pub const PLAIN_DEPOSIT_LEN: usize = 40;

/// A participant record with a plaintext balance.
#[derive(Clone, Copy, Debug, PartialEq, Eq)]
pub struct UserDeposit {
    pub user: [u8; 32],
    pub balance: u64,
}

/// The bytes of a plaintext record: owner, then the balance as 8
/// little-endian bytes.
pub open spec fn plain_deposit_bytes(user: Seq<u8>, balance: u64) -> Seq<u8> {
    user + spec_u64_to_le_bytes(balance)
}

impl UserDeposit {
    /// The encoded record.
    pub fn pack(&self) -> (r: Vec<u8>)
        ensures
            r@ == plain_deposit_bytes(self.user@, self.balance),
            r@.len() == PLAIN_DEPOSIT_LEN,
    {
        let mut r = vstd::slice::slice_to_vec(self.user.as_slice());
        let mut tail = vstd::bytes::u64_to_le_bytes(self.balance);
        proof {
            vstd::bytes::lemma_auto_spec_u64_to_from_le_bytes();
        }
        r.append(&mut tail);
        assert(r@ =~= plain_deposit_bytes(self.user@, self.balance));
        r
    }

    /// Decodes the first `PLAIN_DEPOSIT_LEN` bytes of `src`.
    pub fn unpack_from_slice(src: &[u8]) -> (r: Option<UserDeposit>)
        ensures
            src@.len() < PLAIN_DEPOSIT_LEN <==> r.is_none(),
            r matches Some(d) ==> {
                &&& d.user@ == src@.subrange(0, 32)
                &&& d.balance == spec_u64_from_le_bytes(src@.subrange(32, 40))
            },
    {
        if src.len() < PLAIN_DEPOSIT_LEN {
            return None;
        }
        let balance = u64_from_le_bytes(vstd::slice::slice_subrange(src, 32, 40));
        Some(UserDeposit { user: read_key(src, 0), balance })
    }
}

/// Credits `amount` to the record of `user`, which becomes its owner.
/// A zero amount, or a balance that would overflow, changes nothing.
pub fn deposit(record: &mut UserDeposit, user: &[u8; 32], amount: u64) -> (r: Result<(), ErrorCode>)
    ensures
        amount == 0 ==> r == Err::<(), ErrorCode>(ErrorCode::InvalidAmount),
        amount != 0 && old(record).balance + amount > u64::MAX ==> r == Err::<(), ErrorCode>(
            ErrorCode::ArithmeticOverflow,
        ),
        r is Err ==> *final(record) == *old(record),
        r is Ok ==> final(record).user@ == user@ && final(record).balance == old(record).balance + amount,
        r is Ok <==> (amount != 0 && old(record).balance + amount <= u64::MAX),
{
    if amount == 0 {
        return Err(ErrorCode::InvalidAmount);
    }
    match record.balance.checked_add(amount) {
        Some(b) => {
            record.user = *user;
            record.balance = b;
            Ok(())
        },
        None => Err(ErrorCode::ArithmeticOverflow),
    }
}

/// Debits `amount` from the record, which `user` must own.
pub fn withdraw(record: &mut UserDeposit, user: &[u8; 32], amount: u64) -> (r: Result<(), ErrorCode>)
    ensures
        old(record).user@ != user@ ==> r == Err::<(), ErrorCode>(ErrorCode::UnauthorizedUser),
        old(record).user@ == user@ && old(record).balance < amount ==> r == Err::<(), ErrorCode>(
            ErrorCode::InsufficientFunds,
        ),
        r is Err ==> *final(record) == *old(record),
        r is Ok ==> final(record).user == old(record).user && final(record).balance == old(record).balance
            - amount,
        r is Ok <==> (old(record).user@ == user@ && old(record).balance >= amount),
{
    if !keys_equal(&record.user, user) {
        return Err(ErrorCode::UnauthorizedUser);
    }
    if record.balance < amount {
        return Err(ErrorCode::InsufficientFunds);
    }
    record.balance = record.balance - amount;
    Ok(())
}

/// Debits `amount` from the record of `user` on a delegated intent, which
/// must carry a signature.
pub fn execute_with_intent(record: &mut UserDeposit, user: &[u8; 32], signature: &[u8], amount: u64) -> (r: Result<
    (),
    ErrorCode,
>)
    ensures
        signature@.len() == 0 ==> r == Err::<(), ErrorCode>(ErrorCode::InvalidSignature),
        signature@.len() != 0 && old(record).user@ != user@ ==> r == Err::<(), ErrorCode>(
            ErrorCode::UnauthorizedUser,
        ),
        signature@.len() != 0 && old(record).user@ == user@ && old(record).balance < amount ==> r == Err::<
            (),
            ErrorCode,
        >(ErrorCode::InsufficientFunds),
        r is Err ==> *final(record) == *old(record),
        r is Ok ==> final(record).user == old(record).user && final(record).balance == old(record).balance
            - amount,
        r is Ok <==> (signature@.len() != 0 && old(record).user@ == user@ && old(record).balance >= amount),
{
    if signature.len() == 0 {
        return Err(ErrorCode::InvalidSignature);
    }
    withdraw(record, user, amount)
}

} // verus!
