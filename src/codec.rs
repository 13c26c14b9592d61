//! Fixed little-endian layouts of the persistent records.

use vstd::prelude::*;
use vstd::bytes::{spec_u128_from_le_bytes, spec_u128_to_le_bytes, u128_from_le_bytes};

verus! {

/// Size in bytes of the delegate configuration record.
pub const EXECUTOR_LEN: usize = 65;

/// Size in bytes of a participant record.
pub const USER_DEPOSIT_LEN: usize = 48;

/// Copies the 32 bytes of `src` starting at `start` into an array.
pub fn read_key(src: &[u8], start: usize) -> (r: [u8; 32])
    requires
        start + 32 <= src@.len(),
    ensures
        r@ == src@.subrange(start as int, start + 32),
{
    let n = src.len();
    let mut r = [0u8; 32];
    let mut i: usize = 0;
    while i < 32
        invariant
            i <= 32,
            n == src@.len(),
            start + 32 <= n,
            forall|j: int| 0 <= j < i ==> r@[j] == src@[start + j],
        decreases 32 - i,
    {
        r[i] = src[start + i];
        i = i + 1;
    }
    assert(r@ =~= src@.subrange(start as int, start + 32));
    r
}

/// Whether two keys hold the same bytes.
pub fn keys_equal(a: &[u8; 32], b: &[u8; 32]) -> (r: bool)
    ensures
        r == (a@ == b@),
{
    let mut i: usize = 0;
    while i < 32
        invariant
            i <= 32,
            forall|j: int| 0 <= j < i ==> a@[j] == b@[j],
        decreases 32 - i,
    {
        if a[i] != b[i] {
            return false;
        }
        i = i + 1;
    }
    assert(a@ =~= b@);
    true
}

/// Delegate configuration: who receives funds released by delegated
/// execution, and who controls the configuration.
#[derive(Clone, Copy, Debug, PartialEq, Eq)]
pub struct Executor {
    pub execution_account: [u8; 32],
    pub authority: [u8; 32],
    pub is_initialized: bool,
}

/// The bytes of a configuration record: receiver, authority, then a flag
/// byte that is 1 when initialized and 0 otherwise.
pub open spec fn executor_bytes(receiver: Seq<u8>, authority: Seq<u8>, flag: bool) -> Seq<u8> {
    receiver + authority + seq![if flag { 1u8 } else { 0u8 }]
}

impl Executor {
    pub open spec fn spec_bytes(&self) -> Seq<u8> {
        executor_bytes(self.execution_account@, self.authority@, self.is_initialized)
    }

    /// The encoded record.
    pub fn pack(&self) -> (r: Vec<u8>)
        ensures
            r@ == self.spec_bytes(),
    {
        let mut r: Vec<u8> = Vec::new();
        let mut i: usize = 0;
        while i < 32
            invariant
                i <= 32,
                r@ =~= self.execution_account@.subrange(0, i as int),
            decreases 32 - i,
        {
            r.push(self.execution_account[i]);
            i = i + 1;
        }
        let mut i: usize = 0;
        while i < 32
            invariant
                i <= 32,
                r@ =~= self.execution_account@ + self.authority@.subrange(0, i as int),
            decreases 32 - i,
        {
            r.push(self.authority[i]);
            i = i + 1;
        }
        r.push(if self.is_initialized { 1u8 } else { 0u8 });
        assert(r@ =~= self.spec_bytes());
        r
    }

    /// Decodes the first `EXECUTOR_LEN` bytes of `src`; the flag reads as
    /// set only when its byte is exactly 1.
    pub fn unpack_from_slice(src: &[u8]) -> (r: Option<Executor>)
        ensures
            src@.len() < EXECUTOR_LEN <==> r.is_none(),
            r matches Some(e) ==> {
                &&& e.execution_account@ == src@.subrange(0, 32)
                &&& e.authority@ == src@.subrange(32, 64)
                &&& e.is_initialized == (src@[64] == 1)
            },
    {
        if src.len() < EXECUTOR_LEN {
            return None;
        }
        Some(Executor {
            execution_account: read_key(src, 0),
            authority: read_key(src, 32),
            is_initialized: src[64] == 1,
        })
    }
}

/// A participant record: the depositing owner and the handle of their
/// encrypted balance.
#[derive(Clone, Copy, Debug, PartialEq, Eq)]
pub struct UserDeposit {
    pub user: [u8; 32],
    pub balance: u128,
}

/// The bytes of a participant record: owner, then the balance handle as
/// 16 little-endian bytes.
pub open spec fn user_deposit_bytes(user: Seq<u8>, balance: u128) -> Seq<u8> {
    user + spec_u128_to_le_bytes(balance)
}

impl UserDeposit {
    pub open spec fn spec_bytes(&self) -> Seq<u8> {
        user_deposit_bytes(self.user@, self.balance)
    }

    /// The encoded record.
    pub fn pack(&self) -> (r: Vec<u8>)
        ensures
            r@ == self.spec_bytes(),
            r@.len() == USER_DEPOSIT_LEN,
    {
        let mut r: Vec<u8> = Vec::new();
        let mut i: usize = 0;
        while i < 32
            invariant
                i <= 32,
                r@ =~= self.user@.subrange(0, i as int),
            decreases 32 - i,
        {
            r.push(self.user[i]);
            i = i + 1;
        }
        let mut tail = vstd::bytes::u128_to_le_bytes(self.balance);
        proof {
            vstd::bytes::lemma_auto_spec_u128_to_from_le_bytes();
        }
        r.append(&mut tail);
        assert(r@ =~= self.spec_bytes());
        r
    }

    /// Decodes the first `USER_DEPOSIT_LEN` bytes of `src`.
    pub fn unpack_from_slice(src: &[u8]) -> (r: Option<UserDeposit>)
        ensures
            src@.len() < USER_DEPOSIT_LEN <==> r.is_none(),
            r matches Some(d) ==> {
                &&& d.user@ == src@.subrange(0, 32)
                &&& d.balance == spec_u128_from_le_bytes(src@.subrange(32, 48))
            },
    {
        if src.len() < USER_DEPOSIT_LEN {
            return None;
        }
        let balance = u128_from_le_bytes(vstd::slice::slice_subrange(src, 32, 48));
        Some(UserDeposit { user: read_key(src, 0), balance })
    }
}

} // verus!
