//! The vault's four operations.
//!
//! An operation starts from what the host knows of the accounts it was
//! given. Starting either refuses the call, before anything was done, or
//! yields a session and its first action; the session then runs as
//! `crate::session` describes.

use vstd::prelude::*;
use vstd::bytes::spec_u128_from_le_bytes;
use crate::address::{
    check_derived, executor_seed_list, executor_seeds, intent_seed_list, intent_seeds, is_derived,
    program_address, user_deposit_seed_list, user_deposit_seeds, vault_seed_list, vault_seeds, with_bump,
};
use crate::codec::{keys_equal, Executor, UserDeposit, EXECUTOR_LEN, USER_DEPOSIT_LEN, executor_bytes};
use crate::coprocessor::{as_euint128_request, inco_as_euint128, new_euint128_request};
use crate::error::ErrorCode;
use crate::instruction::{parse, parse_instruction, InstructionModel, VaultInstruction};
use crate::intent::SIGNATURE_LEN;
use crate::session::{compute, Action, ActionModel, Session, SessionModel, Stage};

verus! {

/// What the host knows of an account when the call starts.
#[derive(Clone, Debug)]
pub struct AccountState {
    pub key: [u8; 32],
    pub is_signer: bool,
    pub lamports: u64,
    pub data: Vec<u8>,
}

/// The accounts of Initialize.
pub struct Initialize<'a> {
    /// The configuration, at the address derived from "executor".
    pub executor: &'a AccountState,
    /// The controlling authority; signs and pays.
    pub authority: &'a AccountState,
}

/// The accounts of Deposit.
pub struct Deposit<'a> {
    /// The vault, at the address derived from "vault".
    pub vault: &'a AccountState,
    /// The depositor; signs and pays.
    pub user: &'a AccountState,
    /// The depositor's record, at the address derived from "user_deposit"
    /// and the depositor's key.
    pub user_deposit: &'a AccountState,
}

/// The accounts of Withdraw.
pub struct Withdraw<'a> {
    pub vault: &'a AccountState,
    /// The owner of the record; signs and receives the currency.
    pub user: &'a AccountState,
    pub user_deposit: &'a AccountState,
}

/// The accounts of delegated execution.
pub struct ExecuteWithIntent<'a> {
    pub executor: &'a AccountState,
    pub vault: &'a AccountState,
    pub user_deposit: &'a AccountState,
    /// The owner of the record; need not sign.
    pub user: &'a AccountState,
    /// The configured delegate; signs and receives the currency.
    pub execution_account: &'a AccountState,
    /// The marker of the intent, at the address derived from "intent" and
    /// the intent hash; it must not exist yet.
    pub intent_marker: &'a AccountState,
}

/// The key of no one: 32 zero bytes.
pub open spec fn zero_key() -> Seq<u8> {
    Seq::new(32, |i: int| 0u8)
}

/// The bump seed of the address derived from `seeds`.
pub open spec fn bump_of(seeds: Seq<Seq<u8>>, program_id: Seq<u8>) -> u8 {
    program_address(seeds, program_id).unwrap().1
}

/// The owner stored in a participant record.
pub open spec fn stored_owner(data: Seq<u8>) -> Seq<u8> {
    data.subrange(0, 32)
}

/// The balance handle stored in a participant record.
pub open spec fn stored_balance(data: Seq<u8>) -> u128 {
    spec_u128_from_le_bytes(data.subrange(32, 48))
}

/// A stored participant record has the exact size and is initialized: it
/// has an owner or a balance.
pub open spec fn record_valid(data: Seq<u8>) -> bool {
    data.len() == USER_DEPOSIT_LEN && (stored_balance(data) != 0 || stored_owner(data) != zero_key())
}

/// A stored configuration has the exact size and its flag set.
pub open spec fn config_valid(data: Seq<u8>) -> bool {
    data.len() == EXECUTOR_LEN && data[64] == 1
}

/// A session with nothing set but its stage and signer.
pub open spec fn blank(stage: Stage, signer: Seq<u8>) -> SessionModel {
    SessionModel {
        stage,
        signer,
        vault: zero_key(),
        record: zero_key(),
        record_bump: 0,
        create_record: false,
        fresh: false,
        owner: zero_key(),
        payee: zero_key(),
        amount: 0,
        ciphertext: Seq::empty(),
        input_type: 0,
        balance: 0,
        handle: 0,
        intent: zero_key(),
        signature: Seq::empty(),
        marker: zero_key(),
        marker_bump: 0,
    }
}

/// Initialize: checks the configuration address and the authority's
/// signature; an existing, initialized configuration may only be rewritten
/// by its own authority. The configuration account is created if it holds
/// no currency yet, then the record is written.
pub open spec fn initialize_start(program_id: Seq<u8>, a: Initialize, receiver: Seq<u8>) -> Result<
    (SessionModel, ActionModel),
    ErrorCode,
> {
    let cfg = a.executor;
    let auth = a.authority.key@;
    let exists = cfg.lamports != 0;
    if !is_derived(executor_seeds(), program_id, cfg.key@) {
        Err(ErrorCode::InvalidAddress)
    } else if !a.authority.is_signer {
        Err(ErrorCode::MissingRequiredSignature)
    } else if exists && cfg.data@.len() < EXECUTOR_LEN {
        Err(ErrorCode::InvalidAccountData)
    } else if exists && cfg.data@[64] == 1 && cfg.data@.subrange(32, 64) != auth {
        Err(ErrorCode::UnauthorizedUser)
    } else {
        let bump = bump_of(executor_seeds(), program_id);
        let s = SessionModel {
            stage: if exists { Stage::StoreConfig } else { Stage::CreateConfig },
            record: cfg.key@,
            record_bump: bump,
            create_record: !exists,
            payee: receiver,
            ..blank(Stage::Failed, auth)
        };
        if exists {
            Ok((s, ActionModel::Store { account: cfg.key@, data: executor_bytes(receiver, auth, true) }))
        } else {
            Ok(
                (
                    s,
                    ActionModel::CreateAccount {
                        payer: auth,
                        account: cfg.key@,
                        space: EXECUTOR_LEN as u64,
                        seeds: executor_seeds().push(seq![bump]),
                    },
                ),
            )
        }
    }
}

/// Deposit: checks the depositor's signature, the vault and record
/// addresses, and that the amount is not zero. A record that exists must
/// have the exact size; one that holds no balance handle is fresh. The
/// vault is created if it holds no currency, then the amount moves. The
/// ciphertext is credited only once the coprocessor confirms that it
/// encrypts the amount that moved.
pub open spec fn deposit_start(
    program_id: Seq<u8>,
    a: Deposit,
    amount: u64,
    ciphertext: Seq<u8>,
    input_type: u8,
) -> Result<(SessionModel, ActionModel), ErrorCode> {
    let user = a.user.key@;
    let rec = a.user_deposit;
    if !a.user.is_signer {
        Err(ErrorCode::MissingRequiredSignature)
    } else if !is_derived(vault_seeds(), program_id, a.vault.key@) {
        Err(ErrorCode::InvalidAddress)
    } else if !is_derived(user_deposit_seeds(user), program_id, rec.key@) {
        Err(ErrorCode::InvalidAddress)
    } else if amount == 0 {
        Err(ErrorCode::InvalidAmount)
    } else if ciphertext.len() > u32::MAX {
        Err(ErrorCode::InvalidInstructionData)
    } else if rec.lamports != 0 && rec.data@.len() != USER_DEPOSIT_LEN {
        Err(ErrorCode::InvalidAccountData)
    } else {
        let create = rec.lamports == 0;
        let fresh = create || stored_balance(rec.data@) == 0;
        let s = SessionModel {
            stage: if a.vault.lamports == 0 { Stage::CreateVault } else { Stage::Transfer },
            signer: user,
            vault: a.vault.key@,
            record: rec.key@,
            record_bump: bump_of(user_deposit_seeds(user), program_id),
            create_record: create,
            fresh,
            owner: if fresh { user } else { stored_owner(rec.data@) },
            payee: user,
            amount,
            ciphertext,
            input_type,
            balance: if fresh { 0 } else { stored_balance(rec.data@) },
            handle: 0,
            ..blank(Stage::Failed, user)
        };
        if a.vault.lamports == 0 {
            Ok(
                (
                    s,
                    ActionModel::CreateAccount {
                        payer: user,
                        account: a.vault.key@,
                        space: 0,
                        seeds: vault_seeds().push(seq![bump_of(vault_seeds(), program_id)]),
                    },
                ),
            )
        } else {
            Ok((s, ActionModel::Transfer { from: user, to: a.vault.key@, amount }))
        }
    }
}

/// Withdraw: checks the owner's signature, the vault and record addresses,
/// the record, and that the signer owns it; then encrypts the amount.
pub open spec fn withdraw_start(program_id: Seq<u8>, a: Withdraw, amount: u64) -> Result<
    (SessionModel, ActionModel),
    ErrorCode,
> {
    let user = a.user.key@;
    let rec = a.user_deposit;
    if !a.user.is_signer {
        Err(ErrorCode::MissingRequiredSignature)
    } else if !is_derived(vault_seeds(), program_id, a.vault.key@) {
        Err(ErrorCode::InvalidAddress)
    } else if !is_derived(user_deposit_seeds(user), program_id, rec.key@) {
        Err(ErrorCode::InvalidAddress)
    } else if !record_valid(rec.data@) {
        Err(ErrorCode::InvalidAccountData)
    } else if stored_owner(rec.data@) != user {
        Err(ErrorCode::UnauthorizedUser)
    } else {
        let s = SessionModel {
            stage: Stage::AmountHandle,
            signer: user,
            vault: a.vault.key@,
            record: rec.key@,
            record_bump: bump_of(user_deposit_seeds(user), program_id),
            create_record: false,
            fresh: false,
            owner: user,
            payee: user,
            amount,
            ciphertext: Seq::empty(),
            input_type: 0,
            balance: stored_balance(rec.data@),
            handle: 0,
            ..blank(Stage::Failed, user)
        };
        Ok((s, compute(s, as_euint128_request(amount as u128))))
    }
}

/// Delegated execution: checks the configuration, that the receiving
/// account is the configured delegate and signs, the vault, record and
/// intent marker addresses, the signature's length, the record's owner, and
/// that the intent was not executed before; then looks up the owner's
/// signature of the intent.
pub open spec fn execute_start(
    program_id: Seq<u8>,
    a: ExecuteWithIntent,
    intent_hash: Seq<u8>,
    signature: Seq<u8>,
    amount: u64,
    ciphertext: Seq<u8>,
    input_type: u8,
) -> Result<(SessionModel, ActionModel), ErrorCode> {
    let user = a.user.key@;
    let delegate = a.execution_account.key@;
    let rec = a.user_deposit;
    if !is_derived(executor_seeds(), program_id, a.executor.key@) {
        Err(ErrorCode::InvalidAddress)
    } else if !config_valid(a.executor.data@) {
        Err(ErrorCode::InvalidAccountData)
    } else if a.executor.data@.subrange(0, 32) != delegate {
        Err(ErrorCode::UnauthorizedDelegate)
    } else if !a.execution_account.is_signer {
        Err(ErrorCode::MissingRequiredSignature)
    } else if !is_derived(vault_seeds(), program_id, a.vault.key@) {
        Err(ErrorCode::InvalidAddress)
    } else if !is_derived(user_deposit_seeds(user), program_id, rec.key@) {
        Err(ErrorCode::InvalidAddress)
    } else if !is_derived(intent_seeds(intent_hash), program_id, a.intent_marker.key@) {
        Err(ErrorCode::InvalidAddress)
    } else if signature.len() != SIGNATURE_LEN {
        Err(ErrorCode::InvalidSignature)
    } else if ciphertext.len() > u32::MAX {
        Err(ErrorCode::InvalidInstructionData)
    } else if !record_valid(rec.data@) {
        Err(ErrorCode::InvalidAccountData)
    } else if stored_owner(rec.data@) != user {
        Err(ErrorCode::UnauthorizedUser)
    } else if a.intent_marker.lamports != 0 {
        Err(ErrorCode::IntentReplayed)
    } else {
        let s = SessionModel {
            stage: Stage::Attest,
            signer: delegate,
            vault: a.vault.key@,
            record: rec.key@,
            record_bump: bump_of(user_deposit_seeds(user), program_id),
            owner: user,
            payee: delegate,
            amount,
            ciphertext,
            input_type,
            balance: stored_balance(rec.data@),
            intent: intent_hash,
            signature,
            marker: a.intent_marker.key@,
            marker_bump: bump_of(intent_seeds(intent_hash), program_id),
            ..blank(Stage::Failed, delegate)
        };
        Ok((s, ActionModel::Attestation { key: user, message: intent_hash, signature }))
    }
}

/// A start result as the models see it.
pub open spec fn started(r: Result<(Session, Action), ErrorCode>) -> Result<(SessionModel, ActionModel), ErrorCode> {
    match r {
        Ok((s, a)) => Ok((s@, a@)),
        Err(e) => Err(e),
    }
}

/// A start result whose session is well formed.
pub open spec fn started_wf(r: Result<(Session, Action), ErrorCode>) -> bool {
    r matches Ok((s, _)) ==> s.wf()
}

fn zero_key_array() -> (r: [u8; 32])
    ensures
        r@ == zero_key(),
{
    let r = [0u8; 32];
    assert(r@ =~= zero_key());
    r
}

fn blank_session(stage: Stage, signer: [u8; 32]) -> (r: Session)
    ensures
        r@ == blank(stage, signer@),
        r.wf(),
{
    let r = Session {
        stage,
        signer,
        vault: zero_key_array(),
        record: zero_key_array(),
        record_bump: 0,
        create_record: false,
        fresh: false,
        owner: zero_key_array(),
        payee: zero_key_array(),
        amount: 0,
        ciphertext: Vec::new(),
        input_type: 0,
        balance: 0,
        handle: 0,
        intent: zero_key_array(),
        signature: Vec::new(),
        marker: zero_key_array(),
        marker_bump: 0,
    };
    assert(r.ciphertext@ =~= Seq::empty());
    assert(r.signature@ =~= Seq::empty());
    r
}

/// Reads a stored participant record that must be valid.
fn load_record(data: &Vec<u8>) -> (r: Result<UserDeposit, ErrorCode>)
    ensures
        match r {
            Ok(d) => record_valid(data@) && d.user@ == stored_owner(data@) && d.balance == stored_balance(data@),
            Err(e) => !record_valid(data@) && e == ErrorCode::InvalidAccountData,
        },
{
    if data.len() != USER_DEPOSIT_LEN {
        return Err(ErrorCode::InvalidAccountData);
    }
    match UserDeposit::unpack_from_slice(data.as_slice()) {
        Some(d) => {
            if d.balance == 0 && keys_equal(&d.user, &zero_key_array()) {
                Err(ErrorCode::InvalidAccountData)
            } else {
                Ok(d)
            }
        },
        None => Err(ErrorCode::InvalidAccountData),
    }
}

/// Starts Initialize, naming `execution_account` as the delegate.
pub fn initialize(program_id: &[u8; 32], accounts: &Initialize, execution_account: [u8; 32]) -> (r: Result<
    (Session, Action),
    ErrorCode,
>)
    ensures
        started(r) == initialize_start(program_id@, *accounts, execution_account@),
        started_wf(r),
{
    let cfg = accounts.executor;
    let auth = accounts.authority;
    let bump = check_derived(&executor_seed_list(), program_id, &cfg.key)?;
    if !auth.is_signer {
        return Err(ErrorCode::MissingRequiredSignature);
    }
    let exists = cfg.lamports != 0;
    if exists {
        match Executor::unpack_from_slice(cfg.data.as_slice()) {
            None => return Err(ErrorCode::InvalidAccountData),
            Some(old_cfg) => {
                if old_cfg.is_initialized && !keys_equal(&old_cfg.authority, &auth.key) {
                    return Err(ErrorCode::UnauthorizedUser);
                }
            },
        }
    }
    let mut s = blank_session(Stage::Failed, auth.key);
    s.record = cfg.key;
    s.record_bump = bump;
    s.create_record = !exists;
    s.payee = execution_account;
    if exists {
        s.stage = Stage::StoreConfig;
        let rec = Executor { execution_account, authority: auth.key, is_initialized: true };
        Ok((s, Action::Store { account: cfg.key, data: rec.pack() }))
    } else {
        s.stage = Stage::CreateConfig;
        let seeds = with_bump(executor_seed_list(), bump);
        Ok((s, Action::CreateAccount { payer: auth.key, account: cfg.key, space: EXECUTOR_LEN as u64, seeds }))
    }
}

/// Starts Deposit of `amount`, crediting the encryption in `ciphertext`.
pub fn deposit(
    program_id: &[u8; 32],
    accounts: &Deposit,
    amount: u64,
    ciphertext: Vec<u8>,
    input_type: u8,
) -> (r: Result<(Session, Action), ErrorCode>)
    ensures
        started(r) == deposit_start(program_id@, *accounts, amount, ciphertext@, input_type),
        started_wf(r),
{
    let user = accounts.user;
    let vault = accounts.vault;
    let rec = accounts.user_deposit;
    if !user.is_signer {
        return Err(ErrorCode::MissingRequiredSignature);
    }
    let vault_bump = check_derived(&vault_seed_list(), program_id, &vault.key)?;
    let record_bump = check_derived(&user_deposit_seed_list(&user.key), program_id, &rec.key)?;
    if amount == 0 {
        return Err(ErrorCode::InvalidAmount);
    }
    if ciphertext.len() > u32::MAX as usize {
        return Err(ErrorCode::InvalidInstructionData);
    }
    let create = rec.lamports == 0;
    let mut s = blank_session(Stage::Transfer, user.key);
    s.owner = user.key;
    if !create {
        if rec.data.len() != USER_DEPOSIT_LEN {
            return Err(ErrorCode::InvalidAccountData);
        }
        match UserDeposit::unpack_from_slice(rec.data.as_slice()) {
            Some(d) => {
                if d.balance != 0 {
                    s.owner = d.user;
                    s.balance = d.balance;
                }
            },
            None => return Err(ErrorCode::InvalidAccountData),
        }
    }
    s.vault = vault.key;
    s.record = rec.key;
    s.record_bump = record_bump;
    s.create_record = create;
    s.fresh = s.balance == 0;
    s.payee = user.key;
    s.amount = amount;
    s.ciphertext = ciphertext;
    s.input_type = input_type;
    if vault.lamports == 0 {
        s.stage = Stage::CreateVault;
        let seeds = with_bump(vault_seed_list(), vault_bump);
        Ok((s, Action::CreateAccount { payer: user.key, account: vault.key, space: 0, seeds }))
    } else {
        Ok((s, Action::Transfer { from: user.key, to: vault.key, amount }))
    }
}

/// Starts Withdraw of `amount` to the record's owner.
pub fn withdraw(program_id: &[u8; 32], accounts: &Withdraw, amount: u64) -> (r: Result<(Session, Action), ErrorCode>)
    ensures
        started(r) == withdraw_start(program_id@, *accounts, amount),
        started_wf(r),
{
    let user = accounts.user;
    let vault = accounts.vault;
    let rec = accounts.user_deposit;
    if !user.is_signer {
        return Err(ErrorCode::MissingRequiredSignature);
    }
    check_derived(&vault_seed_list(), program_id, &vault.key)?;
    let record_bump = check_derived(&user_deposit_seed_list(&user.key), program_id, &rec.key)?;
    let d = load_record(&rec.data)?;
    if !keys_equal(&d.user, &user.key) {
        return Err(ErrorCode::UnauthorizedUser);
    }
    let mut s = blank_session(Stage::AmountHandle, user.key);
    s.vault = vault.key;
    s.record = rec.key;
    s.record_bump = record_bump;
    s.owner = user.key;
    s.payee = user.key;
    s.amount = amount;
    s.balance = d.balance;
    let a = s.compute(inco_as_euint128(amount as u128));
    Ok((s, a))
}

/// Starts delegated execution: releases `amount` to the configured delegate
/// on behalf of the record's owner, against the owner's `signature` of
/// `intent_hash` and the owner's encryption of the amount in `ciphertext`.
pub fn execute_with_intent(
    program_id: &[u8; 32],
    accounts: &ExecuteWithIntent,
    intent_hash: [u8; 32],
    signature: Vec<u8>,
    amount: u64,
    ciphertext: Vec<u8>,
    input_type: u8,
) -> (r: Result<(Session, Action), ErrorCode>)
    ensures
        started(r) == execute_start(program_id@, *accounts, intent_hash@, signature@, amount, ciphertext@, input_type),
        started_wf(r),
{
    let user = accounts.user;
    let delegate = accounts.execution_account;
    let vault = accounts.vault;
    let rec = accounts.user_deposit;
    let cfg_account = accounts.executor;
    let marker = accounts.intent_marker;
    check_derived(&executor_seed_list(), program_id, &cfg_account.key)?;
    if cfg_account.data.len() != EXECUTOR_LEN {
        return Err(ErrorCode::InvalidAccountData);
    }
    let cfg = match Executor::unpack_from_slice(cfg_account.data.as_slice()) {
        Some(c) => c,
        None => return Err(ErrorCode::InvalidAccountData),
    };
    if !cfg.is_initialized {
        return Err(ErrorCode::InvalidAccountData);
    }
    if !keys_equal(&cfg.execution_account, &delegate.key) {
        return Err(ErrorCode::UnauthorizedDelegate);
    }
    if !delegate.is_signer {
        return Err(ErrorCode::MissingRequiredSignature);
    }
    check_derived(&vault_seed_list(), program_id, &vault.key)?;
    let record_bump = check_derived(&user_deposit_seed_list(&user.key), program_id, &rec.key)?;
    let marker_bump = check_derived(&intent_seed_list(&intent_hash), program_id, &marker.key)?;
    if signature.len() != SIGNATURE_LEN {
        return Err(ErrorCode::InvalidSignature);
    }
    if ciphertext.len() > u32::MAX as usize {
        return Err(ErrorCode::InvalidInstructionData);
    }
    let d = load_record(&rec.data)?;
    if !keys_equal(&d.user, &user.key) {
        return Err(ErrorCode::UnauthorizedUser);
    }
    if marker.lamports != 0 {
        return Err(ErrorCode::IntentReplayed);
    }
    let mut s = blank_session(Stage::Attest, delegate.key);
    s.vault = vault.key;
    s.record = rec.key;
    s.record_bump = record_bump;
    s.owner = user.key;
    s.payee = delegate.key;
    s.amount = amount;
    s.ciphertext = ciphertext;
    s.input_type = input_type;
    s.balance = d.balance;
    s.intent = intent_hash;
    s.marker = marker.key;
    s.marker_bump = marker_bump;
    let shown = vstd::slice::slice_to_vec(signature.as_slice());
    s.signature = signature;
    Ok((s, Action::Attestation { key: user.key, message: intent_hash, signature: shown }))
}

/// The start of the operation that `data` encodes, on accounts given in
/// order: Initialize takes the configuration and the authority; Deposit and
/// Withdraw the vault, the user and the record; delegated execution the
/// configuration, the vault, the record, the user, the delegate and the
/// intent's marker.
/// Accounts after these are not looked at.
pub open spec fn dispatch(program_id: Seq<u8>, accounts: Seq<AccountState>, data: Seq<u8>) -> Result<
    (SessionModel, ActionModel),
    ErrorCode,
> {
    match parse(data) {
        None => Err(ErrorCode::InvalidInstructionData),
        Some(InstructionModel::Initialize { execution_account }) => if accounts.len() < 2 {
            Err(ErrorCode::NotEnoughAccountKeys)
        } else {
            initialize_start(
                program_id,
                Initialize { executor: &accounts[0], authority: &accounts[1] },
                execution_account,
            )
        },
        Some(InstructionModel::Deposit { amount, ciphertext, input_type }) => if accounts.len() < 3 {
            Err(ErrorCode::NotEnoughAccountKeys)
        } else {
            deposit_start(
                program_id,
                Deposit { vault: &accounts[0], user: &accounts[1], user_deposit: &accounts[2] },
                amount,
                ciphertext,
                input_type,
            )
        },
        Some(InstructionModel::Withdraw { amount }) => if accounts.len() < 3 {
            Err(ErrorCode::NotEnoughAccountKeys)
        } else {
            withdraw_start(
                program_id,
                Withdraw { vault: &accounts[0], user: &accounts[1], user_deposit: &accounts[2] },
                amount,
            )
        },
        Some(
            InstructionModel::ExecuteWithIntent { intent_hash, signature, amount, ciphertext, input_type },
        ) => if accounts.len() < 6 {
            Err(ErrorCode::NotEnoughAccountKeys)
        } else {
            execute_start(
                program_id,
                ExecuteWithIntent {
                    executor: &accounts[0],
                    vault: &accounts[1],
                    user_deposit: &accounts[2],
                    user: &accounts[3],
                    execution_account: &accounts[4],
                    intent_marker: &accounts[5],
                },
                intent_hash,
                signature,
                amount,
                ciphertext,
                input_type,
            )
        },
    }
}

/// Decodes `data` and starts the operation it names.
pub fn start(program_id: &[u8; 32], accounts: &[AccountState], data: &[u8]) -> (r: Result<(Session, Action), ErrorCode>)
    ensures
        started(r) == dispatch(program_id@, accounts@, data@),
        started_wf(r),
{
    let n = accounts.len();
    match parse_instruction(data)? {
        VaultInstruction::Initialize { execution_account } => {
            if n < 2 {
                return Err(ErrorCode::NotEnoughAccountKeys);
            }
            initialize(program_id, &Initialize { executor: &accounts[0], authority: &accounts[1] }, execution_account)
        },
        VaultInstruction::Deposit { amount, ciphertext, input_type } => {
            if n < 3 {
                return Err(ErrorCode::NotEnoughAccountKeys);
            }
            let a = Deposit { vault: &accounts[0], user: &accounts[1], user_deposit: &accounts[2] };
            deposit(program_id, &a, amount, ciphertext, input_type)
        },
        VaultInstruction::Withdraw { amount } => {
            if n < 3 {
                return Err(ErrorCode::NotEnoughAccountKeys);
            }
            let a = Withdraw { vault: &accounts[0], user: &accounts[1], user_deposit: &accounts[2] };
            withdraw(program_id, &a, amount)
        },
        VaultInstruction::ExecuteWithIntent { intent_hash, signature, amount, ciphertext, input_type } => {
            if n < 6 {
                return Err(ErrorCode::NotEnoughAccountKeys);
            }
            let a = ExecuteWithIntent {
                executor: &accounts[0],
                vault: &accounts[1],
                user_deposit: &accounts[2],
                user: &accounts[3],
                execution_account: &accounts[4],
                intent_marker: &accounts[5],
            };
            execute_with_intent(program_id, &a, intent_hash, signature, amount, ciphertext, input_type)
        },
    }
}

} // verus!
