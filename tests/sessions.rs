use std::collections::HashMap;

use anonymaus_executor::address::{executor_address, intent_address, user_deposit_address, vault_address};
use anonymaus_executor::codec::{Executor, UserDeposit};
use anonymaus_executor::coprocessor::{inco_as_euint128, inco_sighash, Operator};
use anonymaus_executor::error::ErrorCode;
use anonymaus_executor::session::{Action, Event, Session, Stage};
use anonymaus_executor::vault::{start, AccountState};

const RENT: u64 = 1_000;
const PROGRAM: [u8; 32] = [0x11; 32];
const AUTHORITY: [u8; 32] = [0xa1; 32];
const RECEIVER: [u8; 32] = [0xb2; 32];
const USER: [u8; 32] = [0xc3; 32];

/// A ledger and a truthful coprocessor whose ciphertexts are the 16-byte
/// little-endian plaintexts.
struct Host {
    accounts: HashMap<[u8; 32], (u64, Vec<u8>)>,
    plain: HashMap<u128, u128>,
    next_handle: u128,
    requests: Vec<Vec<u8>>,
    /// Signatures verified by the transaction's Ed25519 instruction.
    signed: Vec<([u8; 32], [u8; 32], Vec<u8>)>,
}

/// Ed25519 verification instruction data for one signature.
fn attestation(key: &[u8; 32], message: &[u8; 32], signature: &[u8]) -> Vec<u8> {
    let mut d = vec![1u8, 0];
    for v in [48u16, 0xffff, 16, 0xffff, 112, 32, 0xffff] {
        d.extend_from_slice(&v.to_le_bytes());
    }
    d.extend_from_slice(key);
    d.extend_from_slice(signature);
    d.extend_from_slice(message);
    d
}

fn cipher(v: u128) -> Vec<u8> {
    v.to_le_bytes().to_vec()
}

fn u128_at(b: &[u8], i: usize) -> u128 {
    let mut a = [0u8; 16];
    a.copy_from_slice(&b[i..i + 16]);
    u128::from_le_bytes(a)
}

impl Host {
    fn new() -> Host {
        let mut accounts = HashMap::new();
        accounts.insert(AUTHORITY, (10_000_000, vec![]));
        accounts.insert(USER, (5_000_000, vec![]));
        accounts.insert(RECEIVER, (1_000_000, vec![]));
        Host { accounts, plain: HashMap::new(), next_handle: 1, requests: vec![], signed: vec![] }
    }

    fn lamports(&self, key: &[u8; 32]) -> u64 {
        self.accounts.get(key).map(|a| a.0).unwrap_or(0)
    }

    fn data(&self, key: &[u8; 32]) -> Vec<u8> {
        self.accounts.get(key).map(|a| a.1.clone()).unwrap_or_default()
    }

    fn state(&self, key: &[u8; 32], is_signer: bool) -> AccountState {
        AccountState { key: *key, is_signer, lamports: self.lamports(key), data: self.data(key) }
    }

    fn handle_for(&mut self, v: u128) -> u128 {
        let h = self.next_handle;
        self.next_handle += 1;
        self.plain.insert(h, v);
        h
    }

    fn compute(&mut self, req: &[u8]) -> Event {
        self.requests.push(req.to_vec());
        let sel = &req[0..8];
        let reply = if sel == &inco_sighash(Operator::NewEuint128)[..] {
            let len = u32::from_le_bytes([req[8], req[9], req[10], req[11]]) as usize;
            let mut ct = req[12..12 + len].to_vec();
            ct.resize(16, 0);
            let v = u128_at(&ct, 0);
            self.handle_for(v)
        } else if sel == &inco_sighash(Operator::AsEuint128)[..] {
            let v = u128_at(req, 8);
            self.handle_for(v)
        } else {
            let a = self.plain[&u128_at(req, 8)];
            let b = self.plain[&u128_at(req, 24)];
            if sel == &inco_sighash(Operator::EAdd)[..] {
                self.handle_for(a + b)
            } else if sel == &inco_sighash(Operator::ESub)[..] {
                self.handle_for(a.wrapping_sub(b))
            } else if sel == &inco_sighash(Operator::EGe)[..] {
                (a >= b) as u128
            } else {
                (a == b) as u128
            }
        };
        Event::Returned(reply.to_le_bytes().to_vec())
    }

    fn perform(&mut self, action: &Action) -> Event {
        match action {
            Action::CreateAccount { payer, account, space, .. } => {
                self.accounts.get_mut(payer).unwrap().0 -= RENT;
                self.accounts.insert(*account, (RENT, vec![0u8; *space as usize]));
                Event::Completed
            }
            Action::Transfer { from, to, amount } | Action::MoveLamports { from, to, amount } => {
                let f = self.accounts.get_mut(from).unwrap();
                if f.0 < *amount {
                    return Event::Failed;
                }
                f.0 -= amount;
                self.accounts.entry(*to).or_insert((0, vec![])).0 += amount;
                Event::Completed
            }
            Action::Compute { request, .. } => self.compute(request),
            Action::Store { account, data } => {
                let a = self.accounts.get_mut(account).unwrap();
                a.1[..data.len()].copy_from_slice(data);
                Event::Completed
            }
            Action::Attestation { key, message, signature } => {
                if self.signed.iter().any(|(k, m, s)| k == key && m == message && s == signature) {
                    Event::Returned(attestation(key, message, signature))
                } else {
                    Event::Failed
                }
            }
            Action::Done | Action::Fail(_) => Event::Failed,
        }
    }

    /// Runs an intent of `user` that the transaction carries a signature of.
    fn intent(&mut self, user: [u8; 32], receiver: [u8; 32], hash: [u8; 32], amount: u64, ct: &[u8]) -> Result<(), ErrorCode> {
        self.signed.push((user, hash, vec![hash[0]; 64]));
        self.call(&intent_keys(user, receiver, hash), &intent_data(hash, &[hash[0]; 64], amount, ct))
    }

    fn call(&mut self, keys: &[([u8; 32], bool)], data: &[u8]) -> Result<(), ErrorCode> {
        let states: Vec<AccountState> = keys.iter().map(|(k, s)| self.state(k, *s)).collect();
        let saved = self.accounts.clone();
        let (mut session, mut action) = start(&PROGRAM, &states, data)?;
        loop {
            match action {
                Action::Done => return Ok(()),
                Action::Fail(e) => {
                    self.accounts = saved;
                    return Err(e);
                }
                _ => {}
            }
            let event = self.perform(&action);
            action = session.step(&event);
        }
    }

    fn balance(&self, record: &[u8; 32]) -> u128 {
        let rec = UserDeposit::unpack_from_slice(&self.data(record)).unwrap();
        self.plain[&rec.balance]
    }
}

fn config() -> [u8; 32] {
    executor_address(&PROGRAM).unwrap().0
}

fn vault() -> [u8; 32] {
    vault_address(&PROGRAM).unwrap().0
}

fn record_of(user: &[u8; 32]) -> [u8; 32] {
    user_deposit_address(&PROGRAM, user).unwrap().0
}

fn init_data(receiver: &[u8; 32]) -> Vec<u8> {
    let mut d = vec![0u8];
    d.extend_from_slice(receiver);
    d
}

fn deposit_data(amount: u64, ciphertext: &[u8]) -> Vec<u8> {
    let mut d = vec![1u8];
    d.extend_from_slice(&amount.to_le_bytes());
    d.extend_from_slice(&(ciphertext.len() as u32).to_le_bytes());
    d.extend_from_slice(ciphertext);
    d.push(0);
    d
}

fn withdraw_data(amount: u64) -> Vec<u8> {
    let mut d = vec![2u8];
    d.extend_from_slice(&amount.to_le_bytes());
    d
}

fn intent_data(hash: [u8; 32], signature: &[u8], amount: u64, ciphertext: &[u8]) -> Vec<u8> {
    let mut d = vec![3u8];
    d.extend_from_slice(&hash);
    d.extend_from_slice(&(signature.len() as u32).to_le_bytes());
    d.extend_from_slice(signature);
    d.extend_from_slice(&amount.to_le_bytes());
    d.extend_from_slice(&(ciphertext.len() as u32).to_le_bytes());
    d.extend_from_slice(ciphertext);
    d.push(0);
    d
}

fn init_keys() -> Vec<([u8; 32], bool)> {
    vec![(config(), false), (AUTHORITY, true)]
}

fn user_keys(user: [u8; 32]) -> Vec<([u8; 32], bool)> {
    vec![(vault(), false), (user, true), (record_of(&user), false)]
}

fn marker_of(hash: &[u8; 32]) -> [u8; 32] {
    intent_address(&PROGRAM, hash).unwrap().0
}

fn intent_keys(user: [u8; 32], receiver: [u8; 32], hash: [u8; 32]) -> Vec<([u8; 32], bool)> {
    vec![
        (config(), false),
        (vault(), false),
        (record_of(&user), false),
        (user, false),
        (receiver, true),
        (marker_of(&hash), false),
    ]
}

fn setup() -> Host {
    let mut host = Host::new();
    assert_eq!(host.call(&init_keys(), &init_data(&RECEIVER)), Ok(()));
    host
}

#[test]
fn full_scenario() {
    let mut host = setup();
    let v = vault();
    let rec = record_of(&USER);

    assert_eq!(host.call(&user_keys(USER), &deposit_data(1000, &cipher(1000))), Ok(()));
    assert_eq!(host.balance(&rec), 1000);
    assert_eq!(host.lamports(&v), RENT + 1000);

    let user_before = host.lamports(&USER);
    assert_eq!(host.call(&user_keys(USER), &withdraw_data(400)), Ok(()));
    assert_eq!(host.balance(&rec), 600);
    assert_eq!(host.lamports(&v), RENT + 600);
    assert_eq!(host.lamports(&USER), user_before + 400);

    let receiver_before = host.lamports(&RECEIVER);
    assert_eq!(host.intent(USER, RECEIVER, [1; 32], 600, &cipher(600)), Ok(()));
    assert_eq!(host.balance(&rec), 0);
    assert_eq!(host.lamports(&RECEIVER), receiver_before - RENT + 600);
    assert_eq!(host.lamports(&v), RENT);

    let before = host.accounts.clone();
    assert_eq!(host.intent(USER, RECEIVER, [2; 32], 1, &cipher(1)), Err(ErrorCode::InsufficientFunds));
    assert_eq!(host.accounts, before);
}

#[test]
fn initialize_writes_configuration() {
    let host = setup();
    let expected = Executor { execution_account: RECEIVER, authority: AUTHORITY, is_initialized: true }.pack();
    assert_eq!(host.data(&config()), expected);
    assert_eq!(host.lamports(&config()), RENT);
    assert_eq!(host.lamports(&AUTHORITY), 10_000_000 - RENT);
}

#[test]
fn initialize_twice_is_idempotent() {
    let mut host = setup();
    let before = host.accounts.clone();
    assert_eq!(host.call(&init_keys(), &init_data(&RECEIVER)), Ok(()));
    assert_eq!(host.accounts, before);
}

#[test]
fn reinitialize_replaces_delegate() {
    let mut host = setup();
    assert_eq!(host.call(&init_keys(), &init_data(&USER)), Ok(()));
    let cfg = Executor::unpack_from_slice(&host.data(&config())).unwrap();
    assert_eq!(cfg.execution_account, USER);
}

#[test]
fn reinitialize_by_other_authority_refused() {
    let mut host = setup();
    host.accounts.insert(USER, (5_000_000, vec![]));
    let keys = vec![(config(), false), (USER, true)];
    assert_eq!(host.call(&keys, &init_data(&USER)), Err(ErrorCode::UnauthorizedUser));
}

#[test]
fn initialize_needs_authority_signature() {
    let mut host = Host::new();
    let keys = vec![(config(), false), (AUTHORITY, false)];
    assert_eq!(host.call(&keys, &init_data(&RECEIVER)), Err(ErrorCode::MissingRequiredSignature));
}

#[test]
fn deposits_add_up() {
    let mut host = setup();
    let rec = record_of(&USER);
    assert_eq!(host.call(&user_keys(USER), &deposit_data(300, &cipher(300))), Ok(()));
    let vault_before = host.lamports(&vault());
    let user_before = host.lamports(&USER);
    assert_eq!(host.call(&user_keys(USER), &deposit_data(200, &cipher(200))), Ok(()));
    assert_eq!(host.lamports(&vault()), vault_before + 200);
    assert_eq!(host.lamports(&USER), user_before - 200);
    assert_eq!(host.balance(&rec), 500);
    let stored = UserDeposit::unpack_from_slice(&host.data(&rec)).unwrap();
    assert_eq!(stored.user, USER);
}

#[test]
fn first_deposit_starts_from_encrypted_zero() {
    let mut host = setup();
    assert_eq!(host.call(&user_keys(USER), &deposit_data(5, &cipher(5))), Ok(()));
    assert_eq!(host.requests[0], inco_as_euint128(0));
    assert_eq!(host.requests.len(), 5);
    host.requests.clear();
    assert_eq!(host.call(&user_keys(USER), &deposit_data(5, &cipher(5))), Ok(()));
    assert_eq!(host.requests.len(), 4);
}

#[test]
fn deposit_of_zero_refused() {
    let mut host = setup();
    assert_eq!(host.call(&user_keys(USER), &deposit_data(0, &cipher(0))), Err(ErrorCode::InvalidAmount));
}

#[test]
fn deposit_needs_signature() {
    let mut host = setup();
    let keys = vec![(vault(), false), (USER, false), (record_of(&USER), false)];
    assert_eq!(host.call(&keys, &deposit_data(5, &cipher(5))), Err(ErrorCode::MissingRequiredSignature));
}

#[test]
fn withdraw_beyond_balance_refused() {
    let mut host = setup();
    assert_eq!(host.call(&user_keys(USER), &deposit_data(100, &cipher(100))), Ok(()));
    let before = host.accounts.clone();
    assert_eq!(host.call(&user_keys(USER), &withdraw_data(101)), Err(ErrorCode::InsufficientFunds));
    assert_eq!(host.accounts, before);
    assert_eq!(host.call(&user_keys(USER), &withdraw_data(100)), Ok(()));
    assert_eq!(host.balance(&record_of(&USER)), 0);
}

#[test]
fn withdraw_without_record_refused() {
    let mut host = setup();
    assert_eq!(host.call(&user_keys(USER), &withdraw_data(1)), Err(ErrorCode::InvalidAccountData));
}

#[test]
fn withdraw_of_foreign_record_refused() {
    let mut host = setup();
    let foreign = UserDeposit { user: RECEIVER, balance: 7 }.pack();
    host.accounts.insert(record_of(&USER), (RENT, foreign));
    assert_eq!(host.call(&user_keys(USER), &withdraw_data(1)), Err(ErrorCode::UnauthorizedUser));
}

#[test]
fn mismatched_intent_refused() {
    let mut host = setup();
    assert_eq!(host.call(&user_keys(USER), &deposit_data(100, &cipher(100))), Ok(()));
    let before = host.accounts.clone();
    assert_eq!(host.intent(USER, RECEIVER, [3; 32], 50, &cipher(60)), Err(ErrorCode::AmountMismatch));
    assert_eq!(host.accounts, before);
}

#[test]
fn intent_of_zero_refused() {
    let mut host = setup();
    assert_eq!(host.call(&user_keys(USER), &deposit_data(100, &cipher(100))), Ok(()));
    assert_eq!(host.intent(USER, RECEIVER, [4; 32], 0, &cipher(0)), Err(ErrorCode::InsufficientFunds));
}

#[test]
fn intent_without_signature_refused() {
    let mut host = setup();
    assert_eq!(host.call(&user_keys(USER), &deposit_data(100, &cipher(100))), Ok(()));
    assert_eq!(
        host.call(&intent_keys(USER, RECEIVER, [5; 32]), &intent_data([5; 32], &[], 10, &cipher(10))),
        Err(ErrorCode::InvalidSignature)
    );
}

#[test]
fn intent_to_other_receiver_refused() {
    let mut host = setup();
    assert_eq!(host.call(&user_keys(USER), &deposit_data(100, &cipher(100))), Ok(()));
    assert_eq!(host.intent(USER, AUTHORITY, [6; 32], 10, &cipher(10)), Err(ErrorCode::UnauthorizedDelegate));
    let mut keys = intent_keys(USER, RECEIVER, [6; 32]);
    keys[4].1 = false;
    assert_eq!(
        host.call(&keys, &intent_data([6; 32], &[6; 64], 10, &cipher(10))),
        Err(ErrorCode::MissingRequiredSignature)
    );
}

#[test]
fn substituted_accounts_refused() {
    let mut host = setup();
    assert_eq!(host.call(&user_keys(USER), &deposit_data(100, &cipher(100))), Ok(()));
    let before = host.accounts.clone();
    let fake = [0x99u8; 32];

    let mut keys = user_keys(USER);
    keys[0].0 = fake;
    assert_eq!(host.call(&keys, &deposit_data(5, &cipher(5))), Err(ErrorCode::InvalidAddress));
    assert_eq!(host.call(&keys, &withdraw_data(5)), Err(ErrorCode::InvalidAddress));

    let mut keys = user_keys(USER);
    keys[2].0 = record_of(&RECEIVER);
    assert_eq!(host.call(&keys, &withdraw_data(5)), Err(ErrorCode::InvalidAddress));

    let mut keys = intent_keys(USER, RECEIVER, [7; 32]);
    keys[0].0 = fake;
    assert_eq!(host.call(&keys, &intent_data([7; 32], &[7; 64], 5, &cipher(5))), Err(ErrorCode::InvalidAddress));
    let mut keys = intent_keys(USER, RECEIVER, [7; 32]);
    keys[1].0 = fake;
    assert_eq!(host.call(&keys, &intent_data([7; 32], &[7; 64], 5, &cipher(5))), Err(ErrorCode::InvalidAddress));
    let mut keys = intent_keys(USER, RECEIVER, [7; 32]);
    keys[5].0 = marker_of(&[8; 32]);
    assert_eq!(host.call(&keys, &intent_data([7; 32], &[7; 64], 5, &cipher(5))), Err(ErrorCode::InvalidAddress));

    let keys = vec![(fake, false), (AUTHORITY, true)];
    assert_eq!(host.call(&keys, &init_data(&RECEIVER)), Err(ErrorCode::InvalidAddress));
    assert_eq!(host.accounts, before);
}

#[test]
fn derived_addresses_are_distinct() {
    assert_ne!(vault(), config());
    assert_ne!(record_of(&USER), record_of(&RECEIVER));
    assert_ne!(vault(), PROGRAM);
    assert_eq!(vault_address(&PROGRAM), vault_address(&PROGRAM));
}

#[test]
fn too_few_accounts_refused() {
    let mut host = setup();
    let keys = vec![(vault(), false), (USER, true)];
    assert_eq!(host.call(&keys, &withdraw_data(1)), Err(ErrorCode::NotEnoughAccountKeys));
}

#[test]
fn malformed_payload_refused() {
    let mut host = setup();
    assert_eq!(host.call(&user_keys(USER), &[9, 1, 2]), Err(ErrorCode::InvalidInstructionData));
    assert_eq!(host.call(&user_keys(USER), &[]), Err(ErrorCode::InvalidInstructionData));
}

#[test]
fn malformed_reply_fails_session() {
    let mut host = setup();
    assert_eq!(host.call(&user_keys(USER), &deposit_data(100, &cipher(100))), Ok(()));
    let states: Vec<AccountState> = user_keys(USER).iter().map(|(k, s)| host.state(k, *s)).collect();
    let (mut session, action) = start(&PROGRAM, &states, &withdraw_data(10)).unwrap();
    assert!(matches!(action, Action::Compute { .. }));
    let next = session.step(&Event::Returned(vec![1, 2, 3]));
    assert!(matches!(next, Action::Fail(ErrorCode::ExternalService)));
    assert!(session.is_over());
    assert_eq!(session.stage, Stage::Failed);
}

#[test]
fn failed_ledger_action_fails_session() {
    let mut host = setup();
    let states: Vec<AccountState> = user_keys(USER).iter().map(|(k, s)| host.state(k, *s)).collect();
    let (mut session, action) = start(&PROGRAM, &states, &deposit_data(10, &cipher(10))).unwrap();
    assert!(matches!(action, Action::CreateAccount { space: 0, .. }));
    let next: Action = session.step(&Event::Failed);
    assert!(matches!(next, Action::Fail(ErrorCode::ExternalService)));
    let s: &Session = &session;
    assert!(s.is_over());
    host.requests.clear();
}

#[test]
fn deposit_with_mismatched_ciphertext_refused() {
    let mut host = setup();
    let before = host.accounts.clone();
    assert_eq!(host.call(&user_keys(USER), &deposit_data(10, &cipher(1_000_000))), Err(ErrorCode::AmountMismatch));
    assert_eq!(host.accounts, before);
}

#[test]
fn replayed_intent_refused() {
    let mut host = setup();
    assert_eq!(host.call(&user_keys(USER), &deposit_data(100, &cipher(100))), Ok(()));
    assert_eq!(host.intent(USER, RECEIVER, [9; 32], 10, &cipher(10)), Ok(()));
    assert_eq!(host.lamports(&marker_of(&[9; 32])), RENT);
    let before = host.accounts.clone();
    assert_eq!(host.intent(USER, RECEIVER, [9; 32], 10, &cipher(10)), Err(ErrorCode::IntentReplayed));
    assert_eq!(host.accounts, before);
    assert_eq!(host.balance(&record_of(&USER)), 90);
}

#[test]
fn unsigned_intent_refused() {
    let mut host = setup();
    assert_eq!(host.call(&user_keys(USER), &deposit_data(100, &cipher(100))), Ok(()));
    let before = host.accounts.clone();
    let keys = intent_keys(USER, RECEIVER, [10; 32]);
    assert_eq!(host.call(&keys, &intent_data([10; 32], &[10; 64], 10, &cipher(10))), Err(ErrorCode::InvalidSignature));
    // A signature by someone else over the same intent does not count.
    host.signed.push((RECEIVER, [10; 32], vec![10; 64]));
    assert_eq!(host.call(&keys, &intent_data([10; 32], &[10; 64], 10, &cipher(10))), Err(ErrorCode::InvalidSignature));
    assert_eq!(host.accounts, before);
}
