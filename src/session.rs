//! The progress of one operation as a state machine.
//!
//! A session waits on the outcome of one action at a time. The host
//! performs the action (creating an account, moving currency, calling the
//! coprocessor, storing a record, producing a signature attestation) and
//! hands its outcome back to `Session::step`, which yields the next action,
//! until `Done` or `Fail`. The host executes all actions of a call as one
//! unit: when the session fails, none of them persists.

use vstd::prelude::*;
use crate::address::{intent_seed_list, intent_seeds, seeds_view, user_deposit_seed_list, user_deposit_seeds, with_bump};
use crate::codec::{executor_bytes, user_deposit_bytes, Executor, UserDeposit, USER_DEPOSIT_LEN};
use crate::coprocessor::{
    as_euint128_request, binary_request, inco_as_euint128, inco_binary, inco_new_euint128,
    inco_return_u128, new_euint128_request, reply_value, Operator,
};
use crate::error::ErrorCode;
use crate::intent::{attests, check_attestation};

verus! {

/// Something the host is asked to do.
#[derive(Clone, Debug)]
pub enum Action {
    /// Allocate `space` bytes at the derived address `account`, owned by the
    /// program and funded by `payer`; `seeds` (with the bump seed last) let
    /// the program sign for the address.
    CreateAccount { payer: [u8; 32], account: [u8; 32], space: u64, seeds: Vec<Vec<u8>> },
    /// Move native currency with the system program, signed by `from`.
    Transfer { from: [u8; 32], to: [u8; 32], amount: u64 },
    /// Debit the program-owned `from` and credit `to` directly.
    MoveLamports { from: [u8; 32], to: [u8; 32], amount: u64 },
    /// Call the coprocessor with `request`, signed by `signer`, and hand
    /// back its return data.
    Compute { signer: [u8; 32], request: Vec<u8> },
    /// Write `data` at the start of the data of `account`.
    Store { account: [u8; 32], data: Vec<u8> },
    /// Hand back the data of the signature-verification instruction that
    /// precedes the call, which should attest `signature` by `key` over
    /// `message`.
    Attestation { key: [u8; 32], message: [u8; 32], signature: Vec<u8> },
    /// The operation succeeded.
    Done,
    /// The operation failed; nothing it did may persist.
    Fail(ErrorCode),
}

pub enum ActionModel {
    CreateAccount { payer: Seq<u8>, account: Seq<u8>, space: u64, seeds: Seq<Seq<u8>> },
    Transfer { from: Seq<u8>, to: Seq<u8>, amount: u64 },
    MoveLamports { from: Seq<u8>, to: Seq<u8>, amount: u64 },
    Compute { signer: Seq<u8>, request: Seq<u8> },
    Store { account: Seq<u8>, data: Seq<u8> },
    Attestation { key: Seq<u8>, message: Seq<u8>, signature: Seq<u8> },
    Done,
    Fail(ErrorCode),
}

impl View for Action {
    type V = ActionModel;

    open spec fn view(&self) -> ActionModel {
        match self {
            Action::CreateAccount { payer, account, space, seeds } => ActionModel::CreateAccount {
                payer: payer@,
                account: account@,
                space: *space,
                seeds: seeds_view(seeds@),
            },
            Action::Transfer { from, to, amount } => ActionModel::Transfer { from: from@, to: to@, amount: *amount },
            Action::MoveLamports { from, to, amount } => ActionModel::MoveLamports {
                from: from@,
                to: to@,
                amount: *amount,
            },
            Action::Compute { signer, request } => ActionModel::Compute { signer: signer@, request: request@ },
            Action::Store { account, data } => ActionModel::Store { account: account@, data: data@ },
            Action::Attestation { key, message, signature } => ActionModel::Attestation {
                key: key@,
                message: message@,
                signature: signature@,
            },
            Action::Done => ActionModel::Done,
            Action::Fail(e) => ActionModel::Fail(*e),
        }
    }
}

/// The outcome of an action, as the host reports it.
#[derive(Clone, Debug)]
pub enum Event {
    /// A ledger action or a store went through.
    Completed,
    /// The coprocessor answered with this return data, or the host found
    /// this signature-verification data.
    Returned(Vec<u8>),
    /// The action failed, or the coprocessor left no return data.
    Failed,
}

pub enum EventModel {
    Completed,
    Returned(Seq<u8>),
    Failed,
}

impl View for Event {
    type V = EventModel;

    open spec fn view(&self) -> EventModel {
        match self {
            Event::Completed => EventModel::Completed,
            Event::Returned(d) => EventModel::Returned(d@),
            Event::Failed => EventModel::Failed,
        }
    }
}

/// The action a session waits on the outcome of.
#[derive(Clone, Copy, Debug, PartialEq, Eq, Structural)]
pub enum Stage {
    /// Initialize: the configuration account is being created.
    CreateConfig,
    /// Initialize: the configuration record is being written.
    StoreConfig,
    /// Deposit: the vault is being created.
    CreateVault,
    /// Deposit: the amount is moving from the user to the vault.
    Transfer,
    /// Deposit: the participant record is being created.
    CreateRecord,
    /// Deposit: an encryption of zero is being made for a fresh record.
    Zero,
    /// Deposit: the user's ciphertext is being ingested.
    Ingest,
    /// Deposit: the plaintext amount is being encrypted.
    CreditPlain,
    /// Deposit: ciphertext and plaintext are being compared.
    CreditMatch,
    /// Deposit: the ingested amount is being added to the balance.
    Add,
    /// Deposit: the credited record is being written.
    StoreCredit,
    /// Withdraw: the requested amount is being encrypted.
    AmountHandle,
    /// Delegated execution: the owner's signature of the intent is being
    /// looked up.
    Attest,
    /// Delegated execution: the intent's marker is being created.
    MarkIntent,
    /// Delegated execution: the intent's ciphertext is being ingested.
    IntentIngest,
    /// Delegated execution: the plaintext amount is being encrypted.
    IntentPlain,
    /// Delegated execution: ciphertext and plaintext are being compared.
    IntentMatch,
    /// The balance is being compared with the amount.
    Solvency,
    /// The amount is being subtracted from the balance.
    Debit,
    /// The debited record is being written.
    StoreDebit,
    /// The amount is moving from the vault to the payee.
    Release,
    /// The operation succeeded.
    Finished,
    /// The operation failed.
    Failed,
}

/// The progress of one operation.
#[derive(Clone, Debug)]
pub struct Session {
    pub stage: Stage,
    /// Signs the coprocessor calls and pays for created accounts.
    pub signer: [u8; 32],
    pub vault: [u8; 32],
    /// The participant record, or for Initialize the configuration account.
    pub record: [u8; 32],
    /// Bump seed of `record`.
    pub record_bump: u8,
    /// Deposit: whether the record must be created.
    pub create_record: bool,
    /// Deposit: whether the record holds no balance yet.
    pub fresh: bool,
    /// Owner written to the record.
    pub owner: [u8; 32],
    /// Receives released currency; for Initialize, the delegate.
    pub payee: [u8; 32],
    pub amount: u64,
    pub ciphertext: Vec<u8>,
    pub input_type: u8,
    /// Handle of the current encrypted balance.
    pub balance: u128,
    /// Handle of the encrypted amount.
    pub handle: u128,
    /// Delegated execution: the hash the owner signed.
    pub intent: [u8; 32],
    /// Delegated execution: the owner's signature.
    pub signature: Vec<u8>,
    /// Delegated execution: the account marking the intent as used.
    pub marker: [u8; 32],
    /// Bump seed of `marker`.
    pub marker_bump: u8,
}

pub struct SessionModel {
    pub stage: Stage,
    pub signer: Seq<u8>,
    pub vault: Seq<u8>,
    pub record: Seq<u8>,
    pub record_bump: u8,
    pub create_record: bool,
    pub fresh: bool,
    pub owner: Seq<u8>,
    pub payee: Seq<u8>,
    pub amount: u64,
    pub ciphertext: Seq<u8>,
    pub input_type: u8,
    pub balance: u128,
    pub handle: u128,
    pub intent: Seq<u8>,
    pub signature: Seq<u8>,
    pub marker: Seq<u8>,
    pub marker_bump: u8,
}

impl View for Session {
    type V = SessionModel;

    open spec fn view(&self) -> SessionModel {
        SessionModel {
            stage: self.stage,
            signer: self.signer@,
            vault: self.vault@,
            record: self.record@,
            record_bump: self.record_bump,
            create_record: self.create_record,
            fresh: self.fresh,
            owner: self.owner@,
            payee: self.payee@,
            amount: self.amount,
            ciphertext: self.ciphertext@,
            input_type: self.input_type,
            balance: self.balance,
            handle: self.handle,
            intent: self.intent@,
            signature: self.signature@,
            marker: self.marker@,
            marker_bump: self.marker_bump,
        }
    }
}

/// The value of a coprocessor reply, if the event is a well-formed one.
pub open spec fn event_value(e: EventModel) -> Option<u128> {
    match e {
        EventModel::Returned(d) => reply_value(d),
        _ => None,
    }
}

pub open spec fn staged(s: SessionModel, stage: Stage) -> SessionModel {
    SessionModel { stage, ..s }
}

pub open spec fn compute(s: SessionModel, request: Seq<u8>) -> ActionModel {
    ActionModel::Compute { signer: s.signer, request }
}

pub open spec fn failing(s: SessionModel, e: ErrorCode) -> (SessionModel, ActionModel) {
    (staged(s, Stage::Failed), ActionModel::Fail(e))
}

/// Deposit, once the currency has moved: create the record if needed, else
/// start on the balance.
pub open spec fn after_transfer(s: SessionModel) -> (SessionModel, ActionModel) {
    if s.create_record {
        (
            staged(s, Stage::CreateRecord),
            ActionModel::CreateAccount {
                payer: s.signer,
                account: s.record,
                space: USER_DEPOSIT_LEN as u64,
                seeds: user_deposit_seeds(s.signer).push(seq![s.record_bump]),
            },
        )
    } else {
        begin_credit(s)
    }
}

/// Deposit: a fresh record first gets an encryption of zero; then the
/// ciphertext is ingested.
pub open spec fn begin_credit(s: SessionModel) -> (SessionModel, ActionModel) {
    if s.fresh {
        (staged(s, Stage::Zero), compute(s, as_euint128_request(0)))
    } else {
        (staged(s, Stage::Ingest), compute(s, new_euint128_request(s.ciphertext, s.input_type)))
    }
}

/// The next session and action after the outcome `e` of the awaited action.
/// An outcome other than the one awaited fails the operation.
pub open spec fn next(s: SessionModel, e: EventModel) -> (SessionModel, ActionModel) {
    let done = e is Completed;
    let v = event_value(e);
    match s.stage {
        Stage::CreateConfig => if done {
            (
                staged(s, Stage::StoreConfig),
                ActionModel::Store { account: s.record, data: executor_bytes(s.payee, s.signer, true) },
            )
        } else {
            failing(s, ErrorCode::ExternalService)
        },
        Stage::StoreConfig | Stage::StoreCredit | Stage::Release => if done {
            (staged(s, Stage::Finished), ActionModel::Done)
        } else {
            failing(s, ErrorCode::ExternalService)
        },
        Stage::CreateVault => if done {
            (
                staged(s, Stage::Transfer),
                ActionModel::Transfer { from: s.signer, to: s.vault, amount: s.amount },
            )
        } else {
            failing(s, ErrorCode::ExternalService)
        },
        Stage::Transfer => if done {
            after_transfer(s)
        } else {
            failing(s, ErrorCode::ExternalService)
        },
        Stage::CreateRecord => if done {
            begin_credit(s)
        } else {
            failing(s, ErrorCode::ExternalService)
        },
        Stage::Zero => match v {
            Some(z) => {
                let t = SessionModel { stage: Stage::Ingest, balance: z, ..s };
                (t, compute(t, new_euint128_request(s.ciphertext, s.input_type)))
            },
            None => failing(s, ErrorCode::ExternalService),
        },
        Stage::Ingest => match v {
            Some(h) => (
                SessionModel { stage: Stage::CreditPlain, handle: h, ..s },
                compute(s, as_euint128_request(s.amount as u128)),
            ),
            None => failing(s, ErrorCode::ExternalService),
        },
        Stage::CreditPlain => match v {
            Some(p) => (staged(s, Stage::CreditMatch), compute(s, binary_request(Operator::EEq, s.handle, p))),
            None => failing(s, ErrorCode::ExternalService),
        },
        Stage::CreditMatch => match v {
            Some(f) => if f == 0 {
                failing(s, ErrorCode::AmountMismatch)
            } else {
                (staged(s, Stage::Add), compute(s, binary_request(Operator::EAdd, s.balance, s.handle)))
            },
            None => failing(s, ErrorCode::ExternalService),
        },
        Stage::Add => match v {
            Some(b) => (
                SessionModel { stage: Stage::StoreCredit, balance: b, ..s },
                ActionModel::Store { account: s.record, data: user_deposit_bytes(s.owner, b) },
            ),
            None => failing(s, ErrorCode::ExternalService),
        },
        Stage::AmountHandle => match v {
            Some(h) => (
                SessionModel { stage: Stage::Solvency, handle: h, ..s },
                compute(s, binary_request(Operator::EGe, s.balance, h)),
            ),
            None => failing(s, ErrorCode::ExternalService),
        },
        Stage::Attest => match e {
            EventModel::Returned(d) => if attests(d, s.owner, s.intent, s.signature) {
                (
                    staged(s, Stage::MarkIntent),
                    ActionModel::CreateAccount {
                        payer: s.signer,
                        account: s.marker,
                        space: 0,
                        seeds: intent_seeds(s.intent).push(seq![s.marker_bump]),
                    },
                )
            } else {
                failing(s, ErrorCode::InvalidSignature)
            },
            _ => failing(s, ErrorCode::InvalidSignature),
        },
        Stage::MarkIntent => if done {
            (staged(s, Stage::IntentIngest), compute(s, new_euint128_request(s.ciphertext, s.input_type)))
        } else {
            failing(s, ErrorCode::ExternalService)
        },
        Stage::IntentIngest => match v {
            Some(h) => (
                SessionModel { stage: Stage::IntentPlain, handle: h, ..s },
                compute(s, as_euint128_request(s.amount as u128)),
            ),
            None => failing(s, ErrorCode::ExternalService),
        },
        Stage::IntentPlain => match v {
            Some(p) => (staged(s, Stage::IntentMatch), compute(s, binary_request(Operator::EEq, s.handle, p))),
            None => failing(s, ErrorCode::ExternalService),
        },
        Stage::IntentMatch => match v {
            Some(f) => if f == 0 {
                failing(s, ErrorCode::AmountMismatch)
            } else if s.amount == 0 {
                failing(s, ErrorCode::InsufficientFunds)
            } else {
                (staged(s, Stage::Solvency), compute(s, binary_request(Operator::EGe, s.balance, s.handle)))
            },
            None => failing(s, ErrorCode::ExternalService),
        },
        Stage::Solvency => match v {
            Some(f) => if f == 0 {
                failing(s, ErrorCode::InsufficientFunds)
            } else {
                (staged(s, Stage::Debit), compute(s, binary_request(Operator::ESub, s.balance, s.handle)))
            },
            None => failing(s, ErrorCode::ExternalService),
        },
        Stage::Debit => match v {
            Some(b) => (
                SessionModel { stage: Stage::StoreDebit, balance: b, ..s },
                ActionModel::Store { account: s.record, data: user_deposit_bytes(s.owner, b) },
            ),
            None => failing(s, ErrorCode::ExternalService),
        },
        Stage::StoreDebit => if done {
            (
                staged(s, Stage::Release),
                ActionModel::MoveLamports { from: s.vault, to: s.payee, amount: s.amount },
            )
        } else {
            failing(s, ErrorCode::ExternalService)
        },
        Stage::Finished => (s, ActionModel::Done),
        Stage::Failed => (s, ActionModel::Fail(ErrorCode::ExternalService)),
    }
}

/// The value of a coprocessor reply, if the event is a well-formed one.
fn reply_of(event: &Event) -> (r: Option<u128>)
    ensures
        r == event_value(event@),
{
    match event {
        Event::Returned(d) => match inco_return_u128(d.as_slice()) {
            Ok(v) => Some(v),
            Err(_) => None,
        },
        _ => None,
    }
}

impl Session {
    /// The limit that the coprocessor's length prefix puts on a ciphertext.
    pub open spec fn wf(&self) -> bool {
        self.ciphertext@.len() <= u32::MAX
    }

    fn fail(&mut self, e: ErrorCode) -> (r: Action)
        ensures
            (final(self)@, r@) == failing(old(self)@, e),
            final(self).ciphertext == old(self).ciphertext,
    {
        self.stage = Stage::Failed;
        Action::Fail(e)
    }

    pub(crate) fn compute(&self, request: Vec<u8>) -> (r: Action)
        ensures
            r@ == compute(self@, request@),
    {
        Action::Compute { signer: self.signer, request }
    }

    fn store_record(&self, balance: u128) -> (r: Action)
        ensures
            r@ == (ActionModel::Store { account: self.record@, data: user_deposit_bytes(self.owner@, balance) }),
    {
        let rec = UserDeposit { user: self.owner, balance };
        Action::Store { account: self.record, data: rec.pack() }
    }

    fn begin_credit(&mut self) -> (r: Action)
        requires
            old(self).wf(),
        ensures
            (final(self)@, r@) == begin_credit(old(self)@),
            final(self).ciphertext == old(self).ciphertext,
    {
        if self.fresh {
            self.stage = Stage::Zero;
            self.compute(inco_as_euint128(0))
        } else {
            self.stage = Stage::Ingest;
            self.compute(inco_new_euint128(&self.ciphertext, self.input_type))
        }
    }

    /// Whether the operation has ended.
    pub fn is_over(&self) -> (r: bool)
        ensures
            r == (self.stage == Stage::Finished || self.stage == Stage::Failed),
    {
        self.stage == Stage::Finished || self.stage == Stage::Failed
    }

    /// Takes the outcome of the awaited action and yields the next action.
    pub fn step(&mut self, event: &Event) -> (r: Action)
        requires
            old(self).wf(),
        ensures
            (final(self)@, r@) == next(old(self)@, event@),
            final(self).wf(),
    {
        let done = match event {
            Event::Completed => true,
            _ => false,
        };
        match self.stage {
            Stage::CreateConfig => {
                if done {
                    self.stage = Stage::StoreConfig;
                    let cfg = Executor { execution_account: self.payee, authority: self.signer, is_initialized: true };
                    Action::Store { account: self.record, data: cfg.pack() }
                } else {
                    self.fail(ErrorCode::ExternalService)
                }
            },
            Stage::StoreConfig | Stage::StoreCredit | Stage::Release => {
                if done {
                    self.stage = Stage::Finished;
                    Action::Done
                } else {
                    self.fail(ErrorCode::ExternalService)
                }
            },
            Stage::CreateVault => {
                if done {
                    self.stage = Stage::Transfer;
                    Action::Transfer { from: self.signer, to: self.vault, amount: self.amount }
                } else {
                    self.fail(ErrorCode::ExternalService)
                }
            },
            Stage::Transfer => {
                if !done {
                    self.fail(ErrorCode::ExternalService)
                } else if self.create_record {
                    self.stage = Stage::CreateRecord;
                    let seeds = with_bump(user_deposit_seed_list(&self.signer), self.record_bump);
                    Action::CreateAccount {
                        payer: self.signer,
                        account: self.record,
                        space: USER_DEPOSIT_LEN as u64,
                        seeds,
                    }
                } else {
                    self.begin_credit()
                }
            },
            Stage::CreateRecord => {
                if done {
                    self.begin_credit()
                } else {
                    self.fail(ErrorCode::ExternalService)
                }
            },
            Stage::Zero => match reply_of(event) {
                Some(z) => {
                    self.stage = Stage::Ingest;
                    self.balance = z;
                    self.compute(inco_new_euint128(&self.ciphertext, self.input_type))
                },
                None => self.fail(ErrorCode::ExternalService),
            },
            Stage::Ingest => match reply_of(event) {
                Some(h) => {
                    let r = self.compute(inco_as_euint128(self.amount as u128));
                    self.stage = Stage::CreditPlain;
                    self.handle = h;
                    r
                },
                None => self.fail(ErrorCode::ExternalService),
            },
            Stage::CreditPlain => match reply_of(event) {
                Some(p) => {
                    self.stage = Stage::CreditMatch;
                    self.compute(inco_binary(Operator::EEq, self.handle, p))
                },
                None => self.fail(ErrorCode::ExternalService),
            },
            Stage::CreditMatch => match reply_of(event) {
                Some(f) => {
                    if f == 0 {
                        self.fail(ErrorCode::AmountMismatch)
                    } else {
                        self.stage = Stage::Add;
                        self.compute(inco_binary(Operator::EAdd, self.balance, self.handle))
                    }
                },
                None => self.fail(ErrorCode::ExternalService),
            },
            Stage::Add => match reply_of(event) {
                Some(b) => {
                    let r = self.store_record(b);
                    self.stage = Stage::StoreCredit;
                    self.balance = b;
                    r
                },
                None => self.fail(ErrorCode::ExternalService),
            },
            Stage::AmountHandle => match reply_of(event) {
                Some(h) => {
                    let r = self.compute(inco_binary(Operator::EGe, self.balance, h));
                    self.stage = Stage::Solvency;
                    self.handle = h;
                    r
                },
                None => self.fail(ErrorCode::ExternalService),
            },
            Stage::Attest => {
                let ok = match event {
                    Event::Returned(d) => check_attestation(
                        d.as_slice(),
                        self.owner.as_slice(),
                        self.intent.as_slice(),
                        self.signature.as_slice(),
                    ),
                    _ => false,
                };
                if ok {
                    self.stage = Stage::MarkIntent;
                    let seeds = with_bump(intent_seed_list(&self.intent), self.marker_bump);
                    Action::CreateAccount { payer: self.signer, account: self.marker, space: 0, seeds }
                } else {
                    self.fail(ErrorCode::InvalidSignature)
                }
            },
            Stage::MarkIntent => {
                if done {
                    self.stage = Stage::IntentIngest;
                    self.compute(inco_new_euint128(&self.ciphertext, self.input_type))
                } else {
                    self.fail(ErrorCode::ExternalService)
                }
            },
            Stage::IntentIngest => match reply_of(event) {
                Some(h) => {
                    let r = self.compute(inco_as_euint128(self.amount as u128));
                    self.stage = Stage::IntentPlain;
                    self.handle = h;
                    r
                },
                None => self.fail(ErrorCode::ExternalService),
            },
            Stage::IntentPlain => match reply_of(event) {
                Some(p) => {
                    self.stage = Stage::IntentMatch;
                    self.compute(inco_binary(Operator::EEq, self.handle, p))
                },
                None => self.fail(ErrorCode::ExternalService),
            },
            Stage::IntentMatch => match reply_of(event) {
                Some(f) => {
                    if f == 0 {
                        self.fail(ErrorCode::AmountMismatch)
                    } else if self.amount == 0 {
                        self.fail(ErrorCode::InsufficientFunds)
                    } else {
                        self.stage = Stage::Solvency;
                        self.compute(inco_binary(Operator::EGe, self.balance, self.handle))
                    }
                },
                None => self.fail(ErrorCode::ExternalService),
            },
            Stage::Solvency => match reply_of(event) {
                Some(f) => {
                    if f == 0 {
                        self.fail(ErrorCode::InsufficientFunds)
                    } else {
                        self.stage = Stage::Debit;
                        self.compute(inco_binary(Operator::ESub, self.balance, self.handle))
                    }
                },
                None => self.fail(ErrorCode::ExternalService),
            },
            Stage::Debit => match reply_of(event) {
                Some(b) => {
                    let r = self.store_record(b);
                    self.stage = Stage::StoreDebit;
                    self.balance = b;
                    r
                },
                None => self.fail(ErrorCode::ExternalService),
            },
            Stage::StoreDebit => {
                if done {
                    self.stage = Stage::Release;
                    Action::MoveLamports { from: self.vault, to: self.payee, amount: self.amount }
                } else {
                    self.fail(ErrorCode::ExternalService)
                }
            },
            Stage::Finished => Action::Done,
            Stage::Failed => Action::Fail(ErrorCode::ExternalService),
        }
    }
}

} // verus!
