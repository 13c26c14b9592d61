//! What holds of whole runs of the vault's sessions, against a truthful
//! coprocessor, and of repeated calls.

use vstd::prelude::*;
use vstd::bytes::{lemma_auto_spec_u128_to_from_le_bytes, spec_u128_to_le_bytes};
use crate::address::{executor_seeds, is_derived, user_deposit_seeds, vault_seeds};
use crate::codec::{executor_bytes, user_deposit_bytes};
use crate::error::ErrorCode;
use crate::intent::attests;
use crate::instruction::{parse, InstructionModel};
use crate::session::{event_value, next, ActionModel, EventModel, SessionModel, Stage};
use crate::vault::{
    config_valid, deposit_start, dispatch, execute_start, initialize_start, stored_balance, stored_owner,
    withdraw_start, AccountState, Deposit, ExecuteWithIntent, Initialize, Withdraw,
};

verus! {

/// Whether `e` is what a truthful coprocessor could answer to the request
/// that `s` awaits, where `dec` gives what a handle decrypts to and `plain`
/// what a ciphertext of an input type encrypts. A failed or malformed answer
/// is always possible. The equality checks compare the ingested ciphertext's
/// handle with a fresh encryption of the amount, so their flag is set
/// exactly when that handle decrypts to the amount.
pub open spec fn honest_reply(
    s: SessionModel,
    e: EventModel,
    dec: spec_fn(u128) -> int,
    plain: spec_fn(Seq<u8>, u8) -> int,
) -> bool {
    match event_value(e) {
        None => true,
        Some(v) => match s.stage {
            Stage::Zero => dec(v) == 0,
            Stage::Ingest | Stage::IntentIngest => dec(v) == plain(s.ciphertext, s.input_type),
            Stage::Add => dec(v) == dec(s.balance) + dec(s.handle),
            Stage::AmountHandle | Stage::IntentPlain | Stage::CreditPlain => dec(v) == s.amount,
            Stage::IntentMatch | Stage::CreditMatch => (v != 0) == (dec(s.handle) == s.amount),
            Stage::Solvency => (v != 0) == (dec(s.balance) >= dec(s.handle)),
            Stage::Debit => dec(v) == dec(s.balance) - dec(s.handle),
            _ => true,
        },
    }
}

/// The session and the actions after feeding `events` to `s` in order.
pub open spec fn run(s: SessionModel, events: Seq<EventModel>) -> (SessionModel, Seq<ActionModel>)
    decreases events.len(),
{
    if events.len() == 0 {
        (s, Seq::empty())
    } else {
        let first = next(s, events[0]);
        let rest = run(first.0, events.drop_first());
        (rest.0, seq![first.1] + rest.1)
    }
}

/// Whether every event of a run is a truthful answer to what it answers.
pub open spec fn honest_run(
    s: SessionModel,
    events: Seq<EventModel>,
    dec: spec_fn(u128) -> int,
    plain: spec_fn(Seq<u8>, u8) -> int,
) -> bool
    decreases events.len(),
{
    events.len() == 0 || (honest_reply(s, events[0], dec, plain) && honest_run(
        next(s, events[0]).0,
        events.drop_first(),
        dec,
        plain,
    ))
}

/// Whether an action moves currency, writes a record, or reports success.
pub open spec fn commits(a: ActionModel) -> bool {
    a is Transfer || a is MoveLamports || a is Store || a is Done
}

/// An invariant of single truthful steps is one of whole truthful runs, and
/// every action of the run is good when every truthful step's action is.
proof fn lemma_run_invariant(
    inv: spec_fn(SessionModel) -> bool,
    good: spec_fn(ActionModel) -> bool,
    s: SessionModel,
    events: Seq<EventModel>,
    dec: spec_fn(u128) -> int,
    plain: spec_fn(Seq<u8>, u8) -> int,
)
    requires
        inv(s),
        honest_run(s, events, dec, plain),
        forall|t: SessionModel, e: EventModel|
            inv(t) && honest_reply(t, e, dec, plain) ==> inv(#[trigger] next(t, e).0) && good(next(t, e).1),
    ensures
        inv(run(s, events).0),
        forall|i: int| 0 <= i < run(s, events).1.len() ==> good(#[trigger] run(s, events).1[i]),
    decreases events.len(),
{
    if events.len() > 0 {
        let first = next(s, events[0]);
        lemma_run_invariant(inv, good, first.0, events.drop_first(), dec, plain);
        let rest = run(first.0, events.drop_first());
        assert forall|i: int| 0 <= i < run(s, events).1.len() implies good(#[trigger] run(s, events).1[i]) by {
            if i > 0 {
                assert(run(s, events).1[i] == rest.1[i - 1]);
            }
        }
    }
}

/// A run that ends outside `pre` after starting in it took a step out of
/// `pre`, and such a step's action is marked.
proof fn lemma_leaving_is_marked(
    pre: spec_fn(SessionModel) -> bool,
    mark: spec_fn(ActionModel) -> bool,
    s: SessionModel,
    events: Seq<EventModel>,
)
    requires
        pre(s),
        !pre(run(s, events).0),
        forall|t: SessionModel, e: EventModel| pre(t) && !pre(#[trigger] next(t, e).0) ==> mark(next(t, e).1),
    ensures
        exists|i: int| 0 <= i < run(s, events).1.len() && mark(#[trigger] run(s, events).1[i]),
    decreases events.len(),
{
    let first = next(s, events[0]);
    let rest = run(first.0, events.drop_first());
    if pre(first.0) {
        lemma_leaving_is_marked(pre, mark, first.0, events.drop_first());
        let i = choose|i: int| 0 <= i < rest.1.len() && mark(#[trigger] rest.1[i]);
        assert(run(s, events).1[i + 1] == rest.1[i]);
    } else {
        assert(run(s, events).1[0] == first.1);
    }
}

/// Withdrawing more than the balance decrypts to never succeeds: against a
/// truthful coprocessor no action of the session writes the record, moves
/// currency or reports success, whatever the outcomes of the calls.
pub proof fn withdraw_never_overdraws(
    program_id: Seq<u8>,
    a: Withdraw,
    amount: u64,
    events: Seq<EventModel>,
    dec: spec_fn(u128) -> int,
    plain: spec_fn(Seq<u8>, u8) -> int,
)
    requires
        withdraw_start(program_id, a, amount) is Ok,
        dec(stored_balance(a.user_deposit.data@)) < amount,
        honest_run(withdraw_start(program_id, a, amount).unwrap().0, events, dec, plain),
    ensures
        ({
            let (s, first) = withdraw_start(program_id, a, amount).unwrap();
            &&& !commits(first)
            &&& forall|i: int| 0 <= i < run(s, events).1.len() ==> !commits(#[trigger] run(s, events).1[i])
        }),
{
    let (s, first) = withdraw_start(program_id, a, amount).unwrap();
    let inv = |t: SessionModel|
        (t.stage == Stage::AmountHandle && dec(t.balance) < t.amount) || (t.stage == Stage::Solvency && dec(
            t.balance,
        ) < dec(t.handle)) || t.stage == Stage::Failed;
    let good = |x: ActionModel| !commits(x);
    lemma_run_invariant(inv, good, s, events, dec, plain);
}

/// Delegated execution whose ciphertext does not encrypt its plaintext
/// amount always fails: against a truthful coprocessor no action of the
/// session writes the record, moves currency or reports success.
pub proof fn mismatched_intent_refused(
    program_id: Seq<u8>,
    a: ExecuteWithIntent,
    intent_hash: Seq<u8>,
    signature: Seq<u8>,
    amount: u64,
    ciphertext: Seq<u8>,
    input_type: u8,
    events: Seq<EventModel>,
    dec: spec_fn(u128) -> int,
    plain: spec_fn(Seq<u8>, u8) -> int,
)
    requires
        execute_start(program_id, a, intent_hash, signature, amount, ciphertext, input_type) is Ok,
        plain(ciphertext, input_type) != amount,
        honest_run(
            execute_start(program_id, a, intent_hash, signature, amount, ciphertext, input_type).unwrap().0,
            events,
            dec,
            plain,
        ),
    ensures
        ({
            let (s, first) = execute_start(program_id, a, intent_hash, signature, amount, ciphertext, input_type).unwrap();
            &&& !commits(first)
            &&& forall|i: int| 0 <= i < run(s, events).1.len() ==> !commits(#[trigger] run(s, events).1[i])
        }),
{
    let (s, first) = execute_start(program_id, a, intent_hash, signature, amount, ciphertext, input_type).unwrap();
    let inv = |t: SessionModel|
        ((t.stage == Stage::Attest || t.stage == Stage::MarkIntent || t.stage == Stage::IntentIngest) && plain(
            t.ciphertext,
            t.input_type,
        ) != t.amount) || ((t.stage
            == Stage::IntentPlain || t.stage == Stage::IntentMatch) && dec(t.handle) != t.amount) || t.stage
            == Stage::Failed;
    let good = |x: ActionModel| !commits(x);
    lemma_run_invariant(inv, good, s, events, dec, plain);
}

/// What a record's balance decrypts to before a deposit: nothing for a
/// fresh record.
pub open spec fn prior(s: SessionModel, dec: spec_fn(u128) -> int) -> int {
    if s.fresh {
        0
    } else {
        dec(s.balance)
    }
}

/// A deposit session that has moved its currency, with what its balance
/// handles decrypt to so far.
spec fn credited_so_far(
    s0: SessionModel,
    t: SessionModel,
    dec: spec_fn(u128) -> int,
    plain: spec_fn(Seq<u8>, u8) -> int,
) -> bool {
    &&& t.signer == s0.signer && t.vault == s0.vault && t.record == s0.record && t.owner == s0.owner
    &&& t.amount == s0.amount && t.fresh == s0.fresh && t.create_record == s0.create_record
    &&& t.ciphertext == s0.ciphertext && t.input_type == s0.input_type && t.record_bump == s0.record_bump
    &&& t.owner.len() == 32
    &&& match t.stage {
        Stage::Transfer | Stage::CreateRecord => t.balance == s0.balance,
        Stage::Zero => t.fresh,
        Stage::Ingest => dec(t.balance) == prior(s0, dec),
        Stage::CreditPlain | Stage::CreditMatch => dec(t.balance) == prior(s0, dec) && dec(t.handle) == plain(
            t.ciphertext,
            t.input_type,
        ),
        Stage::Add => dec(t.balance) == prior(s0, dec) && dec(t.handle) == t.amount && t.amount == plain(
            t.ciphertext,
            t.input_type,
        ),
        Stage::StoreCredit | Stage::Finished | Stage::Failed => true,
        _ => false,
    }
}

/// What a deposit may do once its currency has moved: no further currency
/// movement, and only a write of the record that credits the amount, which
/// the ciphertext encrypts.
spec fn credit_action(
    s0: SessionModel,
    x: ActionModel,
    dec: spec_fn(u128) -> int,
    plain: spec_fn(Seq<u8>, u8) -> int,
) -> bool {
    &&& !(x is Transfer) && !(x is MoveLamports)
    &&& x matches ActionModel::Store { account, data } ==> {
        &&& account == s0.record
        &&& stored_owner(data) == s0.owner
        &&& dec(stored_balance(data)) == prior(s0, dec) + s0.amount
        &&& plain(s0.ciphertext, s0.input_type) == s0.amount
    }
}

proof fn lemma_user_deposit_fields(owner: Seq<u8>, balance: u128)
    requires
        owner.len() == 32,
    ensures
        stored_owner(user_deposit_bytes(owner, balance)) == owner,
        stored_balance(user_deposit_bytes(owner, balance)) == balance,
{
    lemma_auto_spec_u128_to_from_le_bytes();
    let d = user_deposit_bytes(owner, balance);
    assert(d.subrange(0, 32) =~= owner);
    assert(d.subrange(32, 48) =~= spec_u128_to_le_bytes(balance));
}

/// A deposit moves exactly its amount into the vault and credits exactly
/// that amount: against a truthful coprocessor, every currency movement of
/// the session is one transfer of `amount` from the depositor to the vault,
/// there is at most one, and there is one if the session succeeds; the
/// record is written only when the ciphertext encrypts `amount`, every
/// write keeps its owner and leaves a balance that decrypts to the prior
/// balance plus `amount`, and a session that succeeds has written it.
pub proof fn deposit_credits_exactly(
    program_id: Seq<u8>,
    a: Deposit,
    amount: u64,
    ciphertext: Seq<u8>,
    input_type: u8,
    events: Seq<EventModel>,
    dec: spec_fn(u128) -> int,
    plain: spec_fn(Seq<u8>, u8) -> int,
)
    requires
        deposit_start(program_id, a, amount, ciphertext, input_type) is Ok,
        honest_run(deposit_start(program_id, a, amount, ciphertext, input_type).unwrap().0, events, dec, plain),
    ensures
        ({
            let (s, first) = deposit_start(program_id, a, amount, ciphertext, input_type).unwrap();
            let acts = seq![first] + run(s, events).1;
            let transfer = ActionModel::Transfer { from: a.user.key@, to: a.vault.key@, amount };
            &&& forall|i: int| 0 <= i < acts.len() && #[trigger] acts[i] is Transfer ==> acts[i] == transfer
            &&& forall|i: int, j: int|
                0 <= i < acts.len() && 0 <= j < acts.len() && #[trigger] acts[i] is Transfer
                    && #[trigger] acts[j] is Transfer ==> i == j
            &&& forall|i: int| 0 <= i < acts.len() ==> !(#[trigger] acts[i] is MoveLamports)
            &&& forall|i: int|
                0 <= i < acts.len() ==> (#[trigger] acts[i] matches ActionModel::Store { account, data } ==> {
                    &&& account == a.user_deposit.key@
                    &&& stored_owner(data) == s.owner
                    &&& dec(stored_balance(data)) == prior(s, dec) + amount
                    &&& plain(ciphertext, input_type) == amount
                })
            &&& run(s, events).0.stage == Stage::Finished ==> exists|i: int|
                0 <= i < acts.len() && #[trigger] acts[i] is Transfer
            &&& run(s, events).0.stage == Stage::Finished ==> exists|i: int|
                0 <= i < acts.len() && #[trigger] acts[i] is Store
        }),
{
    let (s, first) = deposit_start(program_id, a, amount, ciphertext, input_type).unwrap();
    let r = run(s, events);
    let acts = seq![first] + r.1;
    let transfer = ActionModel::Transfer { from: a.user.key@, to: a.vault.key@, amount };
    let inv = |t: SessionModel| credited_so_far(s, t, dec, plain);
    let good = |x: ActionModel| credit_action(s, x, dec, plain);
    assert forall|t: SessionModel, e: EventModel| inv(t) && honest_reply(t, e, dec, plain) implies inv(
        #[trigger] next(t, e).0,
    ) && good(next(t, e).1) by {
        if let Some(v) = event_value(e) {
            lemma_user_deposit_fields(t.owner, v);
        }
    }
    let before_store = |t: SessionModel|
        t.stage == Stage::CreateVault || t.stage == Stage::Transfer || t.stage == Stage::CreateRecord
            || t.stage == Stage::Zero || t.stage == Stage::Ingest || t.stage == Stage::CreditPlain || t.stage
            == Stage::CreditMatch || t.stage == Stage::Add || t.stage == Stage::Failed;
    let is_store = |x: ActionModel| x is Store;
    if s.stage == Stage::CreateVault {
        // The vault is created first; the transfer can only come next.
        assert(first is CreateAccount);
        if events.len() == 0 {
            assert(acts =~= seq![first]);
        } else {
            let step = next(s, events[0]);
            let rest = run(step.0, events.drop_first());
            assert(acts =~= seq![first, step.1] + rest.1);
            assert(inv(step.0)) by {
                assert(step.0.stage == Stage::Transfer || step.0.stage == Stage::Failed);
            }
            lemma_run_invariant(inv, good, step.0, events.drop_first(), dec, plain);
            assert(forall|i: int| 2 <= i < acts.len() ==> acts[i] == rest.1[i - 2]);
            if r.0.stage == Stage::Finished {
                assert(step.0.stage == Stage::Transfer) by {
                    if step.0.stage == Stage::Failed {
                        let failed = |t: SessionModel| t.stage == Stage::Failed;
                        lemma_run_invariant(failed, |x: ActionModel| true, step.0, events.drop_first(), dec, plain);
                    }
                }
                assert(acts[1] is Transfer);
                lemma_leaving_is_marked(before_store, is_store, step.0, events.drop_first());
                let k = choose|k: int| 0 <= k < rest.1.len() && is_store(#[trigger] rest.1[k]);
                assert(acts[k + 2] is Store);
            }
        }
    } else {
        assert(s.stage == Stage::Transfer && first == transfer);
        lemma_run_invariant(inv, good, s, events, dec, plain);
        assert(forall|i: int| 1 <= i < acts.len() ==> acts[i] == r.1[i - 1]);
        if r.0.stage == Stage::Finished {
            assert(acts[0] is Transfer);
            lemma_leaving_is_marked(before_store, is_store, s, events);
            let k = choose|k: int| 0 <= k < r.1.len() && is_store(#[trigger] r.1[k]);
            assert(acts[k + 1] is Store);
        }
    }
}

/// Errors that refuse the caller's authority: a substituted account, a
/// missing signature, or a foreign owner, authority or delegate.
pub open spec fn is_authorization(e: ErrorCode) -> bool {
    e == ErrorCode::InvalidAddress || e == ErrorCode::MissingRequiredSignature || e == ErrorCode::UnauthorizedUser
        || e == ErrorCode::UnauthorizedDelegate
}

/// Whether an account in a derived slot of the operation is not the derived
/// address; for delegated execution, a substituted vault or record counts
/// where the configuration is well formed.
pub open spec fn substituted(program_id: Seq<u8>, accounts: Seq<AccountState>, op: InstructionModel) -> bool {
    match op {
        InstructionModel::Initialize { .. } => accounts.len() >= 2 && !is_derived(
            executor_seeds(),
            program_id,
            accounts[0].key@,
        ),
        InstructionModel::Deposit { .. } | InstructionModel::Withdraw { .. } => accounts.len() >= 3 && (!is_derived(
            vault_seeds(),
            program_id,
            accounts[0].key@,
        ) || !is_derived(user_deposit_seeds(accounts[1].key@), program_id, accounts[2].key@)),
        InstructionModel::ExecuteWithIntent { .. } => accounts.len() >= 6 && (!is_derived(
            executor_seeds(),
            program_id,
            accounts[0].key@,
        ) || (config_valid(accounts[0].data@) && (!is_derived(vault_seeds(), program_id, accounts[1].key@)
            || !is_derived(user_deposit_seeds(accounts[3].key@), program_id, accounts[2].key@)))),
    }
}

/// A well-formed instruction given an account that is not the derived
/// address of its slot fails with an authorization error before any action.
pub proof fn substituted_accounts_refused(program_id: Seq<u8>, accounts: Seq<AccountState>, data: Seq<u8>)
    requires
        parse(data) is Some,
        substituted(program_id, accounts, parse(data).unwrap()),
    ensures
        (dispatch(program_id, accounts, data) matches Err(e) && is_authorization(e)),
{
}

/// Initializing twice with the same authority and delegate yields the same
/// configuration: the first call writes the record of the two, and a second
/// call on the account holding that record succeeds, creates nothing, and
/// writes back the very bytes the account holds.
pub proof fn initialize_is_idempotent(program_id: Seq<u8>, first: Initialize, again: Initialize, receiver: Seq<u8>)
    requires
        initialize_start(program_id, first, receiver) is Ok,
        receiver.len() == 32,
        again.executor.key == first.executor.key,
        again.authority.key == first.authority.key,
        again.authority.is_signer,
        again.executor.lamports != 0,
        again.executor.data@ == executor_bytes(receiver, first.authority.key@, true),
    ensures
        ({
            let (s, x) = initialize_start(program_id, first, receiver).unwrap();
            let written = if x is Store {
                x
            } else {
                next(s, EventModel::Completed).1
            };
            written == ActionModel::Store {
                account: first.executor.key@,
                data: executor_bytes(receiver, first.authority.key@, true),
            }
        }),
        (initialize_start(program_id, again, receiver) matches Ok((s, x)) && x == (ActionModel::Store {
            account: again.executor.key@,
            data: again.executor.data@,
        }) && next(s, EventModel::Completed) == (SessionModel { stage: Stage::Finished, ..s }, ActionModel::Done)),
{
    let d = again.executor.data@;
    assert(d.subrange(32, 64) =~= first.authority.key@);
    assert(d[64] == 1u8);
}

/// Delegated execution commits nothing without the owner's signature: if
/// any action of the session moves currency, writes a record or reports
/// success, the first outcome handed to it was verification data attesting
/// the signature by the record's owner over the intent hash. This holds
/// whatever the coprocessor answers.
pub proof fn intent_needs_owner_signature(
    program_id: Seq<u8>,
    a: ExecuteWithIntent,
    intent_hash: Seq<u8>,
    signature: Seq<u8>,
    amount: u64,
    ciphertext: Seq<u8>,
    input_type: u8,
    events: Seq<EventModel>,
)
    requires
        execute_start(program_id, a, intent_hash, signature, amount, ciphertext, input_type) is Ok,
    ensures
        ({
            let (s, first) = execute_start(program_id, a, intent_hash, signature, amount, ciphertext, input_type).unwrap();
            let acts = seq![first] + run(s, events).1;
            (exists|i: int| 0 <= i < acts.len() && commits(#[trigger] acts[i])) ==> {
                &&& events.len() > 0
                &&& events[0] matches EventModel::Returned(d) && attests(d, a.user.key@, intent_hash, signature)
            }
        }),
{
    let (s, first) = execute_start(program_id, a, intent_hash, signature, amount, ciphertext, input_type).unwrap();
    let acts = seq![first] + run(s, events).1;
    let attested = events.len() > 0 && (events[0] matches EventModel::Returned(d) && attests(
        d,
        a.user.key@,
        intent_hash,
        signature,
    ));
    if !attested {
        assert(!commits(acts[0]));
        if events.len() > 0 {
            let step = next(s, events[0]);
            assert(step.0.stage == Stage::Failed && !commits(step.1));
            lemma_failed_stays(step.0, events.drop_first());
            let rest = run(step.0, events.drop_first());
            assert(acts =~= seq![first, step.1] + rest.1);
            assert forall|i: int| 0 <= i < acts.len() implies !commits(#[trigger] acts[i]) by {
                if i >= 2 {
                    assert(acts[i] == rest.1[i - 2]);
                }
            }
        } else {
            assert(acts =~= seq![first]);
        }
    }
}

/// A failed session stays failed and commits nothing more.
proof fn lemma_failed_stays(s: SessionModel, events: Seq<EventModel>)
    requires
        s.stage == Stage::Failed,
    ensures
        forall|i: int| 0 <= i < run(s, events).1.len() ==> !commits(#[trigger] run(s, events).1[i]),
    decreases events.len(),
{
    if events.len() > 0 {
        let step = next(s, events[0]);
        lemma_failed_stays(step.0, events.drop_first());
        let rest = run(step.0, events.drop_first());
        assert forall|i: int| 0 <= i < run(s, events).1.len() implies !commits(#[trigger] run(s, events).1[i]) by {
            if i > 0 {
                assert(run(s, events).1[i] == rest.1[i - 1]);
            }
        }
    }
}

} // verus!
