//! A confidential custodial vault.
//!
//! Deposits of the native currency are pooled in one program-derived vault
//! account, while each participant's claim is kept as an opaque handle to a
//! homomorphically encrypted value held by an external coprocessor.
//! Withdrawals are made either by the owner or by a configured delegate
//! acting on a signed intent.
//!
//! The library holds the protocol: decoding of instructions and records,
//! validation of derived addresses, the coprocessor wire format, checking
//! of signed intents, and the per-operation state machines. The host runs
//! the machines, performing each requested action and handing back its
//! outcome. `laws` states what holds of whole runs.

use vstd::prelude::*;

pub mod error;
pub mod codec;
pub mod instruction;
pub mod intent;
pub mod address;
pub mod coprocessor;
pub mod session;
pub mod vault;
pub mod plaintext;
pub mod laws;
