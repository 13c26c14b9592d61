use anonymaus_executor::error::ErrorCode;
use anonymaus_executor::plaintext::{deposit, execute_with_intent, withdraw, UserDeposit, PLAIN_DEPOSIT_LEN};

#[test]
fn plain_record_layout() {
    let rec = UserDeposit { user: [4u8; 32], balance: 0x0a0b };
    let bytes = rec.pack();
    assert_eq!(bytes.len(), PLAIN_DEPOSIT_LEN);
    assert_eq!(bytes[32], 0x0b);
    assert_eq!(bytes[33], 0x0a);
    assert_eq!(UserDeposit::unpack_from_slice(&bytes), Some(rec));
    assert_eq!(UserDeposit::unpack_from_slice(&bytes[..39]), None);
}

#[test]
fn plain_deposit_adds_and_sets_owner() {
    let mut rec = UserDeposit { user: [0u8; 32], balance: 0 };
    assert_eq!(deposit(&mut rec, &[2u8; 32], 1000), Ok(()));
    assert_eq!(deposit(&mut rec, &[2u8; 32], 500), Ok(()));
    assert_eq!(rec, UserDeposit { user: [2u8; 32], balance: 1500 });
}

#[test]
fn plain_deposit_refuses_zero_and_overflow() {
    let mut rec = UserDeposit { user: [2u8; 32], balance: u64::MAX - 1 };
    assert_eq!(deposit(&mut rec, &[2u8; 32], 0), Err(ErrorCode::InvalidAmount));
    assert_eq!(deposit(&mut rec, &[2u8; 32], 2), Err(ErrorCode::ArithmeticOverflow));
    assert_eq!(rec.balance, u64::MAX - 1);
    assert_eq!(deposit(&mut rec, &[2u8; 32], 1), Ok(()));
    assert_eq!(rec.balance, u64::MAX);
}

#[test]
fn plain_withdraw_checks_owner_and_funds() {
    let mut rec = UserDeposit { user: [2u8; 32], balance: 1000 };
    assert_eq!(withdraw(&mut rec, &[3u8; 32], 10), Err(ErrorCode::UnauthorizedUser));
    assert_eq!(withdraw(&mut rec, &[2u8; 32], 1001), Err(ErrorCode::InsufficientFunds));
    assert_eq!(rec.balance, 1000);
    assert_eq!(withdraw(&mut rec, &[2u8; 32], 400), Ok(()));
    assert_eq!(rec.balance, 600);
    assert_eq!(withdraw(&mut rec, &[2u8; 32], 600), Ok(()));
    assert_eq!(rec.balance, 0);
}

#[test]
fn plain_intent_needs_signature() {
    let mut rec = UserDeposit { user: [2u8; 32], balance: 600 };
    assert_eq!(execute_with_intent(&mut rec, &[2u8; 32], &[], 100), Err(ErrorCode::InvalidSignature));
    assert_eq!(execute_with_intent(&mut rec, &[5u8; 32], &[1; 64], 100), Err(ErrorCode::UnauthorizedUser));
    assert_eq!(execute_with_intent(&mut rec, &[2u8; 32], &[1; 64], 601), Err(ErrorCode::InsufficientFunds));
    assert_eq!(execute_with_intent(&mut rec, &[2u8; 32], &[1; 64], 600), Ok(()));
    assert_eq!(rec.balance, 0);
    assert_eq!(execute_with_intent(&mut rec, &[2u8; 32], &[1; 64], 1), Err(ErrorCode::InsufficientFunds));
}
