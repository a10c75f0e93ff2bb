//! End-to-end scenarios against the engine, with authorization payloads built
//! the way the host's signature facility lays them out.

use payment::engine::{Engine, Payout};
use payment::errors::ErrorCode;
use payment::messages::{
    deposit_message, freeze_message, settle_message, transfer_message, unfreeze_message,
    withdraw_message,
};
use payment::state::{Balance, TransferData};
use sha2::Digest;

const OWNER: [u8; 32] = [11u8; 32];
const MINT: [u8; 32] = [9u8; 32];
const USER: [u8; 32] = [4u8; 32];
const USER_TOKEN: [u8; 32] = [6u8; 32];
const SIG: [u8; 64] = [7u8; 64];
const ZERO: [u8; 32] = [0u8; 32];

fn fee_entity() -> [u8; 32] {
    let mut k = [0u8; 32];
    k[31] = 1;
    k
}

fn payload(signer: &[u8; 32], message: &[u8], signature: &[u8; 64]) -> Vec<u8> {
    let mut data = vec![1u8, 0u8];
    let offsets: [u16; 7] = [16, 0, 80, 0, 112, 32, 0];
    for o in offsets {
        data.extend_from_slice(&o.to_le_bytes());
    }
    data.extend_from_slice(signature);
    data.extend_from_slice(signer);
    let digest = sha2::Sha256::digest(message);
    data.extend_from_slice(&digest);
    data
}

fn sn(n: u8) -> [u8; 32] {
    let mut s = [0u8; 32];
    s[0] = n;
    s
}

fn deposit(engine: &mut Engine, serial: [u8; 32], account: [u8; 32], amount: u64, frozen: u64) {
    let msg = deposit_message(&serial, &account, amount, frozen, 100, &USER, &MINT, &USER_TOKEN);
    let auth = payload(&OWNER, &msg, &SIG);
    let r = engine.deposit(
        serial,
        account,
        amount,
        frozen,
        100,
        SIG,
        USER,
        MINT,
        USER_TOKEN,
        50,
        Some(&auth),
    );
    assert!(r.is_ok());
}

#[test]
fn deposit_then_withdraw() {
    let mut engine = Engine::initialize(OWNER);
    let account = [3u8; 32];
    assert_eq!(
        engine.balance_of(&account, &MINT),
        Balance { available: 0, frozen: 0 }
    );

    let msg = deposit_message(&sn(1), &account, 100, 20, 100, &USER, &MINT, &USER_TOKEN);
    let auth = payload(&OWNER, &msg, &SIG);
    let ev = engine
        .deposit(sn(1), account, 100, 20, 100, SIG, USER, MINT, USER_TOKEN, 50, Some(&auth))
        .unwrap();
    assert_eq!(ev.amount, 100);
    assert_eq!(ev.frozen, 20);
    assert_eq!(ev.account, account);
    assert_eq!(ev.token, MINT);
    assert_eq!(
        engine.balance_of(&account, &MINT),
        Balance { available: 80, frozen: 20 }
    );

    let to = [8u8; 32];
    let msg = withdraw_message(&sn(2), &account, 80, 20, 100);
    let auth = payload(&OWNER, &msg, &SIG);
    let (ev, payout) = engine
        .withdraw(sn(2), account, 80, 20, 100, SIG, to, USER, MINT, 50, Some(&auth))
        .unwrap();
    assert_eq!(ev.available, 80);
    assert_eq!(ev.frozen, 20);
    assert_eq!(payout, Payout { to, amount: 100 });
    assert_eq!(
        engine.balance_of(&account, &MINT),
        Balance { available: 0, frozen: 0 }
    );
}

#[test]
fn freeze_then_unfreeze_with_fee() {
    let mut engine = Engine::initialize(OWNER);
    let account = [3u8; 32];
    deposit(&mut engine, sn(1), account, 50, 0);
    assert_eq!(
        engine.balance_of(&account, &MINT),
        Balance { available: 50, frozen: 0 }
    );

    let msg = freeze_message(&sn(3), &account, 30, 100);
    let auth = payload(&OWNER, &msg, &SIG);
    let ev = engine
        .freeze(sn(3), account, 30, 100, SIG, USER, MINT, 50, Some(&auth))
        .unwrap();
    assert_eq!(ev.amount, 30);
    assert_eq!(
        engine.balance_of(&account, &MINT),
        Balance { available: 20, frozen: 30 }
    );

    let msg = unfreeze_message(&sn(4), &account, 30, 5, 100, &USER, &MINT);
    let auth = payload(&OWNER, &msg, &SIG);
    let ev = engine
        .unfreeze(sn(4), account, 30, 5, 100, SIG, USER, MINT, 50, Some(&auth))
        .unwrap();
    assert_eq!(ev.amount, 30);
    assert_eq!(ev.fee, 5);
    assert_eq!(
        engine.balance_of(&account, &MINT),
        Balance { available: 45, frozen: 0 }
    );
    assert_eq!(
        engine.balance_of(&fee_entity(), &MINT),
        Balance { available: 5, frozen: 0 }
    );
}

#[test]
fn settle_with_excess_paid_rejected() {
    let mut engine = Engine::initialize(OWNER);
    let deal = TransferData {
        from: [3u8; 32],
        to: [5u8; 32],
        available: 0,
        frozen: 40,
        amount: 30,
        fee: 5,
        paid: 40,
        excess_fee: 5,
    };
    deposit(&mut engine, sn(1), deal.from, 40, 40);
    let msg = settle_message(&sn(2), &deal, 100, &USER, &MINT, &ZERO, &OWNER);
    let auth = payload(&OWNER, &msg, &SIG);
    let r = engine.settle(sn(2), deal, 100, SIG, USER, MINT, ZERO, OWNER, OWNER, 50, Some(&auth));
    assert_eq!(r.unwrap_err(), ErrorCode::InvalidParameter);
    // the rejection left the balance untouched and the serial unclaimed
    assert_eq!(
        engine.balance_of(&deal.from, &MINT),
        Balance { available: 0, frozen: 40 }
    );
    assert!(!engine.get_record(&sn(2)).executed);

    // a deal whose sums match but whose paid total cannot cover the frozen
    // debit plus the excess fee is rejected the same way
    let deal = TransferData { fee: 10, ..deal };
    let msg = settle_message(&sn(2), &deal, 100, &USER, &MINT, &ZERO, &OWNER);
    let auth = payload(&OWNER, &msg, &SIG);
    let r = engine.settle(sn(2), deal, 100, SIG, USER, MINT, ZERO, OWNER, OWNER, 50, Some(&auth));
    assert_eq!(r.unwrap_err(), ErrorCode::InvalidParameter);
}

#[test]
fn settle_internal_with_valid_excess() {
    let mut engine = Engine::initialize(OWNER);
    let deal = TransferData {
        from: [3u8; 32],
        to: [5u8; 32],
        available: 0,
        frozen: 35,
        amount: 30,
        fee: 5,
        paid: 40,
        excess_fee: 3,
    };
    deposit(&mut engine, sn(1), deal.from, 40, 40);
    let msg = settle_message(&sn(2), &deal, 100, &USER, &MINT, &ZERO, &OWNER);
    let auth = payload(&OWNER, &msg, &SIG);
    let (ev, payouts) = engine
        .settle(sn(2), deal, 100, SIG, USER, MINT, ZERO, OWNER, OWNER, 50, Some(&auth))
        .unwrap();
    assert_eq!(ev.amount, 30);
    assert_eq!(ev.paid, 40);
    assert_eq!(ev.excess_fee, 3);
    assert!(payouts.is_empty());
    // frozen debit 35, excess 5 unfrozen, 5 - 3 returned to available
    assert_eq!(
        engine.balance_of(&deal.from, &MINT),
        Balance { available: 2, frozen: 0 }
    );
    assert_eq!(
        engine.balance_of(&deal.to, &MINT),
        Balance { available: 30, frozen: 0 }
    );
    assert_eq!(
        engine.balance_of(&fee_entity(), &MINT),
        Balance { available: 8, frozen: 0 }
    );
}

#[test]
fn settle_external_pays_out() {
    let mut engine = Engine::initialize(OWNER);
    let out = [13u8; 32];
    let fee_wallet = [14u8; 32];
    let deal = TransferData {
        from: [3u8; 32],
        to: [5u8; 32],
        available: 35,
        frozen: 0,
        amount: 30,
        fee: 5,
        paid: 0,
        excess_fee: 0,
    };
    deposit(&mut engine, sn(1), deal.from, 35, 0);
    let msg = settle_message(&sn(2), &deal, 100, &USER, &MINT, &out, &fee_wallet);
    let auth = payload(&OWNER, &msg, &SIG);
    let (_, payouts) = engine
        .settle(sn(2), deal, 100, SIG, USER, MINT, out, fee_wallet, OWNER, 50, Some(&auth))
        .unwrap();
    assert_eq!(
        payouts,
        vec![Payout { to: out, amount: 30 }, Payout { to: fee_wallet, amount: 5 }]
    );
    assert_eq!(
        engine.balance_of(&deal.from, &MINT),
        Balance { available: 0, frozen: 0 }
    );
    // nothing was credited internally
    assert_eq!(
        engine.balance_of(&deal.to, &MINT),
        Balance { available: 0, frozen: 0 }
    );
    assert_eq!(
        engine.balance_of(&fee_entity(), &MINT),
        Balance { available: 0, frozen: 0 }
    );
}

#[test]
fn transfer_internal_credits_recipient_and_fee() {
    let mut engine = Engine::initialize(OWNER);
    let from = [3u8; 32];
    let to = [5u8; 32];
    deposit(&mut engine, sn(1), from, 100, 0);
    let msg = transfer_message(&sn(2), &from, &to, 30, 5, 100, &USER, &MINT, &ZERO, &OWNER);
    let auth = payload(&OWNER, &msg, &SIG);
    let (ev, payouts) = engine
        .transfer(sn(2), from, to, 30, 5, 100, SIG, USER, MINT, ZERO, OWNER, OWNER, 50, Some(&auth))
        .unwrap();
    assert_eq!(ev.amount, 30);
    assert_eq!(ev.fee, 5);
    assert!(payouts.is_empty());
    assert_eq!(engine.balance_of(&from, &MINT), Balance { available: 70, frozen: 0 });
    assert_eq!(engine.balance_of(&to, &MINT), Balance { available: 25, frozen: 0 });
    assert_eq!(
        engine.balance_of(&fee_entity(), &MINT),
        Balance { available: 5, frozen: 0 }
    );
}

#[test]
fn transfer_external_pays_out() {
    let mut engine = Engine::initialize(OWNER);
    let from = [3u8; 32];
    let to = [5u8; 32];
    let out = [13u8; 32];
    let fee_wallet = [14u8; 32];
    deposit(&mut engine, sn(1), from, 100, 0);
    let msg = transfer_message(&sn(2), &from, &to, 30, 5, 100, &USER, &MINT, &out, &fee_wallet);
    let auth = payload(&OWNER, &msg, &SIG);
    let (_, payouts) = engine
        .transfer(
            sn(2),
            from,
            to,
            30,
            5,
            100,
            SIG,
            USER,
            MINT,
            out,
            fee_wallet,
            OWNER,
            50,
            Some(&auth),
        )
        .unwrap();
    assert_eq!(
        payouts,
        vec![Payout { to: out, amount: 25 }, Payout { to: fee_wallet, amount: 5 }]
    );
    assert_eq!(engine.balance_of(&from, &MINT), Balance { available: 70, frozen: 0 });
    assert_eq!(engine.balance_of(&to, &MINT), Balance { available: 0, frozen: 0 });
}

#[test]
fn transfer_wrong_fee_owner_rejected() {
    let mut engine = Engine::initialize(OWNER);
    let from = [3u8; 32];
    let to = [5u8; 32];
    deposit(&mut engine, sn(1), from, 100, 0);
    let msg = transfer_message(&sn(2), &from, &to, 30, 5, 100, &USER, &MINT, &ZERO, &OWNER);
    let auth = payload(&OWNER, &msg, &SIG);
    let wrong_owner = [15u8; 32];
    let r = engine.transfer(
        sn(2),
        from,
        to,
        30,
        5,
        100,
        SIG,
        USER,
        MINT,
        ZERO,
        OWNER,
        wrong_owner,
        50,
        Some(&auth),
    );
    assert_eq!(r.unwrap_err(), ErrorCode::InvalidFeeUser);
    assert_eq!(engine.balance_of(&from, &MINT), Balance { available: 100, frozen: 0 });
}

#[test]
fn replay_same_serial_rejected() {
    let mut engine = Engine::initialize(OWNER);
    let account = [3u8; 32];
    deposit(&mut engine, sn(1), account, 100, 0);
    assert!(engine.get_record(&sn(1)).executed);

    // the same serial with a different amount, everything else in order
    let msg = deposit_message(&sn(1), &account, 7, 0, 100, &USER, &MINT, &USER_TOKEN);
    let auth = payload(&OWNER, &msg, &SIG);
    let r = engine.deposit(sn(1), account, 7, 0, 100, SIG, USER, MINT, USER_TOKEN, 50, Some(&auth));
    assert_eq!(r.unwrap_err(), ErrorCode::AlreadyExecuted);
    assert_eq!(engine.balance_of(&account, &MINT), Balance { available: 100, frozen: 0 });

    // replay protection is identity-based: another operation kind under the
    // same serial is rejected before anything else is looked at
    let r = engine.withdraw(sn(1), account, 1, 0, 100, SIG, [8u8; 32], USER, MINT, 50, None);
    assert_eq!(r.unwrap_err(), ErrorCode::AlreadyExecuted);
    assert_eq!(engine.balance_of(&account, &MINT), Balance { available: 100, frozen: 0 });
}

#[test]
fn expired_call_does_not_claim_serial() {
    let mut engine = Engine::initialize(OWNER);
    let account = [3u8; 32];
    deposit(&mut engine, sn(1), account, 50, 0);

    let msg = freeze_message(&sn(2), &account, 30, 100);
    let auth = payload(&OWNER, &msg, &SIG);
    // now == expired_at is already expired
    let r = engine.freeze(sn(2), account, 30, 100, SIG, USER, MINT, 100, Some(&auth));
    assert_eq!(r.unwrap_err(), ErrorCode::Expired);
    assert!(!engine.get_record(&sn(2)).executed);
    assert_eq!(engine.balance_of(&account, &MINT), Balance { available: 50, frozen: 0 });

    // the serial is still usable once the request is submitted in time
    let r = engine.freeze(sn(2), account, 30, 100, SIG, USER, MINT, 99, Some(&auth));
    assert!(r.is_ok());
    assert_eq!(engine.balance_of(&account, &MINT), Balance { available: 20, frozen: 30 });
}

#[test]
fn underflow_guards_leave_balances_untouched() {
    let mut engine = Engine::initialize(OWNER);
    let account = [3u8; 32];
    deposit(&mut engine, sn(1), account, 50, 10);
    let before = engine.balance_of(&account, &MINT);
    assert_eq!(before, Balance { available: 40, frozen: 10 });

    // withdraw more than available
    let msg = withdraw_message(&sn(2), &account, 41, 0, 100);
    let auth = payload(&OWNER, &msg, &SIG);
    let r = engine.withdraw(sn(2), account, 41, 0, 100, SIG, [8u8; 32], USER, MINT, 50, Some(&auth));
    assert_eq!(r.unwrap_err(), ErrorCode::InsufficientAvailable);
    assert_eq!(engine.balance_of(&account, &MINT), before);
    assert!(!engine.get_record(&sn(2)).executed);

    // withdraw more than frozen
    let msg = withdraw_message(&sn(2), &account, 0, 11, 100);
    let auth = payload(&OWNER, &msg, &SIG);
    let r = engine.withdraw(sn(2), account, 0, 11, 100, SIG, [8u8; 32], USER, MINT, 50, Some(&auth));
    assert_eq!(r.unwrap_err(), ErrorCode::InsufficientFrozen);
    assert_eq!(engine.balance_of(&account, &MINT), before);

    // freeze more than available
    let msg = freeze_message(&sn(2), &account, 41, 100);
    let auth = payload(&OWNER, &msg, &SIG);
    let r = engine.freeze(sn(2), account, 41, 100, SIG, USER, MINT, 50, Some(&auth));
    assert_eq!(r.unwrap_err(), ErrorCode::InsufficientAvailable);
    assert_eq!(engine.balance_of(&account, &MINT), before);

    // unfreeze more than frozen
    let msg = unfreeze_message(&sn(2), &account, 11, 0, 100, &USER, &MINT);
    let auth = payload(&OWNER, &msg, &SIG);
    let r = engine.unfreeze(sn(2), account, 11, 0, 100, SIG, USER, MINT, 50, Some(&auth));
    assert_eq!(r.unwrap_err(), ErrorCode::InsufficientFrozen);
    assert_eq!(engine.balance_of(&account, &MINT), before);

    // transfer more than available
    let to = [5u8; 32];
    let msg = transfer_message(&sn(2), &account, &to, 41, 0, 100, &USER, &MINT, &ZERO, &OWNER);
    let auth = payload(&OWNER, &msg, &SIG);
    let r = engine.transfer(
        sn(2),
        account,
        to,
        41,
        0,
        100,
        SIG,
        USER,
        MINT,
        ZERO,
        OWNER,
        OWNER,
        50,
        Some(&auth),
    );
    assert_eq!(r.unwrap_err(), ErrorCode::InsufficientAvailable);
    assert_eq!(engine.balance_of(&account, &MINT), before);
}

#[test]
fn zero_amount_and_fee_overrun_rejected() {
    let mut engine = Engine::initialize(OWNER);
    let account = [3u8; 32];
    let r = engine.deposit(sn(1), account, 0, 0, 100, SIG, USER, MINT, USER_TOKEN, 50, None);
    assert_eq!(r.unwrap_err(), ErrorCode::ZeroAmount);
    let r = engine.freeze(sn(1), account, 0, 100, SIG, USER, MINT, 50, None);
    assert_eq!(r.unwrap_err(), ErrorCode::ZeroAmount);
    let r = engine.unfreeze(sn(1), account, 0, 0, 100, SIG, USER, MINT, 50, None);
    assert_eq!(r.unwrap_err(), ErrorCode::ZeroAmount);
    // the unfreeze fee must stay below the unfrozen amount
    let r = engine.unfreeze(sn(1), account, 5, 5, 100, SIG, USER, MINT, 50, None);
    assert_eq!(r.unwrap_err(), ErrorCode::FeeOverrun);
    let to = [5u8; 32];
    let r = engine.transfer(
        sn(1),
        account,
        to,
        0,
        0,
        100,
        SIG,
        USER,
        MINT,
        ZERO,
        OWNER,
        OWNER,
        50,
        None,
    );
    assert_eq!(r.unwrap_err(), ErrorCode::ZeroAmount);
    // a transfer whose fee swallows the whole amount is malformed
    let r = engine.transfer(
        sn(1),
        account,
        to,
        5,
        5,
        100,
        SIG,
        USER,
        MINT,
        ZERO,
        OWNER,
        OWNER,
        50,
        None,
    );
    assert_eq!(r.unwrap_err(), ErrorCode::InvalidParameter);
}

#[test]
fn disabled_ledger_rejects_operations() {
    let mut engine = Engine::initialize(OWNER);
    engine.state.enabled = false;
    let account = [3u8; 32];
    let r = engine.deposit(sn(1), account, 10, 0, 100, SIG, USER, MINT, USER_TOKEN, 50, None);
    assert_eq!(r.unwrap_err(), ErrorCode::Disabled);
    let r = engine.freeze(sn(1), account, 10, 100, SIG, USER, MINT, 50, None);
    assert_eq!(r.unwrap_err(), ErrorCode::Disabled);
    let r = engine.unfreeze(sn(1), account, 10, 0, 100, SIG, USER, MINT, 50, None);
    assert_eq!(r.unwrap_err(), ErrorCode::Disabled);
}

#[test]
fn deposit_overflow_rejected() {
    let mut engine = Engine::initialize(OWNER);
    let account = [3u8; 32];
    deposit(&mut engine, sn(1), account, u64::MAX, 0);
    let msg = deposit_message(&sn(2), &account, 1, 0, 100, &USER, &MINT, &USER_TOKEN);
    let auth = payload(&OWNER, &msg, &SIG);
    let r = engine.deposit(sn(2), account, 1, 0, 100, SIG, USER, MINT, USER_TOKEN, 50, Some(&auth));
    assert_eq!(r.unwrap_err(), ErrorCode::InvalidAmount);
    assert_eq!(
        engine.balance_of(&account, &MINT),
        Balance { available: u64::MAX, frozen: 0 }
    );
    assert!(!engine.get_record(&sn(2)).executed);
}

#[test]
fn deposit_freezing_more_than_credited_rejected() {
    let mut engine = Engine::initialize(OWNER);
    let account = [3u8; 32];
    let msg = deposit_message(&sn(1), &account, 10, 20, 100, &USER, &MINT, &USER_TOKEN);
    let auth = payload(&OWNER, &msg, &SIG);
    let r = engine.deposit(sn(1), account, 10, 20, 100, SIG, USER, MINT, USER_TOKEN, 50, Some(&auth));
    assert_eq!(r.unwrap_err(), ErrorCode::InsufficientAvailable);
    assert_eq!(engine.balance_of(&account, &MINT), Balance { available: 0, frozen: 0 });
}

#[test]
fn program_token_setup_is_owner_only() {
    let engine = Engine::initialize(OWNER);
    assert!(engine.initialize_program_token(&OWNER).is_ok());
    assert_eq!(
        engine.initialize_program_token(&[2u8; 32]).unwrap_err(),
        ErrorCode::Unauthorized
    );
}

#[test]
fn admin_rotations() {
    let mut engine = Engine::initialize(OWNER);
    let outsider = [2u8; 32];
    assert_eq!(
        engine.change_owner(&outsider, outsider).unwrap_err(),
        ErrorCode::Unauthorized
    );
    let new_owner = [12u8; 32];
    engine.change_owner(&OWNER, new_owner).unwrap();
    assert_eq!(engine.state.owner, new_owner);
    // the old owner lost its rights
    assert_eq!(
        engine.change_owner(&OWNER, OWNER).unwrap_err(),
        ErrorCode::Unauthorized
    );
    // the signer may rotate itself
    let new_signer = [13u8; 32];
    engine.change_signer(&OWNER, new_signer).unwrap();
    assert_eq!(engine.state.signer, new_signer);
    // the fee wallet may rotate itself; OWNER is still the configured fee_to
    let new_fee = [14u8; 32];
    engine.change_fee_to(&OWNER, new_fee).unwrap();
    assert_eq!(engine.state.fee_to, new_fee);
    assert_eq!(
        engine.change_fee_to(&OWNER, OWNER).unwrap_err(),
        ErrorCode::Unauthorized
    );
}
