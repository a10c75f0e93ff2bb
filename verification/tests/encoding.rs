//! The canonical encodings: field order, little-endian widths, and the deal
//! byte layout, checked against hand-assembled expectations.

use payment::codec::i64_to_le_bytes;
use payment::messages::{
    deposit_message, freeze_message, settle_message, transfer_message, unfreeze_message,
    withdraw_message,
};
use payment::state::TransferData;

const SN: [u8; 32] = [1u8; 32];
const ACCOUNT: [u8; 32] = [2u8; 32];
const TO: [u8; 32] = [3u8; 32];
const USER: [u8; 32] = [4u8; 32];
const MINT: [u8; 32] = [5u8; 32];
const USER_TOKEN: [u8; 32] = [6u8; 32];
const OUT: [u8; 32] = [7u8; 32];
const FEE_USER: [u8; 32] = [8u8; 32];

#[test]
fn i64_encoding_is_twos_complement_little_endian() {
    assert_eq!(i64_to_le_bytes(0), 0i64.to_le_bytes().to_vec());
    assert_eq!(i64_to_le_bytes(1), 1i64.to_le_bytes().to_vec());
    assert_eq!(i64_to_le_bytes(-1), vec![0xffu8; 8]);
    assert_eq!(i64_to_le_bytes(-2), (-2i64).to_le_bytes().to_vec());
    assert_eq!(i64_to_le_bytes(i64::MIN), i64::MIN.to_le_bytes().to_vec());
    assert_eq!(i64_to_le_bytes(i64::MAX), i64::MAX.to_le_bytes().to_vec());
    assert_eq!(
        i64_to_le_bytes(1700000000),
        1700000000i64.to_le_bytes().to_vec()
    );
}

#[test]
fn deposit_message_layout() {
    let got = deposit_message(&SN, &ACCOUNT, 100, 20, 77, &USER, &MINT, &USER_TOKEN);
    let mut want = Vec::new();
    want.extend_from_slice(&SN);
    want.extend_from_slice(&ACCOUNT);
    want.extend_from_slice(&100u64.to_le_bytes());
    want.extend_from_slice(&20u64.to_le_bytes());
    want.extend_from_slice(&77i64.to_le_bytes());
    want.extend_from_slice(&USER);
    want.extend_from_slice(&MINT);
    want.extend_from_slice(&USER_TOKEN);
    assert_eq!(got, want);
}

#[test]
fn withdraw_message_layout() {
    let got = withdraw_message(&SN, &ACCOUNT, 80, 20, 77);
    let mut want = Vec::new();
    want.extend_from_slice(&SN);
    want.extend_from_slice(&ACCOUNT);
    want.extend_from_slice(&80u64.to_le_bytes());
    want.extend_from_slice(&20u64.to_le_bytes());
    want.extend_from_slice(&77i64.to_le_bytes());
    assert_eq!(got, want);
}

#[test]
fn freeze_message_layout() {
    let got = freeze_message(&SN, &ACCOUNT, 30, 77);
    let mut want = Vec::new();
    want.extend_from_slice(&SN);
    want.extend_from_slice(&ACCOUNT);
    want.extend_from_slice(&30u64.to_le_bytes());
    want.extend_from_slice(&77i64.to_le_bytes());
    assert_eq!(got, want);
}

#[test]
fn unfreeze_message_layout() {
    let got = unfreeze_message(&SN, &ACCOUNT, 30, 5, 77, &USER, &MINT);
    let mut want = Vec::new();
    want.extend_from_slice(&SN);
    want.extend_from_slice(&ACCOUNT);
    want.extend_from_slice(&30u64.to_le_bytes());
    want.extend_from_slice(&5u64.to_le_bytes());
    want.extend_from_slice(&77i64.to_le_bytes());
    want.extend_from_slice(&USER);
    want.extend_from_slice(&MINT);
    assert_eq!(got, want);
}

#[test]
fn transfer_message_layout() {
    let got = transfer_message(&SN, &ACCOUNT, &TO, 30, 5, 77, &USER, &MINT, &OUT, &FEE_USER);
    let mut want = Vec::new();
    want.extend_from_slice(&SN);
    want.extend_from_slice(&ACCOUNT);
    want.extend_from_slice(&TO);
    want.extend_from_slice(&30u64.to_le_bytes());
    want.extend_from_slice(&5u64.to_le_bytes());
    want.extend_from_slice(&77i64.to_le_bytes());
    want.extend_from_slice(&USER);
    want.extend_from_slice(&MINT);
    want.extend_from_slice(&OUT);
    want.extend_from_slice(&FEE_USER);
    assert_eq!(got, want);
}

#[test]
fn deal_encoding_and_settle_message_layout() {
    let deal = TransferData {
        from: ACCOUNT,
        to: TO,
        available: 1,
        frozen: 2,
        amount: 3,
        fee: 4,
        paid: 5,
        excess_fee: 6,
    };
    let deal_bytes = deal.to_bytes();
    let mut want = Vec::new();
    want.extend_from_slice(&ACCOUNT);
    want.extend_from_slice(&TO);
    want.extend_from_slice(&1u64.to_le_bytes());
    want.extend_from_slice(&2u64.to_le_bytes());
    want.extend_from_slice(&3u64.to_le_bytes());
    want.extend_from_slice(&4u64.to_le_bytes());
    want.extend_from_slice(&5u64.to_le_bytes());
    want.extend_from_slice(&6u64.to_le_bytes());
    assert_eq!(deal_bytes.len(), 112);
    assert_eq!(deal_bytes, want);

    let got = settle_message(&SN, &deal, 77, &USER, &MINT, &OUT, &FEE_USER);
    let mut full = Vec::new();
    full.extend_from_slice(&SN);
    full.extend_from_slice(&want);
    full.extend_from_slice(&77i64.to_le_bytes());
    full.extend_from_slice(&USER);
    full.extend_from_slice(&MINT);
    full.extend_from_slice(&OUT);
    full.extend_from_slice(&FEE_USER);
    assert_eq!(got, full);
}
