//! The canonical messages that the authority signs: for each operation a fixed
//! field order, every integer little-endian and fixed-width, concatenated with
//! no delimiters. Field order and widths are part of the external protocol and
//! are reproduced bit for bit on the verifying side.

use vstd::prelude::*;
use vstd::bytes::{spec_u64_to_le_bytes, u64_to_le_bytes};
use crate::codec::{spec_i64_to_le_bytes, i64_to_le_bytes, push_bytes};
use crate::state::TransferData;

verus! {

/// `serial(32) || entity(32) || amount(8) || frozen(8) || expiredAt(8) ||
/// callerKey(32) || assetKey(32) || callerAssetAccountKey(32)`.
pub open spec fn spec_deposit_message(
    sn: Seq<u8>,
    account: Seq<u8>,
    amount: u64,
    frozen: u64,
    expired_at: i64,
    user: Seq<u8>,
    mint: Seq<u8>,
    user_token: Seq<u8>,
) -> Seq<u8> {
    sn + account + spec_u64_to_le_bytes(amount) + spec_u64_to_le_bytes(frozen)
        + spec_i64_to_le_bytes(expired_at) + user + mint + user_token
}

/// Builds the canonical deposit message.
pub fn deposit_message(
    sn: &[u8; 32],
    account: &[u8; 32],
    amount: u64,
    frozen: u64,
    expired_at: i64,
    user: &[u8; 32],
    mint: &[u8; 32],
    user_token: &[u8; 32],
) -> (r: Vec<u8>)
    ensures
        r@ == spec_deposit_message(sn@, account@, amount, frozen, expired_at, user@, mint@, user_token@),
{
    let mut out: Vec<u8> = Vec::new();
    push_bytes(&mut out, sn.as_slice());
    push_bytes(&mut out, account.as_slice());
    let amount_bytes = u64_to_le_bytes(amount);
    push_bytes(&mut out, amount_bytes.as_slice());
    let frozen_bytes = u64_to_le_bytes(frozen);
    push_bytes(&mut out, frozen_bytes.as_slice());
    let expiry_bytes = i64_to_le_bytes(expired_at);
    push_bytes(&mut out, expiry_bytes.as_slice());
    push_bytes(&mut out, user.as_slice());
    push_bytes(&mut out, mint.as_slice());
    push_bytes(&mut out, user_token.as_slice());
    out
}

/// `serial(32) || entity(32) || available(8) || frozen(8) || expiredAt(8)`.
pub open spec fn spec_withdraw_message(
    sn: Seq<u8>,
    from: Seq<u8>,
    available: u64,
    frozen: u64,
    expired_at: i64,
) -> Seq<u8> {
    sn + from + spec_u64_to_le_bytes(available) + spec_u64_to_le_bytes(frozen)
        + spec_i64_to_le_bytes(expired_at)
}

/// Builds the canonical withdraw message.
pub fn withdraw_message(
    sn: &[u8; 32],
    from: &[u8; 32],
    available: u64,
    frozen: u64,
    expired_at: i64,
) -> (r: Vec<u8>)
    ensures
        r@ == spec_withdraw_message(sn@, from@, available, frozen, expired_at),
{
    let mut out: Vec<u8> = Vec::new();
    push_bytes(&mut out, sn.as_slice());
    push_bytes(&mut out, from.as_slice());
    let available_bytes = u64_to_le_bytes(available);
    push_bytes(&mut out, available_bytes.as_slice());
    let frozen_bytes = u64_to_le_bytes(frozen);
    push_bytes(&mut out, frozen_bytes.as_slice());
    let expiry_bytes = i64_to_le_bytes(expired_at);
    push_bytes(&mut out, expiry_bytes.as_slice());
    out
}

/// `serial(32) || entity(32) || amount(8) || expiredAt(8)`.
pub open spec fn spec_freeze_message(
    sn: Seq<u8>,
    account: Seq<u8>,
    amount: u64,
    expired_at: i64,
) -> Seq<u8> {
    sn + account + spec_u64_to_le_bytes(amount) + spec_i64_to_le_bytes(expired_at)
}

/// Builds the canonical freeze message.
pub fn freeze_message(sn: &[u8; 32], account: &[u8; 32], amount: u64, expired_at: i64) -> (r: Vec<
    u8,
>)
    ensures
        r@ == spec_freeze_message(sn@, account@, amount, expired_at),
{
    let mut out: Vec<u8> = Vec::new();
    push_bytes(&mut out, sn.as_slice());
    push_bytes(&mut out, account.as_slice());
    let amount_bytes = u64_to_le_bytes(amount);
    push_bytes(&mut out, amount_bytes.as_slice());
    let expiry_bytes = i64_to_le_bytes(expired_at);
    push_bytes(&mut out, expiry_bytes.as_slice());
    out
}

/// `serial(32) || entity(32) || amount(8) || fee(8) || expiredAt(8) ||
/// callerKey(32) || assetKey(32)`.
pub open spec fn spec_unfreeze_message(
    sn: Seq<u8>,
    account: Seq<u8>,
    amount: u64,
    fee: u64,
    expired_at: i64,
    user: Seq<u8>,
    mint: Seq<u8>,
) -> Seq<u8> {
    sn + account + spec_u64_to_le_bytes(amount) + spec_u64_to_le_bytes(fee)
        + spec_i64_to_le_bytes(expired_at) + user + mint
}

/// Builds the canonical unfreeze message.
pub fn unfreeze_message(
    sn: &[u8; 32],
    account: &[u8; 32],
    amount: u64,
    fee: u64,
    expired_at: i64,
    user: &[u8; 32],
    mint: &[u8; 32],
) -> (r: Vec<u8>)
    ensures
        r@ == spec_unfreeze_message(sn@, account@, amount, fee, expired_at, user@, mint@),
{
    let mut out: Vec<u8> = Vec::new();
    push_bytes(&mut out, sn.as_slice());
    push_bytes(&mut out, account.as_slice());
    let amount_bytes = u64_to_le_bytes(amount);
    push_bytes(&mut out, amount_bytes.as_slice());
    let fee_bytes = u64_to_le_bytes(fee);
    push_bytes(&mut out, fee_bytes.as_slice());
    let expiry_bytes = i64_to_le_bytes(expired_at);
    push_bytes(&mut out, expiry_bytes.as_slice());
    push_bytes(&mut out, user.as_slice());
    push_bytes(&mut out, mint.as_slice());
    out
}

/// `serial(32) || from(32) || to(32) || amount(8) || fee(8) || expiredAt(8) ||
/// callerKey(32) || assetKey(32) || outKey(32) || feeRecipientKey(32)`.
pub open spec fn spec_transfer_message(
    sn: Seq<u8>,
    from: Seq<u8>,
    to: Seq<u8>,
    amount: u64,
    fee: u64,
    expired_at: i64,
    user: Seq<u8>,
    mint: Seq<u8>,
    out_key: Seq<u8>,
    fee_user: Seq<u8>,
) -> Seq<u8> {
    sn + from + to + spec_u64_to_le_bytes(amount) + spec_u64_to_le_bytes(fee)
        + spec_i64_to_le_bytes(expired_at) + user + mint + out_key + fee_user
}

/// Builds the canonical message of a simple transfer.
pub fn transfer_message(
    sn: &[u8; 32],
    from: &[u8; 32],
    to: &[u8; 32],
    amount: u64,
    fee: u64,
    expired_at: i64,
    user: &[u8; 32],
    mint: &[u8; 32],
    out_key: &[u8; 32],
    fee_user: &[u8; 32],
) -> (r: Vec<u8>)
    ensures
        r@ == spec_transfer_message(
            sn@,
            from@,
            to@,
            amount,
            fee,
            expired_at,
            user@,
            mint@,
            out_key@,
            fee_user@,
        ),
{
    let mut out: Vec<u8> = Vec::new();
    push_bytes(&mut out, sn.as_slice());
    push_bytes(&mut out, from.as_slice());
    push_bytes(&mut out, to.as_slice());
    let amount_bytes = u64_to_le_bytes(amount);
    push_bytes(&mut out, amount_bytes.as_slice());
    let fee_bytes = u64_to_le_bytes(fee);
    push_bytes(&mut out, fee_bytes.as_slice());
    let expiry_bytes = i64_to_le_bytes(expired_at);
    push_bytes(&mut out, expiry_bytes.as_slice());
    push_bytes(&mut out, user.as_slice());
    push_bytes(&mut out, mint.as_slice());
    push_bytes(&mut out, out_key.as_slice());
    push_bytes(&mut out, fee_user.as_slice());
    out
}

/// `serial(32) || deal(112) || expiredAt(8) || callerKey(32) || assetKey(32) ||
/// outKey(32) || feeRecipientKey(32)`.
pub open spec fn spec_settle_message(
    sn: Seq<u8>,
    deal: TransferData,
    expired_at: i64,
    user: Seq<u8>,
    mint: Seq<u8>,
    out_key: Seq<u8>,
    fee_user: Seq<u8>,
) -> Seq<u8> {
    sn + deal.spec_to_bytes() + spec_i64_to_le_bytes(expired_at) + user + mint + out_key + fee_user
}

/// Builds the canonical message of a deal-based settlement.
pub fn settle_message(
    sn: &[u8; 32],
    deal: &TransferData,
    expired_at: i64,
    user: &[u8; 32],
    mint: &[u8; 32],
    out_key: &[u8; 32],
    fee_user: &[u8; 32],
) -> (r: Vec<u8>)
    ensures
        r@ == spec_settle_message(sn@, *deal, expired_at, user@, mint@, out_key@, fee_user@),
{
    let mut out: Vec<u8> = Vec::new();
    push_bytes(&mut out, sn.as_slice());
    let deal_bytes = deal.to_bytes();
    push_bytes(&mut out, deal_bytes.as_slice());
    let expiry_bytes = i64_to_le_bytes(expired_at);
    push_bytes(&mut out, expiry_bytes.as_slice());
    push_bytes(&mut out, user.as_slice());
    push_bytes(&mut out, mint.as_slice());
    push_bytes(&mut out, out_key.as_slice());
    push_bytes(&mut out, fee_user.as_slice());
    out
}

} // verus!
