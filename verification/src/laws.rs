//! The laws of the ledger, proved once and for all over the specification
//! functions of `transitions` and `utils`: failure atomicity, replay
//! rejection, expiry rejection, the underflow guards, conservation of value
//! under transfer and settlement, and what a passing authorization check pins
//! down.

use vstd::prelude::*;
use crate::codec::zero_key;
use crate::errors::ErrorCode;
use crate::messages::{
    spec_deposit_message, spec_freeze_message, spec_settle_message, spec_transfer_message,
    spec_unfreeze_message, spec_withdraw_message,
};
use crate::state::TransferData;
use crate::store::bal_of;
use crate::transitions::{
    spec_deposit, spec_freeze, spec_settle, spec_transfer, spec_unfreeze, spec_withdraw, StateView,
};
use crate::utils::{sha256_of, spec_verify, spec_verify_payload};

verus! {

/// A passing authorization check pins the signer key down: one payload cannot
/// verify against two different keys, so flipping any bit of the declared key
/// makes verification fail.
pub proof fn lemma_verify_pins_key(
    data: Seq<u8>,
    key1: Seq<u8>,
    key2: Seq<u8>,
    msg: Seq<u8>,
    sig: Seq<u8>,
)
    requires
        spec_verify_payload(data, key1, msg, sig) is None,
        spec_verify_payload(data, key2, msg, sig) is None,
    ensures
        key1 == key2,
{
}

/// A passing authorization check pins the signature down: one payload cannot
/// verify against two different signatures, so flipping any bit of the
/// declared signature makes verification fail.
pub proof fn lemma_verify_pins_signature(
    data: Seq<u8>,
    key: Seq<u8>,
    msg: Seq<u8>,
    sig1: Seq<u8>,
    sig2: Seq<u8>,
)
    requires
        spec_verify_payload(data, key, msg, sig1) is None,
        spec_verify_payload(data, key, msg, sig2) is None,
    ensures
        sig1 == sig2,
{
}

/// A passing authorization check pins the message's digest down: one payload
/// cannot verify against two messages with different digests, so flipping any
/// bit of the canonical message makes verification fail unless the flip leaves
/// the SHA-256 digest unchanged.
pub proof fn lemma_verify_pins_message_digest(
    data: Seq<u8>,
    key: Seq<u8>,
    msg1: Seq<u8>,
    msg2: Seq<u8>,
    sig: Seq<u8>,
)
    requires
        spec_verify_payload(data, key, msg1, sig) is None,
        spec_verify_payload(data, key, msg2, sig) is None,
    ensures
        sha256_of(msg1) == sha256_of(msg2),
{
}

/// Deposit's guards. A failing deposit changes nothing; a successful one
/// claims its serial number; a serial already claimed is rejected as
/// `AlreadyExecuted` even when everything else about the request is in order;
/// and a request whose expiry is not in the future is rejected as `Expired`
/// without claiming the serial.
pub proof fn lemma_deposit_guards(
    s: StateView,
    auth: Option<Seq<u8>>,
    sn: Seq<u8>,
    account: Seq<u8>,
    amount: u64,
    frozen: u64,
    expired_at: i64,
    now: i64,
    user: Seq<u8>,
    mint: Seq<u8>,
    user_token: Seq<u8>,
    signature: Seq<u8>,
)
    ensures
        ({
            let r = spec_deposit(
                s,
                auth,
                sn,
                account,
                amount,
                frozen,
                expired_at,
                now,
                user,
                mint,
                user_token,
                signature,
            );
            let msg = spec_deposit_message(
                sn,
                account,
                amount,
                frozen,
                expired_at,
                user,
                mint,
                user_token,
            );
            &&& r.1 is Some ==> r.0 == s
            &&& r.1 is None ==> r.0.executed.contains(sn)
            &&& s.enabled && (amount > 0 || frozen > 0) && now < expired_at && spec_verify(
                auth,
                s.signer,
                msg,
                signature,
            ) is None && s.executed.contains(sn) ==> r.1 == Some(ErrorCode::AlreadyExecuted)
            &&& s.enabled && (amount > 0 || frozen > 0) && now >= expired_at ==> r.1 == Some(
                ErrorCode::Expired,
            ) && !r.0.executed.contains(sn) == !s.executed.contains(sn)
        }),
{
}

/// Withdraw's guards. A failing withdraw changes nothing; a successful one
/// claims its serial number; a claimed serial is rejected as `AlreadyExecuted`
/// whatever the rest of the request says; an expired request is rejected as
/// `Expired` without claiming the serial; and requesting more than either
/// partition holds is rejected with the matching insufficiency error, leaving
/// the balance untouched.
pub proof fn lemma_withdraw_guards(
    s: StateView,
    auth: Option<Seq<u8>>,
    sn: Seq<u8>,
    from: Seq<u8>,
    available: u64,
    frozen: u64,
    expired_at: i64,
    now: i64,
    mint: Seq<u8>,
    signature: Seq<u8>,
)
    ensures
        ({
            let r = spec_withdraw(
                s,
                auth,
                sn,
                from,
                available,
                frozen,
                expired_at,
                now,
                mint,
                signature,
            );
            let msg = spec_withdraw_message(sn, from, available, frozen, expired_at);
            let auth_ok = spec_verify(auth, s.signer, msg, signature) is None;
            let b = bal_of(s.balances, from, mint);
            &&& r.1 is Some ==> r.0 == s
            &&& r.1 is None ==> r.0.executed.contains(sn)
            &&& s.executed.contains(sn) ==> r.1 == Some(ErrorCode::AlreadyExecuted)
            &&& !s.executed.contains(sn) && now >= expired_at ==> r.1 == Some(ErrorCode::Expired)
                && r.0 == s
            &&& !s.executed.contains(sn) && now < expired_at && auth_ok && b.available < available
                ==> r.1 == Some(ErrorCode::InsufficientAvailable) && r.0 == s
            &&& !s.executed.contains(sn) && now < expired_at && auth_ok && b.available >= available
                && b.frozen < frozen ==> r.1 == Some(ErrorCode::InsufficientFrozen) && r.0 == s
        }),
{
}

/// Freeze's guards. A failing freeze changes nothing; a successful one claims
/// its serial number; a claimed serial is rejected as `AlreadyExecuted` when
/// everything else is in order; an expired request is rejected as `Expired`
/// without claiming the serial; and freezing more than the available partition
/// holds is rejected as `InsufficientAvailable`, leaving the balance
/// untouched.
pub proof fn lemma_freeze_guards(
    s: StateView,
    auth: Option<Seq<u8>>,
    sn: Seq<u8>,
    account: Seq<u8>,
    amount: u64,
    expired_at: i64,
    now: i64,
    mint: Seq<u8>,
    signature: Seq<u8>,
)
    ensures
        ({
            let r = spec_freeze(s, auth, sn, account, amount, expired_at, now, mint, signature);
            let msg = spec_freeze_message(sn, account, amount, expired_at);
            let auth_ok = spec_verify(auth, s.signer, msg, signature) is None;
            let b = bal_of(s.balances, account, mint);
            &&& r.1 is Some ==> r.0 == s
            &&& r.1 is None ==> r.0.executed.contains(sn)
            &&& s.enabled && amount > 0 && now < expired_at && auth_ok && s.executed.contains(sn)
                ==> r.1 == Some(ErrorCode::AlreadyExecuted)
            &&& s.enabled && amount > 0 && now >= expired_at ==> r.1 == Some(ErrorCode::Expired)
            &&& s.enabled && amount > 0 && now < expired_at && auth_ok && !s.executed.contains(sn)
                && b.available < amount ==> r.1 == Some(ErrorCode::InsufficientAvailable) && r.0
                == s
        }),
{
}

/// Unfreeze's guards. A failing unfreeze changes nothing; a successful one
/// claims its serial number; a claimed serial is rejected as `AlreadyExecuted`
/// when everything else is in order; an expired request is rejected as
/// `Expired` without claiming the serial; and unfreezing more than the frozen
/// partition holds is rejected as `InsufficientFrozen`, leaving the balance
/// untouched.
pub proof fn lemma_unfreeze_guards(
    s: StateView,
    auth: Option<Seq<u8>>,
    sn: Seq<u8>,
    account: Seq<u8>,
    amount: u64,
    fee: u64,
    expired_at: i64,
    now: i64,
    user: Seq<u8>,
    mint: Seq<u8>,
    signature: Seq<u8>,
)
    ensures
        ({
            let r = spec_unfreeze(
                s,
                auth,
                sn,
                account,
                amount,
                fee,
                expired_at,
                now,
                user,
                mint,
                signature,
            );
            let msg = spec_unfreeze_message(sn, account, amount, fee, expired_at, user, mint);
            let auth_ok = spec_verify(auth, s.signer, msg, signature) is None;
            let b = bal_of(s.balances, account, mint);
            &&& r.1 is Some ==> r.0 == s
            &&& r.1 is None ==> r.0.executed.contains(sn)
            &&& s.enabled && amount > 0 && amount > fee && now < expired_at && auth_ok
                && s.executed.contains(sn) ==> r.1 == Some(ErrorCode::AlreadyExecuted)
            &&& s.enabled && amount > 0 && amount > fee && now >= expired_at ==> r.1 == Some(
                ErrorCode::Expired,
            )
            &&& s.enabled && amount > 0 && amount > fee && now < expired_at && auth_ok
                && !s.executed.contains(sn) && b.frozen < amount ==> r.1 == Some(
                ErrorCode::InsufficientFrozen,
            ) && r.0 == s
        }),
{
}

/// Transfer's guards. A failing transfer changes nothing; a successful one
/// claims its serial number; a claimed serial is rejected as `AlreadyExecuted`
/// whatever the rest of the request says; an expired request is rejected as
/// `Expired` without claiming the serial; and transferring more than the
/// available partition holds is rejected as `InsufficientAvailable`, leaving
/// the balance untouched.
pub proof fn lemma_transfer_guards(
    s: StateView,
    auth: Option<Seq<u8>>,
    sn: Seq<u8>,
    from: Seq<u8>,
    to: Seq<u8>,
    amount: u64,
    fee: u64,
    expired_at: i64,
    now: i64,
    user: Seq<u8>,
    mint: Seq<u8>,
    out_key: Seq<u8>,
    fee_user: Seq<u8>,
    fee_owner: Seq<u8>,
    signature: Seq<u8>,
)
    ensures
        ({
            let r = spec_transfer(
                s,
                auth,
                sn,
                from,
                to,
                amount,
                fee,
                expired_at,
                now,
                user,
                mint,
                out_key,
                fee_user,
                fee_owner,
                signature,
            );
            let msg = spec_transfer_message(
                sn,
                from,
                to,
                amount,
                fee,
                expired_at,
                user,
                mint,
                out_key,
                fee_user,
            );
            let auth_ok = spec_verify(auth, s.signer, msg, signature) is None;
            let b = bal_of(s.balances, from, mint);
            &&& r.1 is Some ==> r.0 == s
            &&& r.1 is None ==> r.0.executed.contains(sn)
            &&& s.executed.contains(sn) ==> r.1 == Some(ErrorCode::AlreadyExecuted)
            &&& !s.executed.contains(sn) && now >= expired_at ==> r.1 == Some(ErrorCode::Expired)
            &&& !s.executed.contains(sn) && now < expired_at && amount > 0 && amount > fee
                && auth_ok && fee_owner == s.fee_to && b.available < amount ==> r.1 == Some(
                ErrorCode::InsufficientAvailable,
            ) && r.0 == s
        }),
{
}

/// Settle's guards. A failing settlement changes nothing; a successful one
/// claims its serial number; a claimed serial is rejected as `AlreadyExecuted`
/// whatever the rest of the request says; an expired request is rejected as
/// `Expired` without claiming the serial; a deal that breaks the deal
/// invariant is rejected as `InvalidParameter`; and a deal debiting more than
/// either partition holds is rejected with the matching insufficiency error,
/// leaving the balance untouched.
pub proof fn lemma_settle_guards(
    s: StateView,
    auth: Option<Seq<u8>>,
    sn: Seq<u8>,
    deal: TransferData,
    expired_at: i64,
    now: i64,
    user: Seq<u8>,
    mint: Seq<u8>,
    out_key: Seq<u8>,
    fee_user: Seq<u8>,
    fee_owner: Seq<u8>,
    signature: Seq<u8>,
)
    ensures
        ({
            let r = spec_settle(
                s,
                auth,
                sn,
                deal,
                expired_at,
                now,
                user,
                mint,
                out_key,
                fee_user,
                fee_owner,
                signature,
            );
            let msg = spec_settle_message(sn, deal, expired_at, user, mint, out_key, fee_user);
            let auth_ok = spec_verify(auth, s.signer, msg, signature) is None;
            let b = bal_of(s.balances, deal.from@, mint);
            &&& r.1 is Some ==> r.0 == s
            &&& r.1 is None ==> r.0.executed.contains(sn)
            &&& s.executed.contains(sn) ==> r.1 == Some(ErrorCode::AlreadyExecuted)
            &&& !s.executed.contains(sn) && now >= expired_at ==> r.1 == Some(ErrorCode::Expired)
            &&& !s.executed.contains(sn) && now < expired_at && !deal.valid() ==> r.1 == Some(
                ErrorCode::InvalidParameter,
            )
            &&& !s.executed.contains(sn) && now < expired_at && deal.valid() && auth_ok
                && fee_owner == s.fee_to && deal.available > 0 && b.available < deal.available
                ==> r.1 == Some(ErrorCode::InsufficientAvailable) && r.0 == s
            &&& !s.executed.contains(sn) && now < expired_at && deal.valid() && auth_ok
                && fee_owner == s.fee_to && (deal.available == 0 || b.available >= deal.available)
                && deal.frozen > 0 && b.frozen < deal.frozen ==> r.1 == Some(
                ErrorCode::InsufficientFrozen,
            ) && r.0 == s
        }),
{
}

/// Conservation under a successful settlement. The payer's two partitions
/// together lose exactly `amount + fee + excess_fee`; and when the payment
/// stays internal (the zero routing key) and payer, recipient and fee entity
/// are three different entities, the recipient's available partition gains
/// exactly `amount`, the fee entity's gains exactly `fee + excess_fee`, and
/// no frozen partition of theirs moves — so the sum over all accounts is
/// conserved.
pub proof fn lemma_settle_conservation(
    s: StateView,
    auth: Option<Seq<u8>>,
    sn: Seq<u8>,
    deal: TransferData,
    expired_at: i64,
    now: i64,
    user: Seq<u8>,
    mint: Seq<u8>,
    out_key: Seq<u8>,
    fee_user: Seq<u8>,
    fee_owner: Seq<u8>,
    signature: Seq<u8>,
)
    requires
        spec_settle(
            s,
            auth,
            sn,
            deal,
            expired_at,
            now,
            user,
            mint,
            out_key,
            fee_user,
            fee_owner,
            signature,
        ).1 is None,
        deal.from@ != deal.to@,
        deal.from@ != s.fee_to_account,
        deal.to@ != s.fee_to_account,
    ensures
        ({
            let s2 = spec_settle(
                s,
                auth,
                sn,
                deal,
                expired_at,
                now,
                user,
                mint,
                out_key,
                fee_user,
                fee_owner,
                signature,
            ).0;
            let b = bal_of(s.balances, deal.from@, mint);
            let b2 = bal_of(s2.balances, deal.from@, mint);
            let t = bal_of(s.balances, deal.to@, mint);
            let t2 = bal_of(s2.balances, deal.to@, mint);
            let f = bal_of(s.balances, s.fee_to_account, mint);
            let f2 = bal_of(s2.balances, s.fee_to_account, mint);
            &&& b.available + b.frozen - b2.available - b2.frozen == deal.amount + deal.fee
                + deal.excess_fee
            &&& out_key == zero_key() ==> t2.available == t.available + deal.amount && t2.frozen
                == t.frozen && f2.available == f.available + deal.fee + deal.excess_fee
                && f2.frozen == f.frozen
        }),
{
}

/// Conservation under a successful simple transfer. The payer's available
/// partition loses exactly `amount` and the frozen one does not move; and when
/// the payment stays internal (the zero routing key) and payer, recipient and
/// fee entity are three different entities, the recipient gains exactly
/// `amount - fee` and the fee entity exactly `fee` — so the sum over all
/// accounts is conserved.
pub proof fn lemma_transfer_conservation(
    s: StateView,
    auth: Option<Seq<u8>>,
    sn: Seq<u8>,
    from: Seq<u8>,
    to: Seq<u8>,
    amount: u64,
    fee: u64,
    expired_at: i64,
    now: i64,
    user: Seq<u8>,
    mint: Seq<u8>,
    out_key: Seq<u8>,
    fee_user: Seq<u8>,
    fee_owner: Seq<u8>,
    signature: Seq<u8>,
)
    requires
        spec_transfer(
            s,
            auth,
            sn,
            from,
            to,
            amount,
            fee,
            expired_at,
            now,
            user,
            mint,
            out_key,
            fee_user,
            fee_owner,
            signature,
        ).1 is None,
        from != to,
        from != s.fee_to_account,
        to != s.fee_to_account,
    ensures
        ({
            let s2 = spec_transfer(
                s,
                auth,
                sn,
                from,
                to,
                amount,
                fee,
                expired_at,
                now,
                user,
                mint,
                out_key,
                fee_user,
                fee_owner,
                signature,
            ).0;
            let b = bal_of(s.balances, from, mint);
            let b2 = bal_of(s2.balances, from, mint);
            let t = bal_of(s.balances, to, mint);
            let t2 = bal_of(s2.balances, to, mint);
            let f = bal_of(s.balances, s.fee_to_account, mint);
            let f2 = bal_of(s2.balances, s.fee_to_account, mint);
            &&& b2.available == b.available - amount
            &&& b2.frozen == b.frozen
            &&& out_key == zero_key() ==> t2.available == t.available + amount - fee && t2.frozen
                == t.frozen && f2.available == f.available + fee && f2.frozen == f.frozen
        }),
{
}

} // verus!
