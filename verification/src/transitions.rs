//! The mathematical model of the ledger. `StateView` is the abstract state;
//! for each operation a specification function maps the state and the request
//! to the next state and, on failure, the error. Every failing request leaves
//! the state exactly as it was, and a successful one claims the serial number
//! and moves balances as the operation's table entry says.

use vstd::prelude::*;
use crate::codec::zero_key;
use crate::errors::ErrorCode;
use crate::messages::{
    spec_deposit_message, spec_freeze_message, spec_settle_message, spec_transfer_message,
    spec_unfreeze_message, spec_withdraw_message,
};
use crate::state::{Balance, TransferData};
use crate::store::bal_of;
use crate::utils::spec_verify;

verus! {

/// The abstract state of the ledger: the configuration, the balances written
/// so far (an absent account reads as zero), and the claimed serial numbers.
pub struct StateView {
    pub owner: Seq<u8>,
    pub enabled: bool,
    pub signer: Seq<u8>,
    pub fee_to: Seq<u8>,
    pub fee_to_account: Seq<u8>,
    pub balances: Map<(Seq<u8>, Seq<u8>), Balance>,
    pub executed: Set<Seq<u8>>,
}

/// The entity that collects internally credited fees, as configured at
/// initialization.
pub open spec fn fee_entity_key() -> Seq<u8> {
    Seq::<u8>::new(32, |i: int| if i == 31 { 1u8 } else { 0u8 })
}

/// The state a fresh ledger starts in: enabled, with the initializing key as
/// owner, signer and fee wallet, and nothing written.
pub open spec fn initial_state(owner: Seq<u8>) -> StateView {
    StateView {
        owner: owner,
        enabled: true,
        signer: owner,
        fee_to: owner,
        fee_to_account: fee_entity_key(),
        balances: Map::empty(),
        executed: Set::empty(),
    }
}

/// What a deposit does: credit `amount` to the account's available partition
/// and move `frozen` of it into the frozen partition, after the enablement,
/// non-zero, expiry, authorization and replay checks, in that order.
pub open spec fn spec_deposit(
    s: StateView,
    auth: Option<Seq<u8>>,
    sn: Seq<u8>,
    account: Seq<u8>,
    amount: u64,
    frozen: u64,
    expired_at: i64,
    now: i64,
    user: Seq<u8>,
    mint: Seq<u8>,
    user_token: Seq<u8>,
    signature: Seq<u8>,
) -> (StateView, Option<ErrorCode>) {
    if !s.enabled {
        (s, Some(ErrorCode::Disabled))
    } else if amount == 0 && frozen == 0 {
        (s, Some(ErrorCode::ZeroAmount))
    } else if now >= expired_at {
        (s, Some(ErrorCode::Expired))
    } else {
        let msg = spec_deposit_message(sn, account, amount, frozen, expired_at, user, mint, user_token);
        match spec_verify(auth, s.signer, msg, signature) {
            Some(e) => (s, Some(e)),
            None => {
                if s.executed.contains(sn) {
                    (s, Some(ErrorCode::AlreadyExecuted))
                } else {
                    let b = bal_of(s.balances, account, mint);
                    if b.available + amount > u64::MAX {
                        (s, Some(ErrorCode::InvalidAmount))
                    } else if b.available + amount < frozen {
                        (s, Some(ErrorCode::InsufficientAvailable))
                    } else if b.frozen + frozen > u64::MAX {
                        (s, Some(ErrorCode::InvalidAmount))
                    } else {
                        let nb = Balance {
                            available: (b.available + amount - frozen) as u64,
                            frozen: (b.frozen + frozen) as u64,
                        };
                        (
                            StateView {
                                balances: s.balances.insert((account, mint), nb),
                                executed: s.executed.insert(sn),
                                ..s
                            },
                            None,
                        )
                    }
                }
            },
        }
    }
}

/// What a withdraw does: debit both partitions by the requested amounts, after
/// the replay, expiry and authorization checks, in that order; the sum of the
/// two debits leaves custody externally.
pub open spec fn spec_withdraw(
    s: StateView,
    auth: Option<Seq<u8>>,
    sn: Seq<u8>,
    from: Seq<u8>,
    available: u64,
    frozen: u64,
    expired_at: i64,
    now: i64,
    mint: Seq<u8>,
    signature: Seq<u8>,
) -> (StateView, Option<ErrorCode>) {
    if s.executed.contains(sn) {
        (s, Some(ErrorCode::AlreadyExecuted))
    } else if now >= expired_at {
        (s, Some(ErrorCode::Expired))
    } else {
        let msg = spec_withdraw_message(sn, from, available, frozen, expired_at);
        match spec_verify(auth, s.signer, msg, signature) {
            Some(e) => (s, Some(e)),
            None => {
                let b = bal_of(s.balances, from, mint);
                if b.available < available {
                    (s, Some(ErrorCode::InsufficientAvailable))
                } else if b.frozen < frozen {
                    (s, Some(ErrorCode::InsufficientFrozen))
                } else if available + frozen > u64::MAX {
                    (s, Some(ErrorCode::InvalidAmount))
                } else {
                    let nb = Balance {
                        available: (b.available - available) as u64,
                        frozen: (b.frozen - frozen) as u64,
                    };
                    (
                        StateView {
                            balances: s.balances.insert((from, mint), nb),
                            executed: s.executed.insert(sn),
                            ..s
                        },
                        None,
                    )
                }
            },
        }
    }
}

/// What a freeze does: move `amount` from the available partition to the
/// frozen one, after the enablement, non-zero, expiry, authorization and
/// replay checks, in that order.
pub open spec fn spec_freeze(
    s: StateView,
    auth: Option<Seq<u8>>,
    sn: Seq<u8>,
    account: Seq<u8>,
    amount: u64,
    expired_at: i64,
    now: i64,
    mint: Seq<u8>,
    signature: Seq<u8>,
) -> (StateView, Option<ErrorCode>) {
    if !s.enabled {
        (s, Some(ErrorCode::Disabled))
    } else if amount == 0 {
        (s, Some(ErrorCode::ZeroAmount))
    } else if now >= expired_at {
        (s, Some(ErrorCode::Expired))
    } else {
        let msg = spec_freeze_message(sn, account, amount, expired_at);
        match spec_verify(auth, s.signer, msg, signature) {
            Some(e) => (s, Some(e)),
            None => {
                if s.executed.contains(sn) {
                    (s, Some(ErrorCode::AlreadyExecuted))
                } else {
                    let b = bal_of(s.balances, account, mint);
                    if b.available < amount {
                        (s, Some(ErrorCode::InsufficientAvailable))
                    } else if b.frozen + amount > u64::MAX {
                        (s, Some(ErrorCode::InvalidAmount))
                    } else {
                        let nb = Balance {
                            available: (b.available - amount) as u64,
                            frozen: (b.frozen + amount) as u64,
                        };
                        (
                            StateView {
                                balances: s.balances.insert((account, mint), nb),
                                executed: s.executed.insert(sn),
                                ..s
                            },
                            None,
                        )
                    }
                }
            },
        }
    }
}

/// What an unfreeze does: move `amount` out of the frozen partition, return
/// `amount - fee` to the available one, and credit `fee` to the fee entity's
/// available partition, after the enablement, non-zero, fee-bound, expiry,
/// authorization and replay checks, in that order.
pub open spec fn spec_unfreeze(
    s: StateView,
    auth: Option<Seq<u8>>,
    sn: Seq<u8>,
    account: Seq<u8>,
    amount: u64,
    fee: u64,
    expired_at: i64,
    now: i64,
    user: Seq<u8>,
    mint: Seq<u8>,
    signature: Seq<u8>,
) -> (StateView, Option<ErrorCode>) {
    if !s.enabled {
        (s, Some(ErrorCode::Disabled))
    } else if amount == 0 {
        (s, Some(ErrorCode::ZeroAmount))
    } else if amount <= fee {
        (s, Some(ErrorCode::FeeOverrun))
    } else if now >= expired_at {
        (s, Some(ErrorCode::Expired))
    } else {
        let msg = spec_unfreeze_message(sn, account, amount, fee, expired_at, user, mint);
        match spec_verify(auth, s.signer, msg, signature) {
            Some(e) => (s, Some(e)),
            None => {
                if s.executed.contains(sn) {
                    (s, Some(ErrorCode::AlreadyExecuted))
                } else {
                    let b = bal_of(s.balances, account, mint);
                    if b.frozen < amount {
                        (s, Some(ErrorCode::InsufficientFrozen))
                    } else if b.available + amount - fee > u64::MAX {
                        (s, Some(ErrorCode::InvalidAmount))
                    } else {
                        let nb = Balance {
                            available: (b.available + amount - fee) as u64,
                            frozen: (b.frozen - amount) as u64,
                        };
                        let m1 = s.balances.insert((account, mint), nb);
                        if fee == 0 {
                            (
                                StateView { balances: m1, executed: s.executed.insert(sn), ..s },
                                None,
                            )
                        } else {
                            let fb = bal_of(m1, s.fee_to_account, mint);
                            if fb.available + fee > u64::MAX {
                                (s, Some(ErrorCode::InvalidAmount))
                            } else {
                                let nf = Balance {
                                    available: (fb.available + fee) as u64,
                                    frozen: fb.frozen,
                                };
                                (
                                    StateView {
                                        balances: m1.insert((s.fee_to_account, mint), nf),
                                        executed: s.executed.insert(sn),
                                        ..s
                                    },
                                    None,
                                )
                            }
                        }
                    }
                }
            },
        }
    }
}

/// What a simple transfer does: debit `amount` from the payer's available
/// partition; when the routing key is the zero key, credit `amount - fee` to
/// the recipient's account and `fee` to the fee entity, otherwise both leave
/// custody externally. Checked in order: replay, expiry, non-zero amount, fee
/// bound, authorization, fee-recipient identity, sufficiency.
pub open spec fn spec_transfer(
    s: StateView,
    auth: Option<Seq<u8>>,
    sn: Seq<u8>,
    from: Seq<u8>,
    to: Seq<u8>,
    amount: u64,
    fee: u64,
    expired_at: i64,
    now: i64,
    user: Seq<u8>,
    mint: Seq<u8>,
    out_key: Seq<u8>,
    fee_user: Seq<u8>,
    fee_owner: Seq<u8>,
    signature: Seq<u8>,
) -> (StateView, Option<ErrorCode>) {
    if s.executed.contains(sn) {
        (s, Some(ErrorCode::AlreadyExecuted))
    } else if now >= expired_at {
        (s, Some(ErrorCode::Expired))
    } else if amount == 0 {
        (s, Some(ErrorCode::ZeroAmount))
    } else if amount <= fee {
        (s, Some(ErrorCode::InvalidParameter))
    } else {
        let msg = spec_transfer_message(
            sn,
            from,
            to,
            amount,
            fee,
            expired_at,
            user,
            mint,
            out_key,
            fee_user,
        );
        match spec_verify(auth, s.signer, msg, signature) {
            Some(e) => (s, Some(e)),
            None => {
                if fee_owner != s.fee_to {
                    (s, Some(ErrorCode::InvalidFeeUser))
                } else {
                    let b = bal_of(s.balances, from, mint);
                    if b.available < amount {
                        (s, Some(ErrorCode::InsufficientAvailable))
                    } else {
                        let nb = Balance { available: (b.available - amount) as u64, frozen: b.frozen };
                        let m1 = s.balances.insert((from, mint), nb);
                        let to_amount = (amount - fee) as u64;
                        if out_key == zero_key() {
                            let tb = bal_of(m1, to, mint);
                            if tb.available + to_amount > u64::MAX {
                                (s, Some(ErrorCode::InvalidAmount))
                            } else {
                                let nt = Balance {
                                    available: (tb.available + to_amount) as u64,
                                    frozen: tb.frozen,
                                };
                                let m2 = m1.insert((to, mint), nt);
                                if fee == 0 {
                                    (
                                        StateView {
                                            balances: m2,
                                            executed: s.executed.insert(sn),
                                            ..s
                                        },
                                        None,
                                    )
                                } else {
                                    let fb = bal_of(m2, s.fee_to_account, mint);
                                    if fb.available + fee > u64::MAX {
                                        (s, Some(ErrorCode::InvalidAmount))
                                    } else {
                                        let nf = Balance {
                                            available: (fb.available + fee) as u64,
                                            frozen: fb.frozen,
                                        };
                                        (
                                            StateView {
                                                balances: m2.insert((s.fee_to_account, mint), nf),
                                                executed: s.executed.insert(sn),
                                                ..s
                                            },
                                            None,
                                        )
                                    }
                                }
                            }
                        } else {
                            (
                                StateView { balances: m1, executed: s.executed.insert(sn), ..s },
                                None,
                            )
                        }
                    }
                }
            },
        }
    }
}

/// The payer's balance after the deal's debits and the excess-payment
/// reconciliation, or the error when the balance cannot cover them. The debits
/// are `deal.available` from the available partition and `deal.frozen` from
/// the frozen one; when `deal.paid` exceeds `deal.frozen` the excess is also
/// unfrozen and returned to the available partition minus `deal.excess_fee`.
pub open spec fn spec_settle_debit(b: Balance, deal: TransferData) -> Result<Balance, ErrorCode> {
    if deal.available > 0 && b.available < deal.available {
        Err(ErrorCode::InsufficientAvailable)
    } else {
        let av1 = (b.available - deal.available) as u64;
        if deal.frozen == 0 {
            Ok(Balance { available: av1, frozen: b.frozen })
        } else if b.frozen < deal.frozen {
            Err(ErrorCode::InsufficientFrozen)
        } else {
            let fr1 = (b.frozen - deal.frozen) as u64;
            if deal.paid <= deal.frozen {
                Ok(Balance { available: av1, frozen: fr1 })
            } else {
                let excess = deal.paid - deal.frozen;
                if fr1 < excess {
                    Err(ErrorCode::InsufficientFrozen)
                } else if av1 + excess - deal.excess_fee > u64::MAX {
                    Err(ErrorCode::InvalidAmount)
                } else {
                    Ok(
                        Balance {
                            available: (av1 + excess - deal.excess_fee) as u64,
                            frozen: (fr1 - excess) as u64,
                        },
                    )
                }
            }
        }
    }
}

/// What a deal-based settlement does: apply the deal's debits and
/// reconciliation to the payer, then, when the routing key is the zero key,
/// credit `deal.amount` to the recipient and the total fee to the fee entity,
/// otherwise both leave custody externally. Checked in order: replay, expiry,
/// deal invariant, authorization, fee-recipient identity, sufficiency.
pub open spec fn spec_settle(
    s: StateView,
    auth: Option<Seq<u8>>,
    sn: Seq<u8>,
    deal: TransferData,
    expired_at: i64,
    now: i64,
    user: Seq<u8>,
    mint: Seq<u8>,
    out_key: Seq<u8>,
    fee_user: Seq<u8>,
    fee_owner: Seq<u8>,
    signature: Seq<u8>,
) -> (StateView, Option<ErrorCode>) {
    if s.executed.contains(sn) {
        (s, Some(ErrorCode::AlreadyExecuted))
    } else if now >= expired_at {
        (s, Some(ErrorCode::Expired))
    } else if !deal.valid() {
        (s, Some(ErrorCode::InvalidParameter))
    } else {
        let msg = spec_settle_message(sn, deal, expired_at, user, mint, out_key, fee_user);
        match spec_verify(auth, s.signer, msg, signature) {
            Some(e) => (s, Some(e)),
            None => {
                if fee_owner != s.fee_to {
                    (s, Some(ErrorCode::InvalidFeeUser))
                } else {
                    let b = bal_of(s.balances, deal.from@, mint);
                    match spec_settle_debit(b, deal) {
                        Err(e) => (s, Some(e)),
                        Ok(nb) => {
                            let m1 = s.balances.insert((deal.from@, mint), nb);
                            if deal.fee + deal.excess_fee > u64::MAX {
                                (s, Some(ErrorCode::InvalidAmount))
                            } else {
                                let total_fee = (deal.fee + deal.excess_fee) as u64;
                                if out_key == zero_key() {
                                    let tb = bal_of(m1, deal.to@, mint);
                                    if deal.amount > 0 && tb.available + deal.amount > u64::MAX {
                                        (s, Some(ErrorCode::InvalidAmount))
                                    } else {
                                        let m2 = if deal.amount > 0 {
                                            m1.insert(
                                                (deal.to@, mint),
                                                Balance {
                                                    available: (tb.available + deal.amount) as u64,
                                                    frozen: tb.frozen,
                                                },
                                            )
                                        } else {
                                            m1
                                        };
                                        if total_fee == 0 {
                                            (
                                                StateView {
                                                    balances: m2,
                                                    executed: s.executed.insert(sn),
                                                    ..s
                                                },
                                                None,
                                            )
                                        } else {
                                            let fb = bal_of(m2, s.fee_to_account, mint);
                                            if fb.available + total_fee > u64::MAX {
                                                (s, Some(ErrorCode::InvalidAmount))
                                            } else {
                                                let nf = Balance {
                                                    available: (fb.available + total_fee) as u64,
                                                    frozen: fb.frozen,
                                                };
                                                (
                                                    StateView {
                                                        balances: m2.insert(
                                                            (s.fee_to_account, mint),
                                                            nf,
                                                        ),
                                                        executed: s.executed.insert(sn),
                                                        ..s
                                                    },
                                                    None,
                                                )
                                            }
                                        }
                                    }
                                } else {
                                    (
                                        StateView {
                                            balances: m1,
                                            executed: s.executed.insert(sn),
                                            ..s
                                        },
                                        None,
                                    )
                                }
                            }
                        },
                    }
                }
            },
        }
    }
}

} // verus!
