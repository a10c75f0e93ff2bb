//! The domain events: one is returned for every successful operation, carrying
//! the serial number, the asset, the affected entities, and the amounts, for
//! consumption by off-chain indexers.

use vstd::prelude::*;

verus! {

#[derive(Clone, Copy, Debug, PartialEq, Eq)]
pub struct DepositEvent {
    pub sn: [u8; 32],
    pub account: [u8; 32],
    pub token: [u8; 32],
    pub amount: u64,
    pub frozen: u64,
    pub user: [u8; 32],
}

#[derive(Clone, Copy, Debug, PartialEq, Eq)]
pub struct WithdrawEvent {
    pub sn: [u8; 32],
    pub token: [u8; 32],
    pub from: [u8; 32],
    pub to: [u8; 32],
    pub available: u64,
    pub frozen: u64,
    pub user: [u8; 32],
}

#[derive(Clone, Copy, Debug, PartialEq, Eq)]
pub struct FreezeEvent {
    pub sn: [u8; 32],
    pub account: [u8; 32],
    pub token: [u8; 32],
    pub amount: u64,
    pub user: [u8; 32],
}

#[derive(Clone, Copy, Debug, PartialEq, Eq)]
pub struct UnfreezeEvent {
    pub sn: [u8; 32],
    pub account: [u8; 32],
    pub token: [u8; 32],
    pub amount: u64,
    pub fee: u64,
    pub user: [u8; 32],
}

/// The event of a simple transfer: the whole debit leaves the payer's
/// available partition, so `available == amount` and the reconciliation
/// fields are zero.
#[derive(Clone, Copy, Debug, PartialEq, Eq)]
pub struct TransferEvent {
    pub sn: [u8; 32],
    pub token: [u8; 32],
    pub from: [u8; 32],
    pub to: [u8; 32],
    pub out: [u8; 32],
    pub available: u64,
    pub frozen: u64,
    pub amount: u64,
    pub fee: u64,
    pub paid: u64,
    pub excess_fee: u64,
    pub user: [u8; 32],
}

/// The event of a deal-based settlement, echoing the deal.
#[derive(Clone, Copy, Debug, PartialEq, Eq)]
pub struct SettleEvent {
    pub sn: [u8; 32],
    pub token: [u8; 32],
    pub from: [u8; 32],
    pub to: [u8; 32],
    pub out: [u8; 32],
    pub available: u64,
    pub frozen: u64,
    pub amount: u64,
    pub fee: u64,
    pub paid: u64,
    pub excess_fee: u64,
    pub user: [u8; 32],
}

} // verus!
