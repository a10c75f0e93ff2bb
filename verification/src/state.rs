//! The data model: the ledger configuration, the per-account balance record,
//! the replay-protection record, and the deal parameters of transfer/settle.

use vstd::prelude::*;
use vstd::bytes::spec_u64_to_le_bytes;
use crate::codec::push_bytes;

verus! {

/// The ledger configuration: mutated only by administrative operations.
#[derive(Clone, Copy, Debug)]
pub struct PaymentState {
    /// The administrative key: may rotate itself, the signer and the fee
    /// recipient.
    pub owner: [u8; 32],
    /// Every non-administrative operation requires this to be true.
    pub enabled: bool,
    /// The authority whose signature authorizes all operations.
    pub signer: [u8; 32],
    /// The wallet that receives fees paid out externally.
    pub fee_to: [u8; 32],
    /// The entity whose ledger account collects fees credited internally.
    pub fee_to_account: [u8; 32],
}

/// A balance record: two independently non-negative partitions, denominated in
/// the asset `mint`, which is bound when the record is created and immutable
/// thereafter.
#[derive(Clone, Copy, Debug)]
pub struct UserTokenAccount {
    pub mint: [u8; 32],
    pub available: u64,
    pub frozen: u64,
}

/// The two balance partitions of one account, without the asset binding.
#[derive(Clone, Copy, Debug, PartialEq, Eq, Structural)]
pub struct Balance {
    pub available: u64,
    pub frozen: u64,
}

impl Balance {
    /// The balance of an account that was never written.
    pub open spec fn zero() -> Balance {
        Balance { available: 0, frozen: 0 }
    }

    /// A freshly referenced account holds nothing.
    pub fn new_zero() -> (r: Balance)
        ensures
            r == Balance::zero(),
    {
        Balance { available: 0, frozen: 0 }
    }
}

/// The replay-protection record of one serial number. A record that was never
/// written reads as not executed; once executed it stays executed forever.
#[derive(Clone, Copy, Debug, PartialEq, Eq, Structural)]
pub struct TransactionRecord {
    pub executed: bool,
}

/// The parameter set of a deal-based transfer or settlement: what is debited
/// from each partition of the payer, what the recipient nets, the fees, and
/// the reconciliation of an excess pre-frozen payment.
#[derive(Clone, Copy, Debug)]
pub struct TransferData {
    /// The paying entity.
    pub from: [u8; 32],
    /// The receiving entity.
    pub to: [u8; 32],
    /// Debited from the payer's available partition.
    pub available: u64,
    /// Debited from the payer's frozen partition.
    pub frozen: u64,
    /// The net amount the recipient is paid.
    pub amount: u64,
    /// The base fee.
    pub fee: u64,
    /// The total the payer authorized to leave the frozen partition; may
    /// exceed `frozen`, and the excess is returned to `available` minus
    /// `excess_fee`.
    pub paid: u64,
    /// The extra fee charged when `paid` exceeds `frozen`.
    pub excess_fee: u64,
}

impl TransferData {
    /// The canonical 112-byte encoding of a deal: both entities followed by
    /// the six amounts, all little-endian, concatenated with no delimiters.
    pub open spec fn spec_to_bytes(self) -> Seq<u8> {
        self.from@ + self.to@ + spec_u64_to_le_bytes(self.available) + spec_u64_to_le_bytes(
            self.frozen,
        ) + spec_u64_to_le_bytes(self.amount) + spec_u64_to_le_bytes(self.fee)
            + spec_u64_to_le_bytes(self.paid) + spec_u64_to_le_bytes(self.excess_fee)
    }

    /// Encodes the deal canonically.
    pub fn to_bytes(&self) -> (r: Vec<u8>)
        ensures
            r@ == self.spec_to_bytes(),
            r@.len() == 112,
    {
        let mut out: Vec<u8> = Vec::new();
        push_bytes(&mut out, self.from.as_slice());
        push_bytes(&mut out, self.to.as_slice());
        let available = vstd::bytes::u64_to_le_bytes(self.available);
        push_bytes(&mut out, available.as_slice());
        let frozen = vstd::bytes::u64_to_le_bytes(self.frozen);
        push_bytes(&mut out, frozen.as_slice());
        let amount = vstd::bytes::u64_to_le_bytes(self.amount);
        push_bytes(&mut out, amount.as_slice());
        let fee = vstd::bytes::u64_to_le_bytes(self.fee);
        push_bytes(&mut out, fee.as_slice());
        let paid = vstd::bytes::u64_to_le_bytes(self.paid);
        push_bytes(&mut out, paid.as_slice());
        let excess_fee = vstd::bytes::u64_to_le_bytes(self.excess_fee);
        push_bytes(&mut out, excess_fee.as_slice());
        out
    }

    /// The deal invariant, enforced before any mutation: the two debits cover
    /// exactly the net payment plus the base fee, the deal moves something,
    /// the authorized total covers the frozen debit plus the excess fee, and
    /// the excess fee never exceeds the frozen debit.
    pub open spec fn valid(self) -> bool {
        &&& self.available + self.frozen == self.amount + self.fee
        &&& self.amount + self.fee > 0
        &&& self.paid >= self.frozen + self.excess_fee
        &&& self.frozen >= self.excess_fee
    }

    /// Decides the deal invariant, with no intermediate overflow.
    pub fn check_valid(&self) -> (r: bool)
        ensures
            r == self.valid(),
    {
        let debits: u128 = self.available as u128 + self.frozen as u128;
        let credits: u128 = self.amount as u128 + self.fee as u128;
        let covered: u128 = self.frozen as u128 + self.excess_fee as u128;
        debits == credits && credits > 0 && self.paid as u128 >= covered && self.frozen
            >= self.excess_fee
    }
}

} // verus!
