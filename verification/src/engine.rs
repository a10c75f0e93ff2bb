//! The operation engine: the executable ledger. It combines the configuration,
//! the balance store and the replay registry, and runs the six authorized
//! operations. Each operation's contract says that the engine steps exactly as
//! the corresponding specification function of `transitions` says; in
//! particular a failing call leaves the whole state untouched, and a
//! successful one claims the serial number atomically with the balance writes.

use vstd::prelude::*;
use crate::codec::{bytes_eq, is_zero32, zero_key};
use crate::errors::ErrorCode;
use crate::events::{
    DepositEvent, FreezeEvent, SettleEvent, TransferEvent, UnfreezeEvent, WithdrawEvent,
};
use crate::messages::{
    deposit_message, freeze_message, settle_message, transfer_message, unfreeze_message,
    withdraw_message,
};
use crate::state::{Balance, PaymentState, TransactionRecord, TransferData};
use crate::store::{bal_of, Ledger, Registry};
use crate::transitions::{
    fee_entity_key, initial_state, spec_deposit, spec_freeze, spec_settle, spec_settle_debit,
    spec_transfer, spec_unfreeze, spec_withdraw, StateView,
};
use crate::utils::{opt_bytes, verify_ed25519_instruction};

verus! {

/// An instruction to the external custody executor: move `amount` out of the
/// custodial holding to the wallet `to`.
#[derive(Clone, Copy, Debug, PartialEq, Eq)]
pub struct Payout {
    pub to: [u8; 32],
    pub amount: u64,
}

/// The ledger engine.
pub struct Engine {
    /// The configuration; mutated only by the administrative operations.
    pub state: PaymentState,
    ledger: Ledger,
    registry: Registry,
}

impl View for Engine {
    type V = StateView;

    closed spec fn view(&self) -> StateView {
        StateView {
            owner: self.state.owner@,
            enabled: self.state.enabled,
            signer: self.state.signer@,
            fee_to: self.state.fee_to@,
            fee_to_account: self.state.fee_to_account@,
            balances: self.ledger@,
            executed: self.registry@,
        }
    }
}

impl Engine {
    /// The engine's internal invariant.
    pub closed spec fn wf(self) -> bool {
        self.ledger.wf()
    }

    /// Sets up a fresh ledger: enabled, with the initializing key as owner,
    /// signer and fee wallet, and the fee-collecting entity at its fixed
    /// identifier.
    pub fn initialize(owner: [u8; 32]) -> (r: Engine)
        ensures
            r.wf(),
            r@ == initial_state(owner@),
    {
        let mut fee_to_account = [0u8; 32];
        fee_to_account[31] = 1u8;
        proof {
            assert(fee_to_account@ =~= fee_entity_key());
        }
        let r = Engine {
            state: PaymentState {
                owner,
                enabled: true,
                signer: owner,
                fee_to: owner,
                fee_to_account,
            },
            ledger: Ledger::new(),
            registry: Registry::new(),
        };
        proof {
            assert(r@ =~~= initial_state(owner@));
        }
        r
    }

    /// The balance of an account; an account never written holds zero.
    pub fn balance_of(&self, account: &[u8; 32], mint: &[u8; 32]) -> (r: Balance)
        requires
            self.wf(),
        ensures
            r == bal_of(self@.balances, account@, mint@),
    {
        self.ledger.balance_of(account, mint)
    }

    /// The replay-protection record of a serial number.
    pub fn get_record(&self, sn: &[u8; 32]) -> (r: TransactionRecord)
        ensures
            r.executed == self@.executed.contains(sn@),
    {
        self.registry.get_record(sn)
    }

    /// Authorizes setting up the custodial holding account for an asset: only
    /// the owner may do so. The provisioning itself — creating the holding
    /// account — is the host runtime's work and keeps no ledger state.
    pub fn initialize_program_token(&self, caller: &[u8; 32]) -> (r: Result<(), ErrorCode>)
        ensures
            match r {
                Ok(_) => caller@ == self@.owner,
                Err(e) => e == ErrorCode::Unauthorized && caller@ != self@.owner,
            },
    {
        if !bytes_eq(caller.as_slice(), self.state.owner.as_slice()) {
            return Err(ErrorCode::Unauthorized);
        }
        Ok(())
    }

    /// Hands the ownership of the ledger to a new key; only the current owner
    /// may do so.
    pub fn change_owner(&mut self, current: &[u8; 32], new_owner: [u8; 32]) -> (r: Result<
        (),
        ErrorCode,
    >)
        requires
            old(self).wf(),
        ensures
            final(self).wf(),
            match r {
                Ok(_) => current@ == old(self)@.owner && final(self)@ == (StateView {
                    owner: new_owner@,
                    ..old(self)@
                }),
                Err(e) => e == ErrorCode::Unauthorized && current@ != old(self)@.owner
                    && *final(self) == *old(self),
            },
    {
        if !bytes_eq(current.as_slice(), self.state.owner.as_slice()) {
            return Err(ErrorCode::Unauthorized);
        }
        self.state.owner = new_owner;
        Ok(())
    }

    /// Rotates the authority that signs operations; the owner or the current
    /// signer may do so.
    pub fn change_signer(&mut self, current: &[u8; 32], new_signer: [u8; 32]) -> (r: Result<
        (),
        ErrorCode,
    >)
        requires
            old(self).wf(),
        ensures
            final(self).wf(),
            match r {
                Ok(_) => (current@ == old(self)@.owner || current@ == old(self)@.signer)
                    && final(self)@ == (StateView { signer: new_signer@, ..old(self)@ }),
                Err(e) => e == ErrorCode::Unauthorized && current@ != old(self)@.owner && current@
                    != old(self)@.signer && *final(self) == *old(self),
            },
    {
        if !bytes_eq(current.as_slice(), self.state.owner.as_slice()) && !bytes_eq(
            current.as_slice(),
            self.state.signer.as_slice(),
        ) {
            return Err(ErrorCode::Unauthorized);
        }
        self.state.signer = new_signer;
        Ok(())
    }

    /// Rotates the fee-collecting wallet; the owner or the current fee wallet
    /// may do so.
    pub fn change_fee_to(&mut self, current: &[u8; 32], new_fee_to: [u8; 32]) -> (r: Result<
        (),
        ErrorCode,
    >)
        requires
            old(self).wf(),
        ensures
            final(self).wf(),
            match r {
                Ok(_) => (current@ == old(self)@.owner || current@ == old(self)@.fee_to)
                    && final(self)@ == (StateView { fee_to: new_fee_to@, ..old(self)@ }),
                Err(e) => e == ErrorCode::Unauthorized && current@ != old(self)@.owner && current@
                    != old(self)@.fee_to && *final(self) == *old(self),
            },
    {
        if !bytes_eq(current.as_slice(), self.state.owner.as_slice()) && !bytes_eq(
            current.as_slice(),
            self.state.fee_to.as_slice(),
        ) {
            return Err(ErrorCode::Unauthorized);
        }
        self.state.fee_to = new_fee_to;
        Ok(())
    }

    /// Deposits `amount` into an account, freezing `frozen` of the result: the
    /// caller moves `amount` into custody externally, the account's available
    /// partition nets `amount - frozen`, and its frozen partition grows by
    /// `frozen`. The call steps exactly as `spec_deposit` says; on failure
    /// nothing changes and the serial number stays unclaimed.
    pub fn deposit(
        &mut self,
        sn: [u8; 32],
        account: [u8; 32],
        amount: u64,
        frozen: u64,
        expired_at: i64,
        signature: [u8; 64],
        user: [u8; 32],
        mint: [u8; 32],
        user_token: [u8; 32],
        now: i64,
        auth: Option<&[u8]>,
    ) -> (r: Result<DepositEvent, ErrorCode>)
        requires
            old(self).wf(),
        ensures
            final(self).wf(),
            final(self)@ == spec_deposit(
                old(self)@,
                opt_bytes(auth),
                sn@,
                account@,
                amount,
                frozen,
                expired_at,
                now,
                user@,
                mint@,
                user_token@,
                signature@,
            ).0,
            match r {
                Ok(ev) => spec_deposit(
                    old(self)@,
                    opt_bytes(auth),
                    sn@,
                    account@,
                    amount,
                    frozen,
                    expired_at,
                    now,
                    user@,
                    mint@,
                    user_token@,
                    signature@,
                ).1 is None && ev == (DepositEvent { sn, account, token: mint, amount, frozen, user }),
                Err(e) => spec_deposit(
                    old(self)@,
                    opt_bytes(auth),
                    sn@,
                    account@,
                    amount,
                    frozen,
                    expired_at,
                    now,
                    user@,
                    mint@,
                    user_token@,
                    signature@,
                ).1 == Some(e),
            },
    {
        if !self.state.enabled {
            return Err(ErrorCode::Disabled);
        }
        if amount == 0 && frozen == 0 {
            return Err(ErrorCode::ZeroAmount);
        }
        if now >= expired_at {
            return Err(ErrorCode::Expired);
        }
        let message = deposit_message(
            &sn,
            &account,
            amount,
            frozen,
            expired_at,
            &user,
            &mint,
            &user_token,
        );
        match verify_ed25519_instruction(auth, &self.state.signer, message.as_slice(), &signature) {
            Err(e) => {
                return Err(e);
            },
            Ok(_) => {},
        }
        if self.registry.is_executed(&sn) {
            return Err(ErrorCode::AlreadyExecuted);
        }
        let b = self.ledger.balance_of(&account, &mint);
        if amount > u64::MAX - b.available {
            return Err(ErrorCode::InvalidAmount);
        }
        let credited = b.available + amount;
        if credited < frozen {
            return Err(ErrorCode::InsufficientAvailable);
        }
        if frozen > u64::MAX - b.frozen {
            return Err(ErrorCode::InvalidAmount);
        }
        let nb = Balance { available: credited - frozen, frozen: b.frozen + frozen };
        self.registry.mark_executed(&sn);
        self.ledger.set_balance(&account, &mint, nb);
        Ok(DepositEvent { sn, account, token: mint, amount, frozen, user })
    }

    /// Withdraws `available` from the available partition and `frozen` from
    /// the frozen one; their sum leaves custody to the wallet `to`, as the
    /// returned payout says. The call steps exactly as `spec_withdraw` says;
    /// on failure nothing changes and the serial number stays unclaimed.
    pub fn withdraw(
        &mut self,
        sn: [u8; 32],
        from: [u8; 32],
        available: u64,
        frozen: u64,
        expired_at: i64,
        signature: [u8; 64],
        to: [u8; 32],
        user: [u8; 32],
        mint: [u8; 32],
        now: i64,
        auth: Option<&[u8]>,
    ) -> (r: Result<(WithdrawEvent, Payout), ErrorCode>)
        requires
            old(self).wf(),
        ensures
            final(self).wf(),
            final(self)@ == spec_withdraw(
                old(self)@,
                opt_bytes(auth),
                sn@,
                from@,
                available,
                frozen,
                expired_at,
                now,
                mint@,
                signature@,
            ).0,
            match r {
                Ok(out) => spec_withdraw(
                    old(self)@,
                    opt_bytes(auth),
                    sn@,
                    from@,
                    available,
                    frozen,
                    expired_at,
                    now,
                    mint@,
                    signature@,
                ).1 is None && out.0 == (WithdrawEvent {
                    sn,
                    token: mint,
                    from,
                    to,
                    available,
                    frozen,
                    user,
                }) && out.1 == (Payout { to, amount: (available + frozen) as u64 }),
                Err(e) => spec_withdraw(
                    old(self)@,
                    opt_bytes(auth),
                    sn@,
                    from@,
                    available,
                    frozen,
                    expired_at,
                    now,
                    mint@,
                    signature@,
                ).1 == Some(e),
            },
    {
        if self.registry.is_executed(&sn) {
            return Err(ErrorCode::AlreadyExecuted);
        }
        if now >= expired_at {
            return Err(ErrorCode::Expired);
        }
        let message = withdraw_message(&sn, &from, available, frozen, expired_at);
        match verify_ed25519_instruction(auth, &self.state.signer, message.as_slice(), &signature) {
            Err(e) => {
                return Err(e);
            },
            Ok(_) => {},
        }
        let b = self.ledger.balance_of(&from, &mint);
        if b.available < available {
            return Err(ErrorCode::InsufficientAvailable);
        }
        if b.frozen < frozen {
            return Err(ErrorCode::InsufficientFrozen);
        }
        if available > u64::MAX - frozen {
            return Err(ErrorCode::InvalidAmount);
        }
        let nb = Balance { available: b.available - available, frozen: b.frozen - frozen };
        self.registry.mark_executed(&sn);
        self.ledger.set_balance(&from, &mint, nb);
        let event = WithdrawEvent { sn, token: mint, from, to, available, frozen, user };
        Ok((event, Payout { to, amount: available + frozen }))
    }

    /// Moves `amount` from an account's available partition into its frozen
    /// one. The call steps exactly as `spec_freeze` says; on failure nothing
    /// changes and the serial number stays unclaimed.
    pub fn freeze(
        &mut self,
        sn: [u8; 32],
        account: [u8; 32],
        amount: u64,
        expired_at: i64,
        signature: [u8; 64],
        user: [u8; 32],
        mint: [u8; 32],
        now: i64,
        auth: Option<&[u8]>,
    ) -> (r: Result<FreezeEvent, ErrorCode>)
        requires
            old(self).wf(),
        ensures
            final(self).wf(),
            final(self)@ == spec_freeze(
                old(self)@,
                opt_bytes(auth),
                sn@,
                account@,
                amount,
                expired_at,
                now,
                mint@,
                signature@,
            ).0,
            match r {
                Ok(ev) => spec_freeze(
                    old(self)@,
                    opt_bytes(auth),
                    sn@,
                    account@,
                    amount,
                    expired_at,
                    now,
                    mint@,
                    signature@,
                ).1 is None && ev == (FreezeEvent { sn, account, token: mint, amount, user }),
                Err(e) => spec_freeze(
                    old(self)@,
                    opt_bytes(auth),
                    sn@,
                    account@,
                    amount,
                    expired_at,
                    now,
                    mint@,
                    signature@,
                ).1 == Some(e),
            },
    {
        if !self.state.enabled {
            return Err(ErrorCode::Disabled);
        }
        if amount == 0 {
            return Err(ErrorCode::ZeroAmount);
        }
        if now >= expired_at {
            return Err(ErrorCode::Expired);
        }
        let message = freeze_message(&sn, &account, amount, expired_at);
        match verify_ed25519_instruction(auth, &self.state.signer, message.as_slice(), &signature) {
            Err(e) => {
                return Err(e);
            },
            Ok(_) => {},
        }
        if self.registry.is_executed(&sn) {
            return Err(ErrorCode::AlreadyExecuted);
        }
        let b = self.ledger.balance_of(&account, &mint);
        if b.available < amount {
            return Err(ErrorCode::InsufficientAvailable);
        }
        if amount > u64::MAX - b.frozen {
            return Err(ErrorCode::InvalidAmount);
        }
        let nb = Balance { available: b.available - amount, frozen: b.frozen + amount };
        self.registry.mark_executed(&sn);
        self.ledger.set_balance(&account, &mint, nb);
        Ok(FreezeEvent { sn, account, token: mint, amount, user })
    }

    /// Moves `amount` out of an account's frozen partition, returning
    /// `amount - fee` to its available one and crediting `fee` to the fee
    /// entity's account. The call steps exactly as `spec_unfreeze` says; on
    /// failure nothing changes and the serial number stays unclaimed.
    pub fn unfreeze(
        &mut self,
        sn: [u8; 32],
        account: [u8; 32],
        amount: u64,
        fee: u64,
        expired_at: i64,
        signature: [u8; 64],
        user: [u8; 32],
        mint: [u8; 32],
        now: i64,
        auth: Option<&[u8]>,
    ) -> (r: Result<UnfreezeEvent, ErrorCode>)
        requires
            old(self).wf(),
        ensures
            final(self).wf(),
            final(self)@ == spec_unfreeze(
                old(self)@,
                opt_bytes(auth),
                sn@,
                account@,
                amount,
                fee,
                expired_at,
                now,
                user@,
                mint@,
                signature@,
            ).0,
            match r {
                Ok(ev) => spec_unfreeze(
                    old(self)@,
                    opt_bytes(auth),
                    sn@,
                    account@,
                    amount,
                    fee,
                    expired_at,
                    now,
                    user@,
                    mint@,
                    signature@,
                ).1 is None && ev == (UnfreezeEvent { sn, account, token: mint, amount, fee, user }),
                Err(e) => spec_unfreeze(
                    old(self)@,
                    opt_bytes(auth),
                    sn@,
                    account@,
                    amount,
                    fee,
                    expired_at,
                    now,
                    user@,
                    mint@,
                    signature@,
                ).1 == Some(e),
            },
    {
        if !self.state.enabled {
            return Err(ErrorCode::Disabled);
        }
        if amount == 0 {
            return Err(ErrorCode::ZeroAmount);
        }
        if amount <= fee {
            return Err(ErrorCode::FeeOverrun);
        }
        if now >= expired_at {
            return Err(ErrorCode::Expired);
        }
        let message = unfreeze_message(&sn, &account, amount, fee, expired_at, &user, &mint);
        match verify_ed25519_instruction(auth, &self.state.signer, message.as_slice(), &signature) {
            Err(e) => {
                return Err(e);
            },
            Ok(_) => {},
        }
        if self.registry.is_executed(&sn) {
            return Err(ErrorCode::AlreadyExecuted);
        }
        let b = self.ledger.balance_of(&account, &mint);
        if b.frozen < amount {
            return Err(ErrorCode::InsufficientFrozen);
        }
        let returned = amount - fee;
        if returned > u64::MAX - b.available {
            return Err(ErrorCode::InvalidAmount);
        }
        let nb = Balance { available: b.available + returned, frozen: b.frozen - amount };
        if fee == 0 {
            self.registry.mark_executed(&sn);
            self.ledger.set_balance(&account, &mint, nb);
            return Ok(UnfreezeEvent { sn, account, token: mint, amount, fee, user });
        }
        let fee_account = self.state.fee_to_account;
        let fb = if bytes_eq(account.as_slice(), fee_account.as_slice()) {
            nb
        } else {
            self.ledger.balance_of(&fee_account, &mint)
        };
        if fee > u64::MAX - fb.available {
            return Err(ErrorCode::InvalidAmount);
        }
        let nf = Balance { available: fb.available + fee, frozen: fb.frozen };
        self.registry.mark_executed(&sn);
        self.ledger.set_balance(&account, &mint, nb);
        self.ledger.set_balance(&fee_account, &mint, nf);
        Ok(UnfreezeEvent { sn, account, token: mint, amount, fee, user })
    }

    /// Transfers `amount` out of the payer's available partition. When
    /// `out_key` is the zero key the recipient's account is credited
    /// `amount - fee` and the fee entity `fee`; otherwise both sums leave
    /// custody externally, to `out_key` and to the fee wallet `fee_user`, as
    /// the returned payouts say. `fee_owner` is the owner the caller derived
    /// for the fee wallet; it must be the configured fee recipient. The call
    /// steps exactly as `spec_transfer` says; on failure nothing changes and
    /// the serial number stays unclaimed.
    pub fn transfer(
        &mut self,
        sn: [u8; 32],
        from: [u8; 32],
        to: [u8; 32],
        amount: u64,
        fee: u64,
        expired_at: i64,
        signature: [u8; 64],
        user: [u8; 32],
        mint: [u8; 32],
        out_key: [u8; 32],
        fee_user: [u8; 32],
        fee_owner: [u8; 32],
        now: i64,
        auth: Option<&[u8]>,
    ) -> (r: Result<(TransferEvent, Vec<Payout>), ErrorCode>)
        requires
            old(self).wf(),
        ensures
            final(self).wf(),
            final(self)@ == spec_transfer(
                old(self)@,
                opt_bytes(auth),
                sn@,
                from@,
                to@,
                amount,
                fee,
                expired_at,
                now,
                user@,
                mint@,
                out_key@,
                fee_user@,
                fee_owner@,
                signature@,
            ).0,
            match r {
                Ok(out) => spec_transfer(
                    old(self)@,
                    opt_bytes(auth),
                    sn@,
                    from@,
                    to@,
                    amount,
                    fee,
                    expired_at,
                    now,
                    user@,
                    mint@,
                    out_key@,
                    fee_user@,
                    fee_owner@,
                    signature@,
                ).1 is None && out.0 == (TransferEvent {
                    sn,
                    token: mint,
                    from,
                    to,
                    out: out_key,
                    available: amount,
                    frozen: 0,
                    amount,
                    fee,
                    paid: 0,
                    excess_fee: 0,
                    user,
                }) && (if out_key@ == zero_key() {
                    out.1@ == Seq::<Payout>::empty()
                } else if fee > 0 {
                    out.1@ == seq![
                        Payout { to: out_key, amount: (amount - fee) as u64 },
                        Payout { to: fee_user, amount: fee },
                    ]
                } else {
                    out.1@ == seq![Payout { to: out_key, amount: (amount - fee) as u64 }]
                }),
                Err(e) => spec_transfer(
                    old(self)@,
                    opt_bytes(auth),
                    sn@,
                    from@,
                    to@,
                    amount,
                    fee,
                    expired_at,
                    now,
                    user@,
                    mint@,
                    out_key@,
                    fee_user@,
                    fee_owner@,
                    signature@,
                ).1 == Some(e),
            },
    {
        if self.registry.is_executed(&sn) {
            return Err(ErrorCode::AlreadyExecuted);
        }
        if now >= expired_at {
            return Err(ErrorCode::Expired);
        }
        if amount == 0 {
            return Err(ErrorCode::ZeroAmount);
        }
        if amount <= fee {
            return Err(ErrorCode::InvalidParameter);
        }
        let message = transfer_message(
            &sn,
            &from,
            &to,
            amount,
            fee,
            expired_at,
            &user,
            &mint,
            &out_key,
            &fee_user,
        );
        match verify_ed25519_instruction(auth, &self.state.signer, message.as_slice(), &signature) {
            Err(e) => {
                return Err(e);
            },
            Ok(_) => {},
        }
        if !bytes_eq(fee_owner.as_slice(), self.state.fee_to.as_slice()) {
            return Err(ErrorCode::InvalidFeeUser);
        }
        let b = self.ledger.balance_of(&from, &mint);
        if b.available < amount {
            return Err(ErrorCode::InsufficientAvailable);
        }
        let nb = Balance { available: b.available - amount, frozen: b.frozen };
        let to_amount = amount - fee;
        let event = TransferEvent {
            sn,
            token: mint,
            from,
            to,
            out: out_key,
            available: amount,
            frozen: 0,
            amount,
            fee,
            paid: 0,
            excess_fee: 0,
            user,
        };
        if is_zero32(&out_key) {
            let tb = if bytes_eq(to.as_slice(), from.as_slice()) {
                nb
            } else {
                self.ledger.balance_of(&to, &mint)
            };
            if to_amount > u64::MAX - tb.available {
                return Err(ErrorCode::InvalidAmount);
            }
            let nt = Balance { available: tb.available + to_amount, frozen: tb.frozen };
            if fee == 0 {
                self.registry.mark_executed(&sn);
                self.ledger.set_balance(&from, &mint, nb);
                self.ledger.set_balance(&to, &mint, nt);
                return Ok((event, Vec::new()));
            }
            let fee_account = self.state.fee_to_account;
            let fb = if bytes_eq(fee_account.as_slice(), to.as_slice()) {
                nt
            } else if bytes_eq(fee_account.as_slice(), from.as_slice()) {
                nb
            } else {
                self.ledger.balance_of(&fee_account, &mint)
            };
            if fee > u64::MAX - fb.available {
                return Err(ErrorCode::InvalidAmount);
            }
            let nf = Balance { available: fb.available + fee, frozen: fb.frozen };
            self.registry.mark_executed(&sn);
            self.ledger.set_balance(&from, &mint, nb);
            self.ledger.set_balance(&to, &mint, nt);
            self.ledger.set_balance(&fee_account, &mint, nf);
            Ok((event, Vec::new()))
        } else {
            self.registry.mark_executed(&sn);
            self.ledger.set_balance(&from, &mint, nb);
            let mut outs: Vec<Payout> = Vec::new();
            outs.push(Payout { to: out_key, amount: to_amount });
            if fee > 0 {
                outs.push(Payout { to: fee_user, amount: fee });
                proof {
                    assert(outs@ =~= seq![
                        Payout { to: out_key, amount: (amount - fee) as u64 },
                        Payout { to: fee_user, amount: fee },
                    ]);
                }
            } else {
                proof {
                    assert(outs@ =~= seq![Payout { to: out_key, amount: (amount - fee) as u64 }]);
                }
            }
            Ok((event, outs))
        }
    }

    /// Applies a valid deal's debits and reconciliation to the payer's
    /// balance, exactly as `spec_settle_debit` says.
    fn settle_debit(b: Balance, deal: &TransferData) -> (r: Result<Balance, ErrorCode>)
        requires
            deal.valid(),
        ensures
            r == spec_settle_debit(b, *deal),
    {
        if deal.available > 0 && b.available < deal.available {
            return Err(ErrorCode::InsufficientAvailable);
        }
        let av1 = b.available - deal.available;
        if deal.frozen == 0 {
            return Ok(Balance { available: av1, frozen: b.frozen });
        }
        if b.frozen < deal.frozen {
            return Err(ErrorCode::InsufficientFrozen);
        }
        let fr1 = b.frozen - deal.frozen;
        if deal.paid <= deal.frozen {
            return Ok(Balance { available: av1, frozen: fr1 });
        }
        let excess = deal.paid - deal.frozen;
        if fr1 < excess {
            return Err(ErrorCode::InsufficientFrozen);
        }
        let reconciled: u128 = av1 as u128 + excess as u128 - deal.excess_fee as u128;
        if reconciled > u64::MAX as u128 {
            return Err(ErrorCode::InvalidAmount);
        }
        Ok(Balance { available: reconciled as u64, frozen: fr1 - excess })
    }

    /// Settles a deal: debits the payer per the deal, reconciles an excess
    /// pre-frozen payment, and credits the recipient and the fee entity — or,
    /// when `out_key` is not the zero key, pays both sums out of custody
    /// externally, as the returned payouts say. `fee_owner` is the owner the
    /// caller derived for the fee wallet; it must be the configured fee
    /// recipient. The call steps exactly as `spec_settle` says; on failure
    /// nothing changes and the serial number stays unclaimed.
    pub fn settle(
        &mut self,
        sn: [u8; 32],
        deal: TransferData,
        expired_at: i64,
        signature: [u8; 64],
        user: [u8; 32],
        mint: [u8; 32],
        out_key: [u8; 32],
        fee_user: [u8; 32],
        fee_owner: [u8; 32],
        now: i64,
        auth: Option<&[u8]>,
    ) -> (r: Result<(SettleEvent, Vec<Payout>), ErrorCode>)
        requires
            old(self).wf(),
        ensures
            final(self).wf(),
            final(self)@ == spec_settle(
                old(self)@,
                opt_bytes(auth),
                sn@,
                deal,
                expired_at,
                now,
                user@,
                mint@,
                out_key@,
                fee_user@,
                fee_owner@,
                signature@,
            ).0,
            match r {
                Ok(out) => spec_settle(
                    old(self)@,
                    opt_bytes(auth),
                    sn@,
                    deal,
                    expired_at,
                    now,
                    user@,
                    mint@,
                    out_key@,
                    fee_user@,
                    fee_owner@,
                    signature@,
                ).1 is None && out.0 == (SettleEvent {
                    sn,
                    token: mint,
                    from: deal.from,
                    to: deal.to,
                    out: out_key,
                    available: deal.available,
                    frozen: deal.frozen,
                    amount: deal.amount,
                    fee: deal.fee,
                    paid: deal.paid,
                    excess_fee: deal.excess_fee,
                    user,
                }) && (if out_key@ == zero_key() {
                    out.1@ == Seq::<Payout>::empty()
                } else if deal.amount > 0 && deal.fee + deal.excess_fee > 0 {
                    out.1@ == seq![
                        Payout { to: out_key, amount: deal.amount },
                        Payout { to: fee_user, amount: (deal.fee + deal.excess_fee) as u64 },
                    ]
                } else if deal.amount > 0 {
                    out.1@ == seq![Payout { to: out_key, amount: deal.amount }]
                } else if deal.fee + deal.excess_fee > 0 {
                    out.1@ == seq![
                        Payout { to: fee_user, amount: (deal.fee + deal.excess_fee) as u64 },
                    ]
                } else {
                    out.1@ == Seq::<Payout>::empty()
                }),
                Err(e) => spec_settle(
                    old(self)@,
                    opt_bytes(auth),
                    sn@,
                    deal,
                    expired_at,
                    now,
                    user@,
                    mint@,
                    out_key@,
                    fee_user@,
                    fee_owner@,
                    signature@,
                ).1 == Some(e),
            },
    {
        if self.registry.is_executed(&sn) {
            return Err(ErrorCode::AlreadyExecuted);
        }
        if now >= expired_at {
            return Err(ErrorCode::Expired);
        }
        if !deal.check_valid() {
            return Err(ErrorCode::InvalidParameter);
        }
        let message = settle_message(&sn, &deal, expired_at, &user, &mint, &out_key, &fee_user);
        match verify_ed25519_instruction(auth, &self.state.signer, message.as_slice(), &signature) {
            Err(e) => {
                return Err(e);
            },
            Ok(_) => {},
        }
        if !bytes_eq(fee_owner.as_slice(), self.state.fee_to.as_slice()) {
            return Err(ErrorCode::InvalidFeeUser);
        }
        let b = self.ledger.balance_of(&deal.from, &mint);
        let nb = match Self::settle_debit(b, &deal) {
            Err(e) => {
                return Err(e);
            },
            Ok(nb) => nb,
        };
        if deal.fee > u64::MAX - deal.excess_fee {
            return Err(ErrorCode::InvalidAmount);
        }
        let total_fee = deal.fee + deal.excess_fee;
        let event = SettleEvent {
            sn,
            token: mint,
            from: deal.from,
            to: deal.to,
            out: out_key,
            available: deal.available,
            frozen: deal.frozen,
            amount: deal.amount,
            fee: deal.fee,
            paid: deal.paid,
            excess_fee: deal.excess_fee,
            user,
        };
        if is_zero32(&out_key) {
            let tb = if bytes_eq(deal.to.as_slice(), deal.from.as_slice()) {
                nb
            } else {
                self.ledger.balance_of(&deal.to, &mint)
            };
            if deal.amount > 0 && deal.amount > u64::MAX - tb.available {
                return Err(ErrorCode::InvalidAmount);
            }
            let nt = Balance { available: tb.available + deal.amount, frozen: tb.frozen };
            if total_fee == 0 {
                self.registry.mark_executed(&sn);
                self.ledger.set_balance(&deal.from, &mint, nb);
                if deal.amount > 0 {
                    self.ledger.set_balance(&deal.to, &mint, nt);
                }
                return Ok((event, Vec::new()));
            }
            let fee_account = self.state.fee_to_account;
            let fb = if bytes_eq(fee_account.as_slice(), deal.to.as_slice()) && deal.amount > 0 {
                nt
            } else if bytes_eq(fee_account.as_slice(), deal.from.as_slice()) {
                nb
            } else {
                self.ledger.balance_of(&fee_account, &mint)
            };
            if total_fee > u64::MAX - fb.available {
                return Err(ErrorCode::InvalidAmount);
            }
            let nf = Balance { available: fb.available + total_fee, frozen: fb.frozen };
            self.registry.mark_executed(&sn);
            self.ledger.set_balance(&deal.from, &mint, nb);
            if deal.amount > 0 {
                self.ledger.set_balance(&deal.to, &mint, nt);
            }
            self.ledger.set_balance(&fee_account, &mint, nf);
            Ok((event, Vec::new()))
        } else {
            self.registry.mark_executed(&sn);
            self.ledger.set_balance(&deal.from, &mint, nb);
            let mut outs: Vec<Payout> = Vec::new();
            if deal.amount > 0 {
                outs.push(Payout { to: out_key, amount: deal.amount });
            }
            if total_fee > 0 {
                outs.push(Payout { to: fee_user, amount: total_fee });
            }
            proof {
                if deal.amount > 0 && total_fee > 0 {
                    assert(outs@ =~= seq![
                        Payout { to: out_key, amount: deal.amount },
                        Payout { to: fee_user, amount: (deal.fee + deal.excess_fee) as u64 },
                    ]);
                } else if deal.amount > 0 {
                    assert(outs@ =~= seq![Payout { to: out_key, amount: deal.amount }]);
                } else if total_fee > 0 {
                    assert(outs@ =~= seq![
                        Payout { to: fee_user, amount: (deal.fee + deal.excess_fee) as u64 },
                    ]);
                }
            }
            Ok((event, outs))
        }
    }
}

} // verus!
