//! The two keyed stores of the ledger. `Ledger` maps an (entity, asset) pair
//! to a balance record, with get-or-default semantics: an account that was
//! never written holds zero in both partitions. `Registry` is the
//! replay-protection keystore: the set of serial numbers that were claimed,
//! each claimable exactly once.

use vstd::prelude::*;
use vstd::pervasive::VecAdditionalExecFns;
use crate::codec::bytes_eq;
use crate::errors::ErrorCode;
use crate::state::{Balance, TransactionRecord, UserTokenAccount};

verus! {

/// The key under which a ledger entry stands: the owning entity and the asset
/// the record is denominated in.
pub open spec fn entry_key(e: ([u8; 32], UserTokenAccount)) -> (Seq<u8>, Seq<u8>) {
    (e.0@, e.1.mint@)
}

/// The balance a ledger entry holds.
pub open spec fn entry_bal(e: ([u8; 32], UserTokenAccount)) -> Balance {
    Balance { available: e.1.available, frozen: e.1.frozen }
}

/// The mapping a sequence of entries represents.
pub open spec fn as_map(s: Seq<([u8; 32], UserTokenAccount)>) -> Map<(Seq<u8>, Seq<u8>), Balance>
    decreases s.len(),
{
    if s.len() == 0 {
        Map::empty()
    } else {
        as_map(s.drop_last()).insert(entry_key(s.last()), entry_bal(s.last()))
    }
}

/// No two entries share a key.
pub open spec fn unique_keys(s: Seq<([u8; 32], UserTokenAccount)>) -> bool {
    forall|i: int, j: int|
        0 <= i < j < s.len() ==> #[trigger] entry_key(s[i]) != #[trigger] entry_key(s[j])
}

/// The balance a mapping gives an account, with the zero default for an
/// account that was never written.
pub open spec fn bal_of(
    m: Map<(Seq<u8>, Seq<u8>), Balance>,
    account: Seq<u8>,
    mint: Seq<u8>,
) -> Balance {
    if m.contains_key((account, mint)) {
        m[(account, mint)]
    } else {
        Balance::zero()
    }
}

proof fn lemma_unique_drop_last(s: Seq<([u8; 32], UserTokenAccount)>)
    requires
        unique_keys(s),
        s.len() > 0,
    ensures
        unique_keys(s.drop_last()),
{
    let t = s.drop_last();
    assert forall|i: int, j: int| 0 <= i < j < t.len() implies #[trigger] entry_key(t[i])
        != #[trigger] entry_key(t[j]) by {
        assert(t[i] == s[i]);
        assert(t[j] == s[j]);
    }
}

proof fn lemma_as_map_contains(s: Seq<([u8; 32], UserTokenAccount)>, k: (Seq<u8>, Seq<u8>))
    ensures
        as_map(s).contains_key(k) <==> (exists|i: int|
            0 <= i < s.len() && #[trigger] entry_key(s[i]) == k),
    decreases s.len(),
{
    if s.len() == 0 {
    } else {
        let t = s.drop_last();
        lemma_as_map_contains(t, k);
        if entry_key(s.last()) == k {
            assert(entry_key(s[s.len() - 1]) == k);
        } else {
            if exists|i: int| 0 <= i < s.len() && #[trigger] entry_key(s[i]) == k {
                let i = choose|i: int| 0 <= i < s.len() && #[trigger] entry_key(s[i]) == k;
                assert(i < s.len() - 1);
                assert(t[i] == s[i]);
                assert(entry_key(t[i]) == k);
            }
            if exists|i: int| 0 <= i < t.len() && #[trigger] entry_key(t[i]) == k {
                let i = choose|i: int| 0 <= i < t.len() && #[trigger] entry_key(t[i]) == k;
                assert(s[i] == t[i]);
                assert(entry_key(s[i]) == k);
            }
        }
    }
}

proof fn lemma_as_map_index(s: Seq<([u8; 32], UserTokenAccount)>, i: int)
    requires
        unique_keys(s),
        0 <= i < s.len(),
    ensures
        as_map(s).contains_key(entry_key(s[i])),
        as_map(s)[entry_key(s[i])] == entry_bal(s[i]),
    decreases s.len(),
{
    if i == s.len() - 1 {
    } else {
        let t = s.drop_last();
        lemma_unique_drop_last(s);
        assert(t[i] == s[i]);
        lemma_as_map_index(t, i);
        assert(entry_key(s[s.len() - 1]) != entry_key(s[i]));
    }
}

proof fn lemma_as_map_update(
    s: Seq<([u8; 32], UserTokenAccount)>,
    i: int,
    e: ([u8; 32], UserTokenAccount),
)
    requires
        unique_keys(s),
        0 <= i < s.len(),
        entry_key(e) == entry_key(s[i]),
    ensures
        as_map(s.update(i, e)) == as_map(s).insert(entry_key(e), entry_bal(e)),
    decreases s.len(),
{
    let s2 = s.update(i, e);
    if i == s.len() - 1 {
        assert(s2.drop_last() =~= s.drop_last());
        assert(s2.last() == e);
        assert(as_map(s2) =~= as_map(s).insert(entry_key(e), entry_bal(e)));
    } else {
        let t = s.drop_last();
        lemma_unique_drop_last(s);
        assert(t[i] == s[i]);
        lemma_as_map_update(t, i, e);
        assert(s2.drop_last() =~= t.update(i, e));
        assert(s2.last() == s.last());
        assert(entry_key(s[s.len() - 1]) != entry_key(s[i]));
        assert(as_map(s2) =~= as_map(s).insert(entry_key(e), entry_bal(e)));
    }
}

proof fn lemma_as_map_push(s: Seq<([u8; 32], UserTokenAccount)>, e: ([u8; 32], UserTokenAccount))
    ensures
        as_map(s.push(e)) == as_map(s).insert(entry_key(e), entry_bal(e)),
{
    assert(s.push(e).drop_last() =~= s);
    assert(s.push(e).last() == e);
}

/// The balance store: a mapping from (entity, asset) to a balance record,
/// created lazily with zero balances on first write, never deleted.
pub struct Ledger {
    entries: Vec<([u8; 32], UserTokenAccount)>,
}

impl View for Ledger {
    type V = Map<(Seq<u8>, Seq<u8>), Balance>;

    closed spec fn view(&self) -> Map<(Seq<u8>, Seq<u8>), Balance> {
        as_map(self.entries@)
    }
}

impl Ledger {
    /// The store's internal invariant: one record per (entity, asset) pair.
    pub closed spec fn wf(self) -> bool {
        unique_keys(self.entries@)
    }

    /// An empty store: every account reads as zero.
    pub fn new() -> (r: Ledger)
        ensures
            r.wf(),
            r@ == Map::<(Seq<u8>, Seq<u8>), Balance>::empty(),
    {
        Ledger { entries: Vec::new() }
    }

    fn find(&self, account: &[u8; 32], mint: &[u8; 32]) -> (r: Option<usize>)
        ensures
            match r {
                Some(i) => i < self.entries@.len() && entry_key(self.entries@[i as int]) == (
                    account@,
                    mint@,
                ),
                None => forall|j: int|
                    0 <= j < self.entries@.len() ==> #[trigger] entry_key(self.entries@[j]) != (
                        account@,
                        mint@,
                    ),
            },
    {
        let mut i: usize = 0;
        while i < self.entries.len()
            invariant
                i <= self.entries@.len(),
                forall|j: int|
                    0 <= j < i ==> #[trigger] entry_key(self.entries@[j]) != (account@, mint@),
            decreases self.entries@.len() - i,
        {
            let e = &self.entries[i];
            if bytes_eq(e.0.as_slice(), account.as_slice()) && bytes_eq(
                e.1.mint.as_slice(),
                mint.as_slice(),
            ) {
                return Some(i);
            }
            i = i + 1;
        }
        None
    }

    /// The balance of an account, zero when it was never written.
    pub fn balance_of(&self, account: &[u8; 32], mint: &[u8; 32]) -> (r: Balance)
        requires
            self.wf(),
        ensures
            r == bal_of(self@, account@, mint@),
    {
        match self.find(account, mint) {
            Some(i) => {
                proof {
                    lemma_as_map_index(self.entries@, i as int);
                }
                let e = &self.entries[i];
                Balance { available: e.1.available, frozen: e.1.frozen }
            },
            None => {
                proof {
                    lemma_as_map_contains(self.entries@, (account@, mint@));
                }
                Balance::new_zero()
            },
        }
    }

    /// Debits an account's available partition, failing with
    /// `InsufficientAvailable` rather than underflowing; a failing debit
    /// changes nothing.
    pub fn debit_available(&mut self, account: &[u8; 32], mint: &[u8; 32], amount: u64) -> (r:
        Result<(), ErrorCode>)
        requires
            old(self).wf(),
        ensures
            final(self).wf(),
            ({
                let b = bal_of(old(self)@, account@, mint@);
                match r {
                    Ok(_) => b.available >= amount && final(self)@ == old(self)@.insert(
                        (account@, mint@),
                        Balance { available: (b.available - amount) as u64, frozen: b.frozen },
                    ),
                    Err(e) => e == ErrorCode::InsufficientAvailable && b.available < amount
                        && *final(self) == *old(self),
                }
            }),
    {
        let b = self.balance_of(account, mint);
        if b.available < amount {
            return Err(ErrorCode::InsufficientAvailable);
        }
        self.set_balance(account, mint, Balance { available: b.available - amount, frozen: b.frozen });
        Ok(())
    }

    /// Credits an account's available partition, failing with `InvalidAmount`
    /// rather than overflowing; a failing credit changes nothing.
    pub fn credit_available(&mut self, account: &[u8; 32], mint: &[u8; 32], amount: u64) -> (r:
        Result<(), ErrorCode>)
        requires
            old(self).wf(),
        ensures
            final(self).wf(),
            ({
                let b = bal_of(old(self)@, account@, mint@);
                match r {
                    Ok(_) => b.available + amount <= u64::MAX && final(self)@ == old(self)@.insert(
                        (account@, mint@),
                        Balance { available: (b.available + amount) as u64, frozen: b.frozen },
                    ),
                    Err(e) => e == ErrorCode::InvalidAmount && b.available + amount > u64::MAX
                        && *final(self) == *old(self),
                }
            }),
    {
        let b = self.balance_of(account, mint);
        if amount > u64::MAX - b.available {
            return Err(ErrorCode::InvalidAmount);
        }
        self.set_balance(account, mint, Balance { available: b.available + amount, frozen: b.frozen });
        Ok(())
    }

    /// Debits an account's frozen partition, failing with
    /// `InsufficientFrozen` rather than underflowing; a failing debit changes
    /// nothing.
    pub fn debit_frozen(&mut self, account: &[u8; 32], mint: &[u8; 32], amount: u64) -> (r: Result<
        (),
        ErrorCode,
    >)
        requires
            old(self).wf(),
        ensures
            final(self).wf(),
            ({
                let b = bal_of(old(self)@, account@, mint@);
                match r {
                    Ok(_) => b.frozen >= amount && final(self)@ == old(self)@.insert(
                        (account@, mint@),
                        Balance { available: b.available, frozen: (b.frozen - amount) as u64 },
                    ),
                    Err(e) => e == ErrorCode::InsufficientFrozen && b.frozen < amount
                        && *final(self) == *old(self),
                }
            }),
    {
        let b = self.balance_of(account, mint);
        if b.frozen < amount {
            return Err(ErrorCode::InsufficientFrozen);
        }
        self.set_balance(account, mint, Balance { available: b.available, frozen: b.frozen - amount });
        Ok(())
    }

    /// Credits an account's frozen partition, failing with `InvalidAmount`
    /// rather than overflowing; a failing credit changes nothing.
    pub fn credit_frozen(&mut self, account: &[u8; 32], mint: &[u8; 32], amount: u64) -> (r: Result<
        (),
        ErrorCode,
    >)
        requires
            old(self).wf(),
        ensures
            final(self).wf(),
            ({
                let b = bal_of(old(self)@, account@, mint@);
                match r {
                    Ok(_) => b.frozen + amount <= u64::MAX && final(self)@ == old(self)@.insert(
                        (account@, mint@),
                        Balance { available: b.available, frozen: (b.frozen + amount) as u64 },
                    ),
                    Err(e) => e == ErrorCode::InvalidAmount && b.frozen + amount > u64::MAX
                        && *final(self) == *old(self),
                }
            }),
    {
        let b = self.balance_of(account, mint);
        if amount > u64::MAX - b.frozen {
            return Err(ErrorCode::InvalidAmount);
        }
        self.set_balance(account, mint, Balance { available: b.available, frozen: b.frozen + amount });
        Ok(())
    }

    /// Writes an account's balance, creating the record and binding its asset
    /// on first write.
    pub fn set_balance(&mut self, account: &[u8; 32], mint: &[u8; 32], bal: Balance)
        requires
            old(self).wf(),
        ensures
            final(self).wf(),
            final(self)@ == old(self)@.insert((account@, mint@), bal),
    {
        let record = UserTokenAccount { mint: *mint, available: bal.available, frozen: bal.frozen };
        let entry = (*account, record);
        proof {
            assert(entry_key(entry) == (account@, mint@));
        }
        match self.find(account, mint) {
            Some(i) => {
                proof {
                    lemma_as_map_update(self.entries@, i as int, entry);
                    let s2 = self.entries@.update(i as int, entry);
                    assert forall|a: int, b: int| 0 <= a < b < s2.len() implies #[trigger] entry_key(
                        s2[a],
                    ) != #[trigger] entry_key(s2[b]) by {
                        if a != i as int {
                            assert(s2[a] == self.entries@[a]);
                        }
                        if b != i as int {
                            assert(s2[b] == self.entries@[b]);
                        }
                        assert(entry_key(self.entries@[a]) != entry_key(self.entries@[b]));
                    }
                }
                self.entries.set(i, entry);
            },
            None => {
                proof {
                    lemma_as_map_push(self.entries@, entry);
                    let s2 = self.entries@.push(entry);
                    assert forall|a: int, b: int| 0 <= a < b < s2.len() implies #[trigger] entry_key(
                        s2[a],
                    ) != #[trigger] entry_key(s2[b]) by {
                        assert(s2[a] == self.entries@[a]);
                        if b < s2.len() - 1 {
                            assert(s2[b] == self.entries@[b]);
                            assert(entry_key(self.entries@[a]) != entry_key(self.entries@[b]));
                        } else {
                            assert(s2[b] == entry);
                            assert(entry_key(self.entries@[a]) != (account@, mint@));
                        }
                    }
                }
                self.entries.push(entry);
            },
        }
    }
}

/// The set of serial numbers a sequence of claims represents.
pub open spec fn as_set(s: Seq<[u8; 32]>) -> Set<Seq<u8>>
    decreases s.len(),
{
    if s.len() == 0 {
        Set::empty()
    } else {
        as_set(s.drop_last()).insert(s.last()@)
    }
}

proof fn lemma_as_set_contains(s: Seq<[u8; 32]>, k: Seq<u8>)
    ensures
        as_set(s).contains(k) <==> (exists|i: int| 0 <= i < s.len() && #[trigger] s[i]@ == k),
    decreases s.len(),
{
    if s.len() == 0 {
    } else {
        let t = s.drop_last();
        lemma_as_set_contains(t, k);
        if s.last()@ == k {
            assert(s[s.len() - 1]@ == k);
        } else {
            if exists|i: int| 0 <= i < s.len() && #[trigger] s[i]@ == k {
                let i = choose|i: int| 0 <= i < s.len() && #[trigger] s[i]@ == k;
                assert(i < s.len() - 1);
                assert(t[i] == s[i]);
            }
            if exists|i: int| 0 <= i < t.len() && #[trigger] t[i]@ == k {
                let i = choose|i: int| 0 <= i < t.len() && #[trigger] t[i]@ == k;
                assert(s[i] == t[i]);
            }
        }
    }
}

proof fn lemma_as_set_push(s: Seq<[u8; 32]>, e: [u8; 32])
    ensures
        as_set(s.push(e)) == as_set(s).insert(e@),
{
    assert(s.push(e).drop_last() =~= s);
    assert(s.push(e).last() == e);
}

/// The idempotency keystore: the set of serial numbers that were claimed. A
/// serial that was never claimed reads as not executed; a claimed one stays
/// claimed forever.
pub struct Registry {
    claimed: Vec<[u8; 32]>,
}

impl View for Registry {
    type V = Set<Seq<u8>>;

    closed spec fn view(&self) -> Set<Seq<u8>> {
        as_set(self.claimed@)
    }
}

impl Registry {
    /// An empty registry: no serial was claimed.
    pub fn new() -> (r: Registry)
        ensures
            r@ == Set::<Seq<u8>>::empty(),
    {
        Registry { claimed: Vec::new() }
    }

    /// Whether a serial number was claimed.
    pub fn is_executed(&self, sn: &[u8; 32]) -> (r: bool)
        ensures
            r == self@.contains(sn@),
    {
        let mut i: usize = 0;
        proof {
            lemma_as_set_contains(self.claimed@, sn@);
        }
        while i < self.claimed.len()
            invariant
                i <= self.claimed@.len(),
                forall|j: int| 0 <= j < i ==> #[trigger] self.claimed@[j]@ != sn@,
                self@.contains(sn@) <==> (exists|j: int|
                    0 <= j < self.claimed@.len() && #[trigger] self.claimed@[j]@ == sn@),
            decreases self.claimed@.len() - i,
        {
            if bytes_eq(self.claimed[i].as_slice(), sn.as_slice()) {
                return true;
            }
            i = i + 1;
        }
        false
    }

    /// The replay-protection record of a serial number.
    pub fn get_record(&self, sn: &[u8; 32]) -> (r: TransactionRecord)
        ensures
            r.executed == self@.contains(sn@),
    {
        TransactionRecord { executed: self.is_executed(sn) }
    }

    /// Marks a serial number as executed; the caller has already checked that
    /// it never was.
    pub fn mark_executed(&mut self, sn: &[u8; 32])
        requires
            !old(self)@.contains(sn@),
        ensures
            final(self)@ == old(self)@.insert(sn@),
    {
        proof {
            lemma_as_set_push(self.claimed@, *sn);
        }
        self.claimed.push(*sn);
    }

    /// Claims a serial number: fails if it was claimed before, and once
    /// claimed it can never be claimed again.
    pub fn claim(&mut self, sn: &[u8; 32]) -> (r: Result<(), ErrorCode>)
        ensures
            match r {
                Ok(_) => !old(self)@.contains(sn@) && final(self)@ == old(self)@.insert(sn@),
                Err(e) => e == ErrorCode::AlreadyExecuted && old(self)@.contains(sn@)
                    && *final(self) == *old(self),
            },
    {
        if self.is_executed(sn) {
            return Err(ErrorCode::AlreadyExecuted);
        }
        proof {
            lemma_as_set_push(self.claimed@, *sn);
        }
        self.claimed.push(*sn);
        Ok(())
    }
}

} // verus!
