//! The ledger store: a singleton configuration record and a balance map
//! keyed by principal, with absent entries read as zero.

use vstd::prelude::*;

use crate::error::StdError;

verus! {

/// The singleton configuration record: the owner recorded at initialization
/// and never mutated afterwards.
pub struct Config {
    pub owner: String,
}

/// One record of the balance map: a principal and its current balance.
pub struct BalanceEntry {
    pub address: String,
    pub amount: u128,
}

/// First-match lookup over the entry list; `None` when no record exists for
/// the key. This is the mathematical reading of the balance map.
pub closed spec fn lookup(entries: Seq<BalanceEntry>, key: Seq<char>) -> Option<u128>
    decreases entries.len(),
{
    if entries.len() == 0 {
        None
    } else if entries[0].address@ == key {
        Some(entries[0].amount)
    } else {
        lookup(entries.drop_first(), key)
    }
}

/// The durable key-value surface of the ledger: the configuration slot and
/// the balance map. The host persists a value of this type between calls;
/// within one call it is the only shared mutable state.
pub struct Storage {
    config: Option<Config>,
    balances: Vec<BalanceEntry>,
}

impl Storage {
    /// The configuration slot as the contracts see it.
    pub closed spec fn spec_config(&self) -> Option<Config> {
        self.config
    }

    /// Whether initialization has recorded a configuration.
    pub open spec fn has_config(&self) -> bool {
        self.spec_config() is Some
    }

    /// The recorded owner's identity; meaningful only when `has_config()`.
    pub open spec fn spec_owner(&self) -> Seq<char> {
        self.spec_config()->Some_0.owner@
    }

    /// The balance record for a key, `None` when the principal was never
    /// credited.
    pub closed spec fn spec_lookup(&self, key: Seq<char>) -> Option<u128> {
        lookup(self.balances@, key)
    }

    /// Whether a balance record exists for the key.
    pub open spec fn has_entry(&self, key: Seq<char>) -> bool {
        self.spec_lookup(key) is Some
    }

    /// The balance of a principal, zero when no record exists.
    pub open spec fn spec_balance(&self, key: Seq<char>) -> u128 {
        match self.spec_lookup(key) {
            None => 0u128,
            Some(v) => v,
        }
    }

    /// An empty store: no configuration, no balance records.
    pub fn new() -> (s: Storage)
        ensures
            !s.has_config(),
            forall|k: Seq<char>| !(#[trigger] s.has_entry(k)),
    {
        let s = Storage { config: None, balances: Vec::new() };
        proof {
            assert forall|k: Seq<char>| !(#[trigger] s.has_entry(k)) by {
                assert(s.balances@.len() == 0);
            }
        }
        s
    }

    /// Read the configuration record; fails only when initialization was
    /// skipped.
    pub fn get_config(&self) -> (r: Result<Config, StdError>)
        ensures
            self.has_config() ==> (r matches Ok(c) && c.owner@ == self.spec_owner()),
            !self.has_config() ==> r == Result::<Config, StdError>::Err(StdError::NotInitialized),
    {
        match &self.config {
            None => Err(StdError::NotInitialized),
            Some(c) => Ok(Config { owner: c.owner.clone() }),
        }
    }

    /// Write the configuration record, leaving every balance unchanged.
    pub fn save_config(&mut self, config: Config)
        ensures
            final(self).spec_config() == Some(config),
            forall|k: Seq<char>|
                #[trigger] final(self).spec_lookup(k) == old(self).spec_lookup(k),
    {
        self.config = Some(config);
    }

    /// Read the balance record of a principal, `None` when absent.
    pub fn may_load_balance(&self, address: &String) -> (r: Option<u128>)
        ensures
            r == self.spec_lookup(address@),
    {
        proof {
            assert(self.balances@.skip(0) =~= self.balances@);
        }
        let mut i: usize = 0;
        while i < self.balances.len()
            invariant
                i <= self.balances.len(),
                lookup(self.balances@.skip(i as int), address@) == lookup(
                    self.balances@,
                    address@,
                ),
            decreases self.balances.len() - i,
        {
            if self.balances[i].address == *address {
                proof {
                    assert(self.balances@.skip(i as int)[0] == self.balances@[i as int]);
                }
                return Some(self.balances[i].amount);
            }
            proof {
                assert(self.balances@.skip(i as int).drop_first() =~= self.balances@.skip(
                    i as int + 1,
                ));
            }
            i = i + 1;
        }
        proof {
            assert(self.balances@.skip(self.balances@.len() as int).len() == 0);
        }
        None
    }

    /// Read the balance of a principal, zero when absent. Never fails.
    pub fn get_balance(&self, address: &String) -> (r: u128)
        ensures
            r == self.spec_balance(address@),
    {
        match self.may_load_balance(address) {
            None => 0,
            Some(v) => v,
        }
    }

    /// Write the balance record of a principal, creating it when absent, and
    /// leave every other record and the configuration unchanged.
    pub fn set_balance(&mut self, address: String, amount: u128)
        ensures
            final(self).has_entry(address@),
            final(self).spec_balance(address@) == amount,
            forall|k: Seq<char>|
                k != address@ ==> #[trigger] final(self).spec_lookup(k) == old(
                    self,
                ).spec_lookup(k),
            final(self).spec_config() == old(self).spec_config(),
    {
        let n = self.balances.len();
        let mut i: usize = 0;
        while i < n
            invariant
                n == self.balances.len(),
                i <= n,
                forall|j: int| 0 <= j < i ==> (#[trigger] self.balances@[j]).address@ != address@,
                *self == *old(self),
            decreases n - i,
        {
            if self.balances[i].address == address {
                let e = BalanceEntry { address, amount };
                proof {
                    lemma_lookup_update_hit(self.balances@, i as int, e);
                    assert forall|k: Seq<char>| k != e.address@ implies lookup(
                        self.balances@.update(i as int, e),
                        k,
                    ) == lookup(self.balances@, k) by {
                        lemma_lookup_update_frame(self.balances@, i as int, e, k);
                    }
                }
                self.balances[i] = e;
                return ;
            }
            i = i + 1;
        }
        let e = BalanceEntry { address, amount };
        proof {
            lemma_lookup_push_hit(self.balances@, e);
            assert forall|k: Seq<char>| k != e.address@ implies lookup(
                self.balances@.push(e),
                k,
            ) == lookup(self.balances@, k) by {
                lemma_lookup_push_frame(self.balances@, e, k);
            }
        }
        self.balances.push(e);
    }
}

/// Overwriting the first record that matches a key yields that key's new
/// value under `lookup`.
proof fn lemma_lookup_update_hit(s: Seq<BalanceEntry>, i: int, e: BalanceEntry)
    requires
        0 <= i < s.len(),
        forall|j: int| 0 <= j < i ==> (#[trigger] s[j]).address@ != e.address@,
        s[i].address@ == e.address@,
    ensures
        lookup(s.update(i, e), e.address@) == Some(e.amount),
    decreases i,
{
    let t = s.update(i, e);
    if i == 0 {
        assert(t[0] == e);
    } else {
        assert(t[0] == s[0]);
        assert(s[0].address@ != e.address@);
        assert(t.drop_first() =~= s.drop_first().update(i - 1, e));
        assert forall|j: int| 0 <= j < i - 1 implies (#[trigger] s.drop_first()[j]).address@
            != e.address@ by {
            assert(s.drop_first()[j] == s[j + 1]);
        }
        lemma_lookup_update_hit(s.drop_first(), i - 1, e);
    }
}

/// Overwriting a record whose key differs from `k` leaves `lookup` at `k`
/// unchanged.
proof fn lemma_lookup_update_frame(s: Seq<BalanceEntry>, i: int, e: BalanceEntry, k: Seq<char>)
    requires
        0 <= i < s.len(),
        s[i].address@ == e.address@,
        k != e.address@,
    ensures
        lookup(s.update(i, e), k) == lookup(s, k),
    decreases i,
{
    let t = s.update(i, e);
    if i == 0 {
        assert(t[0] == e);
        assert(t.drop_first() =~= s.drop_first());
    } else {
        assert(t[0] == s[0]);
        if s[0].address@ == k {
        } else {
            assert(t.drop_first() =~= s.drop_first().update(i - 1, e));
            lemma_lookup_update_frame(s.drop_first(), i - 1, e, k);
        }
    }
}

/// Appending a record for a key with no earlier record makes `lookup` find
/// the appended value.
proof fn lemma_lookup_push_hit(s: Seq<BalanceEntry>, e: BalanceEntry)
    requires
        forall|j: int| 0 <= j < s.len() ==> (#[trigger] s[j]).address@ != e.address@,
    ensures
        lookup(s.push(e), e.address@) == Some(e.amount),
    decreases s.len(),
{
    let t = s.push(e);
    if s.len() == 0 {
        assert(t[0] == e);
    } else {
        assert(t[0] == s[0]);
        assert(s[0].address@ != e.address@);
        assert(t.drop_first() =~= s.drop_first().push(e));
        assert forall|j: int| 0 <= j < s.drop_first().len() implies (#[trigger] s.drop_first()[j]).address@
            != e.address@ by {
            assert(s.drop_first()[j] == s[j + 1]);
        }
        lemma_lookup_push_hit(s.drop_first(), e);
    }
}

/// Appending a record for one key leaves `lookup` at every other key
/// unchanged.
proof fn lemma_lookup_push_frame(s: Seq<BalanceEntry>, e: BalanceEntry, k: Seq<char>)
    requires
        k != e.address@,
    ensures
        lookup(s.push(e), k) == lookup(s, k),
    decreases s.len(),
{
    let t = s.push(e);
    if s.len() == 0 {
        assert(t[0] == e);
        assert(t.drop_first() =~= s);
    } else {
        assert(t[0] == s[0]);
        if s[0].address@ == k {
        } else {
            assert(t.drop_first() =~= s.drop_first().push(e));
            lemma_lookup_push_frame(s.drop_first(), e, k);
        }
    }
}

} // verus!
