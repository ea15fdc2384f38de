//! A runtime held in memory: a ledger in which an account exists once it
//! holds the existential deposit, and the seed and index of the extrinsic
//! at hand.

use super::config::AccountData;
use super::config::AccountId;
use super::config::Balance;
use super::config::Config;
use super::config::LedgerError;
use super::config::Snapshot;
use std::collections::HashMap;
use vstd::prelude::*;

verus! {

broadcast use vstd::std_specs::hash::group_hash_axioms;

/// The balances of an account that was never heard of.
pub open spec fn no_balance() -> AccountData {
    AccountData { free: 0, reserved: 0 }
}

/// Whether an account with these balances exists under an existential
/// deposit: it holds something, and no less than the deposit, free and
/// reserved taken together.
pub open spec fn is_alive(data: AccountData, existential_deposit: Balance) -> bool {
    data.free + data.reserved > 0 && data.free + data.reserved >= existential_deposit
}

/// A ledger of free and reserved balances, with the context of one
/// extrinsic.
#[derive(Clone, Debug, PartialEq, Eq)]
pub struct Runtime {
    existential_deposit: Balance,
    accounts: HashMap<AccountId, AccountData>,
    random_seed: Vec<u8>,
    extrinsic_index: Option<u32>,
}

impl Runtime {
    /// The balances of an account: nothing where the ledger has no entry.
    spec fn balances(&self, who: AccountId) -> AccountData {
        if self.accounts@.contains_key(who) {
            self.accounts@[who]
        } else {
            no_balance()
        }
    }

    /// Whether an account exists.
    pub open spec fn alive(&self, who: AccountId) -> bool {
        is_alive(self.snapshot().account(who), self.snapshot().existential_deposit)
    }

    /// A ledger without accounts, with an empty seed and outside of any
    /// extrinsic.
    pub fn new(existential_deposit: Balance) -> (runtime: Runtime)
        ensures
            runtime.snapshot().existential_deposit == existential_deposit,
            runtime.snapshot().seed == Seq::<u8>::empty(),
            runtime.snapshot().index == None::<u32>,
            forall|who: AccountId| #[trigger] runtime.snapshot().account(who) == no_balance(),
    {
        Runtime {
            existential_deposit,
            accounts: HashMap::new(),
            random_seed: Vec::new(),
            extrinsic_index: None,
        }
    }

    /// The least total balance with which an account exists.
    pub fn existential_deposit(&self) -> (minimum: Balance)
        ensures
            minimum == self.snapshot().existential_deposit,
    {
        self.existential_deposit
    }

    /// Sets the seed of the block.
    pub fn set_random_seed(&mut self, seed: Vec<u8>)
        ensures
            final(self).snapshot().seed == seed@,
            final(self).snapshot().existential_deposit == old(self).snapshot().existential_deposit,
            final(self).snapshot().index == old(self).snapshot().index,
            final(self).snapshot().same_balances(old(self).snapshot()),
    {
        self.random_seed = seed;
    }

    /// Sets the position of the extrinsic at hand.
    pub fn set_extrinsic_index(&mut self, index: Option<u32>)
        ensures
            final(self).snapshot().index == index,
            final(self).snapshot().existential_deposit == old(self).snapshot().existential_deposit,
            final(self).snapshot().seed == old(self).snapshot().seed,
            final(self).snapshot().same_balances(old(self).snapshot()),
    {
        self.extrinsic_index = index;
    }

    /// Both balances of an account.
    pub fn account(&self, who: AccountId) -> (data: AccountData)
        ensures
            data == self.snapshot().account(who),
    {
        match self.accounts.get(&who) {
            Some(data) => *data,
            None => AccountData { free: 0, reserved: 0 },
        }
    }

    /// The reserved balance of an account.
    pub fn reserved_balance(&self, who: AccountId) -> (reserved: Balance)
        ensures
            reserved == self.snapshot().account(who).reserved,
    {
        self.account(who).reserved
    }

    /// Gives an account the free balance `value`, out of nothing.
    pub fn make_free_balance_be(&mut self, who: AccountId, value: Balance)
        ensures
            final(self).snapshot().same_setting(old(self).snapshot()),
            final(self).snapshot().others_untouched(old(self).snapshot(), who, who),
            final(self).snapshot().account(who) == (AccountData {
                free: value,
                ..old(self).snapshot().account(who)
            }),
    {
        let data = self.account(who);
        self.put(who, AccountData { free: value, reserved: data.reserved });
    }

    /// Whether an account exists.
    pub fn account_exists(&self, who: AccountId) -> (exists: bool)
        ensures
            exists == self.alive(who),
    {
        let data = self.account(who);
        exists_with(data, self.existential_deposit)
    }

    fn put(&mut self, who: AccountId, data: AccountData)
        ensures
            final(self).snapshot().same_setting(old(self).snapshot()),
            final(self).snapshot().others_untouched(old(self).snapshot(), who, who),
            final(self).snapshot().account(who) == data,
    {
        self.accounts.insert(who, data);
    }
}

/// Whether an account with these balances exists.
fn exists_with(data: AccountData, existential_deposit: Balance) -> (alive: bool)
    ensures
        alive == is_alive(data, existential_deposit),
{
    (data.free > 0 || data.reserved > 0) && reaches(data, existential_deposit)
}

impl Config for Runtime {
    closed spec fn snapshot(&self) -> Snapshot {
        Snapshot {
            seed: self.random_seed@,
            index: self.extrinsic_index,
            existential_deposit: self.existential_deposit,
            accounts: |who: AccountId| self.balances(who),
        }
    }

    /// Granted where the free balance covers `value` and the reserved
    /// balance has room for it.
    open spec fn can_reserve(&self, who: AccountId, value: Balance) -> bool {
        let data = self.snapshot().account(who);
        data.free >= value && data.reserved + value <= Balance::MAX
    }

    /// Granted where the beneficiary exists, `slashed` has `value` in
    /// reserve and the beneficiary's free balance has room for it.
    open spec fn can_repatriate(
        &self,
        slashed: AccountId,
        beneficiary: AccountId,
        value: Balance,
    ) -> bool {
        &&& self.alive(beneficiary)
        &&& self.snapshot().account(slashed).reserved >= value
        &&& self.snapshot().account(beneficiary).free + value <= Balance::MAX
    }

    /// Granted at once where nothing would move. Else `source` must have
    /// `value` free, `dest` must have room for it and exist once it has it,
    /// and `source` must stay in existence unless `allow_death` is set.
    open spec fn can_transfer(
        &self,
        source: AccountId,
        dest: AccountId,
        value: Balance,
        allow_death: bool,
    ) -> bool {
        let from = self.snapshot().account(source);
        let to = self.snapshot().account(dest);
        value == 0 || source == dest || {
            &&& from.free >= value
            &&& to.free + value <= Balance::MAX
            &&& to.free + value + to.reserved >= self.snapshot().existential_deposit
            &&& allow_death || from.free - value + from.reserved >= self.snapshot().existential_deposit
        }
    }

    fn random_seed(&self) -> (seed: Vec<u8>) {
        self.random_seed.clone()
    }

    fn extrinsic_index(&self) -> (index: Option<u32>) {
        self.extrinsic_index
    }

    fn free_balance(&self, who: AccountId) -> (free: Balance) {
        self.account(who).free
    }

    fn reserve(&mut self, who: AccountId, value: Balance) -> (r: Result<(), LedgerError>) {
        let data = self.account(who);
        if data.free < value || data.reserved > Balance::MAX - value {
            return Err(LedgerError::InsufficientBalance);
        }
        self.put(who, AccountData { free: data.free - value, reserved: data.reserved + value });
        Ok(())
    }

    fn repatriate_reserved(
        &mut self,
        slashed: AccountId,
        beneficiary: AccountId,
        value: Balance,
    ) -> (r: Result<(), LedgerError>) {
        let from = self.account(slashed);
        let to = self.account(beneficiary);
        if !exists_with(to, self.existential_deposit) || from.reserved < value || to.free
            > Balance::MAX - value {
            return Err(LedgerError::RepatriateFailure);
        }
        if slashed == beneficiary {
            self.put(
                slashed,
                AccountData { free: from.free + value, reserved: from.reserved - value },
            );
        } else {
            self.put(slashed, AccountData { free: from.free, reserved: from.reserved - value });
            self.put(beneficiary, AccountData { free: to.free + value, reserved: to.reserved });
        }
        Ok(())
    }

    fn transfer(
        &mut self,
        source: AccountId,
        dest: AccountId,
        value: Balance,
        allow_death: bool,
    ) -> (r: Result<(), LedgerError>) {
        if value == 0 || source == dest {
            return Ok(());
        }
        let from = self.account(source);
        let to = self.account(dest);
        if from.free < value || to.free > Balance::MAX - value {
            return Err(LedgerError::TransferFailure);
        }
        let credited = AccountData { free: to.free + value, reserved: to.reserved };
        let debited = AccountData { free: from.free - value, reserved: from.reserved };
        if !reaches(credited, self.existential_deposit) {
            return Err(LedgerError::TransferFailure);
        }
        if !allow_death && !reaches(debited, self.existential_deposit) {
            return Err(LedgerError::TransferFailure);
        }
        self.put(source, debited);
        self.put(dest, credited);
        Ok(())
    }
}

/// Whether the two balances together come to the existential deposit.
fn reaches(data: AccountData, existential_deposit: Balance) -> (enough: bool)
    ensures
        enough == (data.free + data.reserved >= existential_deposit),
{
    if data.free >= existential_deposit {
        true
    } else {
        data.reserved >= existential_deposit - data.free
    }
}

} // verus!
