//! What the pallet asks of the runtime that hosts it: a ledger of balances
//! in which funds can be set aside, and the seed and position of the
//! extrinsic that is being executed.

use vstd::prelude::*;

verus! {

/// Identity of an account.
pub type AccountId = u64;

/// Index of an asset.
pub type KittyIndex = u32;

/// An amount of currency.
pub type Balance = u64;

/// The two balances of one account.
#[derive(Clone, Copy, Debug, PartialEq, Eq, Structural)]
pub struct AccountData {
    /// What the account can spend.
    pub free: Balance,
    /// What is set aside: still the account's, but not spendable.
    pub reserved: Balance,
}

/// Why the ledger refused a request.
#[derive(Clone, Copy, Debug, PartialEq, Eq, Structural)]
pub enum LedgerError {
    /// The amount could not be moved to the reserved balance.
    InsufficientBalance,
    /// The reserved amount could not be moved in full to the beneficiary.
    RepatriateFailure,
    /// The transfer was not made.
    TransferFailure,
}

/// What the pallet can see of its runtime at one moment.
pub struct Snapshot {
    /// The seed of the block that is being executed.
    pub seed: Seq<u8>,
    /// The position in its block of the extrinsic that is being executed.
    pub index: Option<u32>,
    /// The least total balance with which an account exists.
    pub existential_deposit: Balance,
    /// The balances of every account.
    pub accounts: spec_fn(AccountId) -> AccountData,
}

impl Snapshot {
    /// The balances of an account.
    pub open spec fn account(self, who: AccountId) -> AccountData {
        (self.accounts)(who)
    }

    /// What an account holds, free and reserved together.
    pub open spec fn total(self, who: AccountId) -> int {
        self.account(who).free + self.account(who).reserved
    }

    /// Seed, extrinsic index and existential deposit are those of `before`.
    pub open spec fn same_setting(self, before: Snapshot) -> bool {
        &&& self.seed == before.seed
        &&& self.index == before.index
        &&& self.existential_deposit == before.existential_deposit
    }

    /// Every account but `a` and `b` has the balances it had in `before`.
    pub open spec fn others_untouched(self, before: Snapshot, a: AccountId, b: AccountId) -> bool {
        forall|other: AccountId|
            other != a && other != b ==> #[trigger] self.account(other) == before.account(other)
    }

    /// Every account has the balances it had in `before`.
    pub open spec fn same_balances(self, before: Snapshot) -> bool {
        forall|who: AccountId| #[trigger] self.account(who) == before.account(who)
    }

    /// This is `before` with `value` moved from the free to the reserved
    /// balance of `who`.
    pub open spec fn is_reserve(self, before: Snapshot, who: AccountId, value: Balance) -> bool {
        &&& self.same_setting(before)
        &&& self.others_untouched(before, who, who)
        &&& self.account(who).free == before.account(who).free - value
        &&& self.account(who).reserved == before.account(who).reserved + value
    }

    /// This is `before` with `value` moved from the reserved balance of
    /// `slashed` to the free balance of `beneficiary`.
    pub open spec fn is_repatriation(
        self,
        before: Snapshot,
        slashed: AccountId,
        beneficiary: AccountId,
        value: Balance,
    ) -> bool {
        &&& self.same_setting(before)
        &&& self.others_untouched(before, slashed, beneficiary)
        &&& self.account(slashed).reserved == before.account(slashed).reserved - value
        &&& self.account(beneficiary).free == before.account(beneficiary).free + value
        &&& slashed != beneficiary ==> {
            &&& self.account(slashed).free == before.account(slashed).free
            &&& self.account(beneficiary).reserved == before.account(beneficiary).reserved
        }
    }

    /// This is `before` with `value` moved from the free balance of `source`
    /// to that of `dest`; nothing moves where the two are one account.
    pub open spec fn is_transfer(
        self,
        before: Snapshot,
        source: AccountId,
        dest: AccountId,
        value: Balance,
    ) -> bool {
        &&& self.same_setting(before)
        &&& self.others_untouched(before, source, dest)
        &&& self.account(source).reserved == before.account(source).reserved
        &&& self.account(dest).reserved == before.account(dest).reserved
        &&& if source == dest {
            self.account(source).free == before.account(source).free
        } else {
            &&& self.account(source).free == before.account(source).free - value
            &&& self.account(dest).free == before.account(dest).free + value
        }
    }
}

/// Setting funds aside leaves the account with the same total.
pub proof fn reserve_keeps_the_total(
    after: Snapshot,
    before: Snapshot,
    who: AccountId,
    value: Balance,
)
    requires
        after.is_reserve(before, who, value),
    ensures
        after.total(who) == before.total(who),
{
}

/// Releasing reserved funds to a beneficiary neither makes nor destroys
/// funds: the two accounts together hold what they held.
pub proof fn repatriation_keeps_the_sum(
    after: Snapshot,
    before: Snapshot,
    slashed: AccountId,
    beneficiary: AccountId,
    value: Balance,
)
    requires
        after.is_repatriation(before, slashed, beneficiary, value),
    ensures
        slashed == beneficiary ==> after.total(slashed) == before.total(slashed),
        slashed != beneficiary ==> after.total(slashed) + after.total(beneficiary)
            == before.total(slashed) + before.total(beneficiary),
        slashed != beneficiary ==> after.total(slashed) == before.total(slashed) - value,
{
}

/// A transfer neither makes nor destroys funds: the two accounts together
/// hold what they held.
pub proof fn transfer_keeps_the_sum(
    after: Snapshot,
    before: Snapshot,
    source: AccountId,
    dest: AccountId,
    value: Balance,
)
    requires
        after.is_transfer(before, source, dest, value),
    ensures
        source == dest ==> after.total(source) == before.total(source),
        source != dest ==> after.total(source) + after.total(dest) == before.total(source)
            + before.total(dest),
{
}

/// The runtime that hosts the pallet.
///
/// The pallet sees of it the seed and index of the extrinsic at hand and the
/// balances of every account. Which requests the ledger grants is its own
/// affair, told by `can_reserve`, `can_repatriate` and `can_transfer`. A
/// request that is granted moves exactly the amount asked for; one that is
/// refused changes nothing.
pub trait Config: Sized {
    /// What the pallet can see of the runtime.
    spec fn snapshot(&self) -> Snapshot;

    /// Whether `value` can move from the free to the reserved balance of
    /// `who`.
    spec fn can_reserve(&self, who: AccountId, value: Balance) -> bool;

    /// Whether `value` can move from the reserved balance of `slashed` to
    /// the free balance of `beneficiary`.
    spec fn can_repatriate(
        &self,
        slashed: AccountId,
        beneficiary: AccountId,
        value: Balance,
    ) -> bool;

    /// Whether `value` can move from the free balance of `source` to that of
    /// `dest`, where `allow_death` tells whether `source` may be left with
    /// less than an account needs to exist.
    spec fn can_transfer(
        &self,
        source: AccountId,
        dest: AccountId,
        value: Balance,
        allow_death: bool,
    ) -> bool;

    /// The seed of the block that is being executed.
    fn random_seed(&self) -> (seed: Vec<u8>)
        ensures
            seed@ == self.snapshot().seed,
    ;

    /// The position in its block of the extrinsic that is being executed.
    fn extrinsic_index(&self) -> (index: Option<u32>)
        ensures
            index == self.snapshot().index,
    ;

    /// The free balance of an account.
    fn free_balance(&self, who: AccountId) -> (free: Balance)
        ensures
            free == self.snapshot().account(who).free,
    ;

    /// Moves `value` from the free balance of `who` to its reserved balance.
    fn reserve(&mut self, who: AccountId, value: Balance) -> (r: Result<(), LedgerError>)
        ensures
            r is Ok <==> old(self).can_reserve(who, value),
            r is Ok ==> final(self).snapshot().is_reserve(old(self).snapshot(), who, value),
            r is Err ==> r == Err::<(), LedgerError>(LedgerError::InsufficientBalance),
            r is Err ==> *final(self) == *old(self),
    ;

    /// Moves `value` from the reserved balance of `slashed` to the free
    /// balance of `beneficiary`, in full or not at all.
    fn repatriate_reserved(
        &mut self,
        slashed: AccountId,
        beneficiary: AccountId,
        value: Balance,
    ) -> (r: Result<(), LedgerError>)
        ensures
            r is Ok <==> old(self).can_repatriate(slashed, beneficiary, value),
            r is Ok ==> final(self).snapshot().is_repatriation(
                old(self).snapshot(),
                slashed,
                beneficiary,
                value,
            ),
            r is Err ==> r == Err::<(), LedgerError>(LedgerError::RepatriateFailure),
            r is Err ==> *final(self) == *old(self),
    ;

    /// Moves `value` from the free balance of `source` to that of `dest`.
    fn transfer(
        &mut self,
        source: AccountId,
        dest: AccountId,
        value: Balance,
        allow_death: bool,
    ) -> (r: Result<(), LedgerError>)
        ensures
            r is Ok <==> old(self).can_transfer(source, dest, value, allow_death),
            r is Ok ==> final(self).snapshot().is_transfer(old(self).snapshot(), source, dest, value),
            r is Err ==> r == Err::<(), LedgerError>(LedgerError::TransferFailure),
            r is Err ==> *final(self) == *old(self),
    ;
}

} // verus!
