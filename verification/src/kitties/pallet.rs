//! The asset store and the five operations of the marketplace.

use super::config::AccountId;
use super::config::Balance;
use super::config::Config;
use super::config::KittyIndex;
use super::genome::mix_dna;
use super::genome::mix_genome;
use super::genome::random_dna;
use super::genome::random_value;
use super::genome::Kitty;
use vstd::bytes::spec_u64_from_le_bytes;
use vstd::prelude::*;

verus! {

/// What a successful operation announces.
#[derive(Clone, Copy, Debug, PartialEq, Eq, Structural)]
pub enum Event {
    /// An asset came into being, minted or bred: who asked, and its index.
    KittyCreate(AccountId, KittyIndex),
    /// An asset changed hands: from whom, to whom, and its index.
    KittyTransfer(AccountId, AccountId, KittyIndex),
    /// A creator bought an asset out of escrow: who, which, and the deposit
    /// that was released.
    KittyBuy(AccountId, KittyIndex, Balance),
    /// An owner sold an asset back: who, which, and for how much.
    KittySell(AccountId, KittyIndex, Balance),
}

/// Why an operation was refused.
#[derive(Clone, Copy, Debug, PartialEq, Eq, Structural)]
pub enum Error {
    /// Every index up to the largest is taken.
    KittiesCountOverflow,
    /// The caller does not own the asset.
    NotOwner,
    /// The caller did not mint the asset, or it has left escrow.
    NotCreator,
    /// An asset cannot be bred with itself.
    SameParentIndex,
    /// No asset has this index.
    InvalidKittyIndex,
    /// The caller's free balance does not cover the deposit.
    InsufficientBalanceToReserve,
    /// The deposit could not be released to the pallet's account.
    RepatriateFailed,
    /// The pallet's account cannot pay the price: it does not hold more than
    /// the price, or the ledger does not make the payment.
    PriceTooHigh,
}

/// The asset store as a mathematical value.
pub struct PalletView {
    /// What `create` sets aside from its caller.
    pub balance_to_reserve: Balance,
    /// The pallet's own account.
    pub account_id: AccountId,
    /// The count of assets at which no further one is made.
    pub max_kitty_index: KittyIndex,
    /// The genome of each asset, by index.
    pub kitties: Seq<Seq<u8>>,
    /// The owner of each asset, by index.
    pub owner: Seq<AccountId>,
    /// Who minted each asset, as long as it is in escrow.
    pub creator: Seq<Option<AccountId>>,
}

impl PalletView {
    /// How many assets were ever made, which is the next index to give out.
    pub open spec fn kitties_count(self) -> nat {
        self.kitties.len()
    }

    /// The three relations cover the same indices, and no more than the
    /// largest count allows.
    pub open spec fn wf(self) -> bool {
        &&& self.owner.len() == self.kitties.len()
        &&& self.creator.len() == self.kitties.len()
        &&& self.kitties.len() <= self.max_kitty_index
    }

    /// The genome stored under an index.
    pub open spec fn kitty_of(self, id: KittyIndex) -> Option<Seq<u8>> {
        if id < self.kitties.len() {
            Some(self.kitties[id as int])
        } else {
            None
        }
    }

    /// The owner recorded for an index.
    pub open spec fn owner_of(self, id: KittyIndex) -> Option<AccountId> {
        if id < self.owner.len() {
            Some(self.owner[id as int])
        } else {
            None
        }
    }

    /// The creator recorded for an index.
    pub open spec fn creator_of(self, id: KittyIndex) -> Option<AccountId> {
        if id < self.creator.len() {
            self.creator[id as int]
        } else {
            None
        }
    }

    /// The store with one more asset, under the next index.
    pub open spec fn with_kitty(
        self,
        dna: Seq<u8>,
        owner: AccountId,
        creator: Option<AccountId>,
    ) -> PalletView {
        PalletView {
            kitties: self.kitties.push(dna),
            owner: self.owner.push(owner),
            creator: self.creator.push(creator),
            ..self
        }
    }

    /// The store with a new owner for one asset.
    pub open spec fn with_owner(self, id: KittyIndex, owner: AccountId) -> PalletView {
        PalletView { owner: self.owner.update(id as int, owner), ..self }
    }

    /// The store with the creator of one asset struck out.
    pub open spec fn without_creator(self, id: KittyIndex) -> PalletView {
        PalletView { creator: self.creator.update(id as int, None), ..self }
    }
}

/// Making an asset gives it the next index, adds one to the count and
/// leaves every earlier asset with its genome, owner and creator.
pub proof fn making_keeps_the_earlier(
    store: PalletView,
    dna: Seq<u8>,
    owner: AccountId,
    creator: Option<AccountId>,
    id: KittyIndex,
)
    requires
        store.wf(),
        store.kitties_count() < store.max_kitty_index,
    ensures
        store.with_kitty(dna, owner, creator).wf(),
        store.with_kitty(dna, owner, creator).kitties_count() == store.kitties_count() + 1,
        id == store.kitties_count() ==> {
            &&& store.kitty_of(id) is None
            &&& store.with_kitty(dna, owner, creator).kitty_of(id) == Some(dna)
            &&& store.with_kitty(dna, owner, creator).owner_of(id) == Some(owner)
            &&& store.with_kitty(dna, owner, creator).creator_of(id) == creator
        },
        id < store.kitties_count() ==> {
            &&& store.with_kitty(dna, owner, creator).kitty_of(id) == store.kitty_of(id)
            &&& store.with_kitty(dna, owner, creator).owner_of(id) == store.owner_of(id)
            &&& store.with_kitty(dna, owner, creator).creator_of(id) == store.creator_of(id)
        },
{
}

/// A change of owner touches the owner of one asset and nothing else: no
/// genome, no creator, no other owner, and not the count.
pub proof fn owning_touches_one_owner(
    store: PalletView,
    id: KittyIndex,
    owner: AccountId,
    other: KittyIndex,
)
    requires
        store.wf(),
        id < store.kitties_count(),
    ensures
        store.with_owner(id, owner).wf(),
        store.with_owner(id, owner).kitties_count() == store.kitties_count(),
        store.with_owner(id, owner).owner_of(id) == Some(owner),
        other != id ==> store.with_owner(id, owner).owner_of(other) == store.owner_of(other),
        store.with_owner(id, owner).kitty_of(other) == store.kitty_of(other),
        store.with_owner(id, owner).creator_of(other) == store.creator_of(other),
{
}

/// Leaving escrow strikes out the creator of one asset and nothing else.
pub proof fn leaving_escrow_touches_one_creator(
    store: PalletView,
    id: KittyIndex,
    other: KittyIndex,
)
    requires
        store.wf(),
        id < store.kitties_count(),
    ensures
        store.without_creator(id).wf(),
        store.without_creator(id).kitties_count() == store.kitties_count(),
        store.without_creator(id).creator_of(id) is None,
        other != id ==> store.without_creator(id).creator_of(other) == store.creator_of(other),
        store.without_creator(id).kitty_of(other) == store.kitty_of(other),
        store.without_creator(id).owner_of(other) == store.owner_of(other),
{
}

/// The account that stands for a pallet: the four bytes `modl` and the
/// first four bytes of its identifier, read as a little-endian number.
pub open spec fn pallet_account(pallet_id: Seq<u8>) -> AccountId {
    spec_u64_from_le_bytes(
        seq![
            0x6du8,
            0x6fu8,
            0x64u8,
            0x6cu8,
            pallet_id[0],
            pallet_id[1],
            pallet_id[2],
            pallet_id[3],
        ],
    )
}

/// Calls `sp_runtime::traits::AccountIdConversion::into_account_truncating`
/// on a `frame_support::PalletId`. The identifier is encoded behind its type
/// tag `modl`, and the account is decoded from the first eight bytes.
#[verifier::external_body]
fn into_account(pallet_id: [u8; 8]) -> (account: AccountId)
    ensures
        account == pallet_account(pallet_id@),
{
    sp_runtime::traits::AccountIdConversion::<u64>::into_account_truncating(
        &frame_support::PalletId(pallet_id),
    )
}

/// The genomes of a sequence of assets.
pub open spec fn genomes(kitties: Seq<Kitty>) -> Seq<Seq<u8>> {
    Seq::new(kitties.len(), |i: int| kitties[i].0@)
}

/// The asset store with its constants.
#[derive(Clone, Debug, PartialEq, Eq)]
pub struct Pallet {
    balance_to_reserve: Balance,
    pallet_id: [u8; 8],
    max_kitty_index: KittyIndex,
    kitties: Vec<Kitty>,
    owner: Vec<AccountId>,
    creator: Vec<Option<AccountId>>,
}

impl View for Pallet {
    type V = PalletView;

    closed spec fn view(&self) -> PalletView {
        PalletView {
            balance_to_reserve: self.balance_to_reserve,
            account_id: pallet_account(self.pallet_id@),
            max_kitty_index: self.max_kitty_index,
            kitties: genomes(self.kitties@),
            owner: self.owner@,
            creator: self.creator@,
        }
    }
}

impl Pallet {
    /// Validity of a store: see [`PalletView::wf`].
    pub open spec fn wf(&self) -> bool {
        self@.wf()
    }

    /// An empty store.
    pub fn new(
        balance_to_reserve: Balance,
        pallet_id: [u8; 8],
        max_kitty_index: KittyIndex,
    ) -> (pallet: Pallet)
        ensures
            pallet.wf(),
            pallet@ == (PalletView {
                balance_to_reserve,
                account_id: pallet_account(pallet_id@),
                max_kitty_index,
                kitties: Seq::empty(),
                owner: Seq::empty(),
                creator: Seq::empty(),
            }),
    {
        let pallet = Pallet {
            balance_to_reserve,
            pallet_id,
            max_kitty_index,
            kitties: Vec::new(),
            owner: Vec::new(),
            creator: Vec::new(),
        };
        assert(pallet@.kitties =~= Seq::empty());
        pallet
    }

    /// The store that holds the given assets, or nothing where the three
    /// relations differ in length or hold more than `max_kitty_index`
    /// assets.
    pub fn from_parts(
        balance_to_reserve: Balance,
        pallet_id: [u8; 8],
        max_kitty_index: KittyIndex,
        kitties: Vec<Kitty>,
        owner: Vec<AccountId>,
        creator: Vec<Option<AccountId>>,
    ) -> (restored: Option<Pallet>)
        ensures
            restored is Some <==> owner@.len() == kitties@.len() && creator@.len() == kitties@.len()
                && kitties@.len() <= max_kitty_index,
            restored is Some ==> {
                let pallet = restored->0;
                &&& pallet.wf()
                &&& pallet@.balance_to_reserve == balance_to_reserve
                &&& pallet@.account_id == pallet_account(pallet_id@)
                &&& pallet@.max_kitty_index == max_kitty_index
                &&& pallet@.kitties == genomes(kitties@)
                &&& pallet@.owner == owner@
                &&& pallet@.creator == creator@
            },
    {
        if owner.len() != kitties.len() || creator.len() != kitties.len() || kitties.len()
            > max_kitty_index as usize {
            return None;
        }
        Some(Pallet { balance_to_reserve, pallet_id, max_kitty_index, kitties, owner, creator })
    }

    /// The three relations of the store: genomes, owners and creators, each
    /// by index.
    pub fn into_parts(self) -> (parts: (Vec<Kitty>, Vec<AccountId>, Vec<Option<AccountId>>))
        ensures
            self@.kitties == genomes(parts.0@),
            self@.owner == parts.1@,
            self@.creator == parts.2@,
    {
        (self.kitties, self.owner, self.creator)
    }

    /// What `create` sets aside from its caller.
    pub fn balance_to_reserve(&self) -> (amount: Balance)
        ensures
            amount == self@.balance_to_reserve,
    {
        self.balance_to_reserve
    }

    /// The count of assets at which no further one is made.
    pub fn max_kitty_index(&self) -> (max: KittyIndex)
        ensures
            max == self@.max_kitty_index,
    {
        self.max_kitty_index
    }

    /// How many assets were ever made.
    pub fn kitties_count(&self) -> (count: KittyIndex)
        requires
            self.wf(),
        ensures
            count == self@.kitties_count(),
    {
        self.kitties.len() as KittyIndex
    }

    /// The pallet's own account: first owner of every minted asset and the
    /// other side of every purchase and sale.
    pub fn account_id(&self) -> (account: AccountId)
        ensures
            account == self@.account_id,
    {
        into_account(self.pallet_id)
    }

    /// The index that the next asset will get.
    pub fn next_kitty_id(&self) -> (r: Result<KittyIndex, Error>)
        requires
            self.wf(),
        ensures
            r == if self@.kitties_count() == self@.max_kitty_index {
                Err::<KittyIndex, Error>(Error::KittiesCountOverflow)
            } else {
                Ok::<KittyIndex, Error>(self@.kitties_count() as KittyIndex)
            },
    {
        let count = self.kitties.len();
        if count == self.max_kitty_index as usize {
            Err(Error::KittiesCountOverflow)
        } else {
            Ok(count as KittyIndex)
        }
    }

    /// Stores a new asset with its owner under the next index.
    pub fn gen_kitty(&mut self, owner: AccountId, dna: [u8; 16]) -> (kitty_id: KittyIndex)
        requires
            old(self).wf(),
            old(self)@.kitties_count() < old(self)@.max_kitty_index,
        ensures
            final(self).wf(),
            kitty_id == old(self)@.kitties_count(),
            final(self)@ == old(self)@.with_kitty(dna@, owner, None),
    {
        let kitty_id = self.kitties.len() as KittyIndex;
        self.kitties.push(Kitty(dna));
        self.owner.push(owner);
        self.creator.push(None);
        assert(self@.kitties =~= old(self)@.kitties.push(dna@));
        kitty_id
    }
    /// The genome stored under an index.
    pub fn kitties(&self, kitty_id: KittyIndex) -> (kitty: Option<Kitty>)
        requires
            self.wf(),
        ensures
            match kitty {
                Some(found) => self@.kitty_of(kitty_id) == Some(found.0@),
                None => self@.kitty_of(kitty_id) is None,
            },
    {
        if (kitty_id as usize) < self.kitties.len() {
            Some(self.kitties[kitty_id as usize])
        } else {
            None
        }
    }

    /// The owner of an asset.
    pub fn owner(&self, kitty_id: KittyIndex) -> (owner: Option<AccountId>)
        requires
            self.wf(),
        ensures
            owner == self@.owner_of(kitty_id),
    {
        if (kitty_id as usize) < self.owner.len() {
            Some(self.owner[kitty_id as usize])
        } else {
            None
        }
    }

    /// Who minted an asset, as long as it is in escrow.
    pub fn creator(&self, kitty_id: KittyIndex) -> (creator: Option<AccountId>)
        requires
            self.wf(),
        ensures
            creator == self@.creator_of(kitty_id),
    {
        if (kitty_id as usize) < self.creator.len() {
            self.creator[kitty_id as usize]
        } else {
            None
        }
    }

    /// Why `create` refuses, if it does.
    pub open spec fn create_refusal<T: Config>(
        store: PalletView,
        runtime: &T,
        who: AccountId,
    ) -> Option<Error> {
        if store.kitties_count() == store.max_kitty_index {
            Some(Error::KittiesCountOverflow)
        } else if !runtime.can_reserve(who, store.balance_to_reserve) {
            Some(Error::InsufficientBalanceToReserve)
        } else {
            None
        }
    }

    /// Mints an asset for `who`: sets the deposit aside from the caller's
    /// free balance, draws a genome and stores the asset in the custody of
    /// the pallet's account, with `who` as its creator.
    pub fn create<T: Config>(&mut self, runtime: &mut T, who: AccountId) -> (r: Result<Event, Error>)
        requires
            old(self).wf(),
        ensures
            final(self).wf(),
            match Self::create_refusal(old(self)@, old(runtime), who) {
                Some(error) => {
                    &&& r == Err::<Event, Error>(error)
                    &&& *final(self) == *old(self)
                    &&& *final(runtime) == *old(runtime)
                },
                None => {
                    let kitty_id = old(self)@.kitties_count() as KittyIndex;
                    let seed = old(runtime).snapshot().seed;
                    let index = old(runtime).snapshot().index;
                    let deposit = old(self)@.balance_to_reserve;
                    &&& r == Ok::<Event, Error>(Event::KittyCreate(who, kitty_id))
                    &&& final(runtime).snapshot().is_reserve(old(runtime).snapshot(), who, deposit)
                    &&& final(self)@ == old(self)@.with_kitty(
                        random_dna(seed, who, index),
                        old(self)@.account_id,
                        Some(who),
                    )
                },
            },
            r is Ok ==> {
                let kitty_id = old(self)@.kitties_count() as KittyIndex;
                let before = old(runtime).snapshot().account(who);
                let after = final(runtime).snapshot().account(who);
                &&& final(self)@.kitties_count() == old(self)@.kitties_count() + 1
                &&& final(self)@.owner_of(kitty_id) == Some(old(self)@.account_id)
                &&& final(self)@.creator_of(kitty_id) == Some(who)
                &&& after.reserved == before.reserved + old(self)@.balance_to_reserve
            },
    {
        let kitty_id = match self.next_kitty_id() {
            Ok(id) => id,
            Err(e) => {
                return Err(e);
            },
        };
        match runtime.reserve(who, self.balance_to_reserve) {
            Ok(()) => {},
            Err(_) => {
                return Err(Error::InsufficientBalanceToReserve);
            },
        }
        let seed = runtime.random_seed();
        let dna = random_value(&seed, who, runtime.extrinsic_index());
        let treasury = self.account_id();
        let stored = self.gen_kitty(treasury, dna);
        self.creator[stored as usize] = Some(who);
        assert(self@.creator =~= old(self)@.creator.push(Some(who)));
        Ok(Event::KittyCreate(who, kitty_id))
    }

    /// Hands an asset from its owner `who` to `new_owner`.
    pub fn transfer(
        &mut self,
        who: AccountId,
        new_owner: AccountId,
        kitty_id: KittyIndex,
    ) -> (r: Result<Event, Error>)
        requires
            old(self).wf(),
        ensures
            final(self).wf(),
            if old(self)@.owner_of(kitty_id) == Some(who) {
                &&& r == Ok::<Event, Error>(Event::KittyTransfer(who, new_owner, kitty_id))
                &&& final(self)@ == old(self)@.with_owner(kitty_id, new_owner)
                &&& final(self)@.owner_of(kitty_id) == Some(new_owner)
            } else {
                &&& r == Err::<Event, Error>(Error::NotOwner)
                &&& *final(self) == *old(self)
            },
    {
        if self.owner(kitty_id) != Some(who) {
            return Err(Error::NotOwner);
        }
        self.owner[kitty_id as usize] = new_owner;
        Ok(Event::KittyTransfer(who, new_owner, kitty_id))
    }

    /// Why `breed` refuses, if it does.
    pub open spec fn breed_refusal(
        store: PalletView,
        kitty_id_1: KittyIndex,
        kitty_id_2: KittyIndex,
    ) -> Option<Error> {
        if kitty_id_1 == kitty_id_2 {
            Some(Error::SameParentIndex)
        } else if store.kitty_of(kitty_id_1) is None || store.kitty_of(kitty_id_2) is None {
            Some(Error::InvalidKittyIndex)
        } else if store.kitties_count() == store.max_kitty_index {
            Some(Error::KittiesCountOverflow)
        } else {
            None
        }
    }

    /// Breeds a new asset for `who` from two distinct existing ones, whoever
    /// owns them: a freshly drawn selector decides bit by bit which parent
    /// the child takes after.
    pub fn breed<T: Config>(
        &mut self,
        runtime: &T,
        who: AccountId,
        kitty_id_1: KittyIndex,
        kitty_id_2: KittyIndex,
    ) -> (r: Result<Event, Error>)
        requires
            old(self).wf(),
        ensures
            final(self).wf(),
            match Self::breed_refusal(old(self)@, kitty_id_1, kitty_id_2) {
                Some(error) => r == Err::<Event, Error>(error) && *final(self) == *old(self),
                None => {
                    let kitty_id = old(self)@.kitties_count() as KittyIndex;
                    let selector = random_dna(runtime.snapshot().seed, who, runtime.snapshot().index);
                    let dna_1 = old(self)@.kitties[kitty_id_1 as int];
                    let dna_2 = old(self)@.kitties[kitty_id_2 as int];
                    &&& r == Ok::<Event, Error>(Event::KittyCreate(who, kitty_id))
                    &&& final(self)@ == old(self)@.with_kitty(mix_dna(selector, dna_1, dna_2), who, None)
                },
            },
            r is Ok ==> {
                let kitty_id = old(self)@.kitties_count() as KittyIndex;
                let selector = random_dna(runtime.snapshot().seed, who, runtime.snapshot().index);
                let dna_1 = old(self)@.kitties[kitty_id_1 as int];
                let dna_2 = old(self)@.kitties[kitty_id_2 as int];
                let child = final(self)@.kitties[kitty_id as int];
                &&& final(self)@.kitties_count() == old(self)@.kitties_count() + 1
                &&& final(self)@.owner_of(kitty_id) == Some(who)
                &&& final(self)@.creator_of(kitty_id) is None
                &&& child.len() == 16
                &&& forall|i: int|
                    0 <= i < 16 ==> #[trigger] child[i] == (selector[i] & dna_1[i]) | (!selector[i]
                        & dna_2[i])
            },
    {
        if kitty_id_1 == kitty_id_2 {
            return Err(Error::SameParentIndex);
        }
        let kitty1 = match self.kitties(kitty_id_1) {
            Some(kitty) => kitty,
            None => {
                return Err(Error::InvalidKittyIndex);
            },
        };
        let kitty2 = match self.kitties(kitty_id_2) {
            Some(kitty) => kitty,
            None => {
                return Err(Error::InvalidKittyIndex);
            },
        };
        let kitty_id = match self.next_kitty_id() {
            Ok(id) => id,
            Err(e) => {
                return Err(e);
            },
        };
        let seed = runtime.random_seed();
        let selector = random_value(&seed, who, runtime.extrinsic_index());
        let new_dna = mix_genome(&selector, &kitty1.0, &kitty2.0);
        self.gen_kitty(who, new_dna);
        Ok(Event::KittyCreate(who, kitty_id))
    }

    /// Why `buy` refuses, if it does.
    pub open spec fn buy_refusal<T: Config>(
        store: PalletView,
        runtime: &T,
        who: AccountId,
        kitty_id: KittyIndex,
    ) -> Option<Error> {
        if store.creator_of(kitty_id) != Some(who) {
            Some(Error::NotCreator)
        } else if !runtime.can_repatriate(who, store.account_id, store.balance_to_reserve) {
            Some(Error::RepatriateFailed)
        } else {
            None
        }
    }

    /// Lets the creator `who` take an asset out of escrow: the deposit set
    /// aside at its creation goes to the free balance of the pallet's
    /// account, and `who` becomes the owner.
    pub fn buy<T: Config>(
        &mut self,
        runtime: &mut T,
        who: AccountId,
        kitty_id: KittyIndex,
    ) -> (r: Result<Event, Error>)
        requires
            old(self).wf(),
        ensures
            final(self).wf(),
            match Self::buy_refusal(old(self)@, old(runtime), who, kitty_id) {
                Some(error) => {
                    &&& r == Err::<Event, Error>(error)
                    &&& *final(self) == *old(self)
                    &&& *final(runtime) == *old(runtime)
                },
                None => {
                    let deposit = old(self)@.balance_to_reserve;
                    let treasury = old(self)@.account_id;
                    &&& r == Ok::<Event, Error>(Event::KittyBuy(who, kitty_id, deposit))
                    &&& final(runtime).snapshot().is_repatriation(
                        old(runtime).snapshot(),
                        who,
                        treasury,
                        deposit,
                    )
                    &&& final(self)@ == old(self)@.with_owner(kitty_id, who).without_creator(kitty_id)
                },
            },
            r is Ok ==> {
                let before = old(runtime).snapshot().account(old(self)@.account_id);
                let after = final(runtime).snapshot().account(old(self)@.account_id);
                &&& old(self)@.creator_of(kitty_id) == Some(who)
                &&& final(self)@.creator_of(kitty_id) is None
                &&& final(self)@.owner_of(kitty_id) == Some(who)
                &&& after.free == before.free + old(self)@.balance_to_reserve
            },
    {
        if self.creator(kitty_id) != Some(who) {
            return Err(Error::NotCreator);
        }
        let amount = self.balance_to_reserve;
        let treasury = self.account_id();
        match runtime.repatriate_reserved(who, treasury, amount) {
            Ok(()) => {},
            Err(_) => {
                return Err(Error::RepatriateFailed);
            },
        }
        self.owner[kitty_id as usize] = who;
        self.creator[kitty_id as usize] = None;
        Ok(Event::KittyBuy(who, kitty_id, amount))
    }

    /// Why `sell` refuses, if it does. A price that the pallet's account
    /// does not exceed and a payment that the ledger would not make are
    /// refused alike, as a price too high.
    pub open spec fn sell_refusal<T: Config>(
        store: PalletView,
        runtime: &T,
        who: AccountId,
        kitty_id: KittyIndex,
        price: Balance,
    ) -> Option<Error> {
        if store.owner_of(kitty_id) != Some(who) {
            Some(Error::NotOwner)
        } else if runtime.snapshot().account(store.account_id).free <= price {
            Some(Error::PriceTooHigh)
        } else if !runtime.can_transfer(store.account_id, who, price, true) {
            Some(Error::PriceTooHigh)
        } else {
            None
        }
    }

    /// Sells an asset of `who` back to the pallet's account for `price`,
    /// which that account's free balance must exceed. The price is paid
    /// out of that account, which the payment may leave with less than an
    /// account needs to exist. Where the ledger does not make the payment,
    /// the sale is refused with `PriceTooHigh` and the asset stays with its
    /// owner.
    pub fn sell<T: Config>(
        &mut self,
        runtime: &mut T,
        who: AccountId,
        kitty_id: KittyIndex,
        price: Balance,
    ) -> (r: Result<Event, Error>)
        requires
            old(self).wf(),
        ensures
            final(self).wf(),
            match Self::sell_refusal(old(self)@, old(runtime), who, kitty_id, price) {
                Some(error) => {
                    &&& r == Err::<Event, Error>(error)
                    &&& *final(self) == *old(self)
                    &&& *final(runtime) == *old(runtime)
                },
                None => {
                    let treasury = old(self)@.account_id;
                    &&& r == Ok::<Event, Error>(Event::KittySell(who, kitty_id, price))
                    &&& final(self)@ == old(self)@.with_owner(kitty_id, treasury)
                    &&& final(runtime).snapshot().is_transfer(
                        old(runtime).snapshot(),
                        treasury,
                        who,
                        price,
                    )
                },
            },
            r is Ok ==> {
                let treasury = old(self)@.account_id;
                let before = old(runtime).snapshot();
                let after = final(runtime).snapshot();
                &&& old(self)@.owner_of(kitty_id) == Some(who)
                &&& price < before.account(treasury).free
                &&& final(self)@.owner_of(kitty_id) == Some(treasury)
                &&& who != treasury ==> {
                    &&& after.account(who).free == before.account(who).free + price
                    &&& after.account(treasury).free == before.account(treasury).free - price
                }
            },
    {
        if self.owner(kitty_id) != Some(who) {
            return Err(Error::NotOwner);
        }
        let treasury = self.account_id();
        let amount = runtime.free_balance(treasury);
        if !(amount > price) {
            return Err(Error::PriceTooHigh);
        }
        match runtime.transfer(treasury, who, price, true) {
            Ok(()) => {},
            Err(_) => {
                return Err(Error::PriceTooHigh);
            },
        }
        self.owner[kitty_id as usize] = treasury;
        Ok(Event::KittySell(who, kitty_id, price))
    }
}

} // verus!
