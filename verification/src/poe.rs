//! Proof of existence: a registry in which a claim, a short string of bytes,
//! belongs to the account that registered it, with the block in which it
//! last changed hands.

use vstd::prelude::*;

verus! {

/// Identity of an account.
pub type AccountId = u64;

/// Number of a block.
pub type BlockNumber = u64;

/// What a successful operation announces.
#[derive(Debug, PartialEq, Eq)]
pub enum Event {
    /// A claim was registered: by whom, and the claim.
    ClaimCreated(AccountId, Vec<u8>),
    /// A claim was given up: by whom, and the claim.
    ClaimRevoked(AccountId, Vec<u8>),
    /// A claim changed hands: from whom, to whom, and the claim.
    ClaimTransferred(AccountId, AccountId, Vec<u8>),
}

impl Event {
    /// This announces that `who` registered `proof`.
    pub open spec fn is_created(self, who: AccountId, proof: Seq<u8>) -> bool {
        self matches Event::ClaimCreated(w, p) && w == who && p@ == proof
    }

    /// This announces that `who` gave up `proof`.
    pub open spec fn is_revoked(self, who: AccountId, proof: Seq<u8>) -> bool {
        self matches Event::ClaimRevoked(w, p) && w == who && p@ == proof
    }

    /// This announces that `from` handed `proof` to `to`.
    pub open spec fn is_transferred(self, from: AccountId, to: AccountId, proof: Seq<u8>) -> bool {
        self matches Event::ClaimTransferred(f, t, p) && f == from && t == to && p@ == proof
    }
}

/// Why an operation was refused.
#[derive(Clone, Copy, Debug, PartialEq, Eq, Structural)]
pub enum Error {
    /// The claim is registered already.
    ProofAlreadyClaimed,
    /// The claim is not registered.
    NoSuchProof,
    /// The claim belongs to another account.
    NotProofOwner,
    /// The claim has more bytes than a claim may have.
    ProofTooLong,
    /// The claim has fewer bytes than a claim must have.
    ProofTooShort,
}

/// What the registry asks of the runtime that hosts it.
pub trait Config {
    /// The number of the block that is being executed.
    spec fn now(&self) -> BlockNumber;

    /// The least number of bytes of a claim.
    spec fn min_length(&self) -> usize;

    /// The greatest number of bytes of a claim.
    spec fn max_length(&self) -> usize;

    /// The number of the block that is being executed.
    fn block_number(&self) -> (number: BlockNumber)
        ensures
            number == self.now(),
    ;

    /// The least number of bytes of a claim.
    fn proof_min_length(&self) -> (length: usize)
        ensures
            length == self.min_length(),
    ;

    /// The greatest number of bytes of a claim.
    fn proof_max_length(&self) -> (length: usize)
        ensures
            length == self.max_length(),
    ;
}

/// A runtime held in memory: a block number and the two bounds.
#[derive(Clone, Copy, Debug, PartialEq, Eq, Structural)]
pub struct Runtime {
    /// The number of the block that is being executed.
    pub block_number: BlockNumber,
    /// The least number of bytes of a claim.
    pub proof_min_length: usize,
    /// The greatest number of bytes of a claim.
    pub proof_max_length: usize,
}

impl Config for Runtime {
    open spec fn now(&self) -> BlockNumber {
        self.block_number
    }

    open spec fn min_length(&self) -> usize {
        self.proof_min_length
    }

    open spec fn max_length(&self) -> usize {
        self.proof_max_length
    }

    fn block_number(&self) -> (number: BlockNumber) {
        self.block_number
    }

    fn proof_min_length(&self) -> (length: usize) {
        self.proof_min_length
    }

    fn proof_max_length(&self) -> (length: usize) {
        self.proof_max_length
    }
}

/// Whether two byte strings are the same.
pub fn same_bytes(a: &Vec<u8>, b: &Vec<u8>) -> (same: bool)
    ensures
        same == (a@ == b@),
{
    if a.len() != b.len() {
        return false;
    }
    let mut i: usize = 0;
    while i < a.len()
        invariant
            i <= a.len(),
            a.len() == b.len(),
            forall|j: int| 0 <= j < i ==> a@[j] == b@[j],
        decreases a.len() - i,
    {
        if a[i] != b[i] {
            return false;
        }
        i += 1;
    }
    assert(a@ =~= b@);
    true
}

/// One registered claim.
#[derive(Clone, Debug, PartialEq, Eq)]
pub struct Claim {
    /// The bytes of the claim.
    pub proof: Vec<u8>,
    /// The account that holds it.
    pub owner: AccountId,
    /// The block in which it came to that account.
    pub block_number: BlockNumber,
}

/// The claim `proof` stands at position `i` of `claims`.
pub open spec fn stands_at(claims: Seq<Claim>, i: int, proof: Seq<u8>) -> bool {
    0 <= i < claims.len() && claims[i].proof@ == proof
}

/// No claim stands at two positions.
pub open spec fn distinct(claims: Seq<Claim>) -> bool {
    forall|i: int, j: int| 0 <= i < j < claims.len() ==> claims[i].proof@ != claims[j].proof@
}

/// A position at which `proof` stands, where there is one.
pub open spec fn position(claims: Seq<Claim>, proof: Seq<u8>) -> int {
    choose|i: int| stands_at(claims, i, proof)
}

/// The registry that a sequence of claims stands for: each claim with its
/// owner and block.
pub open spec fn registry(claims: Seq<Claim>) -> Map<Seq<u8>, (AccountId, BlockNumber)> {
    Map::new(
        |proof: Seq<u8>| exists|i: int| stands_at(claims, i, proof),
        |proof: Seq<u8>|
            (claims[position(claims, proof)].owner, claims[position(claims, proof)].block_number),
    )
}

/// Among distinct claims, a claim stands at no other position than its own.
pub proof fn position_is_unique(claims: Seq<Claim>, i: int, proof: Seq<u8>)
    requires
        distinct(claims),
        stands_at(claims, i, proof),
    ensures
        registry(claims).contains_key(proof),
        position(claims, proof) == i,
        registry(claims)[proof] == (claims[i].owner, claims[i].block_number),
{
    let j = position(claims, proof);
    assert(stands_at(claims, j, proof));
    if i < j {
        assert(claims[i].proof@ != claims[j].proof@);
    } else if j < i {
        assert(claims[j].proof@ != claims[i].proof@);
    }
}

/// The registry of claims.
#[derive(Clone, Debug, PartialEq, Eq)]
pub struct Pallet {
    proofs: Vec<Claim>,
}

impl View for Pallet {
    type V = Map<Seq<u8>, (AccountId, BlockNumber)>;

    /// Each registered claim with its owner and the block of its
    /// registration or last transfer.
    closed spec fn view(&self) -> Map<Seq<u8>, (AccountId, BlockNumber)> {
        registry(self.proofs@)
    }
}

impl Pallet {
    /// No claim is registered twice.
    pub closed spec fn wf(&self) -> bool {
        distinct(self.proofs@)
    }

    /// The registry that holds the given claims, or nothing where one of
    /// them stands twice.
    pub fn from_parts(claims: Vec<Claim>) -> (restored: Option<Pallet>)
        ensures
            restored is Some <==> distinct(claims@),
            restored is Some ==> restored->0.wf() && restored->0@ == registry(claims@),
    {
        let mut j: usize = 0;
        while j < claims.len()
            invariant
                j <= claims.len(),
                forall|a: int, b: int| 0 <= a < b < j ==> claims@[a].proof@ != claims@[b].proof@,
            decreases claims.len() - j,
        {
            let mut i: usize = 0;
            while i < j
                invariant
                    i <= j < claims.len(),
                    forall|a: int| 0 <= a < i ==> claims@[a].proof@ != claims@[j as int].proof@,
                decreases j - i,
            {
                if same_bytes(&claims[i].proof, &claims[j].proof) {
                    return None;
                }
                i += 1;
            }
            j += 1;
        }
        Some(Pallet { proofs: claims })
    }

    /// The claims of the registry, each once.
    pub fn into_parts(self) -> (claims: Vec<Claim>)
        requires
            self.wf(),
        ensures
            distinct(claims@),
            self@ == registry(claims@),
    {
        self.proofs
    }

    /// An empty registry.
    pub fn new() -> (pallet: Pallet)
        ensures
            pallet.wf(),
            pallet@ == Map::<Seq<u8>, (AccountId, BlockNumber)>::empty(),
    {
        let pallet = Pallet { proofs: Vec::new() };
        assert(pallet@ =~= Map::<Seq<u8>, (AccountId, BlockNumber)>::empty());
        pallet
    }

    /// The position at which a claim stands.
    fn find(&self, proof: &Vec<u8>) -> (found: Option<usize>)
        requires
            self.wf(),
        ensures
            match found {
                Some(i) => {
                    &&& stands_at(self.proofs@, i as int, proof@)
                    &&& self@.contains_key(proof@)
                    &&& self@[proof@] == (
                        self.proofs@[i as int].owner,
                        self.proofs@[i as int].block_number,
                    )
                },
                None => {
                    &&& !self@.contains_key(proof@)
                    &&& forall|i: int| !stands_at(self.proofs@, i, proof@)
                },
            },
    {
        let mut i: usize = 0;
        while i < self.proofs.len()
            invariant
                self.wf(),
                i <= self.proofs.len(),
                forall|j: int| 0 <= j < i ==> !stands_at(self.proofs@, j, proof@),
            decreases self.proofs.len() - i,
        {
            if same_bytes(&self.proofs[i].proof, proof) {
                proof {
                    position_is_unique(self.proofs@, i as int, proof@);
                }
                return Some(i);
            }
            i += 1;
        }
        None
    }

    /// Whether a claim is registered.
    pub fn contains_key(&self, proof: &Vec<u8>) -> (registered: bool)
        requires
            self.wf(),
        ensures
            registered == self@.contains_key(proof@),
    {
        self.find(proof).is_some()
    }

    /// The owner of a claim and the block in which it came to that owner;
    /// account and block zero for a claim that is not registered.
    pub fn proofs(&self, proof: &Vec<u8>) -> (entry: (AccountId, BlockNumber))
        requires
            self.wf(),
        ensures
            entry == if self@.contains_key(proof@) {
                self@[proof@]
            } else {
                (0u64, 0u64)
            },
    {
        match self.find(proof) {
            Some(i) => (self.proofs[i].owner, self.proofs[i].block_number),
            None => (0, 0),
        }
    }

    /// Why `create_claim` refuses, if it does.
    pub open spec fn create_refusal<T: Config>(
        registry: Map<Seq<u8>, (AccountId, BlockNumber)>,
        runtime: &T,
        proof: Seq<u8>,
    ) -> Option<Error> {
        if proof.len() < runtime.min_length() {
            Some(Error::ProofTooShort)
        } else if proof.len() > runtime.max_length() {
            Some(Error::ProofTooLong)
        } else if registry.contains_key(proof) {
            Some(Error::ProofAlreadyClaimed)
        } else {
            None
        }
    }

    /// Why `revoke_claim` and `transfer_claim` refuse, if they do.
    pub open spec fn owner_refusal(
        registry: Map<Seq<u8>, (AccountId, BlockNumber)>,
        sender: AccountId,
        proof: Seq<u8>,
    ) -> Option<Error> {
        if !registry.contains_key(proof) {
            Some(Error::NoSuchProof)
        } else if registry[proof].0 != sender {
            Some(Error::NotProofOwner)
        } else {
            None
        }
    }

    /// Registers a claim for `sender`, stamped with the current block.
    pub fn create_claim<T: Config>(
        &mut self,
        runtime: &T,
        sender: AccountId,
        proof: Vec<u8>,
    ) -> (r: Result<Event, Error>)
        requires
            old(self).wf(),
        ensures
            final(self).wf(),
            match Self::create_refusal(old(self)@, runtime, proof@) {
                Some(error) => r == Err::<Event, Error>(error) && final(self)@ == old(self)@,
                None => {
                    &&& r is Ok
                    &&& r->Ok_0.is_created(sender, proof@)
                    &&& final(self)@ == old(self)@.insert(proof@, (sender, runtime.now()))
                },
            },
    {
        if proof.len() < runtime.proof_min_length() {
            return Err(Error::ProofTooShort);
        }
        if proof.len() > runtime.proof_max_length() {
            return Err(Error::ProofTooLong);
        }
        if self.find(&proof).is_some() {
            return Err(Error::ProofAlreadyClaimed);
        }
        let current_block = runtime.block_number();
        let claim = Claim { proof: proof.clone(), owner: sender, block_number: current_block };
        self.proofs.push(claim);
        proof {
            let before = old(self).proofs@;
            let after = self.proofs@;
            let n = before.len() as int;
            let target = old(self)@.insert(proof@, (sender, current_block));
            assert(after[n].proof@ == proof@);
            assert forall|a: int, b: int| 0 <= a < b < after.len() implies after[a].proof@
                != after[b].proof@ by {
                assert(after[a] == before[a]);
                if b < n {
                    assert(after[b] == before[b]);
                } else {
                    assert(!stands_at(before, a, proof@));
                }
            }
            assert forall|p: Seq<u8>| #[trigger] self@.contains_key(p) <==> target.contains_key(
                p,
            ) by {
                if old(self)@.contains_key(p) {
                    let i = position(before, p);
                    assert(stands_at(after, i, p));
                }
                if self@.contains_key(p) {
                    let i = position(after, p);
                    if i < n {
                        assert(stands_at(before, i, p));
                    }
                }
                if p == proof@ {
                    assert(stands_at(after, n, p));
                }
            }
            assert forall|p: Seq<u8>| #[trigger] self@.contains_key(p) implies self@[p]
                == target[p] by {
                let i = position(after, p);
                position_is_unique(after, i, p);
                if i < n {
                    assert(stands_at(before, i, p));
                    position_is_unique(before, i, p);
                }
            }
            assert(self@ =~= target);
        }
        Ok(Event::ClaimCreated(sender, proof))
    }

    /// Strikes a claim of `sender` out of the registry.
    pub fn revoke_claim(&mut self, sender: AccountId, proof: Vec<u8>) -> (r: Result<Event, Error>)
        requires
            old(self).wf(),
        ensures
            final(self).wf(),
            match Self::owner_refusal(old(self)@, sender, proof@) {
                Some(error) => r == Err::<Event, Error>(error) && final(self)@ == old(self)@,
                None => {
                    &&& r is Ok
                    &&& r->Ok_0.is_revoked(sender, proof@)
                    &&& final(self)@ == old(self)@.remove(proof@)
                },
            },
    {
        let i = match self.find(&proof) {
            Some(i) => i,
            None => {
                return Err(Error::NoSuchProof);
            },
        };
        if self.proofs[i].owner != sender {
            return Err(Error::NotProofOwner);
        }
        self.proofs.remove(i);
        proof {
            let before = old(self).proofs@;
            let after = self.proofs@;
            let k = i as int;
            let target = old(self)@.remove(proof@);
            assert forall|a: int, b: int| 0 <= a < b < after.len() implies after[a].proof@
                != after[b].proof@ by {
                let a0 = if a < k { a } else { a + 1 };
                let b0 = if b < k { b } else { b + 1 };
                assert(after[a] == before[a0]);
                assert(after[b] == before[b0]);
            }
            assert forall|p: Seq<u8>| #[trigger] self@.contains_key(p) <==> target.contains_key(
                p,
            ) by {
                if self@.contains_key(p) {
                    let j = position(after, p);
                    let j0 = if j < k { j } else { j + 1 };
                    assert(stands_at(before, j0, p));
                    if p == proof@ {
                        position_is_unique(before, j0, p);
                        position_is_unique(before, k, p);
                    }
                }
                if old(self)@.contains_key(p) && p != proof@ {
                    let j = position(before, p);
                    assert(j != k);
                    let j1 = if j < k { j } else { j - 1 };
                    assert(stands_at(after, j1, p));
                }
            }
            assert forall|p: Seq<u8>| #[trigger] self@.contains_key(p) implies self@[p]
                == target[p] by {
                let j = position(after, p);
                position_is_unique(after, j, p);
                let j0 = if j < k { j } else { j + 1 };
                assert(stands_at(before, j0, p));
                position_is_unique(before, j0, p);
            }
            assert(self@ =~= target);
        }
        Ok(Event::ClaimRevoked(sender, proof))
    }

    /// Hands a claim of `sender` to `account_id`, stamped with the current
    /// block.
    pub fn transfer_claim<T: Config>(
        &mut self,
        runtime: &T,
        sender: AccountId,
        proof: Vec<u8>,
        account_id: AccountId,
    ) -> (r: Result<Event, Error>)
        requires
            old(self).wf(),
        ensures
            final(self).wf(),
            match Self::owner_refusal(old(self)@, sender, proof@) {
                Some(error) => r == Err::<Event, Error>(error) && final(self)@ == old(self)@,
                None => {
                    &&& r is Ok
                    &&& r->Ok_0.is_transferred(sender, account_id, proof@)
                    &&& final(self)@ == old(self)@.insert(proof@, (account_id, runtime.now()))
                },
            },
    {
        let i = match self.find(&proof) {
            Some(i) => i,
            None => {
                return Err(Error::NoSuchProof);
            },
        };
        if self.proofs[i].owner != sender {
            return Err(Error::NotProofOwner);
        }
        let current_block = runtime.block_number();
        let claim = Claim { proof: proof.clone(), owner: account_id, block_number: current_block };
        self.proofs[i] = claim;
        proof {
            let before = old(self).proofs@;
            let after = self.proofs@;
            let k = i as int;
            let target = old(self)@.insert(proof@, (account_id, current_block));
            assert(after[k].proof@ == proof@);
            assert forall|a: int| 0 <= a < after.len() implies #[trigger] after[a].proof@
                == before[a].proof@ by {}
            assert forall|p: Seq<u8>| #[trigger] self@.contains_key(p) <==> target.contains_key(
                p,
            ) by {
                if self@.contains_key(p) {
                    let j = position(after, p);
                    assert(stands_at(before, j, p));
                }
                if old(self)@.contains_key(p) {
                    let j = position(before, p);
                    assert(stands_at(after, j, p));
                }
                if p == proof@ {
                    assert(stands_at(after, k, p));
                }
            }
            assert forall|p: Seq<u8>| #[trigger] self@.contains_key(p) implies self@[p]
                == target[p] by {
                let j = position(after, p);
                position_is_unique(after, j, p);
                assert(stands_at(before, j, p));
                position_is_unique(before, j, p);
            }
            assert(self@ =~= target);
        }
        Ok(Event::ClaimTransferred(sender, account_id, proof))
    }
}

} // verus!
