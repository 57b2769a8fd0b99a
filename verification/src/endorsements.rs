//! Endorsements of a unit, one by one and gathered into a vertex.

use crate::context::Context;
use crate::order::lemma_lawful_equality;
use crate::validators::ValidatorIndex;
use vstd::prelude::*;
use vstd::std_specs::cmp::PartialEqSpec;

verus! {

/// One validator's endorsement of a unit, with the validator's signature.
#[derive(Clone, Debug, PartialEq, Eq, Hash)]
pub struct SignedEndorsement<C: Context> {
    /// The hash of the endorsed unit.
    pub unit: C::Hash,
    /// The validator that endorses the unit.
    pub creator: ValidatorIndex,
    /// The validator's signature over the endorsement.
    pub signature: C::Signature,
}

impl<C: Context> SignedEndorsement<C> {
    /// Puts an endorsement together from its parts.
    pub fn new(unit: C::Hash, creator: ValidatorIndex, signature: C::Signature) -> (endorsement:
        Self)
        ensures
            endorsement == (SignedEndorsement::<C> { unit, creator, signature }),
    {
        SignedEndorsement { unit, creator, signature }
    }

    /// Returns the hash of the endorsed unit.
    pub fn unit(&self) -> (unit: &C::Hash)
        ensures
            *unit == self.unit,
    {
        &self.unit
    }

    /// Returns the index of the validator that endorses the unit.
    pub fn validator_idx(&self) -> (creator: ValidatorIndex)
        ensures
            creator == self.creator,
    {
        self.creator
    }

    /// Returns the validator's signature.
    pub fn signature(&self) -> (signature: &C::Signature)
        ensures
            *signature == self.signature,
    {
        &self.signature
    }
}

/// The endorsements are at least one, and all of them endorse the same unit.
pub open spec fn same_target<C: Context>(endorsements: Seq<SignedEndorsement<C>>) -> bool {
    &&& endorsements.len() > 0
    &&& forall|i: int|
        0 <= i < endorsements.len() ==> (#[trigger] endorsements[i]).unit == endorsements[0].unit
}

/// The endorser and signature of each endorsement, in the same order.
pub open spec fn endorsers_of<C: Context>(endorsements: Seq<SignedEndorsement<C>>) -> Seq<
    (ValidatorIndex, C::Signature),
> {
    Seq::new(endorsements.len(), |i: int| (endorsements[i].creator, endorsements[i].signature))
}

/// The endorsements that a number of validators have made of one unit.
#[derive(Clone, Debug, PartialEq, Eq, Hash)]
pub struct Endorsements<C: Context> {
    /// The hash of the endorsed unit.
    pub unit: C::Hash,
    /// The endorsers and their signatures.
    pub endorsers: Vec<(ValidatorIndex, C::Signature)>,
}

impl<C: Context> Endorsements<C> {
    /// There is at least one endorser.
    pub open spec fn wf(self) -> bool {
        self.endorsers@.len() > 0
    }

    /// The endorsers, in the order in which they are held.
    pub open spec fn validator_ids_spec(self) -> Seq<ValidatorIndex> {
        Seq::new(self.endorsers@.len(), |i: int| self.endorsers@[i].0)
    }

    /// Gathers endorsements of one unit into a vertex.  The endorsers are kept
    /// in the order of `endorsements`, and none is dropped.
    pub fn new(endorsements: Vec<SignedEndorsement<C>>) -> (gathered: Self)
        requires
            same_target(endorsements@),
        ensures
            gathered.unit == endorsements@[0].unit,
            gathered.endorsers@ == endorsers_of(endorsements@),
            gathered.wf(),
    {
        let unit: C::Hash = *endorsements[0].unit();
        let mut endorsers: Vec<(ValidatorIndex, C::Signature)> = Vec::new();
        let n: usize = endorsements.len();
        let mut i: usize = 0;
        while i < n
            invariant
                n == endorsements@.len(),
                i <= n,
                endorsers@ == endorsers_of(endorsements@.take(i as int)),
            decreases n - i,
        {
            let endorsement = &endorsements[i];
            endorsers.push((endorsement.validator_idx(), *endorsement.signature()));
            assert(endorsers@ =~= endorsers_of(endorsements@.take(i + 1)));
            i = i + 1;
        }
        assert(endorsements@.take(n as int) =~= endorsements@);
        Endorsements { unit, endorsers }
    }

    /// Gathers endorsements into a vertex if there is at least one and all of
    /// them endorse the same unit; returns `None` otherwise.
    pub fn try_new(endorsements: Vec<SignedEndorsement<C>>) -> (gathered: Option<Self>)
        ensures
            same_target(endorsements@) ==> {
                &&& gathered is Some
                &&& gathered->0.unit == endorsements@[0].unit
                &&& gathered->0.endorsers@ == endorsers_of(endorsements@)
                &&& gathered->0.wf()
            },
            !same_target(endorsements@) ==> gathered is None,
    {
        let n: usize = endorsements.len();
        if n == 0 {
            return None;
        }
        proof {
            C::hashes_are_ordered();
            lemma_lawful_equality::<C::Hash>();
        }
        let mut i: usize = 1;
        while i < n
            invariant
                n == endorsements@.len(),
                1 <= i <= n,
                C::Hash::obeys_eq_spec(),
                forall|x: C::Hash, y: C::Hash| #[trigger] x.eq_spec(&y) <==> x == y,
                forall|j: int| 0 <= j < i ==> (#[trigger] endorsements@[j]).unit == endorsements@[0].unit,
            decreases n - i,
        {
            if !(*endorsements[i].unit() == *endorsements[0].unit()) {
                assert(endorsements@[i as int].unit != endorsements@[0].unit);
                return None;
            }
            i = i + 1;
        }
        Some(Self::new(endorsements))
    }

    /// Returns the hash of the endorsed unit.
    pub fn unit(&self) -> (unit: &C::Hash)
        ensures
            *unit == self.unit,
    {
        &self.unit
    }

    /// Returns the indices of the validators that endorsed the unit, in the
    /// order in which they are held.  A validator that is held twice is
    /// returned twice.
    pub fn validator_ids(&self) -> (ids: Vec<ValidatorIndex>)
        ensures
            ids@ == self.validator_ids_spec(),
    {
        let mut ids: Vec<ValidatorIndex> = Vec::new();
        let n: usize = self.endorsers.len();
        let mut i: usize = 0;
        while i < n
            invariant
                n == self.endorsers@.len(),
                i <= n,
                ids@.len() == i,
                forall|j: int| 0 <= j < i ==> ids@[j] == self.endorsers@[j].0,
            decreases n - i,
        {
            ids.push(self.endorsers[i].0);
            i = i + 1;
        }
        assert(ids@ =~= self.validator_ids_spec());
        ids
    }
}

} // verus!
