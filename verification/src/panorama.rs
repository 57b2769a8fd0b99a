//! What a unit's creator has seen of each validator.

use crate::context::Context;
use crate::encoding::{length_bytes, put_bytes, put_length, put_u32, variant_bytes};
use crate::validators::ValidatorIndex;
use vstd::prelude::*;

verus! {

/// What is known of one validator: nothing, its latest unit, or that it is
/// faulty.
#[derive(Clone, Debug, PartialEq, Eq, Hash)]
pub enum Observation<C: Context> {
    /// No unit of the validator has been seen.
    Unseen,
    /// The validator's latest unit.
    Correct(C::Hash),
    /// The validator has been seen to break the protocol's rules.
    Faulty,
}

impl<C: Context> Observation<C> {
    /// The hash of the latest unit, if the validator is known and not faulty.
    pub open spec fn correct_spec(self) -> Option<C::Hash> {
        match self {
            Observation::Correct(hash) => Some(hash),
            _ => None,
        }
    }

    /// Returns the hash of the validator's latest unit, or `None` if no unit
    /// has been seen or the validator is faulty.
    pub fn correct(&self) -> (hash: Option<&C::Hash>)
        ensures
            match hash {
                Some(hash) => self.correct_spec() == Some(*hash),
                None => self.correct_spec() is None,
            },
    {
        match self {
            Observation::Correct(hash) => Some(hash),
            _ => None,
        }
    }

    /// The canonical encoding of the observation: the variant's index,
    /// followed by the hash if there is one.
    pub open spec fn bytes(self) -> Seq<u8> {
        match self {
            Observation::Unseen => variant_bytes(0),
            Observation::Correct(hash) => variant_bytes(1) + C::hash_bytes(hash),
            Observation::Faulty => variant_bytes(2),
        }
    }

    /// Appends the canonical encoding of the observation to `out`.
    pub fn encode_into(&self, out: &mut Vec<u8>)
        ensures
            final(out)@ == old(out)@ + self.bytes(),
    {
        match self {
            Observation::Unseen => put_u32(out, 0),
            Observation::Correct(hash) => {
                put_u32(out, 1);
                put_bytes(out, C::encode_hash(hash));
                assert(final(out)@ =~= old(out)@ + self.bytes());
            },
            Observation::Faulty => put_u32(out, 2),
        }
    }
}

/// The encodings of `observations`, one after the other.
pub open spec fn observations_bytes<C: Context>(observations: Seq<Observation<C>>) -> Seq<u8>
    decreases observations.len(),
{
    if observations.len() == 0 {
        Seq::empty()
    } else {
        observations[0].bytes() + observations_bytes(observations.drop_first())
    }
}

/// Encoding one more observation appends its bytes.
pub proof fn lemma_observations_bytes_push<C: Context>(
    observations: Seq<Observation<C>>,
    last: Observation<C>,
)
    ensures
        observations_bytes(observations.push(last)) == observations_bytes(observations)
            + last.bytes(),
    decreases observations.len(),
{
    let extended = observations.push(last);
    if observations.len() == 0 {
        assert(extended.drop_first() =~= Seq::empty());
        assert(observations_bytes(extended.drop_first()) =~= Seq::empty());
        assert(observations_bytes(extended) =~= last.bytes());
        assert(observations_bytes(observations) + last.bytes() =~= last.bytes());
    } else {
        assert(extended.drop_first() =~= observations.drop_first().push(last));
        lemma_observations_bytes_push(observations.drop_first(), last);
        assert(observations_bytes(extended) =~= observations_bytes(observations) + last.bytes());
    }
}

/// A panorama: one observation for each validator, by index.
#[derive(Clone, Debug, PartialEq, Eq, Hash)]
pub struct Panorama<C: Context>(pub Vec<Observation<C>>);

impl<C: Context> View for Panorama<C> {
    type V = Seq<Observation<C>>;

    /// The observations, in index order.
    open spec fn view(&self) -> Seq<Observation<C>> {
        self.0@
    }
}

impl<C: Context> Panorama<C> {
    /// The observation of the validator with index `idx`, if the panorama
    /// has one.
    pub open spec fn get_spec(&self, idx: ValidatorIndex) -> Option<Observation<C>> {
        if idx.0 < self@.len() {
            Some(self@[idx.0 as int])
        } else {
            None
        }
    }

    /// Returns the number of validators the panorama covers.
    pub fn len(&self) -> (len: usize)
        ensures
            len == self@.len(),
    {
        self.0.len()
    }

    /// Returns the observation of the validator with index `idx`, or `None`
    /// if the panorama does not reach that far.
    pub fn get(&self, idx: ValidatorIndex) -> (observation: Option<&Observation<C>>)
        ensures
            match observation {
                Some(observation) => self.get_spec(idx) == Some(*observation),
                None => self.get_spec(idx) is None,
            },
    {
        let i: usize = idx.0 as usize;
        if i < self.0.len() {
            Some(&self.0[i])
        } else {
            None
        }
    }

    /// The canonical encoding of a panorama: the number of observations,
    /// followed by each of them.
    pub open spec fn bytes(observations: Seq<Observation<C>>) -> Seq<u8> {
        length_bytes(observations.len()) + observations_bytes(observations)
    }

    /// Appends the canonical encoding of the panorama to `out`.
    pub fn encode_into(&self, out: &mut Vec<u8>)
        ensures
            final(out)@ == old(out)@ + Self::bytes(self@),
    {
        let n: usize = self.0.len();
        put_length(out, n);
        let ghost start = out@;
        let mut i: usize = 0;
        while i < n
            invariant
                n == self@.len(),
                i <= n,
                out@ == start + observations_bytes(self@.take(i as int)),
            decreases n - i,
        {
            let ghost before = out@;
            self.0[i].encode_into(out);
            proof {
                lemma_observations_bytes_push(self@.take(i as int), self@[i as int]);
                assert(self@.take(i as int).push(self@[i as int]) =~= self@.take(i + 1));
                assert(out@ =~= start + observations_bytes(self@.take(i + 1)));
            }
            i = i + 1;
        }
        proof {
            assert(self@.take(n as int) =~= self@);
            assert(out@ =~= old(out)@ + Self::bytes(self@));
        }
    }
}

} // verus!
