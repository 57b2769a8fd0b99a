//! Units as they are sent over the wire, and the chain from a unit to its
//! hash and on to its signature.

use crate::context::{Context, ValidatorSecret};
use crate::encoding::{length_bytes, put_bytes, put_length, put_u32, put_u64, put_u8};
use crate::order::{lemma_lawful_order_btree, lemma_walk_is_sorted, sorted};
use crate::panorama::{Observation, Panorama};
use crate::timestamp::{round_id, round_start, Timestamp};
use crate::validators::ValidatorIndex;
use std::collections::BTreeSet;
use vstd::bytes::{spec_u32_to_le_bytes, spec_u64_to_le_bytes};
use vstd::prelude::*;
use vstd::std_specs::btree::spec_btree_keys_iter;
use vstd::std_specs::iter::IteratorSpec;

verus! {

/// The encodings of `hashes`, one after the other.
pub open spec fn hashes_bytes<C: Context>(hashes: Seq<C::Hash>) -> Seq<u8>
    decreases hashes.len(),
{
    if hashes.len() == 0 {
        Seq::empty()
    } else {
        C::hash_bytes(hashes[0]) + hashes_bytes::<C>(hashes.drop_first())
    }
}

/// Encoding one more hash appends its bytes.
pub proof fn lemma_hashes_bytes_push<C: Context>(hashes: Seq<C::Hash>, last: C::Hash)
    ensures
        hashes_bytes::<C>(hashes.push(last)) == hashes_bytes::<C>(hashes) + C::hash_bytes(last),
    decreases hashes.len(),
{
    let extended = hashes.push(last);
    if hashes.len() == 0 {
        assert(extended.drop_first() =~= Seq::empty());
        assert(hashes_bytes::<C>(extended.drop_first()) =~= Seq::empty());
        assert(hashes_bytes::<C>(extended) =~= C::hash_bytes(last));
        assert(hashes_bytes::<C>(hashes) + C::hash_bytes(last) =~= C::hash_bytes(last));
    } else {
        assert(extended.drop_first() =~= hashes.drop_first().push(last));
        lemma_hashes_bytes_push::<C>(hashes.drop_first(), last);
        assert(hashes_bytes::<C>(extended) =~= hashes_bytes::<C>(hashes) + C::hash_bytes(last));
    }
}

/// The canonical encoding of a set of hashes: their number, followed by each
/// of them in ascending order.
pub open spec fn endorsed_bytes<C: Context>(endorsed: Set<C::Hash>) -> Seq<u8> {
    length_bytes(sorted(endorsed).len()) + hashes_bytes::<C>(sorted(endorsed))
}

/// The canonical encoding of an optional consensus value: a tag byte,
/// followed by the value if there is one.
pub open spec fn optional_value_bytes<C: Context>(value: Option<C::ConsensusValue>) -> Seq<u8> {
    match value {
        None => seq![0u8],
        Some(value) => seq![1u8] + C::value_bytes(value),
    }
}

/// The mathematical content of a [`WireUnit`].
pub struct WireUnitView<C: Context> {
    pub panorama: Seq<Observation<C>>,
    pub creator: ValidatorIndex,
    pub instance_id: C::InstanceId,
    pub value: Option<C::ConsensusValue>,
    pub seq_number: u64,
    pub timestamp: Timestamp,
    pub round_exp: u8,
    pub endorsed: Set<C::Hash>,
}

impl<C: Context> WireUnitView<C> {
    /// The canonical encoding of the unit: each field in the order of
    /// declaration.
    pub open spec fn bytes(self) -> Seq<u8> {
        Panorama::<C>::bytes(self.panorama) + (spec_u32_to_le_bytes(self.creator.0) + (
        C::instance_id_bytes(self.instance_id) + (optional_value_bytes::<C>(self.value) + (
        spec_u64_to_le_bytes(self.seq_number) + (spec_u64_to_le_bytes(self.timestamp.0) + (
        seq![self.round_exp] + endorsed_bytes::<C>(self.endorsed)))))))
    }

    /// The unit's hash: the hash of its canonical encoding.
    pub open spec fn hash(self) -> C::Hash {
        C::hash_spec(self.bytes())
    }

    /// The creator's previous unit: what the panorama holds as the creator's
    /// latest unit.
    pub open spec fn previous(self) -> Option<C::Hash> {
        if self.creator.0 < self.panorama.len() {
            self.panorama[self.creator.0 as int].correct_spec()
        } else {
            None
        }
    }
}

/// A unit as it is sent over the wire, possibly containing a new block.
#[derive(Clone, Debug, PartialEq, Eq, Hash)]
pub struct WireUnit<C: Context> {
    /// The latest unit or fault the creator has seen of each validator.
    pub panorama: Panorama<C>,
    /// The validator that created the unit.
    pub creator: ValidatorIndex,
    /// The protocol instance the unit belongs to.
    pub instance_id: C::InstanceId,
    /// The consensus value the unit proposes, if any.
    pub value: Option<C::ConsensusValue>,
    /// The number of units the creator made before this one.
    pub seq_number: u64,
    /// The time at which the unit was created.
    pub timestamp: Timestamp,
    /// The creator's round length is `2^round_exp` milliseconds.
    pub round_exp: u8,
    /// The units that the creator endorses.
    pub endorsed: BTreeSet<C::Hash>,
}

impl<C: Context> View for WireUnit<C> {
    type V = WireUnitView<C>;

    open spec fn view(&self) -> WireUnitView<C> {
        WireUnitView {
            panorama: self.panorama@,
            creator: self.creator,
            instance_id: self.instance_id,
            value: self.value,
            seq_number: self.seq_number,
            timestamp: self.timestamp,
            round_exp: self.round_exp,
            endorsed: self.endorsed@,
        }
    }
}

/// Appends the canonical encoding of `value` to `out`.
fn encode_optional_value<C: Context>(value: &Option<C::ConsensusValue>, out: &mut Vec<u8>)
    ensures
        final(out)@ == old(out)@ + optional_value_bytes::<C>(*value),
{
    match value {
        None => put_u8(out, 0),
        Some(value) => {
            put_u8(out, 1);
            put_bytes(out, C::encode_value(value));
            assert(final(out)@ =~= old(out)@ + (seq![1u8] + C::value_bytes(*value)));
        },
    }
}

/// Appends the canonical encoding of `endorsed` to `out`.
fn encode_endorsed<C: Context>(endorsed: &BTreeSet<C::Hash>, out: &mut Vec<u8>)
    ensures
        final(out)@ == old(out)@ + endorsed_bytes::<C>(endorsed@),
{
    let ghost walk = spec_btree_keys_iter(endorsed).remaining().unref();
    proof {
        C::hashes_are_ordered();
        lemma_lawful_order_btree::<C::Hash>();
        lemma_walk_is_sorted(endorsed, walk);
        vstd::std_specs::btree::axiom_spec_btree_set_len(endorsed);
    }
    put_length(out, endorsed.len());
    let ghost start = out@;
    proof {
        assert(walk.take(0) =~= Seq::empty());
    }
    for hash in it: endorsed.iter()
        invariant
            it.seq().unref() == walk,
            out@ == start + hashes_bytes::<C>(walk.take(it.index())),
    {
        let ghost before = walk.take(it.index());
        put_bytes(out, C::encode_hash(hash));
        proof {
            lemma_hashes_bytes_push::<C>(before, *hash);
            assert(before.push(*hash) =~= walk.take(it.index() + 1));
            assert(out@ =~= start + hashes_bytes::<C>(walk.take(it.index() + 1)));
        }
    }
    proof {
        assert(walk.take(walk.len() as int) =~= walk);
        assert(out@ =~= old(out)@ + endorsed_bytes::<C>(endorsed@));
    }
}

impl<C: Context> WireUnit<C> {
    /// Returns the canonical encoding of the unit.
    pub fn encode(&self) -> (bytes: Vec<u8>)
        ensures
            bytes@ == self@.bytes(),
    {
        let mut out: Vec<u8> = Vec::new();
        self.panorama.encode_into(&mut out);
        put_u32(&mut out, self.creator.0);
        put_bytes(&mut out, C::encode_instance_id(&self.instance_id));
        encode_optional_value::<C>(&self.value, &mut out);
        put_u64(&mut out, self.seq_number);
        put_u64(&mut out, self.timestamp.0);
        put_u8(&mut out, self.round_exp);
        encode_endorsed::<C>(&self.endorsed, &mut out);
        assert(out@ =~= self@.bytes());
        out
    }

    /// Returns the unit's hash, which is used as a unit identifier.
    pub fn compute_hash(&self) -> (hash: C::Hash)
        ensures
            hash == self@.hash(),
    {
        let bytes = self.encode();
        <C as Context>::hash(bytes.as_slice())
    }

    /// Computes the unit's hash and keeps it with the unit.
    pub fn into_hashed(self) -> (hashed: HashedWireUnit<C>)
        ensures
            hashed.spec_wire_unit() == self,
            hashed.spec_hash() == self@.hash(),
            hashed.wf(),
    {
        HashedWireUnit::new(self)
    }

    /// Returns the time at which the round containing this unit began.
    pub fn round_id(&self) -> (start: Timestamp)
        ensures
            start.0 == round_start(self.timestamp.0, self.round_exp),
    {
        round_id(self.timestamp, self.round_exp)
    }

    /// Returns the creator's previous unit, or `None` if the panorama holds
    /// no unit of the creator.
    pub fn previous(&self) -> (hash: Option<&C::Hash>)
        ensures
            match hash {
                Some(hash) => self@.previous() == Some(*hash),
                None => self@.previous() is None,
            },
    {
        match self.panorama.get(self.creator) {
            Some(observation) => observation.correct(),
            None => None,
        }
    }
}

/// A unit together with its hash.
#[derive(Clone, Debug, PartialEq, Eq, Hash)]
pub struct HashedWireUnit<C: Context> {
    hash: C::Hash,
    wire_unit: WireUnit<C>,
}

impl<C: Context> HashedWireUnit<C> {
    /// The hash that is kept with the unit.
    pub closed spec fn spec_hash(self) -> C::Hash {
        self.hash
    }

    /// The unit.
    pub closed spec fn spec_wire_unit(self) -> WireUnit<C> {
        self.wire_unit
    }

    /// The hash that is kept is the hash of the unit.
    pub open spec fn wf(self) -> bool {
        self.spec_hash() == self.spec_wire_unit()@.hash()
    }

    /// Computes the unit's hash and creates a new `HashedWireUnit`.
    pub fn new(wire_unit: WireUnit<C>) -> (hashed: Self)
        ensures
            hashed.spec_wire_unit() == wire_unit,
            hashed.spec_hash() == wire_unit@.hash(),
            hashed.wf(),
    {
        let hash = wire_unit.compute_hash();
        Self::new_with_hash(wire_unit, hash)
    }

    /// Returns the unit, without its hash.
    pub fn into_inner(self) -> (wire_unit: WireUnit<C>)
        ensures
            wire_unit == self.spec_wire_unit(),
    {
        self.wire_unit
    }

    /// Returns the unit.
    pub fn wire_unit(&self) -> (wire_unit: &WireUnit<C>)
        ensures
            *wire_unit == self.spec_wire_unit(),
    {
        &self.wire_unit
    }

    /// Returns the hash that is kept with the unit.
    pub fn hash(&self) -> (hash: C::Hash)
        ensures
            hash == self.spec_hash(),
    {
        self.hash
    }

    /// Creates a new `HashedWireUnit` from a unit and a hash that is already
    /// known to be the unit's: the hash is not computed again.
    pub fn new_with_hash(wire_unit: WireUnit<C>, hash: C::Hash) -> (hashed: Self)
        requires
            hash == wire_unit@.hash(),
        ensures
            hashed.spec_wire_unit() == wire_unit,
            hashed.spec_hash() == hash,
            hashed.wf(),
    {
        HashedWireUnit { hash, wire_unit }
    }
}

/// A unit together with its hash and its creator's signature over the hash.
#[derive(Clone, Debug, PartialEq, Eq, Hash)]
pub struct SignedWireUnit<C: Context> {
    /// The unit and its hash.
    pub hashed_wire_unit: HashedWireUnit<C>,
    /// The creator's signature over the hash.
    pub signature: C::Signature,
}

impl<C: Context> SignedWireUnit<C> {
    /// Signs the unit's hash with `secret_key`.
    pub fn new(hashed_wire_unit: HashedWireUnit<C>, secret_key: &C::ValidatorSecret) -> (signed:
        Self)
        ensures
            signed.hashed_wire_unit == hashed_wire_unit,
            secret_key.signs(hashed_wire_unit.spec_hash(), signed.signature),
    {
        let hash = hashed_wire_unit.hash();
        let signature = secret_key.sign(&hash);
        SignedWireUnit { hashed_wire_unit, signature }
    }

    /// Returns the unit.
    pub fn wire_unit(&self) -> (wire_unit: &WireUnit<C>)
        ensures
            *wire_unit == self.hashed_wire_unit.spec_wire_unit(),
    {
        self.hashed_wire_unit.wire_unit()
    }

    /// Returns the hash that is kept with the unit.
    pub fn hash(&self) -> (hash: C::Hash)
        ensures
            hash == self.hashed_wire_unit.spec_hash(),
    {
        self.hashed_wire_unit.hash()
    }
}

} // verus!
