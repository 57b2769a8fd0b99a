//! The cryptographic context a protocol instance is built over.

use std::fmt::Debug;
use std::hash::Hash;
use vstd::prelude::*;

verus! {

/// A validator's secret key.
pub trait ValidatorSecret {
    type Hash;

    type Signature;

    /// Whether `signature` is a signature this key may produce over `hash`.
    spec fn signs(&self, hash: Self::Hash, signature: Self::Signature) -> bool;

    /// Signs `hash` with this key.
    fn sign(&self, hash: &Self::Hash) -> (signature: Self::Signature)
        ensures
            self.signs(*hash, signature),
    ;
}

/// The types and primitives that every component of a protocol instance
/// shares: hashing, signatures, and the canonical bytes of the values that
/// enter a unit's hash.
///
/// The specification functions are the mathematical meaning of the executable
/// ones; an implementation is trusted to compute what they describe.
pub trait Context: Clone + Debug + Eq + Ord + Hash {
    /// The consensus value a unit may propose.
    type ConsensusValue: Eq + Clone + Debug + Hash;

    /// A validator's public identity, against which signatures are verified.
    type ValidatorId: Eq + Clone + Debug + Hash;

    /// A validator's secret signing key.
    type ValidatorSecret: ValidatorSecret<Hash = Self::Hash, Signature = Self::Signature>;

    /// A signature over a hash.
    type Signature: Copy + Clone + Debug + Eq + Hash;

    /// A unit or ping hash.
    type Hash: Copy + Clone + Debug + Eq + Ord + Hash;

    /// The identifier of a protocol instance, which keeps units of one
    /// network from being replayed on another.
    type InstanceId: Copy + Clone + Debug + Eq + Ord + Hash;

    /// The hash of `data`.
    spec fn hash_spec(data: Seq<u8>) -> Self::Hash;

    /// Hashes `data`.
    fn hash(data: &[u8]) -> (hash: Self::Hash)
        ensures
            hash == Self::hash_spec(data@),
    ;

    /// Whether `signature` is valid for `hash` under `public_key`.
    spec fn verify_spec(
        hash: Self::Hash,
        public_key: Self::ValidatorId,
        signature: Self::Signature,
    ) -> bool;

    /// Checks `signature` against `hash` and `public_key`.
    fn verify_signature(
        hash: &Self::Hash,
        public_key: &Self::ValidatorId,
        signature: &Self::Signature,
    ) -> (valid: bool)
        ensures
            valid == Self::verify_spec(*hash, *public_key, *signature),
    ;

    /// The canonical bytes of a hash.
    spec fn hash_bytes(hash: Self::Hash) -> Seq<u8>;

    /// Writes out the canonical bytes of `hash`.
    fn encode_hash(hash: &Self::Hash) -> (bytes: Vec<u8>)
        ensures
            bytes@ == Self::hash_bytes(*hash),
    ;

    /// The canonical bytes of an instance identifier.
    spec fn instance_id_bytes(instance_id: Self::InstanceId) -> Seq<u8>;

    /// Writes out the canonical bytes of `instance_id`.
    fn encode_instance_id(instance_id: &Self::InstanceId) -> (bytes: Vec<u8>)
        ensures
            bytes@ == Self::instance_id_bytes(*instance_id),
    ;

    /// The canonical bytes of a consensus value.
    spec fn value_bytes(value: Self::ConsensusValue) -> Seq<u8>;

    /// Writes out the canonical bytes of `value`.
    fn encode_value(value: &Self::ConsensusValue) -> (bytes: Vec<u8>)
        ensures
            bytes@ == Self::value_bytes(*value),
    ;

    /// Hashes are totally ordered, and equal exactly when they are the same
    /// value.
    proof fn hashes_are_ordered()
        ensures
            crate::order::lawful_order::<Self::Hash>(),
            crate::order::lawful_equality::<Self::Hash>(),
    ;
}

} // verus!
