//! Pings: signed signs of life that add nothing to the graph.

use crate::context::{Context, ValidatorSecret};
use crate::timestamp::Timestamp;
use crate::validators::{ValidatorIndex, Validators};
use vstd::bytes::{spec_u32_to_le_bytes, spec_u64_to_le_bytes};
use vstd::prelude::*;

verus! {

/// Why a ping was rejected.
#[derive(Clone, Copy, Debug, PartialEq, Eq)]
pub enum PingError {
    /// The creator is not a validator.
    Creator,
    /// The signature is not the creator's signature over the ping.
    Signature,
}

/// Why a vertex was rejected.
#[derive(Clone, Copy, Debug, PartialEq, Eq)]
pub enum VertexError {
    /// The vertex is a ping, and the ping is invalid.
    Ping(PingError),
}

impl From<PingError> for VertexError {
    fn from(error: PingError) -> (vertex_error: Self) {
        VertexError::Ping(error)
    }
}

impl vstd::std_specs::convert::FromSpecImpl<PingError> for VertexError {
    open spec fn obeys_from_spec() -> bool {
        true
    }

    open spec fn from_spec(error: PingError) -> Self {
        VertexError::Ping(error)
    }
}

/// The bytes that a ping is hashed over: the creator's index and the
/// timestamp, each in little-endian order at its full width.
pub open spec fn ping_bytes(creator: ValidatorIndex, timestamp: Timestamp) -> Seq<u8> {
    spec_u32_to_le_bytes(creator.0) + spec_u64_to_le_bytes(timestamp.0)
}

/// Calls `bincode::serialize` on the pair of a validator index and a time in
/// milliseconds.  With the options that function fixes, integers are written
/// at their full width in little-endian order and a tuple is written as its
/// fields one after the other, so the result is the four bytes of `creator`
/// followed by the eight bytes of `millis`.  Nothing limits the size of the
/// output, and writing to a vector cannot fail.
#[verifier::external_body]
fn serialize_creator_and_time(creator: u32, millis: u64) -> (bytes: Vec<u8>)
    ensures
        bytes@ == spec_u32_to_le_bytes(creator) + spec_u64_to_le_bytes(millis),
{
    bincode::serialize(&(creator, millis)).expect("serialize Ping")
}

/// A ping sent by a validator to signal that it is online but has not created
/// new units in a while.
#[derive(Clone, Debug, PartialEq, Eq, Hash)]
pub struct Ping<C: Context> {
    /// The creator who signals that it is online.
    pub creator: ValidatorIndex,
    /// The time at which the ping was created.
    pub timestamp: Timestamp,
    /// The creator's signature over the hash of creator and timestamp.
    pub signature: C::Signature,
}

impl<C: Context> Ping<C> {
    /// The hash of a ping: the hash of its creator and timestamp.
    pub open spec fn hash_spec(creator: ValidatorIndex, timestamp: Timestamp) -> C::Hash {
        C::hash_spec(ping_bytes(creator, timestamp))
    }

    /// What validating the ping against the validator table gives.
    pub open spec fn validate_spec(self, validators: Validators<C::ValidatorId>) -> Result<
        (),
        VertexError,
    > {
        match validators.id_spec(self.creator) {
            None => Err(VertexError::Ping(PingError::Creator)),
            Some(id) => if C::verify_spec(
                Self::hash_spec(self.creator, self.timestamp),
                id,
                self.signature,
            ) {
                Ok(())
            } else {
                Err(VertexError::Ping(PingError::Signature))
            },
        }
    }

    /// Creates a new signed ping.
    pub fn new(creator: ValidatorIndex, timestamp: Timestamp, sk: &C::ValidatorSecret) -> (ping:
        Self)
        ensures
            ping.creator == creator,
            ping.timestamp == timestamp,
            sk.signs(Self::hash_spec(creator, timestamp), ping.signature),
    {
        let hash = Self::hash(creator, timestamp);
        Ping { creator, timestamp, signature: sk.sign(&hash) }
    }

    /// The creator who signals that it is online.
    pub fn creator(&self) -> (creator: ValidatorIndex)
        ensures
            creator == self.creator,
    {
        self.creator
    }

    /// The timestamp when the ping was created.
    pub fn timestamp(&self) -> (timestamp: Timestamp)
        ensures
            timestamp == self.timestamp,
    {
        self.timestamp
    }

    /// Validates the ping: the creator must be a validator, and the signature
    /// must be valid for the ping's hash under the creator's identity.
    pub fn validate(&self, validators: &Validators<C::ValidatorId>) -> (result: Result<
        (),
        VertexError,
    >)
        ensures
            result == self.validate_spec(*validators),
    {
        let v_id = match validators.id(self.creator) {
            Some(v_id) => v_id,
            None => {
                return Err(VertexError::from(PingError::Creator));
            },
        };
        let hash = Self::hash(self.creator, self.timestamp);
        if !C::verify_signature(&hash, v_id, &self.signature) {
            return Err(VertexError::from(PingError::Signature));
        }
        Ok(())
    }

    /// Computes the hash of a ping, i.e. of the creator and timestamp.
    pub fn hash(creator: ValidatorIndex, timestamp: Timestamp) -> (hash: C::Hash)
        ensures
            hash == Self::hash_spec(creator, timestamp),
    {
        let bytes = serialize_creator_and_time(creator.0, timestamp.0);
        <C as Context>::hash(bytes.as_slice())
    }
}

} // verus!
