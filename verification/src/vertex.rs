//! The vertices of the graph and the identifiers by which they are requested.

use crate::context::Context;
use crate::endorsements::Endorsements;
use crate::ping::Ping;
use crate::timestamp::Timestamp;
use crate::validators::ValidatorIndex;
use crate::wire_unit::SignedWireUnit;
use vstd::prelude::*;

verus! {

/// A dependency of a `Vertex` that can be satisfied by one or more other
/// vertices.
#[derive(Clone, Debug, PartialEq, Eq, PartialOrd, Ord, Hash)]
pub enum Dependency<C: Context> {
    /// The unit with the given hash.
    Unit(C::Hash),
    /// Evidence against the given validator.
    Evidence(ValidatorIndex),
    /// Endorsements of the unit with the given hash.
    Endorsement(C::Hash),
    /// The ping of the given validator at the given time.
    Ping(ValidatorIndex, Timestamp),
}

impl<C: Context> Dependency<C> {
    /// Returns whether this identifies a unit, as opposed to other types of
    /// vertices.
    pub fn is_unit(&self) -> (is_unit: bool)
        ensures
            is_unit == (self is Unit),
    {
        match self {
            Dependency::Unit(_) => true,
            _ => false,
        }
    }
}

/// Proof that a validator has broken the protocol's rules.
#[derive(Clone, Debug, PartialEq, Eq, Hash)]
pub struct Evidence {
    /// The validator the evidence is against.
    pub perpetrator: ValidatorIndex,
}

impl Evidence {
    /// Returns the validator the evidence is against.
    pub fn perpetrator(&self) -> (perpetrator: ValidatorIndex)
        ensures
            perpetrator == self.perpetrator,
    {
        self.perpetrator
    }
}

/// An element of the protocol state, that might depend on other elements.
///
/// It is the vertex in a directed acyclic graph, whose edges are dependencies.
#[derive(Clone, Debug, PartialEq, Eq, Hash)]
pub enum Vertex<C: Context> {
    /// A signed unit.
    Unit(SignedWireUnit<C>),
    /// Evidence against a validator.
    Evidence(Evidence),
    /// Endorsements of a unit.
    Endorsements(Endorsements<C>),
    /// A ping.
    Ping(Ping<C>),
}

impl<C: Context> Vertex<C> {
    /// The consensus value of a unit that proposes one.
    pub open spec fn value_spec(self) -> Option<C::ConsensusValue> {
        match self {
            Vertex::Unit(swunit) => swunit.hashed_wire_unit.spec_wire_unit().value,
            _ => None,
        }
    }

    /// The hash that is kept with a unit.
    pub open spec fn unit_hash_spec(self) -> Option<C::Hash> {
        match self {
            Vertex::Unit(swunit) => Some(swunit.hashed_wire_unit.spec_hash()),
            _ => None,
        }
    }

    /// The time at which a unit or a ping was created.
    pub open spec fn timestamp_spec(self) -> Option<Timestamp> {
        match self {
            Vertex::Unit(swunit) => Some(swunit.hashed_wire_unit.spec_wire_unit().timestamp),
            Vertex::Ping(ping) => Some(ping.timestamp),
            _ => None,
        }
    }

    /// The creator of a unit or a ping.
    pub open spec fn creator_spec(self) -> Option<ValidatorIndex> {
        match self {
            Vertex::Unit(swunit) => Some(swunit.hashed_wire_unit.spec_wire_unit().creator),
            Vertex::Ping(ping) => Some(ping.creator),
            _ => None,
        }
    }

    /// The identifier of the vertex.
    pub open spec fn id_spec(self) -> Dependency<C> {
        match self {
            Vertex::Unit(swunit) => Dependency::Unit(swunit.hashed_wire_unit.spec_hash()),
            Vertex::Evidence(evidence) => Dependency::Evidence(evidence.perpetrator),
            Vertex::Endorsements(endorsements) => Dependency::Endorsement(endorsements.unit),
            Vertex::Ping(ping) => Dependency::Ping(ping.creator, ping.timestamp),
        }
    }

    /// Returns the consensus value mentioned in this vertex, if any.
    ///
    /// These need to be validated before passing the vertex into the protocol
    /// state.  E.g. if the consensus value is a transaction, it should be
    /// validated first (correct signature, structure, gas limit, etc.).  If it
    /// is a hash of a transaction, the transaction should be obtained _and_
    /// validated.  Only after that, the vertex can be considered valid.
    pub fn value(&self) -> (value: Option<&C::ConsensusValue>)
        ensures
            match value {
                Some(value) => self.value_spec() == Some(*value),
                None => self.value_spec() is None,
            },
    {
        match self {
            Vertex::Unit(swunit) => swunit.wire_unit().value.as_ref(),
            Vertex::Evidence(_) | Vertex::Endorsements(_) | Vertex::Ping(_) => None,
        }
    }

    /// Returns the unit hash of this vertex (if it is a unit).
    pub fn unit_hash(&self) -> (hash: Option<C::Hash>)
        ensures
            hash == self.unit_hash_spec(),
    {
        match self {
            Vertex::Unit(swunit) => Some(swunit.hash()),
            Vertex::Evidence(_) | Vertex::Endorsements(_) | Vertex::Ping(_) => None,
        }
    }

    /// Returns whether this is evidence, as opposed to other types of
    /// vertices.
    pub fn is_evidence(&self) -> (is_evidence: bool)
        ensures
            is_evidence == (self is Evidence),
    {
        match self {
            Vertex::Evidence(_) => true,
            _ => false,
        }
    }

    /// Returns a `Timestamp` provided the vertex is a `Vertex::Unit` or
    /// `Vertex::Ping`.
    pub fn timestamp(&self) -> (timestamp: Option<Timestamp>)
        ensures
            timestamp == self.timestamp_spec(),
    {
        match self {
            Vertex::Unit(signed_wire_unit) => Some(signed_wire_unit.wire_unit().timestamp),
            Vertex::Ping(ping) => Some(ping.timestamp()),
            Vertex::Evidence(_) | Vertex::Endorsements(_) => None,
        }
    }

    /// Returns the creator provided the vertex is a `Vertex::Unit` or
    /// `Vertex::Ping`.
    pub fn creator(&self) -> (creator: Option<ValidatorIndex>)
        ensures
            creator == self.creator_spec(),
    {
        match self {
            Vertex::Unit(signed_wire_unit) => Some(signed_wire_unit.wire_unit().creator),
            Vertex::Ping(ping) => Some(ping.creator),
            Vertex::Evidence(_) | Vertex::Endorsements(_) => None,
        }
    }

    /// Returns the identifier by which the vertex is requested and referred
    /// to.
    pub fn id(&self) -> (id: Dependency<C>)
        ensures
            id == self.id_spec(),
    {
        match self {
            Vertex::Unit(signed_wire_unit) => Dependency::Unit(signed_wire_unit.hash()),
            Vertex::Evidence(evidence) => Dependency::Evidence(evidence.perpetrator()),
            Vertex::Endorsements(endorsement) => Dependency::Endorsement(endorsement.unit),
            Vertex::Ping(ping) => Dependency::Ping(ping.creator(), ping.timestamp()),
        }
    }
}

} // verus!
