//! What holds of the library as a whole, proved from the contracts of its
//! functions.

use crate::context::{Context, ValidatorSecret};
use crate::encoding_laws::{canonical_encodings, lemma_wire_unit_bytes_injective};
use crate::endorsements::{endorsers_of, Endorsements, SignedEndorsement};
use crate::ping::{Ping, PingError, VertexError};
use crate::timestamp::round_start;
use crate::validators::Validators;
use crate::vertex::{Dependency, Vertex};
use crate::wire_unit::{HashedWireUnit, SignedWireUnit, WireUnit};
use vstd::arithmetic::power2::{lemma_pow2_pos, pow2};
use vstd::prelude::*;

verus! {

/// The context's hash function does not map the two byte strings to the same
/// hash unless they are the same string.
pub open spec fn collision_free_on<C: Context>(a: Seq<u8>, b: Seq<u8>) -> bool {
    C::hash_spec(a) == C::hash_spec(b) ==> a == b
}

/// Every signature that `secret` produces is valid under `public_key`.
pub open spec fn key_pair<C: Context>(
    secret: C::ValidatorSecret,
    public_key: C::ValidatorId,
) -> bool {
    forall|hash: C::Hash, signature: C::Signature| #[trigger]
        secret.signs(hash, signature) ==> C::verify_spec(hash, public_key, signature)
}

/// A unit's hash depends on its content alone: two units with the same
/// fields have the same canonical encoding and the same hash, however their
/// sets of endorsed units were filled.
pub proof fn lemma_same_content_same_hash<C: Context>(w1: WireUnit<C>, w2: WireUnit<C>)
    requires
        w1@ == w2@,
    ensures
        w1@.bytes() == w2@.bytes(),
        w1@.hash() == w2@.hash(),
{
}

/// Two units that differ in any field have different hashes, as long as the
/// context's encodings can be told apart and its hash function does not
/// collide on the two units' encodings.
pub proof fn lemma_different_content_different_hash<C: Context>(w1: WireUnit<C>, w2: WireUnit<C>)
    requires
        canonical_encodings::<C>(),
        collision_free_on::<C>(w1@.bytes(), w2@.bytes()),
        w1@ != w2@,
    ensures
        w1@.hash() != w2@.hash(),
{
    if w1@.bytes() == w2@.bytes() {
        lemma_wire_unit_bytes_injective(w1, w2);
    }
}

/// A hashed unit that is sent as its unit alone and built again on receipt
/// has the hash of the unit that was received; and that is the hash the
/// sender held, if the sender's was the hash of its unit.
pub proof fn lemma_hash_survives_the_wire<C: Context>(
    sent: HashedWireUnit<C>,
    received: HashedWireUnit<C>,
)
    requires
        received.wf(),
        received.spec_wire_unit()@ == sent.spec_wire_unit()@,
    ensures
        received.spec_hash() == received.spec_wire_unit()@.hash(),
        sent.wf() ==> received.spec_hash() == sent.spec_hash(),
{
}

/// The signature of a unit that was signed with a validator's secret key is
/// valid for the unit's hash under the matching public key.
pub proof fn lemma_signed_unit_verifies<C: Context>(
    signed: SignedWireUnit<C>,
    secret: C::ValidatorSecret,
    public_key: C::ValidatorId,
)
    requires
        secret.signs(signed.hashed_wire_unit.spec_hash(), signed.signature),
        key_pair::<C>(secret, public_key),
    ensures
        C::verify_spec(signed.hashed_wire_unit.spec_hash(), public_key, signed.signature),
{
}

/// A round starts at a multiple of its length, not after the time it
/// contains and less than one length before it; and a round's start is its
/// own round's start.
pub proof fn lemma_round_start(millis: u64, round_exp: u8)
    ensures
        round_start(millis, round_exp) % pow2(round_exp as nat) as int == 0,
        round_start(millis, round_exp) <= millis < round_start(millis, round_exp) + pow2(
            round_exp as nat,
        ),
        forall|start: u64|
            start == round_start(millis, round_exp) ==> round_start(start, round_exp) == start,
{
    let len = pow2(round_exp as nat) as int;
    lemma_pow2_pos(round_exp as nat);
    vstd::arithmetic::div_mod::lemma_fundamental_div_mod(millis as int, len);
    vstd::arithmetic::div_mod::lemma_mod_bound(millis as int, len);
    vstd::arithmetic::mul::lemma_mul_is_commutative(millis as int / len, len);
    vstd::arithmetic::div_mod::lemma_mod_multiples_basic(millis as int / len, len);
    vstd::arithmetic::div_mod::lemma_div_by_multiple(millis as int / len, len);
}

/// The creator's previous unit is known exactly when the panorama reaches the
/// creator's index and holds a unit there; it is then that unit.
pub proof fn lemma_previous_is_the_creators_entry<C: Context>(w: WireUnit<C>)
    ensures
        w@.previous() is Some <==> w.creator.0 < w.panorama@.len() && w.panorama@[w.creator.0 as int] is Correct,
        w@.previous() matches Some(hash) ==> w.panorama@[w.creator.0 as int]
            == crate::panorama::Observation::<C>::Correct(hash),
{
}

/// A ping whose signature was made with a validator's secret key, over the
/// hash of the ping's creator and timestamp, is valid in every table that
/// holds the matching public key under the creator's index.
pub proof fn lemma_signed_ping_is_valid<C: Context>(
    ping: Ping<C>,
    secret: C::ValidatorSecret,
    validators: Validators<C::ValidatorId>,
)
    requires
        secret.signs(Ping::<C>::hash_spec(ping.creator, ping.timestamp), ping.signature),
        validators.id_spec(ping.creator) is Some,
        key_pair::<C>(secret, validators.id_spec(ping.creator)->0),
    ensures
        ping.validate_spec(validators) == Ok::<(), VertexError>(()),
{
}

/// A ping is rejected for its creator exactly when the table holds no
/// validator under the creator's index, and for its signature exactly when
/// the table holds one under whose key the signature is not valid for the
/// ping's hash.
pub proof fn lemma_ping_rejections<C: Context>(
    ping: Ping<C>,
    validators: Validators<C::ValidatorId>,
)
    ensures
        ping.validate_spec(validators) == Err::<(), VertexError>(
            VertexError::Ping(PingError::Creator),
        ) <==> validators.id_spec(ping.creator) is None,
        ping.validate_spec(validators) == Err::<(), VertexError>(
            VertexError::Ping(PingError::Signature),
        ) <==> validators.id_spec(ping.creator) is Some && !C::verify_spec(
            Ping::<C>::hash_spec(ping.creator, ping.timestamp),
            validators.id_spec(ping.creator)->0,
            ping.signature,
        ),
{
}

/// The endorsers of gathered endorsements are the validators of the
/// endorsements that were gathered, in the same order.
pub proof fn lemma_endorsers_keep_their_order<C: Context>(
    endorsements: Seq<SignedEndorsement<C>>,
    gathered: Endorsements<C>,
)
    requires
        gathered.endorsers@ == endorsers_of(endorsements),
    ensures
        gathered.validator_ids_spec().len() == endorsements.len(),
        forall|i: int|
            0 <= i < endorsements.len() ==> #[trigger] gathered.validator_ids_spec()[i]
                == endorsements[i].creator,
{
}

/// Two vertices with the same identifier are of the same variant and agree on
/// what identifies a vertex of that variant: the hash of a unit, the perpetrator
/// of evidence, the endorsed unit of endorsements, the creator and timestamp
/// of a ping.
pub proof fn lemma_id_identifies<C: Context>(v1: Vertex<C>, v2: Vertex<C>)
    requires
        v1.id_spec() == v2.id_spec(),
    ensures
        match (v1, v2) {
            (Vertex::Unit(u1), Vertex::Unit(u2)) => u1.hashed_wire_unit.spec_hash()
                == u2.hashed_wire_unit.spec_hash(),
            (Vertex::Evidence(e1), Vertex::Evidence(e2)) => e1.perpetrator == e2.perpetrator,
            (Vertex::Endorsements(e1), Vertex::Endorsements(e2)) => e1.unit == e2.unit,
            (Vertex::Ping(pa), Vertex::Ping(pb)) => pa.creator == pb.creator && pa.timestamp
                == pb.timestamp,
            _ => false,
        },
{
}

/// Two units with different hashes have different identifiers.
pub proof fn lemma_unit_ids_differ<C: Context>(v1: Vertex<C>, v2: Vertex<C>)
    requires
        v1 is Unit,
        v2 is Unit,
        v1.unit_hash_spec() != v2.unit_hash_spec(),
    ensures
        v1.id_spec() != v2.id_spec(),
        v1.id_spec() is Unit,
        v2.id_spec() is Unit,
{
}

/// Only a unit carries a consensus value, and a unit carries the one it
/// proposes; only units have a unit hash; only units and pings have a creator
/// and a timestamp.
pub proof fn lemma_what_each_vertex_carries<C: Context>(v: Vertex<C>)
    ensures
        v.value_spec() is Some ==> v is Unit,
        v matches Vertex::Unit(unit) ==> v.value_spec()
            == unit.hashed_wire_unit.spec_wire_unit().value,
        v.unit_hash_spec() is Some <==> v is Unit,
        v.timestamp_spec() is Some <==> v is Unit || v is Ping,
        v.creator_spec() is Some <==> v is Unit || v is Ping,
        v.id_spec() is Unit <==> v is Unit,
{
}

} // verus!
