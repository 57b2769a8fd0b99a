//! Why the canonical encoding of a unit can be read back in only one way.
//!
//! Every field is written so that a reader knows where it ends: an integer
//! has a fixed width, a sequence says how many items follow, and the context
//! is asked that no encoding of a hash, an instance identifier or a consensus
//! value is the start of another.  Two units with the same encoding are then
//! the same unit, and two pings hashed over the same bytes are of the same
//! creator and time.

use crate::context::Context;
use crate::encoding::{length_bytes, variant_bytes};
use crate::order::{lemma_lawful_order_btree, lemma_sorted_lists_set, sorted};
use crate::panorama::{observations_bytes, Observation, Panorama};
use crate::ping::ping_bytes;
use crate::timestamp::Timestamp;
use crate::validators::ValidatorIndex;
use crate::wire_unit::{endorsed_bytes, hashes_bytes, optional_value_bytes, WireUnit};
use vstd::bytes::{
    lemma_auto_spec_u32_to_from_le_bytes, lemma_auto_spec_u64_to_from_le_bytes,
    spec_u32_from_le_bytes, spec_u32_to_le_bytes, spec_u64_from_le_bytes, spec_u64_to_le_bytes,
};
use vstd::prelude::*;

verus! {

/// The context's encodings can be told apart: of two different hashes,
/// instance identifiers or consensus values, the encoding of one is never the
/// start of the encoding of the other.
pub open spec fn canonical_encodings<C: Context>() -> bool {
    &&& forall|a: C::Hash, b: C::Hash|
        #![trigger C::hash_bytes(a), C::hash_bytes(b)]
        C::hash_bytes(a).is_prefix_of(C::hash_bytes(b)) ==> a == b
    &&& forall|a: C::InstanceId, b: C::InstanceId|
        #![trigger C::instance_id_bytes(a), C::instance_id_bytes(b)]
        C::instance_id_bytes(a).is_prefix_of(C::instance_id_bytes(b)) ==> a == b
    &&& forall|a: C::ConsensusValue, b: C::ConsensusValue|
        #![trigger C::value_bytes(a), C::value_bytes(b)]
        C::value_bytes(a).is_prefix_of(C::value_bytes(b)) ==> a == b
}

/// Where two concatenations are equal, one of the first parts is the start of
/// the other; and where the first parts are equally long, the parts are equal
/// one by one.
pub proof fn lemma_shared_start(x1: Seq<u8>, r1: Seq<u8>, x2: Seq<u8>, r2: Seq<u8>)
    requires
        x1 + r1 == x2 + r2,
    ensures
        x1.is_prefix_of(x2) || x2.is_prefix_of(x1),
        x1.len() == x2.len() ==> x1 == x2 && r1 == r2,
{
    let whole = x1 + r1;
    assert(whole.len() == x1.len() + r1.len());
    assert(whole.len() == x2.len() + r2.len());
    if x1.len() <= x2.len() {
        assert forall|i: int| 0 <= i < x1.len() implies x1[i] == x2[i] by {
            assert(whole[i] == x1[i]);
            assert((x2 + r2)[i] == x2[i]);
        }
        assert(x1 =~= x2.subrange(0, x1.len() as int));
    } else {
        assert forall|i: int| 0 <= i < x2.len() implies x2[i] == x1[i] by {
            assert(whole[i] == x1[i]);
            assert((x2 + r2)[i] == x2[i]);
        }
        assert(x2 =~= x1.subrange(0, x2.len() as int));
    }
    if x1.len() == x2.len() {
        assert(x1 =~= x2);
        assert forall|i: int| 0 <= i < r1.len() implies r1[i] == r2[i] by {
            assert(whole[x1.len() + i] == r1[i]);
            assert((x2 + r2)[x2.len() + i] == r2[i]);
        }
        assert(r1 =~= r2);
    }
}

/// A sequence that starts with `x` is `x` followed by the rest.
proof fn lemma_start_and_rest(x: Seq<u8>, whole: Seq<u8>)
    requires
        x.is_prefix_of(whole),
    ensures
        whole == x + whole.subrange(x.len() as int, whole.len() as int),
{
    assert(whole =~= x + whole.subrange(x.len() as int, whole.len() as int));
}

/// Different 32-bit integers have different encodings, four bytes long.
pub proof fn lemma_u32_bytes_injective(a: u32, b: u32)
    ensures
        spec_u32_to_le_bytes(a).len() == 4,
        spec_u32_to_le_bytes(b).len() == 4,
        spec_u32_to_le_bytes(a) == spec_u32_to_le_bytes(b) ==> a == b,
{
    lemma_auto_spec_u32_to_from_le_bytes();
    assert(spec_u32_to_le_bytes(a).len() == 4);
    assert(spec_u32_to_le_bytes(b).len() == 4);
    assert(spec_u32_from_le_bytes(spec_u32_to_le_bytes(a)) == a);
    assert(spec_u32_from_le_bytes(spec_u32_to_le_bytes(b)) == b);
}

/// Different 64-bit integers have different encodings, eight bytes long.
pub proof fn lemma_u64_bytes_injective(a: u64, b: u64)
    ensures
        spec_u64_to_le_bytes(a).len() == 8,
        spec_u64_to_le_bytes(b).len() == 8,
        spec_u64_to_le_bytes(a) == spec_u64_to_le_bytes(b) ==> a == b,
{
    lemma_auto_spec_u64_to_from_le_bytes();
    assert(spec_u64_from_le_bytes(spec_u64_to_le_bytes(a)) == a);
    assert(spec_u64_from_le_bytes(spec_u64_to_le_bytes(b)) == b);
}

/// Reads a 32-bit integer off the start of two equal encodings.
proof fn lemma_read_u32(a: u32, r1: Seq<u8>, b: u32, r2: Seq<u8>)
    requires
        spec_u32_to_le_bytes(a) + r1 == spec_u32_to_le_bytes(b) + r2,
    ensures
        a == b,
        r1 == r2,
{
    lemma_u32_bytes_injective(a, b);
    lemma_shared_start(spec_u32_to_le_bytes(a), r1, spec_u32_to_le_bytes(b), r2);
}

/// Reads a 64-bit integer off the start of two equal encodings.
proof fn lemma_read_u64(a: u64, r1: Seq<u8>, b: u64, r2: Seq<u8>)
    requires
        spec_u64_to_le_bytes(a) + r1 == spec_u64_to_le_bytes(b) + r2,
    ensures
        a == b,
        r1 == r2,
{
    lemma_u64_bytes_injective(a, b);
    lemma_shared_start(spec_u64_to_le_bytes(a), r1, spec_u64_to_le_bytes(b), r2);
}

/// Reads a byte off the start of two equal encodings.
proof fn lemma_read_u8(a: u8, r1: Seq<u8>, b: u8, r2: Seq<u8>)
    requires
        seq![a] + r1 == seq![b] + r2,
    ensures
        a == b,
        r1 == r2,
{
    lemma_shared_start(seq![a], r1, seq![b], r2);
    assert(a == seq![a][0]);
    assert(b == seq![b][0]);
}

/// Two pings that are hashed over the same bytes have the same creator and
/// the same timestamp.
pub proof fn lemma_ping_bytes_injective(
    creator1: ValidatorIndex,
    timestamp1: Timestamp,
    creator2: ValidatorIndex,
    timestamp2: Timestamp,
)
    requires
        ping_bytes(creator1, timestamp1) == ping_bytes(creator2, timestamp2),
    ensures
        creator1 == creator2,
        timestamp1 == timestamp2,
{
    lemma_read_u32(
        creator1.0,
        spec_u64_to_le_bytes(timestamp1.0),
        creator2.0,
        spec_u64_to_le_bytes(timestamp2.0),
    );
    lemma_u64_bytes_injective(timestamp1.0, timestamp2.0);
}

/// The index of an observation's variant.
spec fn variant_index<C: Context>(observation: Observation<C>) -> u32 {
    match observation {
        Observation::Unseen => 0,
        Observation::Correct(_) => 1,
        Observation::Faulty => 2,
    }
}

/// What follows the variant's index in an observation's encoding.
spec fn variant_fields<C: Context>(observation: Observation<C>) -> Seq<u8> {
    match observation {
        Observation::Correct(hash) => C::hash_bytes(hash),
        _ => Seq::empty(),
    }
}

/// The encoding of an observation is the start of no other observation's.
pub proof fn lemma_observation_prefix_free<C: Context>(a: Observation<C>, b: Observation<C>)
    requires
        canonical_encodings::<C>(),
        a.bytes().is_prefix_of(b.bytes()),
    ensures
        a == b,
{
    let rest = b.bytes().subrange(a.bytes().len() as int, b.bytes().len() as int);
    lemma_start_and_rest(a.bytes(), b.bytes());
    let index_a = variant_bytes(variant_index(a));
    let index_b = variant_bytes(variant_index(b));
    assert(a.bytes() =~= index_a + variant_fields(a));
    assert(b.bytes() =~= index_b + variant_fields(b));
    assert(index_a + (variant_fields(a) + rest) =~= a.bytes() + rest);
    lemma_u32_bytes_injective(variant_index(a), variant_index(b));
    lemma_u32_bytes_injective(variant_index(b), variant_index(a));
    lemma_shared_start(index_a, variant_fields(a) + rest, index_b, variant_fields(b));
    assert(variant_index(a) == variant_index(b));
    assert(variant_fields(a).is_prefix_of(variant_fields(b))) by {
        assert(variant_fields(a) =~= (variant_fields(a) + rest).subrange(
            0,
            variant_fields(a).len() as int,
        ));
    }
    match (a, b) {
        (Observation::Correct(x), Observation::Correct(y)) => {
            assert(C::hash_bytes(x).is_prefix_of(C::hash_bytes(y)));
        },
        _ => {},
    }
}

/// Two sequences of equally many observations that are encoded alike, each
/// followed by whatever comes next, are the same, and so is what comes next.
pub proof fn lemma_observations_injective<C: Context>(
    pa: Seq<Observation<C>>,
    r1: Seq<u8>,
    pb: Seq<Observation<C>>,
    r2: Seq<u8>,
)
    requires
        canonical_encodings::<C>(),
        pa.len() == pb.len(),
        observations_bytes(pa) + r1 == observations_bytes(pb) + r2,
    ensures
        pa == pb,
        r1 == r2,
    decreases pa.len(),
{
    if pa.len() == 0 {
        assert(observations_bytes(pa) + r1 =~= r1);
        assert(observations_bytes(pb) + r2 =~= r2);
        assert(pa =~= pb);
    } else {
        let t1 = pa.drop_first();
        let t2 = pb.drop_first();
        let x1 = pa[0].bytes();
        let x2 = pb[0].bytes();
        assert(x1 + (observations_bytes(t1) + r1) =~= observations_bytes(pa) + r1);
        assert(x2 + (observations_bytes(t2) + r2) =~= observations_bytes(pb) + r2);
        lemma_shared_start(x1, observations_bytes(t1) + r1, x2, observations_bytes(t2) + r2);
        if x1.is_prefix_of(x2) {
            lemma_observation_prefix_free(pa[0], pb[0]);
        } else {
            lemma_observation_prefix_free(pb[0], pa[0]);
        }
        lemma_observations_injective(t1, r1, t2, r2);
        assert(pa =~= seq![pa[0]] + t1);
        assert(pb =~= seq![pb[0]] + t2);
    }
}

/// Two sequences of equally many hashes that are encoded alike, each followed
/// by whatever comes next, are the same, and so is what comes next.
pub proof fn lemma_hashes_injective<C: Context>(
    q1: Seq<C::Hash>,
    r1: Seq<u8>,
    q2: Seq<C::Hash>,
    r2: Seq<u8>,
)
    requires
        canonical_encodings::<C>(),
        q1.len() == q2.len(),
        hashes_bytes::<C>(q1) + r1 == hashes_bytes::<C>(q2) + r2,
    ensures
        q1 == q2,
        r1 == r2,
    decreases q1.len(),
{
    if q1.len() == 0 {
        assert(hashes_bytes::<C>(q1) + r1 =~= r1);
        assert(hashes_bytes::<C>(q2) + r2 =~= r2);
        assert(q1 =~= q2);
    } else {
        let t1 = q1.drop_first();
        let t2 = q2.drop_first();
        let x1 = C::hash_bytes(q1[0]);
        let x2 = C::hash_bytes(q2[0]);
        assert(x1 + (hashes_bytes::<C>(t1) + r1) =~= hashes_bytes::<C>(q1) + r1);
        assert(x2 + (hashes_bytes::<C>(t2) + r2) =~= hashes_bytes::<C>(q2) + r2);
        lemma_shared_start(x1, hashes_bytes::<C>(t1) + r1, x2, hashes_bytes::<C>(t2) + r2);
        assert(q1[0] == q2[0]);
        lemma_hashes_injective::<C>(t1, r1, t2, r2);
        assert(q1 =~= seq![q1[0]] + t1);
        assert(q2 =~= seq![q2[0]] + t2);
    }
}

/// The encoding of an optional value is the start of no other's.
pub proof fn lemma_optional_value_prefix_free<C: Context>(
    a: Option<C::ConsensusValue>,
    b: Option<C::ConsensusValue>,
)
    requires
        canonical_encodings::<C>(),
        optional_value_bytes::<C>(a).is_prefix_of(optional_value_bytes::<C>(b)),
    ensures
        a == b,
{
    let x = optional_value_bytes::<C>(a);
    let y = optional_value_bytes::<C>(b);
    assert(x[0] == y.subrange(0, x.len() as int)[0]);
    assert(x[0] == y[0]);
    match (a, b) {
        (Some(v), Some(w)) => {
            assert(C::value_bytes(v).is_prefix_of(C::value_bytes(w))) by {
                assert(C::value_bytes(v).len() <= C::value_bytes(w).len());
                assert forall|i: int| 0 <= i < C::value_bytes(v).len() implies C::value_bytes(
                    v,
                )[i] == C::value_bytes(w)[i] by {
                    assert(x[i + 1] == y.subrange(0, x.len() as int)[i + 1]);
                }
                assert(C::value_bytes(v) =~= C::value_bytes(w).subrange(
                    0,
                    C::value_bytes(v).len() as int,
                ));
            }
        },
        _ => {},
    }
}

/// Reads an instance identifier off the start of two equal encodings.
proof fn lemma_read_instance_id<C: Context>(
    a: C::InstanceId,
    r1: Seq<u8>,
    b: C::InstanceId,
    r2: Seq<u8>,
)
    requires
        canonical_encodings::<C>(),
        C::instance_id_bytes(a) + r1 == C::instance_id_bytes(b) + r2,
    ensures
        a == b,
        r1 == r2,
{
    lemma_shared_start(C::instance_id_bytes(a), r1, C::instance_id_bytes(b), r2);
    assert(a == b);
}

/// Reads an optional value off the start of two equal encodings.
proof fn lemma_read_optional_value<C: Context>(
    a: Option<C::ConsensusValue>,
    r1: Seq<u8>,
    b: Option<C::ConsensusValue>,
    r2: Seq<u8>,
)
    requires
        canonical_encodings::<C>(),
        optional_value_bytes::<C>(a) + r1 == optional_value_bytes::<C>(b) + r2,
    ensures
        a == b,
        r1 == r2,
{
    lemma_shared_start(optional_value_bytes::<C>(a), r1, optional_value_bytes::<C>(b), r2);
    if optional_value_bytes::<C>(a).is_prefix_of(optional_value_bytes::<C>(b)) {
        lemma_optional_value_prefix_free::<C>(a, b);
    } else {
        lemma_optional_value_prefix_free::<C>(b, a);
    }
}

/// Reads a panorama off the start of two equal encodings.
proof fn lemma_read_panorama<C: Context>(
    pa: Seq<Observation<C>>,
    r1: Seq<u8>,
    pb: Seq<Observation<C>>,
    r2: Seq<u8>,
)
    requires
        canonical_encodings::<C>(),
        pa.len() <= u64::MAX,
        pb.len() <= u64::MAX,
        Panorama::<C>::bytes(pa) + r1 == Panorama::<C>::bytes(pb) + r2,
    ensures
        pa == pb,
        r1 == r2,
{
    let t1 = observations_bytes(pa) + r1;
    let t2 = observations_bytes(pb) + r2;
    assert(length_bytes(pa.len()) + t1 =~= Panorama::<C>::bytes(pa) + r1);
    assert(length_bytes(pb.len()) + t2 =~= Panorama::<C>::bytes(pb) + r2);
    lemma_read_u64(pa.len() as u64, t1, pb.len() as u64, t2);
    lemma_observations_injective(pa, r1, pb, r2);
}

/// Two units with the same canonical encoding hold the same panorama, the
/// same creator, instance, value, sequence number, timestamp and round
/// exponent, and endorse the same units.
pub proof fn lemma_wire_unit_bytes_injective<C: Context>(w1: WireUnit<C>, w2: WireUnit<C>)
    requires
        canonical_encodings::<C>(),
        w1@.bytes() == w2@.bytes(),
    ensures
        w1@ == w2@,
{
    let v1 = w1@;
    let v2 = w2@;
    // What follows each field, from the last field back to the first.
    let e1 = endorsed_bytes::<C>(v1.endorsed);
    let e2 = endorsed_bytes::<C>(v2.endorsed);
    let a1 = seq![v1.round_exp] + e1;
    let a2 = seq![v2.round_exp] + e2;
    let b1 = spec_u64_to_le_bytes(v1.timestamp.0) + a1;
    let b2 = spec_u64_to_le_bytes(v2.timestamp.0) + a2;
    let c1 = spec_u64_to_le_bytes(v1.seq_number) + b1;
    let c2 = spec_u64_to_le_bytes(v2.seq_number) + b2;
    let d1 = optional_value_bytes::<C>(v1.value) + c1;
    let d2 = optional_value_bytes::<C>(v2.value) + c2;
    let f1 = C::instance_id_bytes(v1.instance_id) + d1;
    let f2 = C::instance_id_bytes(v2.instance_id) + d2;
    let g1 = spec_u32_to_le_bytes(v1.creator.0) + f1;
    let g2 = spec_u32_to_le_bytes(v2.creator.0) + f2;
    assert(v1.bytes() == Panorama::<C>::bytes(v1.panorama) + g1);
    assert(v2.bytes() == Panorama::<C>::bytes(v2.panorama) + g2);
    assert(w1.panorama.0.len() == v1.panorama.len());
    assert(w2.panorama.0.len() == v2.panorama.len());
    lemma_read_panorama::<C>(v1.panorama, g1, v2.panorama, g2);
    lemma_read_u32(v1.creator.0, f1, v2.creator.0, f2);
    lemma_read_instance_id::<C>(v1.instance_id, d1, v2.instance_id, d2);
    lemma_read_optional_value::<C>(v1.value, c1, v2.value, c2);
    lemma_read_u64(v1.seq_number, b1, v2.seq_number, b2);
    lemma_read_u64(v1.timestamp.0, a1, v2.timestamp.0, a2);
    lemma_read_u8(v1.round_exp, e1, v2.round_exp, e2);
    lemma_endorsed_bytes_injective::<C>(w1, w2);
}

/// Two units whose sets of endorsed units are encoded alike endorse the same
/// units.
proof fn lemma_endorsed_bytes_injective<C: Context>(w1: WireUnit<C>, w2: WireUnit<C>)
    requires
        canonical_encodings::<C>(),
        endorsed_bytes::<C>(w1@.endorsed) == endorsed_bytes::<C>(w2@.endorsed),
    ensures
        w1@.endorsed == w2@.endorsed,
{
    C::hashes_are_ordered();
    lemma_lawful_order_btree::<C::Hash>();
    lemma_sorted_lists_set(&w1.endorsed);
    lemma_sorted_lists_set(&w2.endorsed);
    vstd::std_specs::btree::axiom_spec_btree_set_len(&w1.endorsed);
    vstd::std_specs::btree::axiom_spec_btree_set_len(&w2.endorsed);
    let q1 = sorted(w1@.endorsed);
    let q2 = sorted(w2@.endorsed);
    assert(q1.len() == w1.endorsed.len());
    assert(q2.len() == w2.endorsed.len());
    lemma_u64_bytes_injective(q1.len() as u64, q2.len() as u64);
    lemma_u64_bytes_injective(q2.len() as u64, q1.len() as u64);
    lemma_shared_start(
        length_bytes(q1.len()),
        hashes_bytes::<C>(q1),
        length_bytes(q2.len()),
        hashes_bytes::<C>(q2),
    );
    assert(q1.len() == q2.len());
    assert(hashes_bytes::<C>(q1) + Seq::<u8>::empty() =~= hashes_bytes::<C>(q1));
    assert(hashes_bytes::<C>(q2) + Seq::<u8>::empty() =~= hashes_bytes::<C>(q2));
    lemma_hashes_injective::<C>(q1, Seq::empty(), q2, Seq::empty());
    assert(w1@.endorsed == q1.to_set());
}

} // verus!
