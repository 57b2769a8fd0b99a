use std::collections::{BTreeSet, HashSet};

use highway_vertex::context::{Context, ValidatorSecret};
use highway_vertex::encoding::{put_bytes, put_length, put_u32, put_u64, put_u8};
use highway_vertex::endorsements::{Endorsements, SignedEndorsement};
use highway_vertex::mint_bonding::{entry_point, EntryPoint, Error};
use highway_vertex::panorama::{Observation, Panorama};
use highway_vertex::ping::{Ping, PingError, VertexError};
use highway_vertex::timestamp::{round_id, Timestamp};
use highway_vertex::validators::{ValidatorIndex, Validators};
use highway_vertex::vertex::{Dependency, Evidence, Vertex};
use highway_vertex::wire_unit::{HashedWireUnit, SignedWireUnit, WireUnit};

/// A context with small integers for every type: a hash is the FNV-1a hash of
/// the data, and a signature is the hash plus the signer's key.
#[derive(Clone, Debug, PartialEq, Eq, PartialOrd, Ord, Hash)]
struct TestContext;

struct TestSecret(u32);

impl ValidatorSecret for TestSecret {
    type Hash = u64;
    type Signature = u64;

    fn sign(&self, hash: &u64) -> u64 {
        hash.wrapping_add(u64::from(self.0))
    }

    fn signs(&self, _hash: u64, _signature: u64) -> bool {
        unreachable!()
    }
}

impl Context for TestContext {
    type ConsensusValue = u32;
    type ValidatorId = u32;
    type ValidatorSecret = TestSecret;
    type Signature = u64;
    type Hash = u64;
    type InstanceId = u64;

    fn hash(data: &[u8]) -> u64 {
        let mut hash: u64 = 0xcbf2_9ce4_8422_2325;
        for byte in data {
            hash ^= u64::from(*byte);
            hash = hash.wrapping_mul(0x0000_0100_0000_01b3);
        }
        hash
    }

    fn verify_signature(hash: &u64, public_key: &u32, signature: &u64) -> bool {
        *signature == hash.wrapping_add(u64::from(*public_key))
    }

    fn encode_hash(hash: &u64) -> Vec<u8> {
        hash.to_le_bytes().to_vec()
    }

    fn encode_instance_id(instance_id: &u64) -> Vec<u8> {
        instance_id.to_le_bytes().to_vec()
    }

    fn encode_value(value: &u32) -> Vec<u8> {
        value.to_le_bytes().to_vec()
    }

    fn hash_spec(_data: vstd::seq::Seq<u8>) -> u64 {
        unreachable!()
    }

    fn verify_spec(_hash: u64, _public_key: u32, _signature: u64) -> bool {
        unreachable!()
    }

    fn hash_bytes(_hash: u64) -> vstd::seq::Seq<u8> {
        unreachable!()
    }

    fn instance_id_bytes(_instance_id: u64) -> vstd::seq::Seq<u8> {
        unreachable!()
    }

    fn value_bytes(_value: u32) -> vstd::seq::Seq<u8> {
        unreachable!()
    }

    fn hashes_are_ordered() {}
}

fn unit(creator: u32, value: Option<u32>) -> WireUnit<TestContext> {
    WireUnit {
        panorama: Panorama(vec![
            Observation::Correct(11),
            Observation::Unseen,
            Observation::Faulty,
        ]),
        creator: ValidatorIndex(creator),
        instance_id: 7,
        value,
        seq_number: 3,
        timestamp: Timestamp(1500),
        round_exp: 3,
        endorsed: BTreeSet::from([40, 20, 30]),
    }
}

fn signed_unit(creator: u32, value: Option<u32>) -> SignedWireUnit<TestContext> {
    SignedWireUnit::new(unit(creator, value).into_hashed(), &TestSecret(creator))
}

#[test]
fn round_id_floors_to_the_start_of_the_round() {
    assert_eq!(round_id(Timestamp(1500), 3), Timestamp(1496));
    assert_eq!(unit(0, None).round_id(), Timestamp(1496));
}

#[test]
fn round_id_on_boundaries() {
    assert_eq!(round_id(Timestamp(1496), 3), Timestamp(1496));
    assert_eq!(round_id(Timestamp(1503), 3), Timestamp(1496));
    assert_eq!(round_id(Timestamp(1504), 3), Timestamp(1504));
    assert_eq!(round_id(Timestamp(1500), 0), Timestamp(1500));
    assert_eq!(round_id(Timestamp(7), 3), Timestamp(0));
    assert_eq!(round_id(Timestamp(u64::MAX), 63), Timestamp(1 << 63));
    assert_eq!(round_id(Timestamp(u64::MAX), 64), Timestamp(0));
    assert_eq!(round_id(Timestamp(u64::MAX), 255), Timestamp(0));
}

#[test]
fn previous_is_the_creators_correct_entry() {
    assert_eq!(unit(0, None).previous(), Some(&11));
    assert_eq!(unit(1, None).previous(), None);
    assert_eq!(unit(2, None).previous(), None);
    assert_eq!(unit(3, None).previous(), None);
}

#[test]
fn ping_hash_is_the_hash_of_creator_and_timestamp() {
    let expected: [u8; 12] = [0x04, 0x03, 0x02, 0x01, 0xdc, 0x05, 0, 0, 0, 0, 0, 0];
    assert_eq!(
        Ping::<TestContext>::hash(ValidatorIndex(0x0102_0304), Timestamp(1500)),
        TestContext::hash(&expected)
    );
}

#[test]
fn ping_validation() {
    let validators: Validators<u32> = Validators::from_ids(vec![100, 101]);
    let ping: Ping<TestContext> = Ping::new(ValidatorIndex(1), Timestamp(500), &TestSecret(101));
    assert_eq!(ping.validate(&validators), Ok(()));
    let unregistered: Ping<TestContext> =
        Ping::new(ValidatorIndex(2), Timestamp(500), &TestSecret(101));
    assert_eq!(
        unregistered.validate(&validators),
        Err(VertexError::Ping(PingError::Creator))
    );
    let wrong_key: Ping<TestContext> =
        Ping::new(ValidatorIndex(1), Timestamp(500), &TestSecret(100));
    assert_eq!(
        wrong_key.validate(&validators),
        Err(VertexError::Ping(PingError::Signature))
    );
}

#[test]
fn endorsements_keep_the_input_order() {
    let a: u64 = 77;
    let b: u64 = 78;
    let gathered: Endorsements<TestContext> = Endorsements::try_new(vec![
        SignedEndorsement::new(a, ValidatorIndex(5), 1),
        SignedEndorsement::new(a, ValidatorIndex(2), 2),
    ])
    .expect("same target");
    assert_eq!(gathered.unit(), &a);
    assert_eq!(gathered.validator_ids(), vec![ValidatorIndex(5), ValidatorIndex(2)]);
    assert_eq!(gathered.endorsers, vec![(ValidatorIndex(5), 1), (ValidatorIndex(2), 2)]);
    let mixed: Option<Endorsements<TestContext>> = Endorsements::try_new(vec![
        SignedEndorsement::new(a, ValidatorIndex(5), 1),
        SignedEndorsement::new(a, ValidatorIndex(2), 2),
        SignedEndorsement::new(b, ValidatorIndex(3), 3),
    ]);
    assert_eq!(mixed, None);
    let empty: Option<Endorsements<TestContext>> = Endorsements::try_new(vec![]);
    assert_eq!(empty, None);
}

#[test]
fn vertex_ids() {
    let first = Vertex::Unit(signed_unit(0, Some(9)));
    let second = Vertex::Unit(signed_unit(1, Some(9)));
    assert_ne!(first.unit_hash(), second.unit_hash());
    assert_ne!(first.id(), second.id());
    assert_eq!(first.id(), Dependency::Unit(unit(0, Some(9)).compute_hash()));
    assert!(first.id().is_unit());
    let evidence: Vertex<TestContext> = Vertex::Evidence(Evidence { perpetrator: ValidatorIndex(4) });
    assert_eq!(evidence.id(), Dependency::Evidence(ValidatorIndex(4)));
    assert!(evidence.is_evidence());
    assert!(!evidence.id().is_unit());
}

#[test]
fn hashed_unit_keeps_the_recomputed_hash() {
    let hashed = HashedWireUnit::new(unit(0, Some(1)));
    assert_eq!(hashed.hash(), unit(0, Some(1)).compute_hash());
    let rebuilt = HashedWireUnit::new(hashed.clone().into_inner());
    assert_eq!(rebuilt, hashed);
}

/// An observation as `serde` sees the enumeration: the variant's index and
/// its field.
enum PlainObservation {
    Unseen,
    Correct(u64),
    Faulty,
}

impl serde::Serialize for PlainObservation {
    fn serialize<S: serde::Serializer>(&self, serializer: S) -> Result<S::Ok, S::Error> {
        match self {
            PlainObservation::Unseen => serializer.serialize_unit_variant("Observation", 0, "None"),
            PlainObservation::Correct(hash) => {
                serializer.serialize_newtype_variant("Observation", 1, "Correct", hash)
            }
            PlainObservation::Faulty => {
                serializer.serialize_unit_variant("Observation", 2, "Faulty")
            }
        }
    }
}

#[test]
fn encoding_is_what_bincode_writes_for_the_fields() {
    let plain = (
        vec![
            PlainObservation::Correct(11),
            PlainObservation::Unseen,
            PlainObservation::Faulty,
        ],
        2u32,
        7u64,
        Some(9u32),
        3u64,
        1500u64,
        3u8,
        BTreeSet::from([20u64, 30, 40]),
    );
    assert_eq!(
        unit(2, Some(9)).encode(),
        bincode::serialize(&plain).expect("serialize")
    );
    let plain_without_value = (
        vec![
            PlainObservation::Correct(11),
            PlainObservation::Unseen,
            PlainObservation::Faulty,
        ],
        0u32,
        7u64,
        None::<u32>,
        3u64,
        1500u64,
        3u8,
        BTreeSet::from([20u64, 30, 40]),
    );
    assert_eq!(
        unit(0, None).encode(),
        bincode::serialize(&plain_without_value).expect("serialize")
    );
}

#[test]
fn encoding_byte_by_byte() {
    let mut expected: Vec<u8> = Vec::new();
    // The panorama: three observations.
    expected.extend_from_slice(&[3, 0, 0, 0, 0, 0, 0, 0]);
    expected.extend_from_slice(&[1, 0, 0, 0]);
    expected.extend_from_slice(&[11, 0, 0, 0, 0, 0, 0, 0]);
    expected.extend_from_slice(&[0, 0, 0, 0]);
    expected.extend_from_slice(&[2, 0, 0, 0]);
    // The creator and the instance.
    expected.extend_from_slice(&[0, 0, 0, 0]);
    expected.extend_from_slice(&[7, 0, 0, 0, 0, 0, 0, 0]);
    // The value.
    expected.extend_from_slice(&[1, 9, 0, 0, 0]);
    // The sequence number, the timestamp and the round exponent.
    expected.extend_from_slice(&[3, 0, 0, 0, 0, 0, 0, 0]);
    expected.extend_from_slice(&[0xdc, 0x05, 0, 0, 0, 0, 0, 0]);
    expected.push(3);
    // The endorsed units, in ascending order.
    expected.extend_from_slice(&[3, 0, 0, 0, 0, 0, 0, 0]);
    expected.extend_from_slice(&[20, 0, 0, 0, 0, 0, 0, 0]);
    expected.extend_from_slice(&[30, 0, 0, 0, 0, 0, 0, 0]);
    expected.extend_from_slice(&[40, 0, 0, 0, 0, 0, 0, 0]);
    assert_eq!(unit(0, Some(9)).encode(), expected);
}

#[test]
fn encoding_of_an_empty_unit() {
    let empty: WireUnit<TestContext> = WireUnit {
        panorama: Panorama(vec![]),
        creator: ValidatorIndex(0),
        instance_id: 0,
        value: None,
        seq_number: 0,
        timestamp: Timestamp(0),
        round_exp: 0,
        endorsed: BTreeSet::new(),
    };
    let mut expected: Vec<u8> = vec![0; 8 + 4 + 8];
    expected.push(0);
    expected.extend_from_slice(&[0; 8 + 8 + 1 + 8]);
    assert_eq!(empty.encode(), expected);
    assert_eq!(empty.compute_hash(), TestContext::hash(&expected));
    assert_eq!(empty.previous(), None);
}

#[test]
fn compute_hash_is_the_hash_of_the_encoding() {
    let wire_unit = unit(0, Some(9));
    assert_eq!(wire_unit.compute_hash(), TestContext::hash(&wire_unit.encode()));
}

#[test]
fn compute_hash_is_deterministic() {
    let wire_unit = unit(0, Some(9));
    assert_eq!(wire_unit.compute_hash(), wire_unit.compute_hash());
    assert_eq!(wire_unit.compute_hash(), unit(0, Some(9)).compute_hash());
    // The order in which the endorsed units were added does not matter.
    let mut other = unit(0, Some(9));
    other.endorsed = BTreeSet::new();
    other.endorsed.insert(30);
    other.endorsed.insert(40);
    other.endorsed.insert(20);
    assert_eq!(other.compute_hash(), wire_unit.compute_hash());
}

#[test]
fn compute_hash_changes_with_every_field() {
    let base = unit(0, Some(9));
    let mut hashes: Vec<u64> = vec![base.compute_hash()];
    let mut changed = base.clone();
    changed.panorama = Panorama(vec![
        Observation::Correct(12),
        Observation::Unseen,
        Observation::Faulty,
    ]);
    hashes.push(changed.compute_hash());
    let mut changed = base.clone();
    changed.panorama = Panorama(vec![
        Observation::Correct(11),
        Observation::Faulty,
        Observation::Faulty,
    ]);
    hashes.push(changed.compute_hash());
    let mut changed = base.clone();
    changed.creator = ValidatorIndex(1);
    hashes.push(changed.compute_hash());
    let mut changed = base.clone();
    changed.instance_id = 8;
    hashes.push(changed.compute_hash());
    let mut changed = base.clone();
    changed.value = None;
    hashes.push(changed.compute_hash());
    let mut changed = base.clone();
    changed.value = Some(10);
    hashes.push(changed.compute_hash());
    let mut changed = base.clone();
    changed.seq_number = 4;
    hashes.push(changed.compute_hash());
    let mut changed = base.clone();
    changed.timestamp = Timestamp(1501);
    hashes.push(changed.compute_hash());
    let mut changed = base.clone();
    changed.round_exp = 4;
    hashes.push(changed.compute_hash());
    let mut changed = base.clone();
    changed.endorsed.insert(50);
    hashes.push(changed.compute_hash());
    let mut changed = base.clone();
    changed.endorsed.remove(&20);
    hashes.push(changed.compute_hash());
    let distinct: HashSet<u64> = hashes.iter().copied().collect();
    assert_eq!(distinct.len(), hashes.len());
}

#[test]
fn new_with_hash_keeps_the_given_hash() {
    let hash = unit(1, None).compute_hash();
    let hashed = HashedWireUnit::new_with_hash(unit(1, None), hash);
    assert_eq!(hashed.hash(), hash);
    assert_eq!(hashed.wire_unit(), &unit(1, None));
    assert_eq!(hashed, HashedWireUnit::new(unit(1, None)));
    assert_eq!(hashed, unit(1, None).into_hashed());
    assert_eq!(hashed.into_inner(), unit(1, None));
}

#[test]
fn signature_over_a_hash_verifies() {
    let signed = signed_unit(1, Some(9));
    assert_eq!(signed.hash(), unit(1, Some(9)).compute_hash());
    assert_eq!(signed.wire_unit(), &unit(1, Some(9)));
    assert_eq!(signed.signature, signed.hash().wrapping_add(1));
    assert!(TestContext::verify_signature(&signed.hash(), &1, &signed.signature));
    assert!(!TestContext::verify_signature(&signed.hash(), &2, &signed.signature));
    for bit in 0..64 {
        let flipped_signature = signed.signature ^ (1u64 << bit);
        assert!(!TestContext::verify_signature(&signed.hash(), &1, &flipped_signature));
        let flipped_hash = signed.hash() ^ (1u64 << bit);
        assert!(!TestContext::verify_signature(&flipped_hash, &1, &signed.signature));
    }
}

#[test]
fn ping_accessors() {
    let ping: Ping<TestContext> = Ping::new(ValidatorIndex(1), Timestamp(500), &TestSecret(101));
    assert_eq!(ping.creator(), ValidatorIndex(1));
    assert_eq!(ping.timestamp(), Timestamp(500));
    assert_eq!(Timestamp(500).millis(), 500);
    let hash = Ping::<TestContext>::hash(ValidatorIndex(1), Timestamp(500));
    assert_eq!(ping.signature, hash.wrapping_add(101));
    assert_ne!(hash, Ping::<TestContext>::hash(ValidatorIndex(2), Timestamp(500)));
    assert_ne!(hash, Ping::<TestContext>::hash(ValidatorIndex(1), Timestamp(501)));
}

#[test]
fn ping_with_a_changed_field_is_rejected() {
    let validators: Validators<u32> = Validators::from_ids(vec![100, 101]);
    let mut ping: Ping<TestContext> =
        Ping::new(ValidatorIndex(1), Timestamp(500), &TestSecret(101));
    ping.timestamp = Timestamp(501);
    assert_eq!(
        ping.validate(&validators),
        Err(VertexError::Ping(PingError::Signature))
    );
    let mut ping: Ping<TestContext> =
        Ping::new(ValidatorIndex(1), Timestamp(500), &TestSecret(101));
    ping.creator = ValidatorIndex(0);
    assert_eq!(
        ping.validate(&validators),
        Err(VertexError::Ping(PingError::Signature))
    );
    let empty: Validators<u32> = Validators::from_ids(vec![]);
    assert_eq!(
        ping.validate(&empty),
        Err(VertexError::Ping(PingError::Creator))
    );
}

#[test]
fn vertex_error_from_ping_error() {
    assert_eq!(
        VertexError::from(PingError::Creator),
        VertexError::Ping(PingError::Creator)
    );
    assert_eq!(
        VertexError::from(PingError::Signature),
        VertexError::Ping(PingError::Signature)
    );
}

#[test]
fn endorsements_from_one_target() {
    let gathered: Endorsements<TestContext> = Endorsements::new(vec![
        SignedEndorsement::new(77, ValidatorIndex(5), 1),
        SignedEndorsement::new(77, ValidatorIndex(2), 2),
        SignedEndorsement::new(77, ValidatorIndex(5), 3),
    ]);
    assert_eq!(gathered.unit, 77);
    assert_eq!(
        gathered.validator_ids(),
        vec![ValidatorIndex(5), ValidatorIndex(2), ValidatorIndex(5)]
    );
    let single: Endorsements<TestContext> =
        Endorsements::new(vec![SignedEndorsement::new(78, ValidatorIndex(0), 9)]);
    assert_eq!(single.unit(), &78);
    assert_eq!(single.validator_ids(), vec![ValidatorIndex(0)]);
    let mixed_at_the_start: Option<Endorsements<TestContext>> = Endorsements::try_new(vec![
        SignedEndorsement::new(78, ValidatorIndex(5), 1),
        SignedEndorsement::new(77, ValidatorIndex(2), 2),
    ]);
    assert_eq!(mixed_at_the_start, None);
}

#[test]
fn signed_endorsement_accessors() {
    let endorsement: SignedEndorsement<TestContext> =
        SignedEndorsement::new(77, ValidatorIndex(5), 1);
    assert_eq!(endorsement.unit(), &77);
    assert_eq!(endorsement.validator_idx(), ValidatorIndex(5));
    assert_eq!(endorsement.signature(), &1);
}

#[test]
fn vertex_accessors_by_variant() {
    let with_value = Vertex::Unit(signed_unit(0, Some(9)));
    assert_eq!(with_value.value(), Some(&9));
    assert_eq!(with_value.unit_hash(), Some(unit(0, Some(9)).compute_hash()));
    assert_eq!(with_value.timestamp(), Some(Timestamp(1500)));
    assert_eq!(with_value.creator(), Some(ValidatorIndex(0)));
    assert!(!with_value.is_evidence());

    let without_value = Vertex::Unit(signed_unit(0, None));
    assert_eq!(without_value.value(), None);
    assert_eq!(without_value.unit_hash(), Some(unit(0, None).compute_hash()));

    let evidence: Vertex<TestContext> =
        Vertex::Evidence(Evidence { perpetrator: ValidatorIndex(4) });
    assert_eq!(evidence.value(), None);
    assert_eq!(evidence.unit_hash(), None);
    assert_eq!(evidence.timestamp(), None);
    assert_eq!(evidence.creator(), None);
    assert!(evidence.is_evidence());

    let endorsements: Vertex<TestContext> = Vertex::Endorsements(Endorsements::new(vec![
        SignedEndorsement::new(77, ValidatorIndex(5), 1),
    ]));
    assert_eq!(endorsements.value(), None);
    assert_eq!(endorsements.unit_hash(), None);
    assert_eq!(endorsements.timestamp(), None);
    assert_eq!(endorsements.creator(), None);
    assert!(!endorsements.is_evidence());
    assert_eq!(endorsements.id(), Dependency::Endorsement(77));
    assert!(!endorsements.id().is_unit());

    let ping: Vertex<TestContext> =
        Vertex::Ping(Ping::new(ValidatorIndex(1), Timestamp(500), &TestSecret(101)));
    assert_eq!(ping.value(), None);
    assert_eq!(ping.unit_hash(), None);
    assert_eq!(ping.timestamp(), Some(Timestamp(500)));
    assert_eq!(ping.creator(), Some(ValidatorIndex(1)));
    assert!(!ping.is_evidence());
    assert_eq!(ping.id(), Dependency::Ping(ValidatorIndex(1), Timestamp(500)));
    assert!(!ping.id().is_unit());
}

#[test]
fn dependencies_are_ordered_and_deduplicated() {
    let mut set: BTreeSet<Dependency<TestContext>> = BTreeSet::new();
    set.insert(Dependency::Ping(ValidatorIndex(1), Timestamp(2)));
    set.insert(Dependency::Endorsement(5));
    set.insert(Dependency::Unit(9));
    set.insert(Dependency::Evidence(ValidatorIndex(3)));
    set.insert(Dependency::Unit(5));
    set.insert(Dependency::Unit(9));
    set.insert(Dependency::Ping(ValidatorIndex(1), Timestamp(1)));
    let ordered: Vec<Dependency<TestContext>> = set.into_iter().collect();
    assert_eq!(
        ordered,
        vec![
            Dependency::Unit(5),
            Dependency::Unit(9),
            Dependency::Evidence(ValidatorIndex(3)),
            Dependency::Endorsement(5),
            Dependency::Ping(ValidatorIndex(1), Timestamp(1)),
            Dependency::Ping(ValidatorIndex(1), Timestamp(2)),
        ]
    );
    let hashed: HashSet<Dependency<TestContext>> = ordered.iter().cloned().collect();
    assert_eq!(hashed.len(), 6);
    assert_ne!(
        Dependency::<TestContext>::Unit(5),
        Dependency::<TestContext>::Endorsement(5)
    );
}

#[test]
fn validators_by_index() {
    let validators: Validators<u32> = Validators::from_ids(vec![100, 101]);
    assert_eq!(validators.len(), 2);
    assert_eq!(validators.id(ValidatorIndex(0)), Some(&100));
    assert_eq!(validators.id(ValidatorIndex(1)), Some(&101));
    assert_eq!(validators.id(ValidatorIndex(2)), None);
    assert_eq!(validators.id(ValidatorIndex(u32::MAX)), None);
}

#[test]
fn panorama_by_index() {
    let panorama: Panorama<TestContext> = Panorama(vec![
        Observation::Correct(11),
        Observation::Unseen,
        Observation::Faulty,
    ]);
    assert_eq!(panorama.len(), 3);
    assert_eq!(panorama.get(ValidatorIndex(0)), Some(&Observation::Correct(11)));
    assert_eq!(panorama.get(ValidatorIndex(1)), Some(&Observation::Unseen));
    assert_eq!(panorama.get(ValidatorIndex(2)), Some(&Observation::Faulty));
    assert_eq!(panorama.get(ValidatorIndex(3)), None);
    assert_eq!(Observation::<TestContext>::Correct(11).correct(), Some(&11));
    assert_eq!(Observation::<TestContext>::Unseen.correct(), None);
    assert_eq!(Observation::<TestContext>::Faulty.correct(), None);
    let mut out: Vec<u8> = vec![0xff];
    panorama.encode_into(&mut out);
    assert_eq!(
        out,
        vec![
            0xff, 3, 0, 0, 0, 0, 0, 0, 0, 1, 0, 0, 0, 11, 0, 0, 0, 0, 0, 0, 0, 0, 0, 0, 0, 2, 0,
            0, 0
        ]
    );
    let mut out: Vec<u8> = Vec::new();
    Observation::<TestContext>::Correct(0x0102).encode_into(&mut out);
    assert_eq!(out, vec![1, 0, 0, 0, 2, 1, 0, 0, 0, 0, 0, 0]);
}

#[test]
fn integers_are_written_in_little_endian_order() {
    let mut out: Vec<u8> = vec![9];
    put_u8(&mut out, 0xab);
    put_u32(&mut out, 0x0102_0304);
    put_u64(&mut out, 0x0102_0304_0506_0708);
    put_length(&mut out, 258);
    put_bytes(&mut out, vec![7, 8]);
    assert_eq!(
        out,
        vec![
            9, 0xab, 4, 3, 2, 1, 8, 7, 6, 5, 4, 3, 2, 1, 2, 1, 0, 0, 0, 0, 0, 0, 7, 8
        ]
    );
}

#[test]
fn commands_name_entry_points() {
    assert_eq!(entry_point("bond"), Ok(EntryPoint::Bond));
    assert_eq!(entry_point("unbond"), Ok(EntryPoint::Unbond));
    assert_eq!(entry_point("release"), Ok(EntryPoint::Release));
    assert_eq!(
        entry_point("bond-from-main-purse"),
        Ok(EntryPoint::BondFromMainPurse)
    );
    assert_eq!(entry_point("seed_new_account"), Ok(EntryPoint::SeedNewAccount));
    assert_eq!(entry_point(""), Err(Error::UnknownCommand));
    assert_eq!(entry_point("Bond"), Err(Error::UnknownCommand));
    assert_eq!(entry_point("bond "), Err(Error::UnknownCommand));
    assert_eq!(entry_point("release_founder_stake"), Err(Error::UnknownCommand));
}

#[test]
fn errors_are_numbered_from_zero() {
    assert_eq!(Error::UnableToSeedAccount.code(), 0);
    assert_eq!(Error::UnknownCommand.code(), 1);
}
