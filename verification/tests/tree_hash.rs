//! Tests of the Merkle commitment: digest shape, determinism, and the
//! signing root's exclusion of the signature field.

use beacon_types::beacon_block::BeaconBlock;
use beacon_types::body::BeaconBlockBody;
use beacon_types::chain_spec::ChainSpec;
use beacon_types::eth1_data::Eth1Data;
use beacon_types::fork::Fork;
use beacon_types::hash256::Hash256;
use beacon_types::payload::Payload;
use beacon_types::signature::Signature;

/// A small deterministic generator (xorshift128), seeded explicitly so
/// every run exercises the same structurally valid instances.
struct XorShiftRng {
    x: u32,
    y: u32,
    z: u32,
    w: u32,
}

impl XorShiftRng {
    fn from_seed(seed: [u8; 16]) -> XorShiftRng {
        let mut words = [0u32; 4];
        for k in 0..4 {
            words[k] = u32::from_le_bytes([
                seed[4 * k],
                seed[4 * k + 1],
                seed[4 * k + 2],
                seed[4 * k + 3],
            ]);
        }
        XorShiftRng { x: words[0], y: words[1], z: words[2], w: words[3] }
    }

    fn next_u32(&mut self) -> u32 {
        let t = self.x ^ (self.x << 11);
        self.x = self.y;
        self.y = self.z;
        self.z = self.w;
        self.w = self.w ^ (self.w >> 19) ^ (t ^ (t >> 8));
        self.w
    }

    fn next_u64(&mut self) -> u64 {
        ((self.next_u32() as u64) << 32) | self.next_u32() as u64
    }

    fn bytes(&mut self, n: usize) -> Vec<u8> {
        (0..n).map(|_| (self.next_u32() & 0xff) as u8).collect()
    }
}

fn random_hash256(rng: &mut XorShiftRng) -> Hash256 {
    Hash256::new(rng.bytes(32))
}

fn random_signature(rng: &mut XorShiftRng) -> Signature {
    Signature::new(rng.bytes(96))
}

fn random_payloads(rng: &mut XorShiftRng) -> Vec<Payload> {
    let count = (rng.next_u32() % 4) as usize;
    (0..count)
        .map(|_| {
            let width = (rng.next_u32() % 20) as usize;
            Payload::new(rng.bytes(width))
        })
        .collect()
}

fn random_fork(rng: &mut XorShiftRng) -> Fork {
    Fork {
        previous_version: rng.next_u64(),
        current_version: rng.next_u64(),
        epoch: rng.next_u64(),
    }
}

fn random_block(rng: &mut XorShiftRng) -> BeaconBlock {
    BeaconBlock {
        slot: rng.next_u64(),
        parent_root: random_hash256(rng),
        state_root: random_hash256(rng),
        randao_reveal: random_signature(rng),
        eth1_data: Eth1Data {
            deposit_root: random_hash256(rng),
            block_hash: random_hash256(rng),
        },
        body: BeaconBlockBody {
            proposer_slashings: random_payloads(rng),
            attester_slashings: random_payloads(rng),
            attestations: random_payloads(rng),
            deposits: random_payloads(rng),
            voluntary_exits: random_payloads(rng),
            transfers: random_payloads(rng),
        },
        signature: random_signature(rng),
    }
}

#[test]
pub fn beacon_block_test_hash_tree_root() {
    let mut rng = XorShiftRng::from_seed([42; 16]);
    let original = random_block(&mut rng);

    let result = original.hash_tree_root();

    assert_eq!(result.len(), 32);
}

#[test]
pub fn fork_test_hash_tree_root() {
    let mut rng = XorShiftRng::from_seed([42; 16]);
    let original = random_fork(&mut rng);

    let result = original.hash_tree_root();

    assert_eq!(result.len(), 32);
}

#[test]
pub fn digest_shape_on_edge_values() {
    let zero_fork = Fork { previous_version: 0, current_version: 0, epoch: 0 };
    assert_eq!(zero_fork.hash_tree_root().len(), 32);

    let spec = ChainSpec::foundation();
    let genesis = BeaconBlock::genesis(Hash256::zero(), &spec);
    assert_eq!(genesis.hash_tree_root().len(), 32);
    assert_eq!(genesis.signed_root().len(), 32);
}

#[test]
pub fn hash_tree_root_is_deterministic() {
    // Two separately constructed, field-equal blocks.
    let b1 = random_block(&mut XorShiftRng::from_seed([42; 16]));
    let b2 = random_block(&mut XorShiftRng::from_seed([42; 16]));
    assert_eq!(b1, b2);
    assert_eq!(b1.hash_tree_root(), b2.hash_tree_root());
    assert_eq!(b1.hash_tree_root(), b1.hash_tree_root());

    // A single differing field changes the digest.
    let mut b3 = random_block(&mut XorShiftRng::from_seed([42; 16]));
    b3.slot = b1.slot.wrapping_add(1);
    assert_ne!(b1.hash_tree_root(), b3.hash_tree_root());
}

#[test]
pub fn fork_hash_tree_root_is_deterministic() {
    let f1 = random_fork(&mut XorShiftRng::from_seed([42; 16]));
    let f2 = random_fork(&mut XorShiftRng::from_seed([42; 16]));
    assert_eq!(f1.hash_tree_root(), f2.hash_tree_root());

    let f3 = Fork { previous_version: f1.previous_version.wrapping_add(1), ..f2.clone() };
    assert_ne!(f1.hash_tree_root(), f3.hash_tree_root());
}

#[test]
pub fn signing_root_excludes_signature() {
    let mut rng = XorShiftRng::from_seed([42; 16]);
    let b1 = random_block(&mut rng);
    let mut b2 = b1.clone();
    b2.signature = random_signature(&mut rng);
    assert_ne!(b1.signature, b2.signature);

    assert_eq!(b1.signed_root(), b2.signed_root());
    assert_ne!(b1.hash_tree_root(), b2.hash_tree_root());
    assert_ne!(b1.signed_root(), b1.hash_tree_root());
}

#[test]
pub fn list_commitment_mixes_in_length() {
    // Same elements, one list with a trailing element omitted: the
    // commitments must differ, and the empty list has a digest too.
    let one = vec![Payload::new(vec![1, 2, 3])];
    let two = vec![Payload::new(vec![1, 2, 3]), Payload::new(vec![])];

    let body = |lists: Vec<Payload>| BeaconBlockBody {
        proposer_slashings: lists,
        attester_slashings: vec![],
        attestations: vec![],
        deposits: vec![],
        voluntary_exits: vec![],
        transfers: vec![],
    };
    let r_empty = body(vec![]).hash_tree_root();
    let r_one = body(one).hash_tree_root();
    let r_two = body(two).hash_tree_root();
    assert_eq!(r_empty.len(), 32);
    assert_ne!(r_empty, r_one);
    assert_ne!(r_one, r_two);
    assert_ne!(r_empty, r_two);
}
