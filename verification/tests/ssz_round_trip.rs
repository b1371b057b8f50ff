//! Round-trip tests of the canonical codec on pseudo-random instances.

use beacon_types::beacon_block::BeaconBlock;
use beacon_types::body::BeaconBlockBody;
use beacon_types::codec::DecodeError;
use beacon_types::eth1_data::Eth1Data;
use beacon_types::fork::Fork;
use beacon_types::hash256::Hash256;
use beacon_types::payload::Payload;
use beacon_types::signature::Signature;

/// A small deterministic generator (xorshift128), seeded explicitly so
/// every run exercises the same structurally valid instances.
struct XorShiftRng {
    x: u32,
    y: u32,
    z: u32,
    w: u32,
}

impl XorShiftRng {
    fn from_seed(seed: [u8; 16]) -> XorShiftRng {
        let mut words = [0u32; 4];
        for k in 0..4 {
            words[k] = u32::from_le_bytes([
                seed[4 * k],
                seed[4 * k + 1],
                seed[4 * k + 2],
                seed[4 * k + 3],
            ]);
        }
        XorShiftRng { x: words[0], y: words[1], z: words[2], w: words[3] }
    }

    fn next_u32(&mut self) -> u32 {
        let t = self.x ^ (self.x << 11);
        self.x = self.y;
        self.y = self.z;
        self.z = self.w;
        self.w = self.w ^ (self.w >> 19) ^ (t ^ (t >> 8));
        self.w
    }

    fn next_u64(&mut self) -> u64 {
        ((self.next_u32() as u64) << 32) | self.next_u32() as u64
    }

    fn bytes(&mut self, n: usize) -> Vec<u8> {
        (0..n).map(|_| (self.next_u32() & 0xff) as u8).collect()
    }
}

fn random_hash256(rng: &mut XorShiftRng) -> Hash256 {
    Hash256::new(rng.bytes(32))
}

fn random_signature(rng: &mut XorShiftRng) -> Signature {
    Signature::new(rng.bytes(96))
}

fn random_payloads(rng: &mut XorShiftRng) -> Vec<Payload> {
    let count = (rng.next_u32() % 4) as usize;
    (0..count)
        .map(|_| {
            let width = (rng.next_u32() % 20) as usize;
            Payload::new(rng.bytes(width))
        })
        .collect()
}

fn random_fork(rng: &mut XorShiftRng) -> Fork {
    Fork {
        previous_version: rng.next_u64(),
        current_version: rng.next_u64(),
        epoch: rng.next_u64(),
    }
}

fn random_block(rng: &mut XorShiftRng) -> BeaconBlock {
    BeaconBlock {
        slot: rng.next_u64(),
        parent_root: random_hash256(rng),
        state_root: random_hash256(rng),
        randao_reveal: random_signature(rng),
        eth1_data: Eth1Data {
            deposit_root: random_hash256(rng),
            block_hash: random_hash256(rng),
        },
        body: BeaconBlockBody {
            proposer_slashings: random_payloads(rng),
            attester_slashings: random_payloads(rng),
            attestations: random_payloads(rng),
            deposits: random_payloads(rng),
            voluntary_exits: random_payloads(rng),
            transfers: random_payloads(rng),
        },
        signature: random_signature(rng),
    }
}

#[test]
pub fn beacon_block_test_ssz_round_trip() {
    let mut rng = XorShiftRng::from_seed([42; 16]);
    let original = random_block(&mut rng);

    let bytes = original.ssz_encode();
    let (decoded, consumed) = BeaconBlock::ssz_decode(&bytes, 0).unwrap();

    assert_eq!(original, decoded);
    assert_eq!(consumed, bytes.len());
}

#[test]
pub fn fork_test_ssz_round_trip() {
    let mut rng = XorShiftRng::from_seed([42; 16]);
    let original = random_fork(&mut rng);

    let bytes = original.ssz_encode();
    let (decoded, consumed) = Fork::ssz_decode(&bytes, 0).unwrap();

    assert_eq!(original, decoded);
    assert_eq!(consumed, bytes.len());
}

#[test]
pub fn eth1_data_ssz_round_trip() {
    let mut rng = XorShiftRng::from_seed([7; 16]);
    let original = Eth1Data {
        deposit_root: random_hash256(&mut rng),
        block_hash: random_hash256(&mut rng),
    };

    let bytes = original.ssz_encode();
    let (decoded, consumed) = Eth1Data::ssz_decode(&bytes, 0).unwrap();

    assert_eq!(original, decoded);
    assert_eq!(consumed, bytes.len());
}

#[test]
pub fn block_decode_at_nonzero_offset() {
    let mut rng = XorShiftRng::from_seed([3; 16]);
    let original = random_block(&mut rng);

    let mut bytes = vec![0xffu8, 0xee, 0xdd];
    bytes.extend(original.ssz_encode());
    let (decoded, consumed) = BeaconBlock::ssz_decode(&bytes, 3).unwrap();

    assert_eq!(original, decoded);
    assert_eq!(consumed, bytes.len());
}

#[test]
pub fn fork_decode_truncated_input() {
    let mut rng = XorShiftRng::from_seed([42; 16]);
    let original = random_fork(&mut rng);

    let mut bytes = original.ssz_encode();
    bytes.truncate(10);

    assert_eq!(Fork::ssz_decode(&bytes, 0), Err(DecodeError::Truncated));
}

#[test]
pub fn block_decode_truncated_input() {
    let mut rng = XorShiftRng::from_seed([42; 16]);
    let original = random_block(&mut rng);

    let mut bytes = original.ssz_encode();
    bytes.pop();

    assert_eq!(BeaconBlock::ssz_decode(&bytes, 0), Err(DecodeError::Truncated));
}

#[test]
pub fn whole_input_decode_refuses_trailing_bytes() {
    let mut rng = XorShiftRng::from_seed([42; 16]);
    let fork = random_fork(&mut rng);
    let block = random_block(&mut rng);

    let mut fork_bytes = fork.ssz_encode();
    assert_eq!(Fork::from_ssz_bytes(&fork_bytes).unwrap(), fork);
    fork_bytes.push(0);
    assert_eq!(Fork::from_ssz_bytes(&fork_bytes), Err(DecodeError::TrailingBytes));

    let mut block_bytes = block.ssz_encode();
    assert_eq!(BeaconBlock::from_ssz_bytes(&block_bytes).unwrap(), block);
    block_bytes.push(0);
    assert_eq!(BeaconBlock::from_ssz_bytes(&block_bytes), Err(DecodeError::TrailingBytes));
}

#[test]
pub fn fixed_width_constructors_refuse_wrong_widths() {
    assert_eq!(Hash256::from_slice(&vec![0u8; 31]), Err(DecodeError::InvalidFixedWidth));
    assert_eq!(Hash256::from_slice(&vec![0u8; 33]), Err(DecodeError::InvalidFixedWidth));
    assert_eq!(Signature::from_slice(&vec![0u8; 95]), Err(DecodeError::InvalidFixedWidth));
    let h = Hash256::from_slice(&vec![9u8; 32]).unwrap();
    assert_eq!(h.bytes, vec![9u8; 32]);
}
