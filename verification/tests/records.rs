//! Scenario tests: fork version selection, genesis construction,
//! proposal derivation, and exact encodings.

use beacon_types::beacon_block::BeaconBlock;
use beacon_types::chain_spec::ChainSpec;
use beacon_types::fork::Fork;
use beacon_types::hash256::Hash256;
use beacon_types::payload::Payload;
use beacon_types::payload::append_payload_list;

#[test]
pub fn fork_version_selection() {
    let fork = Fork { previous_version: 0, current_version: 1, epoch: 100 };

    assert_eq!(fork.get_fork_version(99), 0);
    assert_eq!(fork.get_fork_version(100), 1);
    assert_eq!(fork.get_fork_version(101), 1);
}

#[test]
pub fn genesis_construction() {
    let spec = ChainSpec::foundation();
    let state_root = Hash256::new((0u8..32).collect());

    let genesis = BeaconBlock::genesis(state_root.clone(), &spec);

    assert_eq!(genesis.slot, spec.genesis_slot);
    assert_eq!(genesis.parent_root, spec.zero_hash);
    assert_eq!(genesis.state_root, state_root);
    assert_eq!(genesis.randao_reveal, spec.empty_signature);
    assert_eq!(genesis.eth1_data.deposit_root, spec.zero_hash);
    assert_eq!(genesis.eth1_data.block_hash, spec.zero_hash);
    assert_eq!(genesis.signature, spec.empty_signature);
    assert!(genesis.body.proposer_slashings.is_empty());
    assert!(genesis.body.attester_slashings.is_empty());
    assert!(genesis.body.attestations.is_empty());
    assert!(genesis.body.deposits.is_empty());
    assert!(genesis.body.voluntary_exits.is_empty());
    assert!(genesis.body.transfers.is_empty());

    // The genesis block's own commitment is computable and stable.
    assert_eq!(genesis.canonical_root().bytes, genesis.hash_tree_root());
    assert_eq!(genesis.canonical_root(), genesis.canonical_root());
}

#[test]
pub fn proposal_derivation() {
    let spec = ChainSpec::foundation();
    let block = BeaconBlock::genesis(Hash256::new((100u8..132).collect()), &spec);

    let proposal = block.proposal(&spec);

    assert_eq!(proposal.slot, block.slot);
    assert_eq!(proposal.shard, spec.beacon_chain_shard_number);
    assert_eq!(proposal.block_root.bytes, block.signed_root());
    assert_ne!(proposal.block_root.bytes, block.hash_tree_root());
    assert_eq!(proposal.signature, spec.empty_signature);
}

#[test]
pub fn fork_exact_encoding() {
    let fork = Fork { previous_version: 1, current_version: 2, epoch: 0x0123456789abcdef };

    let expected = vec![
        1u8, 0, 0, 0, 0, 0, 0, 0, // previous_version, little-endian
        2, 0, 0, 0, 0, 0, 0, 0, // current_version
        0xef, 0xcd, 0xab, 0x89, 0x67, 0x45, 0x23, 0x01, // epoch
    ];
    assert_eq!(fork.ssz_encode(), expected);
}

#[test]
pub fn payload_list_exact_encoding() {
    let items = vec![Payload::new(vec![0xaa, 0xbb]), Payload::new(vec![])];

    let mut buf: Vec<u8> = Vec::new();
    append_payload_list(&mut buf, &items);

    let expected = vec![
        2u8, 0, 0, 0, 0, 0, 0, 0, // element count
        2, 0, 0, 0, 0, 0, 0, 0, 0xaa, 0xbb, // first payload: length, bytes
        0, 0, 0, 0, 0, 0, 0, 0, // second payload: length zero
    ];
    assert_eq!(buf, expected);
}

#[test]
pub fn genesis_exact_encoding_length() {
    let spec = ChainSpec::foundation();
    let genesis = BeaconBlock::genesis(Hash256::zero(), &spec);

    // slot + two digests + signature + deposit snapshot + six empty
    // sequences + signature.
    let expected_len = 8 + 32 + 32 + 96 + 64 + 6 * 8 + 96;
    assert_eq!(genesis.ssz_encode().len(), expected_len);
}

#[test]
pub fn proposal_round_trip_exact() {
    let spec = ChainSpec::foundation();
    let block = BeaconBlock::genesis(Hash256::zero(), &spec);
    let original = block.proposal(&spec);

    let bytes = original.ssz_encode();
    assert_eq!(bytes.len(), 8 + 8 + 32 + 96);
    let (decoded, consumed) =
        beacon_types::proposal::Proposal::ssz_decode(&bytes, 0).unwrap();
    assert_eq!(original, decoded);
    assert_eq!(consumed, bytes.len());
}
