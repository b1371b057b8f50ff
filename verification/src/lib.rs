//! Canonical on-wire representation and Merkle commitment scheme for the
//! core consensus data structures of a proof-of-stake beacon chain.
//!
//! Every record type exposes the same three operations:
//!
//! * a canonical binary encoding (`ssz_encode` / `ssz_append`) together with
//!   its inverse (`ssz_decode`), proven to round-trip exactly;
//! * a 32-byte Merkle commitment (`hash_tree_root`), a pure function of the
//!   record's field values;
//! * for records that carry a trailing signature field, a signing root
//!   (`signed_root`): the commitment of the record with the signature field
//!   removed from the field list.
//!
//! Decoding is strict: `ssz_decode` reads exactly one value at a cursor and
//! reports where it stopped, and the whole-input form (`from_ssz_bytes`)
//! refuses inputs with unconsumed trailing bytes. On any failure the caller
//! receives an error and no partially constructed value.

pub mod beacon_block;
pub mod body;
pub mod chain_spec;
pub mod codec;
pub mod eth1_data;
pub mod fork;
pub mod hash256;
pub mod hashing;
pub mod payload;
pub mod proposal;
pub mod signature;
