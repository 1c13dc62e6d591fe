//! Notes of a shielded transaction protocol: their commitments, nullifiers,
//! per-note randomness, value commitments and validity-predicate bundles.

pub mod field;
pub mod hash;
pub mod point;
pub mod nullifier;
pub mod seed;
pub mod note;
pub mod encoding;
pub mod value_commitment;
pub mod merkle;
pub mod vp;
pub mod token;
