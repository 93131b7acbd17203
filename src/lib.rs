//! Range proofs over a namespaced Merkle tree: a leaf-range audit path, its namespace-aware
//! presence and absence forms, their verification, and the turn of a presence proof into an
//! absence proof.

use vstd::prelude::*;

pub mod error;
pub mod lemmas;
pub mod namespaced_hash;
pub mod nmt_proof;
pub mod range_proof;
pub mod tree;
pub mod utils;

pub use error::RangeProofError;
pub use namespaced_hash::{NamespaceId, NamespacedHash, NamespacedSha2Hasher};
pub use nmt_proof::NamespaceProof;
pub use range_proof::Proof;

verus! {

} // verus!
