//! Hashes of documents.

use vstd::prelude::*;

verus! {

/// The 256 bit hash of a document.
pub type H256 = [u8; 32];

} // verus!
