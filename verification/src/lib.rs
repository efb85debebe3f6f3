//! Checks of a block submission: whether a submitted block may carry the rollup from one
//! global state to the next.
//!
//! The library decides; it performs no outside work of its own beyond hashing. Whatever it
//! has to learn from its host it asks for, one question at a time (see [`Query`]), and the
//! answers collected so far are handed to it as [`Evidence`].

pub mod bytes;
pub mod error;
pub mod evidence;
pub mod hash;
pub mod kv;
pub mod laws;
pub mod layout;
pub mod meaning;
pub mod submit_block;
pub mod types;

pub use crate::bytes::same_bytes;
pub use crate::error::Error;
pub use crate::evidence::{Evidence, Outcome, Query};
pub use crate::kv::KVMap;
pub use crate::layout::{other_bytes, split_at_sig};
pub use crate::submit_block::SubmitBlockVerifier;
pub use crate::types::{Account, AccountProof, AgBlock, CapacityChanges, GlobalState, SubmitBlock};
