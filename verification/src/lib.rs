//! Conformance harness for state-transition test vectors of an EVM engine:
//! the fork-specific precompile registry and the driver that runs one
//! transaction per (fork, variant), settles its fee, applies the resulting
//! state diff and compares the state root with the committed one.

pub mod account;
pub mod diff;
pub mod driver;
pub mod engine;
pub mod fees;
pub mod fork;
pub mod keccak;
pub mod precompile;
pub mod primitives;
pub mod sorted;
pub mod trie;
pub mod vector;
