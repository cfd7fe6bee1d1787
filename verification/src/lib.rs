//! Client-side core for operating stake accounts and program deployment on a
//! proof-of-stake ledger: decoding versioned account state from raw bytes,
//! guarding stake-lifecycle transitions, planning chunked program uploads,
//! and tracking bulk delivery with bounded resubmission.

pub mod chunk;
pub mod codec;
pub mod delivery;
pub mod guard;
pub mod instr;
pub mod keys;
pub mod menu;
pub mod ops;
pub mod state;
pub mod votes;
pub mod wire;
