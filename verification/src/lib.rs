//! An append-only chain of hash-linked records admitted by proof of work.
//!
//! A [`block::Block`] carries a sequence number, a creation timestamp, a work
//! counter and the hash of its predecessor; its own hash is the SHA-256 digest
//! of a canonical serialization of those fields. A [`blockchain::Blockchain`]
//! holds the ordered chain of blocks, starting from a genesis block, and
//! admits a new block only once mining has found a hash with the required
//! number of leading zero characters.

pub mod block;
pub mod blockchain;
pub mod clock;
pub mod digest;
pub mod encode;
