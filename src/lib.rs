//! Hashed-timelock escrows for cross-chain atomic swaps: the source and
//! destination escrow state machines, their shared timelock schedule, and the
//! factories that derive each escrow's address from its terms.

pub mod address;
pub mod network;
pub mod timelock;
pub mod escrow;
pub mod escrow_src;
pub mod escrow_dst;
pub mod factory;
pub mod src_factory;
pub mod dst_factory;
