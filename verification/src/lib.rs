//! Ledger-settlement core for a single-item bid marketplace.
//!
//! Bidders escrow native funds in a per-bidder vault, register bids against
//! assets, and an asset owner accepts a bid, which settles the sale atomically:
//! seller proceeds, a platform fee, and truncating-division creator royalties
//! recovered from the asset's binary royalty metadata.

pub mod codec;
pub mod errors;
pub mod keys;
pub mod metadata;
pub mod pda;
pub mod registry;
pub mod seeds;
pub mod settle;
pub mod vault;
