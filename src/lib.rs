//! A trading engine for a bonding-curve token-launch protocol: instruction
//! decoding, per-token virtual reserve bookkeeping, the snipe decision, trade
//! planning, a recent-blockhash cache and a delayed-sell schedule.
pub mod address;
pub mod codec;
pub mod codec_laws;
pub mod reserves;
pub mod auto_trader;
pub mod protocol;
pub mod processor;
pub mod blockhash_cache;
pub mod sell_schedule;
pub mod trade;
