//! Mining-pool adapter: shared mining state, candidate queues, round-parameter
//! decoding and the packaging of proposals into signed, encrypted envelopes.

pub mod algo;
pub mod context;
pub mod crypto;
pub mod error;
pub mod hexcodec;
pub mod params;
pub mod queue;
