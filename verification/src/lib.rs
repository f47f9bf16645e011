//! Codec and per-block state engine for a grid-based factory game's persisted
//! content: the dynamic typed-value model attached to placed blocks, the
//! versioned, stream-compressed processor-state format, and the closed
//! per-block-kind contract for (de)serializing and transforming that state.
pub mod block;
pub mod data;
pub mod logic;
pub mod stream;
pub mod dynamic;
pub mod units;
pub mod wire;
