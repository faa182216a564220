//! Lowers per-base quality scores near the two ends of aligned reads.
//!
//! Sequencing error rates rise at read edges, so downstream analyses should
//! discount the confidence of edge bases. The core of this crate is a pure,
//! clip-aware transform over quality arrays; the surrounding record stream
//! handling is delegated to an external alignment-container library.

pub mod format;
pub mod pipeline;
pub mod quality;
pub mod record;

pub use quality::reduce_qualities_in_edges;
pub use quality::reduce_single_qual;
