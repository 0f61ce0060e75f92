//! Verified core of an automatic photo-retouching toolkit: the catalogue of
//! retouch strategies, parameter handling, the dispatch from a strategy to
//! its adjustment plan, an RGB pixel buffer with per-pixel transforms, skin
//! detection, cluster and tile bookkeeping, and output file naming.
//!
//! The colour arithmetic itself works on single-precision floats and lives
//! with the caller; this crate owns everything around it that can be stated
//! over integers, strings and sequences.

pub mod catalog;
pub mod clusters;
pub mod naming;
pub mod order;
pub mod params;
pub mod pixels;
pub mod plan;
pub mod request;
pub mod skin;
pub mod tiles;
