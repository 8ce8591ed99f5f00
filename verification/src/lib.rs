//! Verified retrieval pipeline for remote "pack" bundles: metadata decoding
//! helpers, size-variant resolution, a one-shot transient-retry policy, URL
//! and output-name construction, and the per-mode batch semantics (range
//! enumeration, single-pack rip, batch first-asset fetch).

pub mod batch;
pub mod client;
pub mod enumerate;
pub mod errors;
pub mod fetch;
pub mod numeral;
pub mod pack;
pub mod resolve;
pub mod rip;
pub mod urls;
