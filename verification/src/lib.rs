//! Extraction and deduplicated-append ingestion of USB packet records
//! captured from a network capture file.
//!
//! The library holds the verified core: turning one parsed packet into one
//! flat typed record (with tolerant per-field fallbacks), and deciding how a
//! freshly extracted batch combines with an already persisted dataset while
//! guarding against duplicate ingestion. Reading the capture stream and
//! persisting the columnar table are left to the surrounding application.

pub mod cli;
pub mod codec;
pub mod digits;
pub mod extract;
pub mod merge;
pub mod packet;
pub mod record;
