//! Verified core of a flashcard-enrichment pipeline for the jpdb vocabulary
//! site.
//!
//! The crate holds the parts of the pipeline that are pure decisions and
//! data: building request targets and form payloads, the admission model of
//! the rate/concurrency governor, and the per-card workflow engine that
//! turns one card plus the active configuration into an ordered plan of
//! dependent form submissions.  Network transport, HTML parsing and the
//! viewer-open action are collaborators that a caller drives; they hand the
//! engine plain values (page-derived identifiers, response status codes) and
//! receive fully-formed requests back.

pub mod governor;
pub mod request;
pub mod urls;
pub mod workflow;
