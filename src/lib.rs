//! Release announcements for a webhook: normalising the raw inputs, deciding
//! whether a version is a pre-release, composing the announcement text,
//! framing the delivery outcome record, and sequencing the two deliveries.
pub mod classify;
pub mod decimal;
pub mod twilight;
pub mod text;
pub mod config;
pub mod compose;
pub mod outcome;
pub mod pipeline;
pub mod laws;
