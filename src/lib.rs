//! Bulk redaction of one's own chat messages from a local export: selecting the
//! work, producing replacement text, classifying the platform's answers, and
//! driving each message through its retry state machine.
pub mod model;
pub mod text;
pub mod filter;
pub mod client;
pub mod random;
pub mod quotes;
pub mod redact;
pub mod orchestrator;
