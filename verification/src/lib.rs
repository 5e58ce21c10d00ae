//! Bulk, personalized messaging campaigns: contact ingestion, template
//! rendering, phone normalization and the send-loop state machine.

pub mod text;
pub mod contacts;
pub mod format;
pub mod template;
pub mod phone;
pub mod channel;
pub mod campaign;
