//! What can be relied on across calls.
pub mod commands;
pub mod drafts;
pub mod envelopes;
pub mod events;
pub mod links;
pub mod notices;
pub mod queries;
pub mod reports;
pub mod requests;
pub mod resources;
pub mod runs;
pub mod sessions;
pub mod waits;
pub mod words;
