//! Event payloads handed to user callbacks.
pub mod groups;
pub mod messages;
pub mod reasons;
pub mod session;
pub mod sync;
pub mod types;
pub mod updates;
