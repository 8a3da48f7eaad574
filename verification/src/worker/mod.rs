//! What the background workers decide.
pub mod avatars;
pub mod messages;
pub mod sliding_sync;
