//! Verified core of a Matrix chat client: the page and modal state machines,
//! the rendering of timeline events into displayable text, and the small
//! decisions the background workers make.
pub mod external;
pub mod app;
pub mod modal;
pub mod page;
pub mod tasks;
pub mod text;
pub mod util;
pub mod worker;
