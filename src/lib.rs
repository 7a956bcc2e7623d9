pub mod executor;
pub mod geometry;
pub mod hotkey;
pub mod notification;
pub mod window;
