//! Input translation and frame bookkeeping for running iced user interfaces
//! inside a bevy application.

pub mod context;
pub mod cursor;
pub mod input;
pub mod modifiers;
pub mod plugin;
