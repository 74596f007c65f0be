pub mod text;
pub mod state;
pub mod laws;
pub mod reply;
pub mod commands;
pub mod snippets;
pub mod reaction;
pub mod udev;
