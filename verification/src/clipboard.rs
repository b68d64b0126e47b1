//! Copying files over the clipboard of another machine.
pub mod messages;
pub mod pasteboard;
pub mod unix;
