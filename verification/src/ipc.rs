//! Talk between the processes of the application on one machine.
pub mod client;
pub mod data;
pub mod handler;
pub mod parent_dir;
pub mod postfix;
pub mod recorder;
pub mod service_uid;
