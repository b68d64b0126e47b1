//! Mouse pointers: their identity, their pixels and their density.
pub mod colors;
pub mod dxgi;
pub mod ids;
pub mod linux;
