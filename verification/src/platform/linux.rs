//! The backends for Linux.

pub mod wayland;
