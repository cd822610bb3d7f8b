//! The backends, one for each platform.

pub mod linux;
pub mod osx;
