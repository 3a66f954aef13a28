//! Resolution and validation of capture targets.

pub mod text;
pub mod window;
