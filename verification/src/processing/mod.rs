//! What the recorder needs to know of the media subsystem.

pub mod encoder;
