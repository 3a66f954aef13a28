//! Binding a recording session to the window of a running application.
//!
//! The crate holds the two parts that decide things: finding and validating
//! the target window among the windows the operating system reports, and the
//! session controller that owns the configuration and the recording engine.
//! Querying the operating system and running the capture pipeline are left
//! to the caller, who hands their results in as plain values.

pub mod capture;
pub mod error;
pub mod processing;
pub mod recorder;

pub use crate::capture::window::{
    get_window_by_exact_string, get_window_by_string, get_window_by_string_with_options,
    get_window_title, is_window_valid, title_matches, window_enumeration_callback, SearchContext,
    WindowHandle, WindowMatchType, WindowSnapshot, TITLE_BUFFER_LEN,
};
pub use crate::error::RecorderError;
pub use crate::processing::encoder::{catalog_from, EncoderCatalog, EncoderGuid, VideoEncoderInfo};
pub use crate::recorder::{Recorder, RecorderConfig, RecorderConfigBuilder};
