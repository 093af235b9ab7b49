//! Data types for screenshot capture functionality.
use vstd::prelude::*;
use std::path::PathBuf;

verus! {

/// Type of screenshot capture to perform.
#[derive(Debug, Clone, Copy, PartialEq, Eq, Structural)]
pub enum CaptureType {
    /// Capture the entire screen/monitor.
    FullScreen,
    /// Capture the currently focused window.
    ActiveWindow,
    /// Capture a user-selected rectangular region.
    Selection { x: i32, y: i32, width: u32, height: u32 },
}

/// Result of a screenshot capture operation.
#[derive(Debug, Clone)]
pub struct CaptureResult {
    /// Raw image data (PNG format).
    pub image_data: Vec<u8>,
    /// Path where the image was saved (if saved).
    pub saved_path: Option<PathBuf>,
    /// Whether the image was copied to clipboard.
    pub copied_to_clipboard: bool,
}

/// Outcome of a capture request (success or failure).
#[derive(Debug, Clone)]
pub enum CaptureOutcome {
    Success(CaptureResult),
    Failed(String),
    Cancelled(String),
}

/// Where the captured image should be delivered.
#[derive(Debug, Clone, Copy, PartialEq, Eq, Structural)]
pub enum CaptureDestination {
    ClipboardOnly,
    FileOnly,
    ClipboardAndFile,
}

/// Status of an ongoing capture operation.
#[derive(Debug, Clone, PartialEq, Eq)]
pub enum CaptureStatus {
    /// Capture is idle/not started.
    Idle,
    /// Waiting for user permission from portal.
    AwaitingPermission,
    /// Capture is in progress.
    InProgress,
    /// Capture completed successfully.
    Success,
    /// Capture failed.
    Failed(String),
    /// Capture was cancelled by the user.
    Cancelled(String),
}

} // verus!
