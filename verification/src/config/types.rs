//! Configuration type definitions and their defaults.
//!
//! The sections and defaults that hold no floating-point values live here;
//! the drawing-style sections are assembled around these defaults.
use vstd::prelude::*;
use vstd::string::*;

use crate::config::enums::{ColorSpec, StatusPosition};

verus! {

/// Performance tuning options.
#[derive(Debug, Clone)]
pub struct PerformanceConfig {
    /// Number of buffers for buffering (2 = double, 3 = triple, 4 = quad)
    pub buffer_count: u32,
    /// Enable vsync frame synchronization to prevent tearing
    pub enable_vsync: bool,
}

impl Default for PerformanceConfig {
    fn default() -> (c: Self)
        ensures
            c.buffer_count == 3,
            c.enable_vsync,
    {
        Self { buffer_count: default_buffer_count(), enable_vsync: default_enable_vsync() }
    }
}

/// Screenshot capture settings.
#[derive(Debug, Clone)]
pub struct CaptureConfig {
    /// Enable screenshot capture functionality
    pub enabled: bool,
    /// Directory to save screenshots (supports ~ expansion)
    pub save_directory: String,
    /// Filename template with chrono format specifiers
    pub filename_template: String,
    /// Image format (currently only "png" is supported)
    pub format: String,
    /// Automatically copy screenshots to clipboard
    pub copy_to_clipboard: bool,
}

impl Default for CaptureConfig {
    fn default() -> (c: Self)
        ensures
            c.enabled,
            c.save_directory@ == "~/Pictures/Wayscriber"@,
            c.filename_template@ == "screenshot_%Y-%m-%d_%H%M%S"@,
            c.format@ == "png"@,
            c.copy_to_clipboard,
    {
        Self {
            enabled: default_capture_enabled(),
            save_directory: default_capture_directory(),
            filename_template: default_capture_filename(),
            format: default_capture_format(),
            copy_to_clipboard: default_capture_clipboard(),
        }
    }
}

/// Session persistence settings.
#[derive(Debug, Clone)]
pub struct SessionConfig {
    /// Persist the transparent overlay's drawings
    pub persist_transparent: bool,
    /// Persist whiteboard drawings
    pub persist_whiteboard: bool,
    /// Persist blackboard drawings
    pub persist_blackboard: bool,
    /// Restore tool state (colour, thickness, ...) with the drawings
    pub restore_tool_state: bool,
    /// Where session files are stored
    pub storage: SessionStorageMode,
    /// Directory used when `storage` is `Custom`
    pub custom_directory: Option<String>,
    /// Maximum number of shapes kept per frame
    pub max_shapes_per_frame: usize,
    /// Maximum session file size in megabytes
    pub max_file_size_mb: u64,
    /// Compression of session files
    pub compress: SessionCompression,
    /// Size above which `Auto` compression compresses, in kilobytes
    pub auto_compress_threshold_kb: u64,
    /// Number of backups kept
    pub backup_retention: usize,
    /// Keep one session per output
    pub per_output: bool,
}

/// Where session files are stored.
#[derive(Debug, Clone, Copy, PartialEq, Eq, Structural)]
pub enum SessionStorageMode {
    Auto,
    Config,
    Custom,
}

/// Compression of session files.
#[derive(Debug, Clone, Copy, PartialEq, Eq, Structural)]
pub enum SessionCompression {
    Auto,
    On,
    Off,
}

/// The default session settings.
pub open spec fn is_default_session(c: SessionConfig) -> bool {
    &&& !c.persist_transparent
    &&& !c.persist_whiteboard
    &&& !c.persist_blackboard
    &&& c.restore_tool_state
    &&& c.storage == SessionStorageMode::Auto
    &&& c.custom_directory is None
    &&& c.max_shapes_per_frame == 10_000
    &&& c.max_file_size_mb == 10
    &&& c.compress == SessionCompression::Auto
    &&& c.auto_compress_threshold_kb == 100
    &&& c.backup_retention == 1
    &&& c.per_output
}

impl Default for SessionConfig {
    fn default() -> (c: Self)
        ensures
            is_default_session(c),
    {
        Self {
            persist_transparent: false,
            persist_whiteboard: false,
            persist_blackboard: false,
            restore_tool_state: default_restore_tool_state(),
            storage: default_session_storage_mode(),
            custom_directory: None,
            max_shapes_per_frame: default_max_shapes_per_frame(),
            max_file_size_mb: default_max_file_size_mb(),
            compress: default_session_compression(),
            auto_compress_threshold_kb: default_auto_compress_threshold_kb(),
            backup_retention: default_backup_retention(),
            per_output: default_session_per_output(),
        }
    }
}

// =============================================================================
// Default value functions
// =============================================================================

pub fn default_color() -> (c: ColorSpec)
    ensures
        c matches ColorSpec::Name(n) && n@ == "red"@,
{
    ColorSpec::Name(String::from_str("red"))
}

pub fn default_font_family() -> (s: String)
    ensures
        s@ == "Sans"@,
{
    String::from_str("Sans")
}

pub fn default_font_weight() -> (s: String)
    ensures
        s@ == "bold"@,
{
    String::from_str("bold")
}

pub fn default_font_style() -> (s: String)
    ensures
        s@ == "normal"@,
{
    String::from_str("normal")
}

pub fn default_text_background() -> (b: bool)
    ensures
        !b,
{
    false
}

pub fn default_buffer_count() -> (n: u32)
    ensures
        n == 3,
{
    3
}

pub fn default_enable_vsync() -> (b: bool)
    ensures
        b,
{
    true
}

pub fn default_show_status() -> (b: bool)
    ensures
        b,
{
    true
}

pub fn default_status_position() -> (p: StatusPosition)
    ensures
        p == StatusPosition::BottomLeft,
{
    StatusPosition::BottomLeft
}

pub fn default_click_highlight_enabled() -> (b: bool)
    ensures
        !b,
{
    false
}

pub fn default_click_highlight_duration_ms() -> (n: u64)
    ensures
        n == 750,
{
    750
}

pub fn default_click_highlight_use_pen_color() -> (b: bool)
    ensures
        b,
{
    true
}

pub fn default_board_enabled() -> (b: bool)
    ensures
        b,
{
    true
}

pub fn default_board_mode() -> (s: String)
    ensures
        s@ == "transparent"@,
{
    String::from_str("transparent")
}

pub fn default_board_auto_adjust() -> (b: bool)
    ensures
        b,
{
    true
}

pub fn default_capture_enabled() -> (b: bool)
    ensures
        b,
{
    true
}

pub fn default_capture_directory() -> (s: String)
    ensures
        s@ == "~/Pictures/Wayscriber"@,
{
    String::from_str("~/Pictures/Wayscriber")
}

pub fn default_capture_filename() -> (s: String)
    ensures
        s@ == "screenshot_%Y-%m-%d_%H%M%S"@,
{
    String::from_str("screenshot_%Y-%m-%d_%H%M%S")
}

pub fn default_capture_format() -> (s: String)
    ensures
        s@ == "png"@,
{
    String::from_str("png")
}

pub fn default_capture_clipboard() -> (b: bool)
    ensures
        b,
{
    true
}

pub fn default_restore_tool_state() -> (b: bool)
    ensures
        b,
{
    true
}

pub fn default_session_storage_mode() -> (m: SessionStorageMode)
    ensures
        m == SessionStorageMode::Auto,
{
    SessionStorageMode::Auto
}

pub fn default_max_shapes_per_frame() -> (n: usize)
    ensures
        n == 10_000,
{
    10_000
}

pub fn default_max_file_size_mb() -> (n: u64)
    ensures
        n == 10,
{
    10
}

pub fn default_session_compression() -> (c: SessionCompression)
    ensures
        c == SessionCompression::Auto,
{
    SessionCompression::Auto
}

pub fn default_auto_compress_threshold_kb() -> (n: u64)
    ensures
        n == 100,
{
    100
}

pub fn default_backup_retention() -> (n: usize)
    ensures
        n == 1,
{
    1
}

pub fn default_session_per_output() -> (b: bool)
    ensures
        b,
{
    true
}

} // verus!
