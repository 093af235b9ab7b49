//! Decisions of the capture pipeline, apart from the I/O that carries them out.
use vstd::prelude::*;
use std::path::PathBuf;
use vstd::string::*;

use crate::config::keybindings::Action;
use crate::capture::types::{CaptureDestination, CaptureOutcome, CaptureResult, CaptureStatus, CaptureType};
use crate::text::{
    append_chars, chars_contains_lower_word, contains_lower_word, decimal, decimal_chars,
    signed_decimal, signed_decimal_chars, str_chars,
};

verus! {

/// The destination asks for a file.
pub open spec fn wants_file(d: CaptureDestination) -> bool {
    d == CaptureDestination::FileOnly || d == CaptureDestination::ClipboardAndFile
}

/// The destination asks for the clipboard.
pub open spec fn wants_clipboard(d: CaptureDestination) -> bool {
    d == CaptureDestination::ClipboardOnly || d == CaptureDestination::ClipboardAndFile
}

/// What the pipeline does with captured bytes.
#[derive(Debug, Clone, Copy, PartialEq, Eq, Structural)]
pub struct DeliveryPlan {
    /// Save the image to a file.
    pub save_file: bool,
    /// Copy the image to the clipboard.
    pub copy_clipboard: bool,
}

/// Plans the delivery: a file is saved when the destination asks for one and
/// a save configuration with a non-empty directory is present; the clipboard
/// is used when the destination asks for it.
pub fn plan_delivery(destination: CaptureDestination, has_save_config: bool, save_directory_empty: bool) -> (p: DeliveryPlan)
    ensures
        p.save_file == (wants_file(destination) && has_save_config && !save_directory_empty),
        p.copy_clipboard == wants_clipboard(destination),
{
    let save_file = match destination {
        CaptureDestination::FileOnly | CaptureDestination::ClipboardAndFile => has_save_config
            && !save_directory_empty,
        CaptureDestination::ClipboardOnly => false,
    };
    let copy_clipboard = match destination {
        CaptureDestination::ClipboardOnly | CaptureDestination::ClipboardAndFile => true,
        CaptureDestination::FileOnly => false,
    };
    DeliveryPlan { save_file, copy_clipboard }
}

/// Whether the image goes to the clipboard once saving is done: when the
/// plan asks for it and saving did not fail (a failed save ends the capture).
pub fn copy_after_save(plan: DeliveryPlan, save_failed: bool) -> (b: bool)
    ensures
        b == (plan.copy_clipboard && !save_failed),
{
    plan.copy_clipboard && !save_failed
}

/// The capture's result from what delivering the image gave: a failed save
/// is the capture's error; a failed clipboard copy only leaves the image
/// uncopied. `saved` and `copied` are `None` for a step that did not run.
pub fn delivery_outcome<E>(
    image_data: Vec<u8>,
    saved: Option<Result<PathBuf, E>>,
    copied: Option<Result<(), E>>,
) -> (r: Result<CaptureResult, E>)
    ensures
        match saved {
            Some(Err(e)) => r == Err::<CaptureResult, E>(e),
            _ => r matches Ok(res) && res.image_data == image_data && res.copied_to_clipboard == (copied matches Some(
                Ok(_),
            )) && res.saved_path == match saved {
                Some(Ok(p)) => Some(p),
                _ => None::<PathBuf>,
            },
        },
{
    let saved_path = match saved {
        Some(Err(e)) => {
            return Err(e);
        },
        Some(Ok(p)) => Some(p),
        None => None,
    };
    let copied_to_clipboard = match copied {
        Some(Ok(())) => true,
        _ => false,
    };
    Ok(CaptureResult { image_data, saved_path, copied_to_clipboard })
}

/// A selection whose region the capture tool asks the user for.
pub open spec fn ask_region() -> CaptureType {
    CaptureType::Selection { x: 0, y: 0, width: 0, height: 0 }
}

/// What a capture shortcut captures and where the image goes: the shortcuts
/// without a destination use the clipboard and a file when clipboard copies
/// are configured, else a file only. Other actions capture nothing.
pub open spec fn capture_request_spec(action: Action, copy_to_clipboard: bool) -> Option<(CaptureType, CaptureDestination)> {
    let default_destination = if copy_to_clipboard {
        CaptureDestination::ClipboardAndFile
    } else {
        CaptureDestination::FileOnly
    };
    match action {
        Action::CaptureFullScreen => Some((CaptureType::FullScreen, default_destination)),
        Action::CaptureActiveWindow => Some((CaptureType::ActiveWindow, default_destination)),
        Action::CaptureSelection => Some((ask_region(), default_destination)),
        Action::CaptureClipboardFull => Some((CaptureType::FullScreen, CaptureDestination::ClipboardOnly)),
        Action::CaptureFileFull => Some((CaptureType::FullScreen, CaptureDestination::FileOnly)),
        Action::CaptureClipboardSelection => Some((ask_region(), CaptureDestination::ClipboardOnly)),
        Action::CaptureFileSelection => Some((ask_region(), CaptureDestination::FileOnly)),
        Action::CaptureClipboardRegion => Some((ask_region(), CaptureDestination::ClipboardOnly)),
        Action::CaptureFileRegion => Some((ask_region(), CaptureDestination::FileOnly)),
        _ => None,
    }
}

/// What a capture shortcut captures and where the image goes; `None` for an
/// action that is no capture shortcut.
pub fn capture_request(action: Action, copy_to_clipboard: bool) -> (r: Option<(CaptureType, CaptureDestination)>)
    ensures
        r == capture_request_spec(action, copy_to_clipboard),
{
    let default_destination = if copy_to_clipboard {
        CaptureDestination::ClipboardAndFile
    } else {
        CaptureDestination::FileOnly
    };
    let region = CaptureType::Selection { x: 0, y: 0, width: 0, height: 0 };
    match action {
        Action::CaptureFullScreen => Some((CaptureType::FullScreen, default_destination)),
        Action::CaptureActiveWindow => Some((CaptureType::ActiveWindow, default_destination)),
        Action::CaptureSelection => Some((region, default_destination)),
        Action::CaptureClipboardFull => Some((CaptureType::FullScreen, CaptureDestination::ClipboardOnly)),
        Action::CaptureFileFull => Some((CaptureType::FullScreen, CaptureDestination::FileOnly)),
        Action::CaptureClipboardSelection => Some((region, CaptureDestination::ClipboardOnly)),
        Action::CaptureFileSelection => Some((region, CaptureDestination::FileOnly)),
        Action::CaptureClipboardRegion => Some((region, CaptureDestination::ClipboardOnly)),
        Action::CaptureFileRegion => Some((region, CaptureDestination::FileOnly)),
        _ => None,
    }
}

/// Law: a capture shortcut whose name says where the image goes sends it
/// only there: the File shortcuts save a file and never touch the clipboard,
/// the Clipboard shortcuts copy and never save. The others follow the
/// clipboard setting: a file, plus the clipboard when copies are on. The
/// Full shortcuts take the whole screen, the Selection and Region ones ask
/// for a region, and ActiveWindow takes the focused window.
pub proof fn law_capture_shortcuts_go_where_named(copy_to_clipboard: bool)
    ensures
        capture_request_spec(Action::CaptureFileFull, copy_to_clipboard) == Some(
            (CaptureType::FullScreen, CaptureDestination::FileOnly),
        ),
        capture_request_spec(Action::CaptureFileSelection, copy_to_clipboard) == Some(
            (CaptureType::Selection { x: 0, y: 0, width: 0, height: 0 }, CaptureDestination::FileOnly),
        ),
        capture_request_spec(Action::CaptureFileRegion, copy_to_clipboard) == Some(
            (CaptureType::Selection { x: 0, y: 0, width: 0, height: 0 }, CaptureDestination::FileOnly),
        ),
        capture_request_spec(Action::CaptureClipboardFull, copy_to_clipboard) == Some(
            (CaptureType::FullScreen, CaptureDestination::ClipboardOnly),
        ),
        capture_request_spec(Action::CaptureClipboardSelection, copy_to_clipboard) == Some(
            (CaptureType::Selection { x: 0, y: 0, width: 0, height: 0 }, CaptureDestination::ClipboardOnly),
        ),
        capture_request_spec(Action::CaptureClipboardRegion, copy_to_clipboard) == Some(
            (CaptureType::Selection { x: 0, y: 0, width: 0, height: 0 }, CaptureDestination::ClipboardOnly),
        ),
        capture_request_spec(Action::CaptureFullScreen, copy_to_clipboard) == Some(
            (
                CaptureType::FullScreen,
                if copy_to_clipboard {
                    CaptureDestination::ClipboardAndFile
                } else {
                    CaptureDestination::FileOnly
                },
            ),
        ),
        capture_request_spec(Action::CaptureActiveWindow, copy_to_clipboard) == Some(
            (
                CaptureType::ActiveWindow,
                if copy_to_clipboard {
                    CaptureDestination::ClipboardAndFile
                } else {
                    CaptureDestination::FileOnly
                },
            ),
        ),
        capture_request_spec(Action::CaptureSelection, copy_to_clipboard) == Some(
            (
                CaptureType::Selection { x: 0, y: 0, width: 0, height: 0 },
                if copy_to_clipboard {
                    CaptureDestination::ClipboardAndFile
                } else {
                    CaptureDestination::FileOnly
                },
            ),
        ),
        forall|a: Action| #[trigger] capture_request_spec(a, copy_to_clipboard) matches Some(req) ==> (wants_file(req.1)
            || wants_clipboard(req.1)),
{
}

/// Whether a capture with this destination needs the file-saving settings.
pub fn needs_save_config(destination: CaptureDestination) -> (b: bool)
    ensures
        b == (destination != CaptureDestination::ClipboardOnly),
{
    match destination {
        CaptureDestination::ClipboardOnly => false,
        _ => true,
    }
}

/// The status and stored outcome after a capture request finished: success
/// records the result, failure records the error message in both.
pub fn record_outcome(result: Result<CaptureResult, String>) -> (r: (CaptureStatus, CaptureOutcome))
    ensures
        match result {
            Ok(res) => r.0 == CaptureStatus::Success && r.1 == CaptureOutcome::Success(res),
            Err(msg) => r.0 == CaptureStatus::Failed(msg) && r.1 == CaptureOutcome::Failed(msg),
        },
{
    match result {
        Ok(res) => (CaptureStatus::Success, CaptureOutcome::Success(res)),
        Err(msg) => {
            let copy = msg.clone();
            (CaptureStatus::Failed(msg), CaptureOutcome::Failed(copy))
        },
    }
}

/// Portal options for a capture type: (modal, interactive). Only a full-screen
/// capture runs without user interaction.
pub fn portal_flags(capture_type: CaptureType) -> (r: (bool, bool))
    ensures
        !r.0,
        r.1 == !(capture_type is FullScreen),
{
    match capture_type {
        CaptureType::FullScreen => (false, false),
        CaptureType::ActiveWindow => (false, true),
        CaptureType::Selection { .. } => (false, true),
    }
}

/// How the portal answered a screenshot request.
#[derive(Debug, Clone, PartialEq, Eq)]
pub enum PortalReply {
    /// The screenshot was taken; its URI is in the reply.
    Captured,
    /// The user cancelled or denied the request.
    Denied,
    /// Any other response code, with its message.
    Failed(String),
}

/// The reply a portal response code stands for: 0 captured, 1 denied, any
/// other code an error naming the code.
pub fn portal_reply(code: u32) -> (r: PortalReply)
    ensures
        code == 0 ==> r == PortalReply::Captured,
        code == 1 ==> r == PortalReply::Denied,
        code > 1 ==> (r matches PortalReply::Failed(m) && m@ == "Portal returned error code "@ + decimal(code as nat)),
{
    match code {
        0 => PortalReply::Captured,
        1 => PortalReply::Denied,
        _ => {
            let mut m = String::from_str("Portal returned error code ");
            let digits = decimal_chars(code as u64);
            append_chars(&mut m, &digits);
            PortalReply::Failed(m)
        },
    }
}

/// How many times a portal screenshot file is read before giving up.
pub const MAX_READ_ATTEMPTS: usize = 60;

/// What to do after reading the portal's screenshot file.
#[derive(Debug, Clone, Copy, PartialEq, Eq, Structural)]
pub enum ReadStep {
    /// Non-empty data was read.
    Done,
    /// Wait and read again.
    Retry,
    /// No data after the last attempt.
    GiveUp,
}

/// The step after attempt `attempt` (counted from 0) read `got_data`.
pub fn read_step(attempt: usize, got_data: bool) -> (s: ReadStep)
    requires
        attempt < MAX_READ_ATTEMPTS,
    ensures
        got_data ==> s == ReadStep::Done,
        !got_data && attempt + 1 == MAX_READ_ATTEMPTS ==> s == ReadStep::GiveUp,
        !got_data && attempt + 1 < MAX_READ_ATTEMPTS ==> s == ReadStep::Retry,
{
    if got_data {
        ReadStep::Done
    } else if attempt + 1 == MAX_READ_ATTEMPTS {
        ReadStep::GiveUp
    } else {
        ReadStep::Retry
    }
}

/// The `grim` geometry argument "x,y wxh" for a window.
pub fn window_geometry(x: i32, y: i32, width: u32, height: u32) -> (g: String)
    ensures
        g@ == signed_decimal(x as int) + ","@ + signed_decimal(y as int) + " "@ + decimal(
            width as nat,
        ) + "x"@ + decimal(height as nat),
{
    let mut g = String::new();
    append_chars(&mut g, &signed_decimal_chars(x as i64));
    g.append(",");
    append_chars(&mut g, &signed_decimal_chars(y as i64));
    g.append(" ");
    append_chars(&mut g, &decimal_chars(width as u64));
    g.append("x");
    append_chars(&mut g, &decimal_chars(height as u64));
    g
}

/// The error reported when both clipboard paths failed.
pub fn clipboard_failure_message(command_error: &str, library_error: &str) -> (m: String)
    ensures
        m@ == "wl-copy failed: "@ + command_error@ + " ; wl-clipboard-rs failed: "@
            + library_error@,
{
    let mut m = String::from_str("wl-copy failed: ");
    m.append(command_error);
    m.append(" ; wl-clipboard-rs failed: ");
    m.append(library_error);
    m
}

pub open spec fn word_cancelled() -> Seq<char> {
    seq!['c', 'a', 'n', 'c', 'e', 'l', 'l', 'e', 'd']
}

pub open spec fn word_request_cancelled() -> Seq<char> {
    seq!['r', 'e', 'q', 'u', 'e', 's', 't', 'c', 'a', 'n', 'c', 'e', 'l', 'l', 'e', 'd']
}

pub open spec fn word_permission() -> Seq<char> {
    seq!['p', 'e', 'r', 'm', 'i', 's', 's', 'i', 'o', 'n']
}

pub open spec fn word_busy() -> Seq<char> {
    seq!['b', 'u', 's', 'y']
}

/// The message shown to the user for a capture error, chosen by what the
/// error text mentions (case-insensitively).
pub open spec fn friendly_message(error: Seq<char>) -> Seq<char> {
    if contains_lower_word(error, word_request_cancelled()) || contains_lower_word(
        error,
        word_cancelled(),
    ) {
        "Screen capture cancelled by user"@
    } else if contains_lower_word(error, word_permission()) {
        "Permission denied. Enable screen sharing in system settings."@
    } else if contains_lower_word(error, word_busy()) {
        "Screen capture in progress. Try again in a moment."@
    } else {
        "Screen capture failed. Please try again."@
    }
}

/// A user-facing message for a capture error.
pub fn friendly_capture_error(error: &str) -> (m: String)
    ensures
        m@ == friendly_message(error@),
{
    let e = str_chars(error);
    let request_cancelled = vec!['r', 'e', 'q', 'u', 'e', 's', 't', 'c', 'a', 'n', 'c', 'e', 'l', 'l', 'e', 'd'];
    let cancelled = vec!['c', 'a', 'n', 'c', 'e', 'l', 'l', 'e', 'd'];
    let permission = vec!['p', 'e', 'r', 'm', 'i', 's', 's', 'i', 'o', 'n'];
    let busy = vec!['b', 'u', 's', 'y'];
    proof {
        assert(request_cancelled@ == word_request_cancelled());
        assert(cancelled@ == word_cancelled());
        assert(permission@ == word_permission());
        assert(busy@ == word_busy());
    }
    if chars_contains_lower_word(&e, &request_cancelled) || chars_contains_lower_word(&e, &cancelled) {
        String::from_str("Screen capture cancelled by user")
    } else if chars_contains_lower_word(&e, &permission) {
        String::from_str("Permission denied. Enable screen sharing in system settings.")
    } else if chars_contains_lower_word(&e, &busy) {
        String::from_str("Screen capture in progress. Try again in a moment.")
    } else {
        String::from_str("Screen capture failed. Please try again.")
    }
}

/// The body of the notification after a successful capture: the saved file's
/// name and the clipboard copy, joined by " • ", or a plain message when neither.
pub open spec fn notification_body(saved_file_name: Option<Seq<char>>, copied: bool) -> Seq<char> {
    match saved_file_name {
        Some(name) => if copied {
            "Saved as "@ + name + " • "@ + "Copied to clipboard"@
        } else {
            "Saved as "@ + name
        },
        None => if copied {
            "Copied to clipboard"@
        } else {
            "Screenshot captured"@
        },
    }
}

/// The notification body after a successful capture.
pub fn capture_notification_body(saved_file_name: Option<&str>, copied: bool) -> (b: String)
    ensures
        b@ == notification_body(
            match saved_file_name {
                Some(n) => Some(n@),
                None => None,
            },
            copied,
        ),
{
    match saved_file_name {
        Some(name) => {
            let mut b = String::from_str("Saved as ");
            b.append(name);
            if copied {
                b.append(" • ");
                b.append("Copied to clipboard");
            }
            b
        },
        None => {
            if copied {
                String::from_str("Copied to clipboard")
            } else {
                String::from_str("Screenshot captured")
            }
        },
    }
}

} // verus!
