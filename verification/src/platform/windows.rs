//! Windows accessibility decisions.
use vstd::prelude::*;

use crate::platform::{AppIdNotFound, SelectionError, SelectionRect};
use crate::text::{strip_leading, trim_start_matches};

verus! {

/// Window handle of the window that owned focus before the popup opened.
pub type FocusTarget = isize;

/// UI Automation control type of edit controls.
pub const UIA_EDIT_CONTROL_TYPE_ID: i32 = 50004;

/// UI Automation control type of document controls.
pub const UIA_DOCUMENT_CONTROL_TYPE_ID: i32 = 50030;

/// Legacy accessibility role of editable text.
pub const ROLE_SYSTEM_TEXT: u32 = 42;

/// Legacy accessibility role of combo boxes.
pub const ROLE_SYSTEM_COMBOBOX: u32 = 46;

/// Capture the window that currently owns focus, from the foreground window handle; the null
/// handle means no window owns focus.
pub fn get_focus_target(foreground: isize) -> (r: Option<FocusTarget>)
    ensures
        foreground == 0 ==> r is None,
        foreground != 0 ==> r == Some(foreground),
{
    if foreground == 0 {
        None
    } else {
        Some(foreground)
    }
}

/// Whether the popup source window currently owns focus.
pub fn is_focus_target_active(target: FocusTarget, foreground: isize) -> (r: bool)
    ensures
        r == (foreground == target),
{
    foreground == target
}

/// Bounding rectangles of every line of the selected text, in document order; there must be
/// at least one.
pub fn get_selection_rects(rects: Vec<SelectionRect>) -> (r: Result<Vec<SelectionRect>, SelectionError>)
    ensures
        rects@.len() == 0 ==> r == Err::<Vec<SelectionRect>, SelectionError>(
            SelectionError::NoValidRectangle,
        ),
        rects@.len() > 0 ==> (r matches Ok(v) && v@ == rects@),
{
    if rects.len() == 0 {
        return Err(SelectionError::NoValidRectangle);
    }
    Ok(rects)
}

/// Bounding rectangle of the last selected character. `lines` are the validated rectangles of
/// the selected lines, in document order; `last_character` is the validated rectangle of the
/// selection's last character, `None` when it could not be read. Without any line there is no
/// selection geometry at all; when the last character's own rectangle is missing, the last line's
/// rectangle, which ends where that character ends, stands in for it.
pub fn get_selection_rect(lines: Vec<SelectionRect>, last_character: Option<SelectionRect>) -> (r:
    Result<SelectionRect, SelectionError>)
    ensures
        lines@.len() == 0 ==> r == Err::<SelectionRect, SelectionError>(
            SelectionError::NoValidRectangle,
        ),
        lines@.len() > 0 && last_character is Some ==> r == Ok::<SelectionRect, SelectionError>(
            last_character->0,
        ),
        lines@.len() > 0 && last_character is None ==> r == Ok::<SelectionRect, SelectionError>(
            lines@.last(),
        ),
{
    let mut lines = lines;
    match lines.pop() {
        Some(line) => match last_character {
            Some(c) => Ok(c),
            None => Ok(line),
        },
        None => Err(SelectionError::NoValidRectangle),
    }
}

/// Whether the focused element is editable: an edit or document control, a value that is not
/// read-only, or a legacy text or combo box role, checked in that order. `None` stands for a
/// property that could not be read.
pub fn is_cursor_editable(
    control_type: Option<i32>,
    value_read_only: Option<bool>,
    legacy_role: Option<u32>,
) -> (r: bool)
    ensures
        r == ((control_type matches Some(c) && (c == UIA_EDIT_CONTROL_TYPE_ID || c
            == UIA_DOCUMENT_CONTROL_TYPE_ID)) || value_read_only == Some(false) || (legacy_role matches Some(
            role,
        ) && (role == ROLE_SYSTEM_TEXT || role == ROLE_SYSTEM_COMBOBOX))),
{
    match control_type {
        Some(c) => if c == UIA_EDIT_CONTROL_TYPE_ID || c == UIA_DOCUMENT_CONTROL_TYPE_ID {
            return true;
        },
        None => {},
    }
    if value_read_only == Some(false) {
        return true;
    }
    match legacy_role {
        Some(role) => role == ROLE_SYSTEM_TEXT || role == ROLE_SYSTEM_COMBOBOX,
        None => false,
    }
}

/// Application identifier from the canonical path of an application: the path without the
/// `\\?\` prefix Windows adds to long paths. `None` stands for a path that could not be
/// canonicalized or is not valid Unicode.
pub fn get_app_id(canonical_path: Option<&str>) -> (r: Result<String, AppIdNotFound>)
    ensures
        canonical_path matches Some(p) ==> (r matches Ok(s) && s@ == strip_leading(
            p@,
            "\\\\?\\"@,
        )),
        canonical_path is None ==> r == Err::<String, AppIdNotFound>(AppIdNotFound),
{
    match canonical_path {
        Some(p) => {
            let prefix = "\\\\?\\";
            proof {
                reveal_strlit("\\\\?\\");
            }
            Ok(trim_start_matches(p, prefix).to_owned())
        },
        None => Err(AppIdNotFound),
    }
}


/// `RPC_E_CHANGED_MODE` (0x80010106): COM was already initialized on the thread in another mode.
pub const RPC_E_CHANGED_MODE: i32 = -2147417850i32;

/// COM could not be initialized on the thread.
#[derive(Clone, Copy, Debug, PartialEq, Eq, Structural)]
pub struct ComInitFailed;

/// Outcome of initializing COM from the result code of `CoInitializeEx`: `Ok(true)` when this
/// call initialized it (and must uninitialize it again), `Ok(false)` when other code already
/// did, an error otherwise.
pub fn com_init_outcome(hresult: i32) -> (r: Result<bool, ComInitFailed>)
    ensures
        hresult >= 0 ==> r == Ok::<bool, ComInitFailed>(true),
        hresult == RPC_E_CHANGED_MODE ==> r == Ok::<bool, ComInitFailed>(false),
        hresult < 0 && hresult != RPC_E_CHANGED_MODE ==> r == Err::<bool, ComInitFailed>(
            ComInitFailed,
        ),
{
    if hresult >= 0 {
        Ok(true)
    } else if hresult == RPC_E_CHANGED_MODE {
        Ok(false)
    } else {
        Err(ComInitFailed)
    }
}

} // verus!
