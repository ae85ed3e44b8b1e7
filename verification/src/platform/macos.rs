//! macOS accessibility decisions.
use std::collections::HashMap;
use vstd::prelude::*;

use crate::platform::{AppIdNotFound, SelectionError, SelectionRect};
use crate::text::{chars_of, contains_seq, find};

verus! {

/// Process identifier of the application that owned focus before the popup opened.
pub type FocusTarget = i32;

/// The frontmost application's process identifier as NSWorkspace reports it; a non-positive
/// identifier means there is none.
pub open spec fn frontmost_pid_spec(reported: Option<i32>) -> Option<i32> {
    match reported {
        Some(pid) => if pid > 0 {
            Some(pid)
        } else {
            None
        },
        None => None,
    }
}

/// Capture the application that currently owns focus, from the process identifier NSWorkspace
/// reports for the frontmost application.
pub fn get_focus_target(reported_pid: Option<i32>) -> (r: Option<FocusTarget>)
    ensures
        r == frontmost_pid_spec(reported_pid),
{
    match reported_pid {
        Some(pid) => if pid > 0 {
            Some(pid)
        } else {
            None
        },
        None => None,
    }
}

/// Whether the popup source application currently owns focus.
pub fn is_focus_target_active(target: FocusTarget, reported_pid: Option<i32>) -> (r: bool)
    ensures
        r == (frontmost_pid_spec(reported_pid) == Some(target)),
{
    match get_focus_target(reported_pid) {
        Some(pid) => pid == target,
        None => false,
    }
}

/// Bounding rectangles of the selected text lines: macOS only exposes the bounds of single
/// ranges, so this is the rectangle of the last selected character alone.
pub fn get_selection_rects<E>(rect: Result<SelectionRect, E>) -> (r: Result<Vec<SelectionRect>, E>)
    ensures
        rect matches Ok(x) ==> (r matches Ok(v) && v@ == seq![x]),
        rect matches Err(e) ==> r == Err::<Vec<SelectionRect>, E>(e),
{
    match rect {
        Ok(x) => Ok(vec![x]),
        Err(e) => Err(e),
    }
}

/// Range `(location, length)` of the last character of the selected range.
pub fn last_character_range(location: isize, length: isize) -> (r: Result<(isize, isize), SelectionError>)
    requires
        length != 0 ==> isize::MIN <= location + length - 1 <= isize::MAX,
        isize::MIN <= location + length <= isize::MAX,
    ensures
        length == 0 ==> r == Err::<(isize, isize), SelectionError>(SelectionError::NoTextSelected),
        length != 0 ==> r == Ok::<(isize, isize), SelectionError>(((location + length - 1) as isize, 1isize)),
{
    if length == 0 {
        return Err(SelectionError::NoTextSelected);
    }
    Ok((location + length - 1, 1))
}

/// Range `(location, length)` covering `chars` characters back from the end of the selected
/// range, starting no earlier than the beginning of the text.
pub fn backward_selection_range(location: isize, length: isize, chars: usize) -> (r: (isize, isize))
    requires
        chars <= isize::MAX,
        isize::MIN <= location + length <= isize::MAX,
        isize::MIN <= location + length - chars <= isize::MAX,
    ensures
        r.0 == (if location + length - chars >= 0 { location + length - chars } else { 0 }),
        r.1 == chars,
{
    let back = chars as isize;
    let start = location + length - back;
    (if start >= 0 { start } else { 0 }, back)
}

/// Accessibility roles of editable elements.
pub open spec fn editable_role_spec(role: Seq<char>) -> bool {
    contains_seq(role, "AXTextField"@) || contains_seq(role, "AXTextArea"@) || contains_seq(
        role,
        "AXComboBox"@,
    )
}

/// Whether an accessibility role names an editable element.
pub fn is_editable_role(role: &str) -> (r: bool)
    ensures
        r == editable_role_spec(role@),
{
    let v = chars_of(role);
    find(&v, &chars_of("AXTextField")).is_some() || find(&v, &chars_of("AXTextArea")).is_some()
        || find(&v, &chars_of("AXComboBox")).is_some()
}

/// The application identifier from the `CFBundleIdentifier` entry of a bundle's `Info.plist`,
/// when it holds a non-empty string.
pub fn bundle_identifier(entry: Option<String>) -> (r: Result<String, AppIdNotFound>)
    ensures
        (entry matches Some(s) && s@.len() > 0) ==> r == Ok::<String, AppIdNotFound>(entry->0),
        !(entry matches Some(s) && s@.len() > 0) ==> r == Err::<String, AppIdNotFound>(AppIdNotFound),
{
    match entry {
        Some(s) => if s.as_str().is_empty() {
            Err(AppIdNotFound)
        } else {
            Ok(s)
        },
        None => Err(AppIdNotFound),
    }
}


/// How long enabling AXAPI for an application counts as done, in nanoseconds; afterwards its
/// process identifier is treated as a new process.
pub const PID_CACHE_EXPIRE_NS: u64 = 5_000_000_000;

broadcast use vstd::std_specs::hash::group_hash_axioms;

/// Applications AXAPI was recently enabled for: process identifier to the time it was done, in
/// nanoseconds on a monotonic clock.
pub struct AxapiPidCache {
    pub processed: HashMap<i32, u64>,
}

/// Whether the cache holds a time for `pid` less than the expiry old at `now` (whole seconds
/// are compared, so an entry expires once five full seconds have passed).
pub open spec fn recently_processed_spec(m: Map<i32, u64>, pid: i32, now: u64) -> bool {
    m.contains_key(pid) && (if now >= m[pid] {
        now - m[pid]
    } else {
        0
    }) < PID_CACHE_EXPIRE_NS
}

impl AxapiPidCache {
    /// Nothing processed yet.
    pub fn new() -> (c: Self)
        ensures
            c.processed@ == Map::<i32, u64>::empty(),
    {
        AxapiPidCache { processed: HashMap::new() }
    }

    /// Whether AXAPI was enabled for `pid` recently enough to skip it now.
    pub fn is_recently_processed(&self, pid: i32, now: u64) -> (r: bool)
        ensures
            r == recently_processed_spec(self.processed@, pid, now),
    {
        match self.processed.get(&pid) {
            Some(last) => {
                let age = if now >= *last {
                    now - *last
                } else {
                    0
                };
                age < PID_CACHE_EXPIRE_NS
            },
            None => false,
        }
    }

    /// Remember that AXAPI was enabled for `pid` at `now`.
    pub fn mark_processed(&mut self, pid: i32, now: u64)
        ensures
            final(self).processed@ == old(self).processed@.insert(pid, now),
    {
        self.processed.insert(pid, now);
    }
}

} // verus!
