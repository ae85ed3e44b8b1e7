//! Decisions of the platform accessibility layers, for macOS and for Windows.
pub mod macos;
pub mod windows;

use vstd::prelude::*;

use crate::text::{chars_of, starts_with, starts_with_seq};

verus! {

/// Why no selection geometry is available.
#[derive(Clone, Copy, Debug, PartialEq, Eq, Structural)]
pub enum SelectionError {
    /// The focused element reports an empty selection.
    NoTextSelected,
    /// No bounding rectangle of the selection passed validation.
    NoValidRectangle,
}

/// Why an application identifier could not be determined.
#[derive(Clone, Copy, Debug, PartialEq, Eq, Structural)]
pub struct AppIdNotFound;

/// A selection bounding rectangle: `(left, top, right, bottom)`.
pub type SelectionRect = (i32, i32, i32, i32);

/// Whether a value read from a browser is a web address: non-empty and starting with
/// `http://` or `https://`.
pub open spec fn is_web_url_spec(s: Seq<char>) -> bool {
    s.len() > 0 && (starts_with_seq(s, "http://"@) || starts_with_seq(s, "https://"@))
}

/// Whether a value read from a browser is a web address.
pub fn is_web_url(s: &str) -> (r: bool)
    ensures
        r == is_web_url_spec(s@),
{
    let v = chars_of(s);
    v.len() > 0 && (starts_with(&v, &chars_of("http://")) || starts_with(&v, &chars_of("https://")))
}

} // verus!
