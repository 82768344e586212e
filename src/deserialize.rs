//! The library's view of a failed, path-aware decoding of a response body.
use vstd::prelude::*;

verus! {

/// Why a response body could not be decoded into the expected shape.
///
/// `path` locates the field at which decoding stopped (for example
/// `items[2].state_version`); it is empty when the failure is not at a field,
/// such as a body that is not JSON at all. `message` is the decoder's own
/// diagnostic.
#[derive(Clone, Debug, PartialEq, Eq)]
pub struct ParseError {
    pub path: String,
    pub message: String,
}

impl ParseError {
    pub fn new(path: String, message: String) -> (r: ParseError)
        ensures
            r.path == path,
            r.message == message,
    {
        ParseError { path, message }
    }

    /// True when the failure was located at a named field of the body.
    pub fn has_path(&self) -> (r: bool)
        ensures
            r == (self.path@.len() > 0),
    {
        self.path.as_str().unicode_len() > 0
    }
}

} // verus!
