use vstd::prelude::*;

verus! {

/// What can go wrong when images or filter settings are loaded or saved.
#[derive(Debug, Clone, Copy, PartialEq, Eq, Structural)]
pub enum OutlineError {
    /// The image bytes could not be read or are in an unsupported format.
    DecodeError,
    /// The image has no pixels, so it has no dominant color.
    EmptyImage,
    /// The settings record is malformed or lacks a field.
    ConfigParseError,
    /// A file could not be created, read or written.
    IoError,
}

} // verus!
