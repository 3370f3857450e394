//! What a copy and a paste are asked to do, and which engine does it.

use crate::protocol::source_data::SourceDataItem;
use vstd::prelude::*;
use vstd::string::*;

verus! {

/// What a paste is asked for.
pub struct PasteConfig {
    /// Only list the type names on offer.
    pub list_types_only: bool,
    /// Read the primary selection, not the clipboard.
    pub use_primary: bool,
    /// The type name asked for; empty for text of any kind.
    pub expected_mime_type: String,
}

/// What a copy is asked for.
pub struct CopyConfig {
    /// Own the primary selection, not the clipboard.
    pub use_primary: bool,
    /// The payload to serve.
    pub source_data: Vec<SourceDataItem>,
    /// The size of a chunk on X11, in bytes, where it is less than the
    /// connection's own; 0 for the connection's own.
    pub x_chunk_size: usize,
}

/// The engines.
#[derive(Debug, Clone, Copy, PartialEq, Eq)]
pub enum Backend {
    Wayland,
    X,
}

/// Why an engine gave up.
#[derive(Debug, Clone, Copy, PartialEq, Eq)]
pub enum ClipError {
    /// No display server is named in the environment.
    NoDisplay,
    /// The server reported what the protocol does not allow at this point.
    ProtocolViolation,
    /// A type was asked for by name and is not on offer.
    NoMatchingType,
}

/// Picks the engine: Wayland where a Wayland display is named, else X11 where
/// an X display is named.
pub fn create_backend(wayland_display: bool, x_display: bool) -> (r: Result<Backend, ClipError>)
    ensures
        wayland_display ==> r == Ok::<Backend, ClipError>(Backend::Wayland),
        !wayland_display && x_display ==> r == Ok::<Backend, ClipError>(Backend::X),
        !wayland_display && !x_display ==> r == Err::<Backend, ClipError>(ClipError::NoDisplay),
{
    if wayland_display {
        Ok(Backend::Wayland)
    } else if x_display {
        Ok(Backend::X)
    } else {
        Err(ClipError::NoDisplay)
    }
}

impl ClipError {
    /// The failure in words.
    pub open spec fn text(self) -> Seq<char> {
        match self {
            ClipError::NoDisplay => "Could not decide the clip backend"@,
            ClipError::ProtocolViolation => "Unexpected event from the display server"@,
            ClipError::NoMatchingType => "No mime-type matches"@,
        }
    }

    /// The failure in words.
    pub fn message(&self) -> (r: String)
        ensures
            r@ == self.text(),
    {
        match self {
            ClipError::NoDisplay => String::from_str("Could not decide the clip backend"),
            ClipError::ProtocolViolation => String::from_str(
                "Unexpected event from the display server",
            ),
            ClipError::NoMatchingType => String::from_str("No mime-type matches"),
        }
    }
}

} // verus!
