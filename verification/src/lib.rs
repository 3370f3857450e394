//! A clipboard bridge for X11 and Wayland desktops.
//!
//! The crate holds the decisions of the bridge: decoding a payload with several
//! representations, negotiating a MIME type, and the state machines that answer
//! the events of the two display servers. The connection to a display server
//! is the caller's part.
//!
//! What a function returns is stated in its contract and proved. Two private
//! wrappers call code that is not verified, and their contracts are taken on
//! trust: `string_from_utf8` in `protocol::recv` and `reply_value32` in
//! `clipboard::x::paste`.

pub mod ascii;
pub mod clipboard;
pub mod protocol;
