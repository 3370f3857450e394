//! The X11 engine: selection ownership and retrieval as state machines.
//!
//! The machines decide; the caller holds the connection. It hands each event
//! of the server to a machine, sends the requests that the machine answers
//! with, in their order, and hands the reply of a request that has one back
//! as the next event.

pub mod request;
pub mod sender;
pub mod copy;
pub mod paste;

pub use copy::copy_x;
pub use paste::paste_x;
