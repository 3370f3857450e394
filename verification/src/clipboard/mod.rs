//! Negotiation and the two transfer engines.

pub mod backend;
pub mod mime_type;
pub mod wayland;
pub mod x;

pub use backend::create_backend;
pub use backend::Backend;
pub use backend::ClipError;
pub use backend::CopyConfig;
pub use backend::PasteConfig;
