//! The payload as the producer sends it, and as the engines hold it.

pub mod recv;
pub mod source_data;

pub use recv::receive_data;
pub use recv::receive_data_bulk;
pub use recv::receive_data_oneshot;
pub use recv::DecodeError;
pub use recv::PROTOCOL_VER;
pub use source_data::SourceData;
pub use source_data::SourceDataItem;
