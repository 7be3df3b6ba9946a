//! Protocol-buffer bodies for reqwest: encode a message into an outgoing
//! request, and decode a received body into a typed message.
pub mod error;
pub mod media;
pub mod request;
pub mod response;

pub use error::DecodeError;
pub use request::ProtobufRequestExt;
pub use response::decode_body;
