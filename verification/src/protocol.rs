//! The wire protocol: primitive little-endian and string codecs, the message
//! catalog, frame extraction from byte streams, and the partial-buffer codec.

pub mod codec;
pub mod extraction;
pub mod extractor;
pub mod primitive_break;
pub mod primitive_parse;
pub mod properties;
pub mod protocol_message;
pub mod read;
pub mod receive;
pub mod send;
pub mod stream;
pub mod text;
pub mod wire;
