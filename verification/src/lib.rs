//! A 128-bit universally unique identifier (UUID) held as an opaque 16-byte
//! value, together with verified text codecs for its three standard layouts:
//! simple (32 hex digits), hyphenated (8-4-4-4-12 groups) and URN
//! (`urn:uuid:` followed by the hyphenated form).

pub mod adapter;
pub mod decode;
pub mod encode;
pub mod hex;
pub mod layout;
pub mod laws;
pub mod value;

pub use adapter::Hyphenated;
pub use adapter::HyphenatedRef;
pub use adapter::Simple;
pub use adapter::SimpleRef;
pub use adapter::Urn;
pub use adapter::UrnRef;
pub use decode::DecodeError;
pub use decode::decode;
pub use decode::decode_hyphenated;
pub use decode::decode_layout;
pub use decode::decode_simple;
pub use decode::decode_urn;
pub use encode::encode;
pub use encode::encode_hyphenated;
pub use encode::encode_into;
pub use encode::encode_simple;
pub use encode::encode_urn;
pub use layout::Layout;
pub use value::Uuid;
