//! The supported codecs, one module each. Every module exposes the same
//! shape of API over its library: a marker type, a wrapped error type, and
//! free functions for the capabilities the codec offers.

pub mod bincode_codec;
pub mod cbor;
pub mod json;
pub mod messagepack;
pub mod ron_codec;
pub mod toml_codec;
pub mod xml;
