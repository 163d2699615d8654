//! The capability contracts: one trait per serialization modality.
//!
//! Every codec answers to a [`Format`] tag, named by the `tag` spec
//! function, and each method promises exactly what the runtime dispatcher
//! promises for that tag, so compile-time generic code and runtime-tagged
//! code meet one and the same contract. Asking a codec for a capability it
//! lacks — a pretty form, or any text form — returns
//! [`FormatError::Unsupported`]; nothing falls back silently.
//!
//! [`FormatError::Unsupported`]: crate::multi::FormatError::Unsupported

use vstd::prelude::*;

use crate::multi::{
    bytes_decode_post, bytes_encode_post, bytes_pretty_encode_post, stream_encode_post,
    stream_pretty_encode_post, text_decode_post, text_encode_post, text_pretty_encode_post,
    Format, FormatError,
};
use crate::record::Record;

verus! {

/// A trait for serialization/deserialization to and from binary data.
/// It is meant to be implemented by every codec.
pub trait SerdeBytes {
    /// The [`Format`] tag that names this codec.
    spec fn tag(&self) -> Format;

    /// Pretty-print serialize a record to a `Vec<u8>`; a codec without a
    /// pretty form reports the gap.
    fn to_vec_pretty(&self, value: &Record) -> (r: Result<Vec<u8>, FormatError>)
        ensures
            bytes_pretty_encode_post(self.tag(), value@, r),
    ;

    /// Serialize a record to a `Vec<u8>`.
    fn to_vec(&self, value: &Record) -> (r: Result<Vec<u8>, FormatError>)
        ensures
            bytes_encode_post(self.tag(), value@, r),
    ;

    /// Deserialize a record from a `&[u8]`.
    fn from_slice(&self, data: &[u8]) -> (r: Result<Record, FormatError>)
        ensures
            bytes_decode_post(self.tag(), data@, r),
    ;
}

/// A trait for serialization/deserialization to and from UTF-8 strings.
/// It is meant to be implemented by the non-binary codecs.
pub trait SerdeText: SerdeBytes {
    /// Pretty-print serialize a record to a `String`; a codec without a
    /// pretty form reports the gap.
    fn to_string_pretty(&self, value: &Record) -> (r: Result<String, FormatError>)
        ensures
            text_pretty_encode_post(self.tag(), value@, r),
    ;

    /// Serialize a record to a `String`.
    fn to_string(&self, value: &Record) -> (r: Result<String, FormatError>)
        ensures
            text_encode_post(self.tag(), value@, r),
    ;

    /// Deserialize a record from a `str`.
    fn from_str(&self, data: &str) -> (r: Result<Record, FormatError>)
        ensures
            text_decode_post(self.tag(), data@, r),
    ;
}

/// A trait for serialization/deserialization to and from byte streams.
pub trait SerdeStream: SerdeBytes {
    /// Pretty-print serialize a record into a byte writer; a codec without
    /// a pretty form reports the gap and leaves the writer untouched.
    fn to_writer_pretty(&self, writer: &mut Vec<u8>, value: &Record) -> (r: Result<
        (),
        FormatError,
    >)
        ensures
            stream_pretty_encode_post(self.tag(), value@, old(writer)@, final(writer)@, r),
    ;

    /// Serialize a record into a byte writer.
    fn to_writer(&self, writer: &mut Vec<u8>, value: &Record) -> (r: Result<(), FormatError>)
        ensures
            stream_encode_post(self.tag(), value@, old(writer)@, final(writer)@, r),
    ;

    /// Deserialize a record from a byte-slice stream.
    fn from_reader(&self, data: &[u8]) -> (r: Result<Record, FormatError>)
        ensures
            bytes_decode_post(self.tag(), data@, r),
    ;
}

} // verus!
