//! MessagePack serialization/deserialization, via the `rmp-serde` crate.
//!
//! MessagePack is a binary format: it offers the byte and stream
//! capabilities, but no text form and no pretty-printing. The library
//! reports encoding and decoding failures through two distinct error types;
//! both are unified into the one [`MessagePackError`], which keeps them
//! distinguishable.

use vstd::prelude::*;

use std::collections::BTreeMap;

use crate::multi::{unsupported, Feature, Format, FormatError};
use crate::record::{representable, Record};
use crate::traits::{SerdeBytes, SerdeStream};

verus! {

/// The statically-chosen MessagePack codec.
#[derive(Copy, Clone, Debug, Default)]
pub struct MessagePack;

/// Declares `rmp_serde::encode::Error` to the verifier; the type stays opaque.
#[verifier::external_type_specification]
#[verifier::external_body]
pub struct ExRmpEncodeError(rmp_serde::encode::Error);

/// Declares `rmp_serde::decode::Error` to the verifier; the type stays opaque.
#[verifier::external_type_specification]
#[verifier::external_body]
pub struct ExRmpDecodeError(rmp_serde::decode::Error);

/// A failure reported by the `rmp-serde` library, wrapped losslessly; the
/// library's two error channels stay distinguishable.
#[derive(Debug)]
pub enum MessagePackError {
    /// A failure while encoding.
    Encode(rmp_serde::encode::Error),
    /// A failure while decoding.
    Decode(rmp_serde::decode::Error),
}

/// The bytes that `rmp-serde` writes for a mapping: a function of the
/// mapping alone, since the entries are serialized from a `BTreeMap`, which
/// orders keys canonically.
pub uninterp spec fn messagepack_bytes(m: Map<Seq<char>, int>) -> Seq<u8>;

/// Relies on `rmp_serde::to_vec`: its output is a function of the
/// serialized mapping, and for a string-keyed map of integers it cannot
/// fail — its vector sink errors only on an allocation failure, which is
/// set aside throughout this crate.
#[verifier::external_body]
fn to_vec_raw(value: &Record) -> (r: Result<Vec<u8>, rmp_serde::encode::Error>)
    ensures
        r is Ok,
        r->Ok_0@ == messagepack_bytes(value@),
{
    let map: BTreeMap<String, i64> = value.entries.iter().cloned().collect();
    rmp_serde::to_vec(&map)
}

/// Relies on `rmp_serde::from_slice`: decoding the bytes that
/// `rmp_serde::to_vec` wrote for a mapping yields exactly that mapping
/// back.
#[verifier::external_body]
fn from_slice_raw(data: &[u8]) -> (r: Result<Record, rmp_serde::decode::Error>)
    ensures
        forall|m: Map<Seq<char>, int>|
            representable(m) && data@ == #[trigger] messagepack_bytes(m) ==> r is Ok && r->Ok_0@
                == m,
{
    rmp_serde::from_slice::<BTreeMap<String, i64>>(data).map(
        |m| Record { entries: m.into_iter().collect() },
    )
}

/// Relies on `rmp_serde::encode::write`: it writes to the writer exactly
/// the bytes that `rmp_serde::to_vec` returns, which itself runs `write`
/// into a fresh vector; for this payload into a vector it cannot fail.
#[verifier::external_body]
fn to_writer_raw(writer: &mut Vec<u8>, value: &Record) -> (r: Result<
    (),
    rmp_serde::encode::Error,
>)
    ensures
        r is Ok,
        final(writer)@ == old(writer)@ + messagepack_bytes(value@),
{
    let map: BTreeMap<String, i64> = value.entries.iter().cloned().collect();
    rmp_serde::encode::write(&mut *writer, &map)
}

/// Relies on `rmp_serde::decode::from_read`: reading a byte-slice stream
/// that holds the bytes `rmp_serde::to_vec` wrote for a mapping yields
/// exactly that mapping back.
#[verifier::external_body]
fn from_reader_raw(data: &[u8]) -> (r: Result<Record, rmp_serde::decode::Error>)
    ensures
        forall|m: Map<Seq<char>, int>|
            representable(m) && data@ == #[trigger] messagepack_bytes(m) ==> r is Ok && r->Ok_0@
                == m,
{
    rmp_serde::decode::from_read::<&[u8], BTreeMap<String, i64>>(data).map(
        |m| Record { entries: m.into_iter().collect() },
    )
}

/// Relies on the `Display` of `rmp_serde::encode::Error` for the text.
#[verifier::external_body]
fn encode_message_raw(inner: &rmp_serde::encode::Error) -> String {
    format!("{}", inner)
}

/// Relies on the `Display` of `rmp_serde::decode::Error` for the text.
#[verifier::external_body]
fn decode_message_raw(inner: &rmp_serde::decode::Error) -> String {
    format!("{}", inner)
}

impl MessagePackError {
    /// The diagnostic message of the wrapped library error, verbatim.
    pub fn message(&self) -> String {
        match self {
            MessagePackError::Encode(inner) => encode_message_raw(inner),
            MessagePackError::Decode(inner) => decode_message_raw(inner),
        }
    }
}

/// Serialize a record to a MessagePack byte vector.
pub fn to_vec(value: &Record) -> (r: Result<Vec<u8>, MessagePackError>)
    ensures
        r is Ok,
        r->Ok_0@ == messagepack_bytes(value@),
{
    match to_vec_raw(value) {
        Ok(b) => Ok(b),
        Err(e) => Err(MessagePackError::Encode(e)),
    }
}

/// Deserialize a record from MessagePack bytes.
pub fn from_slice(data: &[u8]) -> (r: Result<Record, MessagePackError>)
    ensures
        r is Err ==> r->Err_0 is Decode,
        forall|m: Map<Seq<char>, int>|
            representable(m) && data@ == #[trigger] messagepack_bytes(m) ==> r is Ok && r->Ok_0@
                == m,
{
    match from_slice_raw(data) {
        Ok(v) => Ok(v),
        Err(e) => Err(MessagePackError::Decode(e)),
    }
}

/// Serialize a record as MessagePack into a byte writer.
pub fn to_writer(writer: &mut Vec<u8>, value: &Record) -> (r: Result<(), MessagePackError>)
    ensures
        r is Ok,
        final(writer)@ == old(writer)@ + messagepack_bytes(value@),
{
    match to_writer_raw(writer, value) {
        Ok(u) => Ok(u),
        Err(e) => Err(MessagePackError::Encode(e)),
    }
}

/// Deserialize a record from a MessagePack byte-slice stream.
pub fn from_reader(data: &[u8]) -> (r: Result<Record, MessagePackError>)
    ensures
        r is Err ==> r->Err_0 is Decode,
        forall|m: Map<Seq<char>, int>|
            representable(m) && data@ == #[trigger] messagepack_bytes(m) ==> r is Ok && r->Ok_0@
                == m,
{
    match from_reader_raw(data) {
        Ok(v) => Ok(v),
        Err(e) => Err(MessagePackError::Decode(e)),
    }
}

impl SerdeBytes for MessagePack {
    open spec fn tag(&self) -> Format {
        Format::MessagePack
    }

    fn to_vec_pretty(&self, value: &Record) -> (r: Result<Vec<u8>, FormatError>) {
        Err(unsupported(Format::MessagePack, Feature::Pretty))
    }

    fn to_vec(&self, value: &Record) -> (r: Result<Vec<u8>, FormatError>) {
        match to_vec(value) {
            Ok(b) => Ok(b),
            Err(e) => Err(FormatError::MessagePack(e)),
        }
    }

    fn from_slice(&self, data: &[u8]) -> (r: Result<Record, FormatError>) {
        match from_slice(data) {
            Ok(v) => Ok(v),
            Err(e) => Err(FormatError::MessagePack(e)),
        }
    }
}

impl SerdeStream for MessagePack {
    fn to_writer_pretty(&self, writer: &mut Vec<u8>, value: &Record) -> (r: Result<
        (),
        FormatError,
    >) {
        Err(unsupported(Format::MessagePack, Feature::Pretty))
    }

    fn to_writer(&self, writer: &mut Vec<u8>, value: &Record) -> (r: Result<(), FormatError>) {
        match to_writer(writer, value) {
            Ok(u) => Ok(u),
            Err(e) => Err(FormatError::MessagePack(e)),
        }
    }

    fn from_reader(&self, data: &[u8]) -> (r: Result<Record, FormatError>) {
        match from_reader(data) {
            Ok(v) => Ok(v),
            Err(e) => Err(FormatError::MessagePack(e)),
        }
    }
}

} // verus!
