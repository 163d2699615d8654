//! CBOR serialization/deserialization, via the `serde_cbor` crate.
//!
//! CBOR is a binary format: it offers the byte and stream capabilities, but
//! no text form and no pretty-printing.

use vstd::prelude::*;

use std::collections::BTreeMap;

use crate::multi::{unsupported, Feature, Format, FormatError};
use crate::record::{representable, Record};
use crate::traits::{SerdeBytes, SerdeStream};

verus! {

/// The statically-chosen CBOR codec.
#[derive(Copy, Clone, Debug, Default)]
pub struct Cbor;

/// Declares `serde_cbor::Error` to the verifier; the type stays opaque.
#[verifier::external_type_specification]
#[verifier::external_body]
pub struct ExSerdeCborError(serde_cbor::Error);

/// A failure reported by the `serde_cbor` library, wrapped losslessly.
#[derive(Debug)]
pub struct CborError {
    pub(crate) inner: serde_cbor::Error,
}

/// The bytes that `serde_cbor` writes for a mapping: a function of the
/// mapping alone, since the entries are serialized from a `BTreeMap`, which
/// orders keys canonically.
pub uninterp spec fn cbor_bytes(m: Map<Seq<char>, int>) -> Seq<u8>;

/// Relies on `serde_cbor::to_vec`: its output is a function of the
/// serialized mapping, and for a string-keyed map of integers it cannot
/// fail — strings and integers always encode, and the vector sink is
/// infallible.
#[verifier::external_body]
fn to_vec_raw(value: &Record) -> (r: Result<Vec<u8>, serde_cbor::Error>)
    ensures
        r is Ok,
        r->Ok_0@ == cbor_bytes(value@),
{
    let map: BTreeMap<String, i64> = value.entries.iter().cloned().collect();
    serde_cbor::to_vec(&map)
}

/// Relies on `serde_cbor::from_slice`: decoding the bytes that
/// `serde_cbor::to_vec` wrote for a mapping yields exactly that mapping
/// back.
#[verifier::external_body]
fn from_slice_raw(data: &[u8]) -> (r: Result<Record, serde_cbor::Error>)
    ensures
        forall|m: Map<Seq<char>, int>|
            representable(m) && data@ == #[trigger] cbor_bytes(m) ==> r is Ok && r->Ok_0@ == m,
{
    serde_cbor::from_slice::<BTreeMap<String, i64>>(data).map(
        |m| Record { entries: m.into_iter().collect() },
    )
}

/// Relies on `serde_cbor::to_writer`: it writes to the writer exactly the
/// bytes that `serde_cbor::to_vec` returns, both running the same
/// serializer, and for this payload into a vector it cannot fail.
#[verifier::external_body]
fn to_writer_raw(writer: &mut Vec<u8>, value: &Record) -> (r: Result<(), serde_cbor::Error>)
    ensures
        r is Ok,
        final(writer)@ == old(writer)@ + cbor_bytes(value@),
{
    let map: BTreeMap<String, i64> = value.entries.iter().cloned().collect();
    serde_cbor::to_writer(&mut *writer, &map)
}

/// Relies on `serde_cbor::from_reader`: reading a byte-slice stream that
/// holds the bytes `serde_cbor::to_vec` wrote for a mapping yields exactly
/// that mapping back.
#[verifier::external_body]
fn from_reader_raw(data: &[u8]) -> (r: Result<Record, serde_cbor::Error>)
    ensures
        forall|m: Map<Seq<char>, int>|
            representable(m) && data@ == #[trigger] cbor_bytes(m) ==> r is Ok && r->Ok_0@ == m,
{
    serde_cbor::from_reader::<BTreeMap<String, i64>, &[u8]>(data).map(
        |m| Record { entries: m.into_iter().collect() },
    )
}

/// Relies on the `Display` of `serde_cbor::Error` for the diagnostic text.
#[verifier::external_body]
fn message_raw(inner: &serde_cbor::Error) -> String {
    format!("{}", inner)
}

impl CborError {
    /// The diagnostic message of the wrapped library error, verbatim.
    pub fn message(&self) -> String {
        message_raw(&self.inner)
    }
}

/// Serialize a record to a CBOR byte vector.
pub fn to_vec(value: &Record) -> (r: Result<Vec<u8>, CborError>)
    ensures
        r is Ok,
        r->Ok_0@ == cbor_bytes(value@),
{
    match to_vec_raw(value) {
        Ok(b) => Ok(b),
        Err(e) => Err(CborError { inner: e }),
    }
}

/// Deserialize a record from CBOR bytes.
pub fn from_slice(data: &[u8]) -> (r: Result<Record, CborError>)
    ensures
        forall|m: Map<Seq<char>, int>|
            representable(m) && data@ == #[trigger] cbor_bytes(m) ==> r is Ok && r->Ok_0@ == m,
{
    match from_slice_raw(data) {
        Ok(v) => Ok(v),
        Err(e) => Err(CborError { inner: e }),
    }
}

/// Serialize a record as CBOR into a byte writer.
pub fn to_writer(writer: &mut Vec<u8>, value: &Record) -> (r: Result<(), CborError>)
    ensures
        r is Ok,
        final(writer)@ == old(writer)@ + cbor_bytes(value@),
{
    match to_writer_raw(writer, value) {
        Ok(u) => Ok(u),
        Err(e) => Err(CborError { inner: e }),
    }
}

/// Deserialize a record from a CBOR byte-slice stream.
pub fn from_reader(data: &[u8]) -> (r: Result<Record, CborError>)
    ensures
        forall|m: Map<Seq<char>, int>|
            representable(m) && data@ == #[trigger] cbor_bytes(m) ==> r is Ok && r->Ok_0@ == m,
{
    match from_reader_raw(data) {
        Ok(v) => Ok(v),
        Err(e) => Err(CborError { inner: e }),
    }
}

impl SerdeBytes for Cbor {
    open spec fn tag(&self) -> Format {
        Format::Cbor
    }

    fn to_vec_pretty(&self, value: &Record) -> (r: Result<Vec<u8>, FormatError>) {
        Err(unsupported(Format::Cbor, Feature::Pretty))
    }

    fn to_vec(&self, value: &Record) -> (r: Result<Vec<u8>, FormatError>) {
        match to_vec(value) {
            Ok(b) => Ok(b),
            Err(e) => Err(FormatError::Cbor(e)),
        }
    }

    fn from_slice(&self, data: &[u8]) -> (r: Result<Record, FormatError>) {
        match from_slice(data) {
            Ok(v) => Ok(v),
            Err(e) => Err(FormatError::Cbor(e)),
        }
    }
}

impl SerdeStream for Cbor {
    fn to_writer_pretty(&self, writer: &mut Vec<u8>, value: &Record) -> (r: Result<
        (),
        FormatError,
    >) {
        Err(unsupported(Format::Cbor, Feature::Pretty))
    }

    fn to_writer(&self, writer: &mut Vec<u8>, value: &Record) -> (r: Result<(), FormatError>) {
        match to_writer(writer, value) {
            Ok(u) => Ok(u),
            Err(e) => Err(FormatError::Cbor(e)),
        }
    }

    fn from_reader(&self, data: &[u8]) -> (r: Result<Record, FormatError>) {
        match from_reader(data) {
            Ok(v) => Ok(v),
            Err(e) => Err(FormatError::Cbor(e)),
        }
    }
}

} // verus!
