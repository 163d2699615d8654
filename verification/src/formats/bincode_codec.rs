//! Bincode serialization/deserialization, via the `bincode` crate.
//!
//! Bincode is a compact binary format: it offers the byte and stream
//! capabilities, but no text form and no pretty-printing.

use vstd::prelude::*;

use std::collections::BTreeMap;

use crate::multi::{unsupported, Feature, Format, FormatError};
use crate::record::{representable, Record};
use crate::traits::{SerdeBytes, SerdeStream};

verus! {

/// The statically-chosen Bincode codec.
#[derive(Copy, Clone, Debug, Default)]
pub struct Bincode;

/// Declares `bincode::ErrorKind` to the verifier; the type stays opaque.
#[verifier::external_type_specification]
#[verifier::external_body]
pub struct ExBincodeErrorKind(bincode::ErrorKind);

/// A failure reported by the `bincode` library, wrapped losslessly.
#[derive(Debug)]
pub struct BincodeError {
    pub(crate) inner: bincode::ErrorKind,
}

/// The bytes that `bincode` writes for a mapping: a function of the mapping
/// alone, since the entries are serialized from a `BTreeMap`, which orders
/// keys canonically.
pub uninterp spec fn bincode_bytes(m: Map<Seq<char>, int>) -> Seq<u8>;

/// Relies on `bincode::serialize`: its output is a function of the
/// serialized mapping, and for a string-keyed map of integers it cannot
/// fail — no size limit is configured and the vector sink is infallible.
#[verifier::external_body]
fn to_vec_raw(value: &Record) -> (r: Result<Vec<u8>, bincode::ErrorKind>)
    ensures
        r is Ok,
        r->Ok_0@ == bincode_bytes(value@),
{
    let map: BTreeMap<String, i64> = value.entries.iter().cloned().collect();
    bincode::serialize(&map).map_err(|e| *e)
}

/// Relies on `bincode::deserialize`: decoding the bytes that
/// `bincode::serialize` wrote for a mapping yields exactly that mapping
/// back.
#[verifier::external_body]
fn from_slice_raw(data: &[u8]) -> (r: Result<Record, bincode::ErrorKind>)
    ensures
        forall|m: Map<Seq<char>, int>|
            representable(m) && data@ == #[trigger] bincode_bytes(m) ==> r is Ok && r->Ok_0@ == m,
{
    bincode::deserialize::<BTreeMap<String, i64>>(data).map(
        |m| Record { entries: m.into_iter().collect() },
    ).map_err(|e| *e)
}

/// Relies on `bincode::serialize_into`: it writes to the writer exactly the
/// bytes that `bincode::serialize` returns — both run the same fixint
/// encoding, and their configurations differ only in a flag that affects
/// decoding — and for this payload into a vector it cannot fail.
#[verifier::external_body]
fn to_writer_raw(writer: &mut Vec<u8>, value: &Record) -> (r: Result<(), bincode::ErrorKind>)
    ensures
        r is Ok,
        final(writer)@ == old(writer)@ + bincode_bytes(value@),
{
    let map: BTreeMap<String, i64> = value.entries.iter().cloned().collect();
    bincode::serialize_into(&mut *writer, &map).map_err(|e| *e)
}

/// Relies on `bincode::deserialize_from`: reading a byte-slice stream that
/// holds the bytes `bincode::serialize` wrote for a mapping yields exactly
/// that mapping back.
#[verifier::external_body]
fn from_reader_raw(data: &[u8]) -> (r: Result<Record, bincode::ErrorKind>)
    ensures
        forall|m: Map<Seq<char>, int>|
            representable(m) && data@ == #[trigger] bincode_bytes(m) ==> r is Ok && r->Ok_0@ == m,
{
    bincode::deserialize_from::<&[u8], BTreeMap<String, i64>>(data).map(
        |m| Record { entries: m.into_iter().collect() },
    ).map_err(|e| *e)
}

/// Relies on the `Display` of `bincode::ErrorKind` for the diagnostic text.
#[verifier::external_body]
fn message_raw(inner: &bincode::ErrorKind) -> String {
    format!("{}", inner)
}

impl BincodeError {
    /// The diagnostic message of the wrapped library error, verbatim.
    pub fn message(&self) -> String {
        message_raw(&self.inner)
    }
}

/// Serialize a record to a Bincode byte vector.
pub fn to_vec(value: &Record) -> (r: Result<Vec<u8>, BincodeError>)
    ensures
        r is Ok,
        r->Ok_0@ == bincode_bytes(value@),
{
    match to_vec_raw(value) {
        Ok(b) => Ok(b),
        Err(e) => Err(BincodeError { inner: e }),
    }
}

/// Deserialize a record from Bincode bytes.
pub fn from_slice(data: &[u8]) -> (r: Result<Record, BincodeError>)
    ensures
        forall|m: Map<Seq<char>, int>|
            representable(m) && data@ == #[trigger] bincode_bytes(m) ==> r is Ok && r->Ok_0@ == m,
{
    match from_slice_raw(data) {
        Ok(v) => Ok(v),
        Err(e) => Err(BincodeError { inner: e }),
    }
}

/// Serialize a record as Bincode into a byte writer.
pub fn to_writer(writer: &mut Vec<u8>, value: &Record) -> (r: Result<(), BincodeError>)
    ensures
        r is Ok,
        final(writer)@ == old(writer)@ + bincode_bytes(value@),
{
    match to_writer_raw(writer, value) {
        Ok(u) => Ok(u),
        Err(e) => Err(BincodeError { inner: e }),
    }
}

/// Deserialize a record from a Bincode byte-slice stream.
pub fn from_reader(data: &[u8]) -> (r: Result<Record, BincodeError>)
    ensures
        forall|m: Map<Seq<char>, int>|
            representable(m) && data@ == #[trigger] bincode_bytes(m) ==> r is Ok && r->Ok_0@ == m,
{
    match from_reader_raw(data) {
        Ok(v) => Ok(v),
        Err(e) => Err(BincodeError { inner: e }),
    }
}

impl SerdeBytes for Bincode {
    open spec fn tag(&self) -> Format {
        Format::Bincode
    }

    fn to_vec_pretty(&self, value: &Record) -> (r: Result<Vec<u8>, FormatError>) {
        Err(unsupported(Format::Bincode, Feature::Pretty))
    }

    fn to_vec(&self, value: &Record) -> (r: Result<Vec<u8>, FormatError>) {
        match to_vec(value) {
            Ok(b) => Ok(b),
            Err(e) => Err(FormatError::Bincode(e)),
        }
    }

    fn from_slice(&self, data: &[u8]) -> (r: Result<Record, FormatError>) {
        match from_slice(data) {
            Ok(v) => Ok(v),
            Err(e) => Err(FormatError::Bincode(e)),
        }
    }
}

impl SerdeStream for Bincode {
    fn to_writer_pretty(&self, writer: &mut Vec<u8>, value: &Record) -> (r: Result<
        (),
        FormatError,
    >) {
        Err(unsupported(Format::Bincode, Feature::Pretty))
    }

    fn to_writer(&self, writer: &mut Vec<u8>, value: &Record) -> (r: Result<(), FormatError>) {
        match to_writer(writer, value) {
            Ok(u) => Ok(u),
            Err(e) => Err(FormatError::Bincode(e)),
        }
    }

    fn from_reader(&self, data: &[u8]) -> (r: Result<Record, FormatError>) {
        match from_reader(data) {
            Ok(v) => Ok(v),
            Err(e) => Err(FormatError::Bincode(e)),
        }
    }
}

} // verus!
