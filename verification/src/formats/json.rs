//! JSON serialization/deserialization, via the `serde_json` crate.
//!
//! JSON offers every capability of this crate: text, bytes, streams, and
//! pretty-printing. The byte encoding is the UTF-8 encoding of the text
//! encoding, as `serde_json` builds its strings from the very bytes it
//! writes.

use vstd::prelude::*;
use vstd::utf8::encode_utf8;

use std::collections::BTreeMap;

use crate::multi::{Format, FormatError};
use crate::record::{representable, Record};
use crate::traits::{SerdeBytes, SerdeStream, SerdeText};

verus! {

/// The statically-chosen JSON codec.
#[derive(Copy, Clone, Debug, Default)]
pub struct Json;

/// Declares `serde_json::Error` to the verifier; the type stays opaque.
#[verifier::external_type_specification]
#[verifier::external_body]
pub struct ExSerdeJsonError(serde_json::Error);

/// A failure reported by the `serde_json` library, wrapped losslessly.
#[derive(Debug)]
pub struct JsonError {
    pub(crate) inner: serde_json::Error,
}

/// The JSON text that `serde_json` writes for a mapping: a function of the
/// mapping alone, since the entries are serialized from a `BTreeMap`, which
/// orders keys canonically.
pub uninterp spec fn json_text(m: Map<Seq<char>, int>) -> Seq<char>;

/// The pretty-printed JSON text that `serde_json` writes for a mapping.
pub uninterp spec fn json_text_pretty(m: Map<Seq<char>, int>) -> Seq<char>;

/// Relies on `serde_json::to_string`: its output is a function of the
/// serialized mapping, and for a map of string keys to `i64` values it
/// cannot fail (its documentation names only non-string keys and failing
/// `Serialize` implementations as error sources).
#[verifier::external_body]
fn to_string_raw(value: &Record) -> (r: Result<String, serde_json::Error>)
    ensures
        r is Ok,
        r->Ok_0@ == json_text(value@),
{
    let map: BTreeMap<String, i64> = value.entries.iter().cloned().collect();
    serde_json::to_string(&map)
}

/// Relies on `serde_json::to_string_pretty`, as on `serde_json::to_string`.
#[verifier::external_body]
fn to_string_pretty_raw(value: &Record) -> (r: Result<String, serde_json::Error>)
    ensures
        r is Ok,
        r->Ok_0@ == json_text_pretty(value@),
{
    let map: BTreeMap<String, i64> = value.entries.iter().cloned().collect();
    serde_json::to_string_pretty(&map)
}

/// Relies on `serde_json::from_str`: parsing the JSON text of a mapping
/// (plain or pretty-printed) yields exactly that mapping back.
#[verifier::external_body]
fn from_str_raw(data: &str) -> (r: Result<Record, serde_json::Error>)
    ensures
        forall|m: Map<Seq<char>, int>|
            representable(m) && data@ == #[trigger] json_text(m) ==> r is Ok && r->Ok_0@ == m,
        forall|m: Map<Seq<char>, int>|
            representable(m) && data@ == #[trigger] json_text_pretty(m) ==> r is Ok && r->Ok_0@
                == m,
{
    serde_json::from_str::<BTreeMap<String, i64>>(data).map(
        |m| Record { entries: m.into_iter().collect() },
    )
}

/// Relies on `serde_json::to_vec`: it writes the very bytes whose UTF-8
/// decoding `serde_json::to_string` returns.
#[verifier::external_body]
fn to_vec_raw(value: &Record) -> (r: Result<Vec<u8>, serde_json::Error>)
    ensures
        r is Ok,
        r->Ok_0@ == encode_utf8(json_text(value@)),
{
    let map: BTreeMap<String, i64> = value.entries.iter().cloned().collect();
    serde_json::to_vec(&map)
}

/// Relies on `serde_json::to_vec_pretty`, as on `serde_json::to_vec`.
#[verifier::external_body]
fn to_vec_pretty_raw(value: &Record) -> (r: Result<Vec<u8>, serde_json::Error>)
    ensures
        r is Ok,
        r->Ok_0@ == encode_utf8(json_text_pretty(value@)),
{
    let map: BTreeMap<String, i64> = value.entries.iter().cloned().collect();
    serde_json::to_vec_pretty(&map)
}

/// Relies on `serde_json::from_slice`: parsing the JSON bytes of a mapping
/// (plain or pretty-printed) yields exactly that mapping back.
#[verifier::external_body]
fn from_slice_raw(data: &[u8]) -> (r: Result<Record, serde_json::Error>)
    ensures
        forall|m: Map<Seq<char>, int>|
            representable(m) && data@ == encode_utf8(#[trigger] json_text(m)) ==> r is Ok
                && r->Ok_0@ == m,
        forall|m: Map<Seq<char>, int>|
            representable(m) && data@ == encode_utf8(#[trigger] json_text_pretty(m)) ==> r is Ok
                && r->Ok_0@ == m,
{
    serde_json::from_slice::<BTreeMap<String, i64>>(data).map(
        |m| Record { entries: m.into_iter().collect() },
    )
}

/// Relies on `serde_json::to_writer`: it appends to the writer exactly the
/// bytes that `serde_json::to_vec` returns, and writing to a `Vec` cannot
/// fail.
#[verifier::external_body]
fn to_writer_raw(writer: &mut Vec<u8>, value: &Record) -> (r: Result<(), serde_json::Error>)
    ensures
        r is Ok,
        final(writer)@ == old(writer)@ + encode_utf8(json_text(value@)),
{
    let map: BTreeMap<String, i64> = value.entries.iter().cloned().collect();
    serde_json::to_writer(&mut *writer, &map)
}

/// Relies on `serde_json::to_writer_pretty`, as on `serde_json::to_writer`.
#[verifier::external_body]
fn to_writer_pretty_raw(writer: &mut Vec<u8>, value: &Record) -> (r: Result<
    (),
    serde_json::Error,
>)
    ensures
        r is Ok,
        final(writer)@ == old(writer)@ + encode_utf8(json_text_pretty(value@)),
{
    let map: BTreeMap<String, i64> = value.entries.iter().cloned().collect();
    serde_json::to_writer_pretty(&mut *writer, &map)
}

/// Relies on `serde_json::from_reader`: reading a byte-slice stream holding
/// the JSON bytes of a mapping yields exactly that mapping back.
#[verifier::external_body]
fn from_reader_raw(data: &[u8]) -> (r: Result<Record, serde_json::Error>)
    ensures
        forall|m: Map<Seq<char>, int>|
            representable(m) && data@ == encode_utf8(#[trigger] json_text(m)) ==> r is Ok
                && r->Ok_0@ == m,
        forall|m: Map<Seq<char>, int>|
            representable(m) && data@ == encode_utf8(#[trigger] json_text_pretty(m)) ==> r is Ok
                && r->Ok_0@ == m,
{
    serde_json::from_reader::<&[u8], BTreeMap<String, i64>>(data).map(
        |m| Record { entries: m.into_iter().collect() },
    )
}

/// Relies on the `Display` of `serde_json::Error` for the diagnostic text.
#[verifier::external_body]
fn message_raw(inner: &serde_json::Error) -> String {
    format!("{}", inner)
}

impl JsonError {
    /// The diagnostic message of the wrapped library error, verbatim.
    pub fn message(&self) -> String {
        message_raw(&self.inner)
    }
}

/// Pretty-print serialize a record to a JSON `String`.
pub fn to_string_pretty(value: &Record) -> (r: Result<String, JsonError>)
    ensures
        r is Ok,
        r->Ok_0@ == json_text_pretty(value@),
{
    match to_string_pretty_raw(value) {
        Ok(s) => Ok(s),
        Err(e) => Err(JsonError { inner: e }),
    }
}

/// Serialize a record to a JSON `String`.
pub fn to_string(value: &Record) -> (r: Result<String, JsonError>)
    ensures
        r is Ok,
        r->Ok_0@ == json_text(value@),
{
    match to_string_raw(value) {
        Ok(s) => Ok(s),
        Err(e) => Err(JsonError { inner: e }),
    }
}

/// Deserialize a record from a JSON `str`.
pub fn from_str(data: &str) -> (r: Result<Record, JsonError>)
    ensures
        forall|m: Map<Seq<char>, int>|
            representable(m) && data@ == #[trigger] json_text(m) ==> r is Ok && r->Ok_0@ == m,
        forall|m: Map<Seq<char>, int>|
            representable(m) && data@ == #[trigger] json_text_pretty(m) ==> r is Ok && r->Ok_0@
                == m,
{
    match from_str_raw(data) {
        Ok(v) => Ok(v),
        Err(e) => Err(JsonError { inner: e }),
    }
}

/// Pretty-print serialize a record to a JSON byte vector.
pub fn to_vec_pretty(value: &Record) -> (r: Result<Vec<u8>, JsonError>)
    ensures
        r is Ok,
        r->Ok_0@ == encode_utf8(json_text_pretty(value@)),
{
    match to_vec_pretty_raw(value) {
        Ok(b) => Ok(b),
        Err(e) => Err(JsonError { inner: e }),
    }
}

/// Serialize a record to a JSON byte vector.
pub fn to_vec(value: &Record) -> (r: Result<Vec<u8>, JsonError>)
    ensures
        r is Ok,
        r->Ok_0@ == encode_utf8(json_text(value@)),
{
    match to_vec_raw(value) {
        Ok(b) => Ok(b),
        Err(e) => Err(JsonError { inner: e }),
    }
}

/// Deserialize a record from JSON bytes.
pub fn from_slice(data: &[u8]) -> (r: Result<Record, JsonError>)
    ensures
        forall|m: Map<Seq<char>, int>|
            representable(m) && data@ == encode_utf8(#[trigger] json_text(m)) ==> r is Ok
                && r->Ok_0@ == m,
        forall|m: Map<Seq<char>, int>|
            representable(m) && data@ == encode_utf8(#[trigger] json_text_pretty(m)) ==> r is Ok
                && r->Ok_0@ == m,
{
    match from_slice_raw(data) {
        Ok(v) => Ok(v),
        Err(e) => Err(JsonError { inner: e }),
    }
}

/// Pretty-print serialize a record as JSON into a byte writer.
pub fn to_writer_pretty(writer: &mut Vec<u8>, value: &Record) -> (r: Result<(), JsonError>)
    ensures
        r is Ok,
        final(writer)@ == old(writer)@ + encode_utf8(json_text_pretty(value@)),
{
    match to_writer_pretty_raw(writer, value) {
        Ok(u) => Ok(u),
        Err(e) => Err(JsonError { inner: e }),
    }
}

/// Serialize a record as JSON into a byte writer.
pub fn to_writer(writer: &mut Vec<u8>, value: &Record) -> (r: Result<(), JsonError>)
    ensures
        r is Ok,
        final(writer)@ == old(writer)@ + encode_utf8(json_text(value@)),
{
    match to_writer_raw(writer, value) {
        Ok(u) => Ok(u),
        Err(e) => Err(JsonError { inner: e }),
    }
}

/// Deserialize a record from a JSON byte-slice stream.
pub fn from_reader(data: &[u8]) -> (r: Result<Record, JsonError>)
    ensures
        forall|m: Map<Seq<char>, int>|
            representable(m) && data@ == encode_utf8(#[trigger] json_text(m)) ==> r is Ok
                && r->Ok_0@ == m,
        forall|m: Map<Seq<char>, int>|
            representable(m) && data@ == encode_utf8(#[trigger] json_text_pretty(m)) ==> r is Ok
                && r->Ok_0@ == m,
{
    match from_reader_raw(data) {
        Ok(v) => Ok(v),
        Err(e) => Err(JsonError { inner: e }),
    }
}

impl SerdeBytes for Json {
    open spec fn tag(&self) -> Format {
        Format::Json
    }

    fn to_vec_pretty(&self, value: &Record) -> (r: Result<Vec<u8>, FormatError>) {
        match to_vec_pretty(value) {
            Ok(b) => Ok(b),
            Err(e) => Err(FormatError::Json(e)),
        }
    }

    fn to_vec(&self, value: &Record) -> (r: Result<Vec<u8>, FormatError>) {
        match to_vec(value) {
            Ok(b) => Ok(b),
            Err(e) => Err(FormatError::Json(e)),
        }
    }

    fn from_slice(&self, data: &[u8]) -> (r: Result<Record, FormatError>) {
        match from_slice(data) {
            Ok(v) => Ok(v),
            Err(e) => Err(FormatError::Json(e)),
        }
    }
}

impl SerdeText for Json {
    fn to_string_pretty(&self, value: &Record) -> (r: Result<String, FormatError>) {
        match to_string_pretty(value) {
            Ok(s) => Ok(s),
            Err(e) => Err(FormatError::Json(e)),
        }
    }

    fn to_string(&self, value: &Record) -> (r: Result<String, FormatError>) {
        match to_string(value) {
            Ok(s) => Ok(s),
            Err(e) => Err(FormatError::Json(e)),
        }
    }

    fn from_str(&self, data: &str) -> (r: Result<Record, FormatError>) {
        match from_str(data) {
            Ok(v) => Ok(v),
            Err(e) => Err(FormatError::Json(e)),
        }
    }
}

impl SerdeStream for Json {
    fn to_writer_pretty(&self, writer: &mut Vec<u8>, value: &Record) -> (r: Result<
        (),
        FormatError,
    >) {
        match to_writer_pretty(writer, value) {
            Ok(u) => Ok(u),
            Err(e) => Err(FormatError::Json(e)),
        }
    }

    fn to_writer(&self, writer: &mut Vec<u8>, value: &Record) -> (r: Result<(), FormatError>) {
        match to_writer(writer, value) {
            Ok(u) => Ok(u),
            Err(e) => Err(FormatError::Json(e)),
        }
    }

    fn from_reader(&self, data: &[u8]) -> (r: Result<Record, FormatError>) {
        match from_reader(data) {
            Ok(v) => Ok(v),
            Err(e) => Err(FormatError::Json(e)),
        }
    }
}

} // verus!
