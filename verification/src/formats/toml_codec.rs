//! TOML serialization/deserialization, via the `toml` crate.
//!
//! TOML offers the text, byte and pretty-printing capabilities. The `toml`
//! crate exposes no stream functions of its own, so the stream capability
//! here is built in verified code: writing appends the UTF-8 bytes of the
//! text encoding, and reading parses the whole stream as bytes. The library
//! reports serialization failures and deserialization failures through two
//! distinct error types; both are unified into the one [`TomlError`], which
//! keeps them distinguishable.

use vstd::prelude::*;
use vstd::string::StrSliceExecFns;
use vstd::utf8::encode_utf8;

use std::collections::BTreeMap;

use crate::multi::{Format, FormatError};
use crate::record::{representable, Record};
use crate::traits::{SerdeBytes, SerdeStream, SerdeText};

verus! {

/// The statically-chosen TOML codec.
#[derive(Copy, Clone, Debug, Default)]
pub struct Toml;

/// Declares `toml::ser::Error` to the verifier; the type stays opaque.
#[verifier::external_type_specification]
#[verifier::external_body]
pub struct ExTomlSerError(toml::ser::Error);

/// Declares `toml::de::Error` to the verifier; the type stays opaque.
#[verifier::external_type_specification]
#[verifier::external_body]
pub struct ExTomlDeError(toml::de::Error);

/// A failure reported by the `toml` library, wrapped losslessly; the
/// library's two error channels stay distinguishable.
#[derive(Debug)]
pub enum TomlError {
    /// A failure while serializing.
    Ser(toml::ser::Error),
    /// A failure while deserializing.
    De(toml::de::Error),
}

/// The TOML text that `toml` writes for a mapping: a function of the
/// mapping alone, since the entries are serialized from a `BTreeMap`, which
/// orders keys canonically.
pub uninterp spec fn toml_text(m: Map<Seq<char>, int>) -> Seq<char>;

/// The TOML text that `toml` writes for a mapping in its pretty layout.
pub uninterp spec fn toml_text_pretty(m: Map<Seq<char>, int>) -> Seq<char>;

/// Relies on `toml::to_string`: its output is a function of the serialized
/// mapping, and for a flat string-keyed map of integers it cannot fail —
/// every such key is emitted bare or quoted-and-escaped, every value is an
/// integer literal, and no nested table can put a value out of order.
#[verifier::external_body]
fn to_string_raw(value: &Record) -> (r: Result<String, toml::ser::Error>)
    ensures
        r is Ok,
        r->Ok_0@ == toml_text(value@),
{
    let map: BTreeMap<String, i64> = value.entries.iter().cloned().collect();
    toml::to_string(&map)
}

/// Relies on `toml::to_string_pretty`, as on `toml::to_string`.
#[verifier::external_body]
fn to_string_pretty_raw(value: &Record) -> (r: Result<String, toml::ser::Error>)
    ensures
        r is Ok,
        r->Ok_0@ == toml_text_pretty(value@),
{
    let map: BTreeMap<String, i64> = value.entries.iter().cloned().collect();
    toml::to_string_pretty(&map)
}

/// Relies on `toml::from_str`: parsing the TOML text of a mapping (plain or
/// pretty layout) yields exactly that mapping back.
#[verifier::external_body]
fn from_str_raw(data: &str) -> (r: Result<Record, toml::de::Error>)
    ensures
        forall|m: Map<Seq<char>, int>|
            representable(m) && data@ == #[trigger] toml_text(m) ==> r is Ok && r->Ok_0@ == m,
        forall|m: Map<Seq<char>, int>|
            representable(m) && data@ == #[trigger] toml_text_pretty(m) ==> r is Ok && r->Ok_0@
                == m,
{
    toml::from_str::<BTreeMap<String, i64>>(data).map(
        |m| Record { entries: m.into_iter().collect() },
    )
}

/// Relies on `toml::from_slice`: it decodes the bytes as UTF-8 and parses
/// the text as `toml::from_str` does.
#[verifier::external_body]
fn from_slice_raw(data: &[u8]) -> (r: Result<Record, toml::de::Error>)
    ensures
        forall|m: Map<Seq<char>, int>|
            representable(m) && data@ == encode_utf8(#[trigger] toml_text(m)) ==> r is Ok
                && r->Ok_0@ == m,
        forall|m: Map<Seq<char>, int>|
            representable(m) && data@ == encode_utf8(#[trigger] toml_text_pretty(m)) ==> r is Ok
                && r->Ok_0@ == m,
{
    toml::from_slice::<BTreeMap<String, i64>>(data).map(
        |m| Record { entries: m.into_iter().collect() },
    )
}

/// Relies on `toml::to_vec`: it returns the bytes of the text that
/// `toml::to_string` returns, which is how its source builds it; it cannot
/// fail where `toml::to_string` cannot.
#[verifier::external_body]
fn to_vec_raw(value: &Record) -> (r: Result<Vec<u8>, toml::ser::Error>)
    ensures
        r is Ok,
        r->Ok_0@ == encode_utf8(toml_text(value@)),
{
    let map: BTreeMap<String, i64> = value.entries.iter().cloned().collect();
    toml::to_vec(&map)
}

/// Relies on the `Display` of `toml::ser::Error` for the text.
#[verifier::external_body]
fn ser_message_raw(inner: &toml::ser::Error) -> String {
    format!("{}", inner)
}

/// Relies on the `Display` of `toml::de::Error` for the text.
#[verifier::external_body]
fn de_message_raw(inner: &toml::de::Error) -> String {
    format!("{}", inner)
}

impl TomlError {
    /// The diagnostic message of the wrapped library error, verbatim.
    pub fn message(&self) -> String {
        match self {
            TomlError::Ser(inner) => ser_message_raw(inner),
            TomlError::De(inner) => de_message_raw(inner),
        }
    }
}

/// Pretty-print serialize a record to a TOML `String`.
pub fn to_string_pretty(value: &Record) -> (r: Result<String, TomlError>)
    ensures
        r is Ok,
        r->Ok_0@ == toml_text_pretty(value@),
{
    match to_string_pretty_raw(value) {
        Ok(s) => Ok(s),
        Err(e) => Err(TomlError::Ser(e)),
    }
}

/// Serialize a record to a TOML `String`.
pub fn to_string(value: &Record) -> (r: Result<String, TomlError>)
    ensures
        r is Ok,
        r->Ok_0@ == toml_text(value@),
{
    match to_string_raw(value) {
        Ok(s) => Ok(s),
        Err(e) => Err(TomlError::Ser(e)),
    }
}

/// Deserialize a record from a TOML `str`.
pub fn from_str(data: &str) -> (r: Result<Record, TomlError>)
    ensures
        r is Err ==> r->Err_0 is De,
        forall|m: Map<Seq<char>, int>|
            representable(m) && data@ == #[trigger] toml_text(m) ==> r is Ok && r->Ok_0@ == m,
        forall|m: Map<Seq<char>, int>|
            representable(m) && data@ == #[trigger] toml_text_pretty(m) ==> r is Ok && r->Ok_0@
                == m,
{
    match from_str_raw(data) {
        Ok(v) => Ok(v),
        Err(e) => Err(TomlError::De(e)),
    }
}

/// Pretty-print serialize a record to a TOML byte vector.
pub fn to_vec_pretty(value: &Record) -> (r: Result<Vec<u8>, TomlError>)
    ensures
        r is Ok,
        r->Ok_0@ == encode_utf8(toml_text_pretty(value@)),
{
    match to_string_pretty(value) {
        Ok(s) => Ok(s.as_str().as_bytes_vec()),
        Err(e) => Err(e),
    }
}

/// Serialize a record to a TOML byte vector.
pub fn to_vec(value: &Record) -> (r: Result<Vec<u8>, TomlError>)
    ensures
        r is Ok,
        r->Ok_0@ == encode_utf8(toml_text(value@)),
{
    match to_vec_raw(value) {
        Ok(b) => Ok(b),
        Err(e) => Err(TomlError::Ser(e)),
    }
}

/// Deserialize a record from TOML bytes.
pub fn from_slice(data: &[u8]) -> (r: Result<Record, TomlError>)
    ensures
        r is Err ==> r->Err_0 is De,
        forall|m: Map<Seq<char>, int>|
            representable(m) && data@ == encode_utf8(#[trigger] toml_text(m)) ==> r is Ok
                && r->Ok_0@ == m,
        forall|m: Map<Seq<char>, int>|
            representable(m) && data@ == encode_utf8(#[trigger] toml_text_pretty(m)) ==> r is Ok
                && r->Ok_0@ == m,
{
    match from_slice_raw(data) {
        Ok(v) => Ok(v),
        Err(e) => Err(TomlError::De(e)),
    }
}

/// Pretty-print serialize a record as TOML into a byte writer.
pub fn to_writer_pretty(writer: &mut Vec<u8>, value: &Record) -> (r: Result<(), TomlError>)
    ensures
        r is Ok,
        final(writer)@ == old(writer)@ + encode_utf8(toml_text_pretty(value@)),
{
    match to_string_pretty(value) {
        Ok(s) => {
            let mut bytes = s.as_str().as_bytes_vec();
            writer.append(&mut bytes);
            Ok(())
        },
        Err(e) => Err(e),
    }
}

/// Serialize a record as TOML into a byte writer.
pub fn to_writer(writer: &mut Vec<u8>, value: &Record) -> (r: Result<(), TomlError>)
    ensures
        r is Ok,
        final(writer)@ == old(writer)@ + encode_utf8(toml_text(value@)),
{
    match to_string(value) {
        Ok(s) => {
            let mut bytes = s.as_str().as_bytes_vec();
            writer.append(&mut bytes);
            Ok(())
        },
        Err(e) => Err(e),
    }
}

/// Deserialize a record from a TOML byte-slice stream: the whole stream is
/// the document.
pub fn from_reader(data: &[u8]) -> (r: Result<Record, TomlError>)
    ensures
        r is Err ==> r->Err_0 is De,
        forall|m: Map<Seq<char>, int>|
            representable(m) && data@ == encode_utf8(#[trigger] toml_text(m)) ==> r is Ok
                && r->Ok_0@ == m,
        forall|m: Map<Seq<char>, int>|
            representable(m) && data@ == encode_utf8(#[trigger] toml_text_pretty(m)) ==> r is Ok
                && r->Ok_0@ == m,
{
    from_slice(data)
}

impl SerdeBytes for Toml {
    open spec fn tag(&self) -> Format {
        Format::Toml
    }

    fn to_vec_pretty(&self, value: &Record) -> (r: Result<Vec<u8>, FormatError>) {
        match to_vec_pretty(value) {
            Ok(b) => Ok(b),
            Err(e) => Err(FormatError::Toml(e)),
        }
    }

    fn to_vec(&self, value: &Record) -> (r: Result<Vec<u8>, FormatError>) {
        match to_vec(value) {
            Ok(b) => Ok(b),
            Err(e) => Err(FormatError::Toml(e)),
        }
    }

    fn from_slice(&self, data: &[u8]) -> (r: Result<Record, FormatError>) {
        match from_slice(data) {
            Ok(v) => Ok(v),
            Err(e) => Err(FormatError::Toml(e)),
        }
    }
}

impl SerdeText for Toml {
    fn to_string_pretty(&self, value: &Record) -> (r: Result<String, FormatError>) {
        match to_string_pretty(value) {
            Ok(s) => Ok(s),
            Err(e) => Err(FormatError::Toml(e)),
        }
    }

    fn to_string(&self, value: &Record) -> (r: Result<String, FormatError>) {
        match to_string(value) {
            Ok(s) => Ok(s),
            Err(e) => Err(FormatError::Toml(e)),
        }
    }

    fn from_str(&self, data: &str) -> (r: Result<Record, FormatError>) {
        match from_str(data) {
            Ok(v) => Ok(v),
            Err(e) => Err(FormatError::Toml(e)),
        }
    }
}

impl SerdeStream for Toml {
    fn to_writer_pretty(&self, writer: &mut Vec<u8>, value: &Record) -> (r: Result<
        (),
        FormatError,
    >) {
        match to_writer_pretty(writer, value) {
            Ok(u) => Ok(u),
            Err(e) => Err(FormatError::Toml(e)),
        }
    }

    fn to_writer(&self, writer: &mut Vec<u8>, value: &Record) -> (r: Result<(), FormatError>) {
        match to_writer(writer, value) {
            Ok(u) => Ok(u),
            Err(e) => Err(FormatError::Toml(e)),
        }
    }

    fn from_reader(&self, data: &[u8]) -> (r: Result<Record, FormatError>) {
        match from_reader(data) {
            Ok(v) => Ok(v),
            Err(e) => Err(FormatError::Toml(e)),
        }
    }
}

} // verus!
