//! RON (Rusty Object Notation) serialization/deserialization, via the `ron`
//! crate.
//!
//! RON offers every capability of this crate: text, bytes, streams, and
//! pretty-printing; the pretty form uses a fixed configuration with
//! two-space indentation. The byte encoding is the UTF-8 encoding of the
//! text encoding, as `ron` builds its strings from the very bytes it
//! writes. The library reports serialization failures through one error
//! type and deserialization failures through another, position-carrying
//! one; both are unified into the one [`RonError`], which keeps them
//! distinguishable.

use vstd::prelude::*;
use vstd::string::StrSliceExecFns;
use vstd::utf8::encode_utf8;

use std::collections::BTreeMap;

use crate::multi::{Format, FormatError};
use crate::record::{representable, Record};
use crate::traits::{SerdeBytes, SerdeStream, SerdeText};

verus! {

/// The statically-chosen RON codec.
#[derive(Copy, Clone, Debug, Default)]
pub struct Ron;

/// Declares `ron::error::Error` to the verifier; the type stays opaque.
#[verifier::external_type_specification]
#[verifier::external_body]
pub struct ExRonError(ron::error::Error);

/// Declares `ron::error::SpannedError` to the verifier; the type stays opaque.
#[verifier::external_type_specification]
#[verifier::external_body]
pub struct ExRonSpannedError(ron::error::SpannedError);

/// A failure reported by the `ron` library, wrapped losslessly; the
/// library's two error channels stay distinguishable.
#[derive(Debug)]
pub enum RonError {
    /// A failure while serializing.
    Ser(ron::error::Error),
    /// A failure while deserializing, with the position it was found at.
    De(ron::error::SpannedError),
}

/// The RON text that `ron` writes for a mapping: a function of the mapping
/// alone, since the entries are serialized from a `BTreeMap`, which orders
/// keys canonically.
pub uninterp spec fn ron_text(m: Map<Seq<char>, int>) -> Seq<char>;

/// The RON text that `ron` writes for a mapping under this crate's fixed
/// pretty-printing configuration, which indents with two spaces.
pub uninterp spec fn ron_text_pretty(m: Map<Seq<char>, int>) -> Seq<char>;

/// Relies on `ron::ser::to_string`: its output is a function of the
/// serialized mapping, and for a string-keyed map of integers it cannot
/// fail — no extension header is written under the default options, every
/// key and value shape in play escapes, and the buffer sink is infallible.
#[verifier::external_body]
fn to_string_raw(value: &Record) -> (r: Result<String, ron::error::Error>)
    ensures
        r is Ok,
        r->Ok_0@ == ron_text(value@),
{
    let map: BTreeMap<String, i64> = value.entries.iter().cloned().collect();
    ron::ser::to_string(&map)
}

/// Relies on `ron::ser::to_string_pretty`, called with the fixed two-space
/// indentation configuration: its output is a function of the serialized
/// mapping, and it cannot fail, as `ron::ser::to_string` cannot.
#[verifier::external_body]
fn to_string_pretty_raw(value: &Record) -> (r: Result<String, ron::error::Error>)
    ensures
        r is Ok,
        r->Ok_0@ == ron_text_pretty(value@),
{
    let map: BTreeMap<String, i64> = value.entries.iter().cloned().collect();
    let config = ron::ser::PrettyConfig::new().indentor("  ".to_owned());
    ron::ser::to_string_pretty(&map, config)
}

/// Relies on `ron::de::from_str`: parsing the RON text of a mapping (plain
/// or pretty-printed) yields exactly that mapping back.
#[verifier::external_body]
fn from_str_raw(data: &str) -> (r: Result<Record, ron::error::SpannedError>)
    ensures
        forall|m: Map<Seq<char>, int>|
            representable(m) && data@ == #[trigger] ron_text(m) ==> r is Ok && r->Ok_0@ == m,
        forall|m: Map<Seq<char>, int>|
            representable(m) && data@ == #[trigger] ron_text_pretty(m) ==> r is Ok && r->Ok_0@
                == m,
{
    ron::de::from_str::<BTreeMap<String, i64>>(data).map(
        |m| Record { entries: m.into_iter().collect() },
    )
}

/// Relies on `ron::de::from_bytes`: parsing the UTF-8 bytes of the RON text
/// of a mapping (plain or pretty-printed) yields exactly that mapping back.
#[verifier::external_body]
fn from_slice_raw(data: &[u8]) -> (r: Result<Record, ron::error::SpannedError>)
    ensures
        forall|m: Map<Seq<char>, int>|
            representable(m) && data@ == encode_utf8(#[trigger] ron_text(m)) ==> r is Ok
                && r->Ok_0@ == m,
        forall|m: Map<Seq<char>, int>|
            representable(m) && data@ == encode_utf8(#[trigger] ron_text_pretty(m)) ==> r is Ok
                && r->Ok_0@ == m,
{
    ron::de::from_bytes::<BTreeMap<String, i64>>(data).map(
        |m| Record { entries: m.into_iter().collect() },
    )
}

/// Relies on `ron::ser::to_writer`: it appends to the writer exactly the
/// UTF-8 bytes of the text that `ron::ser::to_string` returns, both running
/// the same serializer; for this payload into a vector it cannot fail.
#[verifier::external_body]
fn to_writer_raw(writer: &mut Vec<u8>, value: &Record) -> (r: Result<(), ron::error::Error>)
    ensures
        r is Ok,
        final(writer)@ == old(writer)@ + encode_utf8(ron_text(value@)),
{
    let map: BTreeMap<String, i64> = value.entries.iter().cloned().collect();
    ron::ser::to_writer(&mut *writer, &map)
}

/// Relies on `ron::ser::to_writer_pretty`, as on `ron::ser::to_writer`,
/// with the fixed two-space indentation configuration.
#[verifier::external_body]
fn to_writer_pretty_raw(writer: &mut Vec<u8>, value: &Record) -> (r: Result<
    (),
    ron::error::Error,
>)
    ensures
        r is Ok,
        final(writer)@ == old(writer)@ + encode_utf8(ron_text_pretty(value@)),
{
    let map: BTreeMap<String, i64> = value.entries.iter().cloned().collect();
    let config = ron::ser::PrettyConfig::new().indentor("  ".to_owned());
    ron::ser::to_writer_pretty(&mut *writer, &map, config)
}

/// Relies on `ron::de::from_reader`: it reads the stream to its end and
/// parses the bytes as `ron::de::from_bytes` does.
#[verifier::external_body]
fn from_reader_raw(data: &[u8]) -> (r: Result<Record, ron::error::SpannedError>)
    ensures
        forall|m: Map<Seq<char>, int>|
            representable(m) && data@ == encode_utf8(#[trigger] ron_text(m)) ==> r is Ok
                && r->Ok_0@ == m,
        forall|m: Map<Seq<char>, int>|
            representable(m) && data@ == encode_utf8(#[trigger] ron_text_pretty(m)) ==> r is Ok
                && r->Ok_0@ == m,
{
    ron::de::from_reader::<&[u8], BTreeMap<String, i64>>(data).map(
        |m| Record { entries: m.into_iter().collect() },
    )
}

/// Relies on the `Display` of `ron::error::Error` for the text.
#[verifier::external_body]
fn ser_message_raw(inner: &ron::error::Error) -> String {
    format!("{}", inner)
}

/// Relies on the `Display` of `ron::error::SpannedError` for the text.
#[verifier::external_body]
fn de_message_raw(inner: &ron::error::SpannedError) -> String {
    format!("{}", inner)
}

impl RonError {
    /// The diagnostic message of the wrapped library error, verbatim.
    pub fn message(&self) -> String {
        match self {
            RonError::Ser(inner) => ser_message_raw(inner),
            RonError::De(inner) => de_message_raw(inner),
        }
    }
}

/// Pretty-print serialize a record to a RON `String`.
pub fn to_string_pretty(value: &Record) -> (r: Result<String, RonError>)
    ensures
        r is Ok,
        r->Ok_0@ == ron_text_pretty(value@),
{
    match to_string_pretty_raw(value) {
        Ok(s) => Ok(s),
        Err(e) => Err(RonError::Ser(e)),
    }
}

/// Serialize a record to a RON `String`.
pub fn to_string(value: &Record) -> (r: Result<String, RonError>)
    ensures
        r is Ok,
        r->Ok_0@ == ron_text(value@),
{
    match to_string_raw(value) {
        Ok(s) => Ok(s),
        Err(e) => Err(RonError::Ser(e)),
    }
}

/// Deserialize a record from a RON `str`.
pub fn from_str(data: &str) -> (r: Result<Record, RonError>)
    ensures
        r is Err ==> r->Err_0 is De,
        forall|m: Map<Seq<char>, int>|
            representable(m) && data@ == #[trigger] ron_text(m) ==> r is Ok && r->Ok_0@ == m,
        forall|m: Map<Seq<char>, int>|
            representable(m) && data@ == #[trigger] ron_text_pretty(m) ==> r is Ok && r->Ok_0@
                == m,
{
    match from_str_raw(data) {
        Ok(v) => Ok(v),
        Err(e) => Err(RonError::De(e)),
    }
}

/// Pretty-print serialize a record to a RON byte vector.
pub fn to_vec_pretty(value: &Record) -> (r: Result<Vec<u8>, RonError>)
    ensures
        r is Ok,
        r->Ok_0@ == encode_utf8(ron_text_pretty(value@)),
{
    match to_string_pretty(value) {
        Ok(s) => Ok(s.as_str().as_bytes_vec()),
        Err(e) => Err(e),
    }
}

/// Serialize a record to a RON byte vector.
pub fn to_vec(value: &Record) -> (r: Result<Vec<u8>, RonError>)
    ensures
        r is Ok,
        r->Ok_0@ == encode_utf8(ron_text(value@)),
{
    match to_string(value) {
        Ok(s) => Ok(s.as_str().as_bytes_vec()),
        Err(e) => Err(e),
    }
}

/// Deserialize a record from RON bytes.
pub fn from_slice(data: &[u8]) -> (r: Result<Record, RonError>)
    ensures
        r is Err ==> r->Err_0 is De,
        forall|m: Map<Seq<char>, int>|
            representable(m) && data@ == encode_utf8(#[trigger] ron_text(m)) ==> r is Ok
                && r->Ok_0@ == m,
        forall|m: Map<Seq<char>, int>|
            representable(m) && data@ == encode_utf8(#[trigger] ron_text_pretty(m)) ==> r is Ok
                && r->Ok_0@ == m,
{
    match from_slice_raw(data) {
        Ok(v) => Ok(v),
        Err(e) => Err(RonError::De(e)),
    }
}

/// Pretty-print serialize a record as RON into a byte writer.
pub fn to_writer_pretty(writer: &mut Vec<u8>, value: &Record) -> (r: Result<(), RonError>)
    ensures
        r is Ok,
        final(writer)@ == old(writer)@ + encode_utf8(ron_text_pretty(value@)),
{
    match to_writer_pretty_raw(writer, value) {
        Ok(u) => Ok(u),
        Err(e) => Err(RonError::Ser(e)),
    }
}

/// Serialize a record as RON into a byte writer.
pub fn to_writer(writer: &mut Vec<u8>, value: &Record) -> (r: Result<(), RonError>)
    ensures
        r is Ok,
        final(writer)@ == old(writer)@ + encode_utf8(ron_text(value@)),
{
    match to_writer_raw(writer, value) {
        Ok(u) => Ok(u),
        Err(e) => Err(RonError::Ser(e)),
    }
}

/// Deserialize a record from a RON byte-slice stream.
pub fn from_reader(data: &[u8]) -> (r: Result<Record, RonError>)
    ensures
        r is Err ==> r->Err_0 is De,
        forall|m: Map<Seq<char>, int>|
            representable(m) && data@ == encode_utf8(#[trigger] ron_text(m)) ==> r is Ok
                && r->Ok_0@ == m,
        forall|m: Map<Seq<char>, int>|
            representable(m) && data@ == encode_utf8(#[trigger] ron_text_pretty(m)) ==> r is Ok
                && r->Ok_0@ == m,
{
    match from_reader_raw(data) {
        Ok(v) => Ok(v),
        Err(e) => Err(RonError::De(e)),
    }
}

impl SerdeBytes for Ron {
    open spec fn tag(&self) -> Format {
        Format::Ron
    }

    fn to_vec_pretty(&self, value: &Record) -> (r: Result<Vec<u8>, FormatError>) {
        match to_vec_pretty(value) {
            Ok(b) => Ok(b),
            Err(e) => Err(FormatError::Ron(e)),
        }
    }

    fn to_vec(&self, value: &Record) -> (r: Result<Vec<u8>, FormatError>) {
        match to_vec(value) {
            Ok(b) => Ok(b),
            Err(e) => Err(FormatError::Ron(e)),
        }
    }

    fn from_slice(&self, data: &[u8]) -> (r: Result<Record, FormatError>) {
        match from_slice(data) {
            Ok(v) => Ok(v),
            Err(e) => Err(FormatError::Ron(e)),
        }
    }
}

impl SerdeText for Ron {
    fn to_string_pretty(&self, value: &Record) -> (r: Result<String, FormatError>) {
        match to_string_pretty(value) {
            Ok(s) => Ok(s),
            Err(e) => Err(FormatError::Ron(e)),
        }
    }

    fn to_string(&self, value: &Record) -> (r: Result<String, FormatError>) {
        match to_string(value) {
            Ok(s) => Ok(s),
            Err(e) => Err(FormatError::Ron(e)),
        }
    }

    fn from_str(&self, data: &str) -> (r: Result<Record, FormatError>) {
        match from_str(data) {
            Ok(v) => Ok(v),
            Err(e) => Err(FormatError::Ron(e)),
        }
    }
}

impl SerdeStream for Ron {
    fn to_writer_pretty(&self, writer: &mut Vec<u8>, value: &Record) -> (r: Result<
        (),
        FormatError,
    >) {
        match to_writer_pretty(writer, value) {
            Ok(u) => Ok(u),
            Err(e) => Err(FormatError::Ron(e)),
        }
    }

    fn to_writer(&self, writer: &mut Vec<u8>, value: &Record) -> (r: Result<(), FormatError>) {
        match to_writer(writer, value) {
            Ok(u) => Ok(u),
            Err(e) => Err(FormatError::Ron(e)),
        }
    }

    fn from_reader(&self, data: &[u8]) -> (r: Result<Record, FormatError>) {
        match from_reader(data) {
            Ok(v) => Ok(v),
            Err(e) => Err(FormatError::Ron(e)),
        }
    }
}

} // verus!
