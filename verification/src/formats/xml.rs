//! XML serialization/deserialization, via the `serde-xml-rs` crate.
//!
//! XML offers the text, byte and stream capabilities, but no
//! pretty-printing. The byte encoding is the UTF-8 encoding of the text
//! encoding, built in verified code. Unlike the other text codecs, the
//! library gives no assurance that decoding its own output recovers the
//! mapping — an XML document needs a root element that a top-level mapping
//! does not carry — so no round trip is stated here: a decode is promised
//! only to agree with the library's own parse, under its name
//! [`xml_parse`].

use vstd::prelude::*;
use vstd::string::StrSliceExecFns;
use vstd::utf8::encode_utf8;

use std::collections::BTreeMap;

use crate::multi::{unsupported, Feature, Format, FormatError};
use crate::record::Record;
use crate::traits::{SerdeBytes, SerdeStream, SerdeText};

verus! {

/// The statically-chosen XML codec.
#[derive(Copy, Clone, Debug, Default)]
pub struct Xml;

/// Declares `serde_xml_rs::Error` to the verifier; the type stays opaque.
#[verifier::external_type_specification]
#[verifier::external_body]
pub struct ExXmlError(serde_xml_rs::Error);

/// A failure reported by the `serde-xml-rs` library, wrapped losslessly.
#[derive(Debug)]
pub struct XmlError {
    pub(crate) inner: serde_xml_rs::Error,
}

/// The XML text that `serde-xml-rs` writes for a mapping: a function of the
/// mapping alone, since the entries are serialized from a `BTreeMap`, which
/// orders keys canonically.
pub uninterp spec fn xml_text(m: Map<Seq<char>, int>) -> Seq<char>;

/// What `serde_xml_rs::from_reader` yields on a byte stream: `Some` with
/// the mapping it reads, or `None` where it reports an error — a function
/// of the bytes alone.
pub uninterp spec fn xml_parse(data: Seq<u8>) -> Option<Map<Seq<char>, int>>;

/// Relies on `serde_xml_rs::to_string`: its output is a function of the
/// serialized mapping, and for a string-keyed map of integers it cannot
/// fail — the event writer validates nothing of the names it is handed,
/// and the vector sink is infallible.
#[verifier::external_body]
fn to_string_raw(value: &Record) -> (r: Result<String, serde_xml_rs::Error>)
    ensures
        r is Ok,
        r->Ok_0@ == xml_text(value@),
{
    let map: BTreeMap<String, i64> = value.entries.iter().cloned().collect();
    serde_xml_rs::to_string(&map)
}

/// Relies on `serde_xml_rs::from_str`: its source delegates to
/// `serde_xml_rs::from_reader` over the string's UTF-8 bytes, so the
/// result is what [`xml_parse`] names on those bytes.
#[verifier::external_body]
fn from_str_raw(data: &str) -> (r: Result<Record, serde_xml_rs::Error>)
    ensures
        r is Ok ==> xml_parse(encode_utf8(data@)) == Some(r->Ok_0@),
        r is Err ==> xml_parse(encode_utf8(data@)) is None,
{
    serde_xml_rs::from_str::<BTreeMap<String, i64>>(data).map(
        |m| Record { entries: m.into_iter().collect() },
    )
}

/// Relies on `serde_xml_rs::from_reader`: its result depends on the bytes
/// alone, and is what [`xml_parse`] names on them.
#[verifier::external_body]
fn from_reader_raw(data: &[u8]) -> (r: Result<Record, serde_xml_rs::Error>)
    ensures
        r is Ok ==> xml_parse(data@) == Some(r->Ok_0@),
        r is Err ==> xml_parse(data@) is None,
{
    serde_xml_rs::from_reader::<&[u8], BTreeMap<String, i64>>(data).map(
        |m| Record { entries: m.into_iter().collect() },
    )
}

/// Relies on `serde_xml_rs::to_writer`: it writes to the writer exactly the
/// UTF-8 bytes of the text that `serde_xml_rs::to_string` returns, which is
/// how the latter's source builds its string; for this payload into a
/// vector it cannot fail.
#[verifier::external_body]
fn to_writer_raw(writer: &mut Vec<u8>, value: &Record) -> (r: Result<(), serde_xml_rs::Error>)
    ensures
        r is Ok,
        final(writer)@ == old(writer)@ + encode_utf8(xml_text(value@)),
{
    let map: BTreeMap<String, i64> = value.entries.iter().cloned().collect();
    serde_xml_rs::to_writer(&mut *writer, &map)
}

/// Relies on the `Display` of `serde_xml_rs::Error` for the text.
#[verifier::external_body]
fn message_raw(inner: &serde_xml_rs::Error) -> String {
    format!("{}", inner)
}

impl XmlError {
    /// The diagnostic message of the wrapped library error, verbatim.
    pub fn message(&self) -> String {
        message_raw(&self.inner)
    }
}

/// Serialize a record to an XML `String`.
pub fn to_string(value: &Record) -> (r: Result<String, XmlError>)
    ensures
        r is Ok,
        r->Ok_0@ == xml_text(value@),
{
    match to_string_raw(value) {
        Ok(s) => Ok(s),
        Err(e) => Err(XmlError { inner: e }),
    }
}

/// Deserialize a record from an XML `str`.
pub fn from_str(data: &str) -> (r: Result<Record, XmlError>)
    ensures
        r is Ok ==> xml_parse(encode_utf8(data@)) == Some(r->Ok_0@),
        r is Err ==> xml_parse(encode_utf8(data@)) is None,
{
    match from_str_raw(data) {
        Ok(v) => Ok(v),
        Err(e) => Err(XmlError { inner: e }),
    }
}

/// Serialize a record to an XML byte vector.
pub fn to_vec(value: &Record) -> (r: Result<Vec<u8>, XmlError>)
    ensures
        r is Ok,
        r->Ok_0@ == encode_utf8(xml_text(value@)),
{
    match to_string(value) {
        Ok(s) => Ok(s.as_str().as_bytes_vec()),
        Err(e) => Err(e),
    }
}

/// Deserialize a record from XML bytes.
pub fn from_slice(data: &[u8]) -> (r: Result<Record, XmlError>)
    ensures
        r is Ok ==> xml_parse(data@) == Some(r->Ok_0@),
        r is Err ==> xml_parse(data@) is None,
{
    match from_reader_raw(data) {
        Ok(v) => Ok(v),
        Err(e) => Err(XmlError { inner: e }),
    }
}

/// Serialize a record as XML into a byte writer.
pub fn to_writer(writer: &mut Vec<u8>, value: &Record) -> (r: Result<(), XmlError>)
    ensures
        r is Ok,
        final(writer)@ == old(writer)@ + encode_utf8(xml_text(value@)),
{
    match to_writer_raw(writer, value) {
        Ok(u) => Ok(u),
        Err(e) => Err(XmlError { inner: e }),
    }
}

/// Deserialize a record from an XML byte-slice stream.
pub fn from_reader(data: &[u8]) -> (r: Result<Record, XmlError>)
    ensures
        r is Ok ==> xml_parse(data@) == Some(r->Ok_0@),
        r is Err ==> xml_parse(data@) is None,
{
    match from_reader_raw(data) {
        Ok(v) => Ok(v),
        Err(e) => Err(XmlError { inner: e }),
    }
}

impl SerdeBytes for Xml {
    open spec fn tag(&self) -> Format {
        Format::Xml
    }

    fn to_vec_pretty(&self, value: &Record) -> (r: Result<Vec<u8>, FormatError>) {
        Err(unsupported(Format::Xml, Feature::Pretty))
    }

    fn to_vec(&self, value: &Record) -> (r: Result<Vec<u8>, FormatError>) {
        match to_vec(value) {
            Ok(b) => Ok(b),
            Err(e) => Err(FormatError::Xml(e)),
        }
    }

    fn from_slice(&self, data: &[u8]) -> (r: Result<Record, FormatError>) {
        match from_slice(data) {
            Ok(v) => Ok(v),
            Err(e) => Err(FormatError::Xml(e)),
        }
    }
}

impl SerdeText for Xml {
    fn to_string_pretty(&self, value: &Record) -> (r: Result<String, FormatError>) {
        Err(unsupported(Format::Xml, Feature::Pretty))
    }

    fn to_string(&self, value: &Record) -> (r: Result<String, FormatError>) {
        match to_string(value) {
            Ok(s) => Ok(s),
            Err(e) => Err(FormatError::Xml(e)),
        }
    }

    fn from_str(&self, data: &str) -> (r: Result<Record, FormatError>) {
        match from_str(data) {
            Ok(v) => Ok(v),
            Err(e) => Err(FormatError::Xml(e)),
        }
    }
}

impl SerdeStream for Xml {
    fn to_writer_pretty(&self, writer: &mut Vec<u8>, value: &Record) -> (r: Result<
        (),
        FormatError,
    >) {
        Err(unsupported(Format::Xml, Feature::Pretty))
    }

    fn to_writer(&self, writer: &mut Vec<u8>, value: &Record) -> (r: Result<(), FormatError>) {
        match to_writer(writer, value) {
            Ok(u) => Ok(u),
            Err(e) => Err(FormatError::Xml(e)),
        }
    }

    fn from_reader(&self, data: &[u8]) -> (r: Result<Record, FormatError>) {
        match from_slice(data) {
            Ok(v) => Ok(v),
            Err(e) => Err(FormatError::Xml(e)),
        }
    }
}

} // verus!
