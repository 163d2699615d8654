//! Runtime selection of the data format.
//!
//! [`Format`] is a closed tagged union with one payload-free tag per enabled
//! codec. Each operation matches the active tag, forwards to that codec's
//! adapter, and wraps its failure into the [`FormatError`] case tagged with
//! the codec that produced it; an operation the active codec does not offer
//! yields [`FormatError::Unsupported`], naming the tag and the missing
//! [`Feature`] — never a fallback and never a panic.
//!
//! Pretty-printing policy: a pretty operation on a codec without a pretty
//! form fails loud with `Unsupported`, rather than silently falling back to
//! the plain form.

use vstd::prelude::*;
use vstd::string::StringExecFns;
use vstd::utf8::encode_utf8;

use crate::formats::bincode_codec::{self, bincode_bytes, BincodeError};
use crate::formats::cbor::{self, cbor_bytes, CborError};
use crate::formats::json::{self, json_text, json_text_pretty, JsonError};
use crate::formats::messagepack::{self, messagepack_bytes, MessagePackError};
use crate::formats::ron_codec::{self, ron_text, ron_text_pretty, RonError};
use crate::formats::toml_codec::{self, toml_text, toml_text_pretty, TomlError};
use crate::formats::xml::{self, xml_parse, xml_text, XmlError};
use crate::record::{representable, Record};

verus! {

/// Dynamically picks which format data is serialized from or deserialized
/// into. Calling a capability that the selected format does not support
/// returns [`FormatError::Unsupported`].
#[derive(Copy, Clone, Debug, PartialEq, Eq, Structural)]
#[non_exhaustive]
pub enum Format {
    /// The compact binary `bincode` format.
    Bincode,
    /// The Concise Binary Object Representation.
    Cbor,
    /// JavaScript Object Notation.
    Json,
    /// The MessagePack binary format.
    MessagePack,
    /// Rusty Object Notation.
    Ron,
    /// Tom's Obvious Minimal Language.
    Toml,
    /// Extensible Markup Language.
    Xml,
}

/// One of the four capability groups an operation may ask of a codec.
#[derive(Copy, Clone, Debug, PartialEq, Eq, Structural)]
pub enum Feature {
    /// Serialization to and from text.
    Text,
    /// Serialization to and from bytes.
    Bytes,
    /// Serialization to and from byte streams.
    Stream,
    /// Pretty-printed serialization.
    Pretty,
}

/// Reports that a format was asked for a feature it does not implement.
#[derive(Copy, Clone, Debug, PartialEq, Eq, Structural)]
pub struct Unsupported {
    /// The format that was selected.
    pub format: Format,
    /// The feature it lacks.
    pub feature: Feature,
}

/// The unified failure of a [`Format`] operation: an error from exactly one
/// codec, tagged with the codec that produced it, or an [`Unsupported`]
/// capability gap.
#[derive(Debug)]
pub enum FormatError {
    /// A failure inside the Bincode codec.
    Bincode(BincodeError),
    /// A failure inside the CBOR codec.
    Cbor(CborError),
    /// A failure inside the JSON codec.
    Json(JsonError),
    /// A failure inside the MessagePack codec.
    MessagePack(MessagePackError),
    /// A failure inside the RON codec.
    Ron(RonError),
    /// A failure inside the TOML codec.
    Toml(TomlError),
    /// A failure inside the XML codec.
    Xml(XmlError),
    /// The selected format does not implement the requested feature.
    Unsupported(Unsupported),
}

impl Format {
    /// The formats with a text encoding.
    pub open spec fn supports_text(self) -> bool {
        self is Json || self is Ron || self is Toml || self is Xml
    }

    /// The formats with a pretty-printed encoding.
    pub open spec fn supports_pretty(self) -> bool {
        self is Json || self is Ron || self is Toml
    }

    /// The formats whose decoder is known to invert their encoder on every
    /// representable mapping. XML is the one exception: its library writes
    /// a top-level mapping without the root element its reader expects
    /// back, so nothing of the kind is assumed of it.
    pub open spec fn round_trips(self) -> bool {
        !(self is Xml)
    }

    /// The fixed human-readable label of each tag.
    pub open spec fn name_spec(self) -> Seq<char> {
        match self {
            Format::Bincode => "Bincode"@,
            Format::Cbor => "CBOR"@,
            Format::Json => "JSON"@,
            Format::MessagePack => "MessagePack"@,
            Format::Ron => "RON"@,
            Format::Toml => "TOML"@,
            Format::Xml => "XML"@,
        }
    }

    /// Gets the name of the format currently being used.
    pub fn name(&self) -> (r: &'static str)
        ensures
            r@ == self.name_spec(),
    {
        match self {
            Format::Bincode => "Bincode",
            Format::Cbor => "CBOR",
            Format::Json => "JSON",
            Format::MessagePack => "MessagePack",
            Format::Ron => "RON",
            Format::Toml => "TOML",
            Format::Xml => "XML",
        }
    }
}

impl Feature {
    /// The fixed human-readable description of each feature.
    pub open spec fn describe_spec(self) -> Seq<char> {
        match self {
            Feature::Text => "text serialization/deserialization"@,
            Feature::Bytes => "binary serialization/deserialization"@,
            Feature::Stream => "stream serialization/deserialization"@,
            Feature::Pretty => "pretty-print serialization"@,
        }
    }

    /// Describes the feature for diagnostics.
    pub fn describe(&self) -> (r: &'static str)
        ensures
            r@ == self.describe_spec(),
    {
        match self {
            Feature::Text => "text serialization/deserialization",
            Feature::Bytes => "binary serialization/deserialization",
            Feature::Stream => "stream serialization/deserialization",
            Feature::Pretty => "pretty-print serialization",
        }
    }
}

impl Unsupported {
    /// The sentence naming the format and the feature it lacks.
    pub open spec fn message_spec(self) -> Seq<char> {
        self.format.name_spec() + " does not support "@ + self.feature.describe_spec()
    }

    /// Renders the sentence naming the format and the missing feature.
    pub fn message(&self) -> (r: String)
        ensures
            r@ == self.message_spec(),
    {
        let mut s = String::new();
        s.append(self.format.name());
        s.append(" does not support ");
        s.append(self.feature.describe());
        s
    }
}

/// The error that reports `format` lacking `feature`.
pub open spec fn unsupported_err(format: Format, feature: Feature) -> FormatError {
    FormatError::Unsupported(Unsupported { format, feature })
}

/// Builds the error that reports `format` lacking `feature`.
pub fn unsupported(format: Format, feature: Feature) -> (r: FormatError)
    ensures
        r == unsupported_err(format, feature),
{
    FormatError::Unsupported(Unsupported { format, feature })
}

impl FormatError {
    /// Whether this is a codec failure tagged with `f` — never `Unsupported`
    /// and never a tag of another codec.
    pub open spec fn is_codec_error_from(self, f: Format) -> bool {
        match self {
            FormatError::Bincode(_) => f is Bincode,
            FormatError::Cbor(_) => f is Cbor,
            FormatError::Json(_) => f is Json,
            FormatError::MessagePack(_) => f is MessagePack,
            FormatError::Ron(_) => f is Ron,
            FormatError::Toml(_) => f is Toml,
            FormatError::Xml(_) => f is Xml,
            FormatError::Unsupported(_) => false,
        }
    }

    /// The diagnostic message: the wrapped library error's own text for a
    /// codec failure, or the sentence naming the format and missing feature.
    pub fn message(&self) -> (r: String)
        ensures
            self matches FormatError::Unsupported(u) ==> r@ == u.message_spec(),
    {
        match self {
            FormatError::Bincode(e) => e.message(),
            FormatError::Cbor(e) => e.message(),
            FormatError::Json(e) => e.message(),
            FormatError::MessagePack(e) => e.message(),
            FormatError::Ron(e) => e.message(),
            FormatError::Toml(e) => e.message(),
            FormatError::Xml(e) => e.message(),
            FormatError::Unsupported(u) => u.message(),
        }
    }
}

/// The text that `format` writes for the mapping `m`.
pub open spec fn text_encoding(f: Format, m: Map<Seq<char>, int>) -> Seq<char> {
    match f {
        Format::Json => json_text(m),
        Format::Ron => ron_text(m),
        Format::Toml => toml_text(m),
        Format::Xml => xml_text(m),
        _ => Seq::empty(),
    }
}

/// The pretty-printed text that `format` writes for the mapping `m`.
pub open spec fn pretty_text_encoding(f: Format, m: Map<Seq<char>, int>) -> Seq<char> {
    match f {
        Format::Json => json_text_pretty(m),
        Format::Ron => ron_text_pretty(m),
        Format::Toml => toml_text_pretty(m),
        _ => Seq::empty(),
    }
}

/// The bytes that `format` writes for the mapping `m`; for a text format
/// they are the UTF-8 encoding of its text.
pub open spec fn bytes_encoding(f: Format, m: Map<Seq<char>, int>) -> Seq<u8> {
    match f {
        Format::Bincode => bincode_bytes(m),
        Format::Cbor => cbor_bytes(m),
        Format::Json => encode_utf8(json_text(m)),
        Format::MessagePack => messagepack_bytes(m),
        Format::Ron => encode_utf8(ron_text(m)),
        Format::Toml => encode_utf8(toml_text(m)),
        Format::Xml => encode_utf8(xml_text(m)),
    }
}

/// The pretty-printed bytes that `format` writes for the mapping `m`.
pub open spec fn pretty_bytes_encoding(f: Format, m: Map<Seq<char>, int>) -> Seq<u8> {
    match f {
        Format::Json => encode_utf8(json_text_pretty(m)),
        Format::Ron => encode_utf8(ron_text_pretty(m)),
        Format::Toml => encode_utf8(toml_text_pretty(m)),
        _ => Seq::empty(),
    }
}

/// What serializing to pretty-printed text returns: the pretty text of the
/// mapping — serializing a mapping of strings to integers cannot fail — or
/// `Unsupported` exactly when the format has no pretty form.
pub open spec fn text_pretty_encode_post(
    f: Format,
    m: Map<Seq<char>, int>,
    r: Result<String, FormatError>,
) -> bool {
    &&& (f.supports_pretty() ==> r is Ok && r->Ok_0@ == pretty_text_encoding(f, m))
    &&& (!f.supports_pretty() ==> r == Err::<String, FormatError>(
        unsupported_err(f, Feature::Pretty),
    ))
}

/// What serializing to text returns: the text of the mapping — serializing
/// a mapping of strings to integers cannot fail — or `Unsupported` exactly
/// when the format has no text form.
pub open spec fn text_encode_post(
    f: Format,
    m: Map<Seq<char>, int>,
    r: Result<String, FormatError>,
) -> bool {
    &&& (f.supports_text() ==> r is Ok && r->Ok_0@ == text_encoding(f, m))
    &&& (!f.supports_text() ==> r == Err::<String, FormatError>(unsupported_err(f, Feature::Text)))
}

/// What deserializing from text returns: `Unsupported` exactly when the
/// format has no text form, else a record or a codec failure tagged with
/// the selected format; on the text that the format itself writes for a
/// representable mapping — plain or pretty — the decode succeeds and yields
/// that mapping back, for every format whose decoder inverts its encoder;
/// an XML decode agrees with the library's own parse, under its name.
pub open spec fn text_decode_post(
    f: Format,
    data: Seq<char>,
    r: Result<Record, FormatError>,
) -> bool {
    &&& (!f.supports_text() ==> r == Err::<Record, FormatError>(unsupported_err(f, Feature::Text)))
    &&& (f.supports_text() && r is Err ==> r->Err_0.is_codec_error_from(f))
    &&& (forall|m: Map<Seq<char>, int>|
        f.round_trips() && f.supports_text() && representable(m) && data == #[trigger] text_encoding(
            f,
            m,
        ) ==> r is Ok && r->Ok_0@ == m)
    &&& (forall|m: Map<Seq<char>, int>|
        f.round_trips() && f.supports_pretty() && representable(m) && data
            == #[trigger] pretty_text_encoding(f, m) ==> r is Ok && r->Ok_0@ == m)
    &&& (f is Xml ==> match r {
        Ok(v) => xml_parse(encode_utf8(data)) == Some(v@),
        Err(_) => xml_parse(encode_utf8(data)) is None,
    })
}

/// What serializing to pretty-printed bytes returns, as for pretty text.
pub open spec fn bytes_pretty_encode_post(
    f: Format,
    m: Map<Seq<char>, int>,
    r: Result<Vec<u8>, FormatError>,
) -> bool {
    &&& (f.supports_pretty() ==> r is Ok && r->Ok_0@ == pretty_bytes_encoding(f, m))
    &&& (!f.supports_pretty() ==> r == Err::<Vec<u8>, FormatError>(
        unsupported_err(f, Feature::Pretty),
    ))
}

/// What serializing to bytes returns: every format has a byte form, and
/// serializing a mapping of strings to integers cannot fail, so the result
/// is exactly the format's bytes for the mapping.
pub open spec fn bytes_encode_post(
    f: Format,
    m: Map<Seq<char>, int>,
    r: Result<Vec<u8>, FormatError>,
) -> bool {
    &&& r is Ok
    &&& r->Ok_0@ == bytes_encoding(f, m)
}

/// What deserializing from bytes returns: a record or a codec failure
/// tagged with the selected format; on the bytes that the format itself
/// writes for a representable mapping — plain or pretty — the decode
/// succeeds and yields that mapping back, for every format whose decoder
/// inverts its encoder.
pub open spec fn bytes_decode_post(
    f: Format,
    data: Seq<u8>,
    r: Result<Record, FormatError>,
) -> bool {
    &&& (r is Err ==> r->Err_0.is_codec_error_from(f))
    &&& (forall|m: Map<Seq<char>, int>|
        f.round_trips() && representable(m) && data == #[trigger] bytes_encoding(f, m) ==> r is Ok
            && r->Ok_0@ == m)
    &&& (forall|m: Map<Seq<char>, int>|
        f.round_trips() && f.supports_pretty() && representable(m) && data
            == #[trigger] pretty_bytes_encoding(f, m) ==> r is Ok && r->Ok_0@ == m)
    &&& (f is Xml ==> match r {
        Ok(v) => xml_parse(data) == Some(v@),
        Err(_) => xml_parse(data) is None,
    })
}

/// What pretty-print serializing into a byte writer does, as for pretty
/// bytes: on success exactly the pretty bytes are appended.
pub open spec fn stream_pretty_encode_post(
    f: Format,
    m: Map<Seq<char>, int>,
    pre: Seq<u8>,
    post: Seq<u8>,
    r: Result<(), FormatError>,
) -> bool {
    &&& (f.supports_pretty() ==> r is Ok && post == pre + pretty_bytes_encoding(f, m))
    &&& (!f.supports_pretty() ==> r == Err::<(), FormatError>(unsupported_err(f, Feature::Pretty))
        && post == pre)
}

/// What serializing into a byte writer does: it cannot fail for a mapping
/// of strings to integers, and exactly the format's bytes for the mapping
/// are appended.
pub open spec fn stream_encode_post(
    f: Format,
    m: Map<Seq<char>, int>,
    pre: Seq<u8>,
    post: Seq<u8>,
    r: Result<(), FormatError>,
) -> bool {
    &&& r is Ok
    &&& post == pre + bytes_encoding(f, m)
}

/// Pretty-print serialize a record to a `String` in the selected format.
pub fn to_string_pretty(format: Format, value: &Record) -> (r: Result<String, FormatError>)
    ensures
        text_pretty_encode_post(format, value@, r),
{
    match format {
        Format::Json => match json::to_string_pretty(value) {
            Ok(s) => Ok(s),
            Err(e) => Err(FormatError::Json(e)),
        },
        Format::Ron => match ron_codec::to_string_pretty(value) {
            Ok(s) => Ok(s),
            Err(e) => Err(FormatError::Ron(e)),
        },
        Format::Toml => match toml_codec::to_string_pretty(value) {
            Ok(s) => Ok(s),
            Err(e) => Err(FormatError::Toml(e)),
        },
        _ => Err(unsupported(format, Feature::Pretty)),
    }
}

/// Serialize a record to a `String` in the selected format.
pub fn to_string(format: Format, value: &Record) -> (r: Result<String, FormatError>)
    ensures
        text_encode_post(format, value@, r),
{
    match format {
        Format::Json => match json::to_string(value) {
            Ok(s) => Ok(s),
            Err(e) => Err(FormatError::Json(e)),
        },
        Format::Ron => match ron_codec::to_string(value) {
            Ok(s) => Ok(s),
            Err(e) => Err(FormatError::Ron(e)),
        },
        Format::Toml => match toml_codec::to_string(value) {
            Ok(s) => Ok(s),
            Err(e) => Err(FormatError::Toml(e)),
        },
        Format::Xml => match xml::to_string(value) {
            Ok(s) => Ok(s),
            Err(e) => Err(FormatError::Xml(e)),
        },
        _ => Err(unsupported(format, Feature::Text)),
    }
}

/// Deserialize a record from a `str` in the selected format.
pub fn from_str(format: Format, data: &str) -> (r: Result<Record, FormatError>)
    ensures
        text_decode_post(format, data@, r),
{
    match format {
        Format::Json => match json::from_str(data) {
            Ok(v) => Ok(v),
            Err(e) => Err(FormatError::Json(e)),
        },
        Format::Ron => match ron_codec::from_str(data) {
            Ok(v) => Ok(v),
            Err(e) => Err(FormatError::Ron(e)),
        },
        Format::Toml => match toml_codec::from_str(data) {
            Ok(v) => Ok(v),
            Err(e) => Err(FormatError::Toml(e)),
        },
        Format::Xml => match xml::from_str(data) {
            Ok(v) => Ok(v),
            Err(e) => Err(FormatError::Xml(e)),
        },
        _ => Err(unsupported(format, Feature::Text)),
    }
}

/// Pretty-print serialize a record to a byte vector in the selected format.
pub fn to_vec_pretty(format: Format, value: &Record) -> (r: Result<Vec<u8>, FormatError>)
    ensures
        bytes_pretty_encode_post(format, value@, r),
{
    match format {
        Format::Json => match json::to_vec_pretty(value) {
            Ok(b) => Ok(b),
            Err(e) => Err(FormatError::Json(e)),
        },
        Format::Ron => match ron_codec::to_vec_pretty(value) {
            Ok(b) => Ok(b),
            Err(e) => Err(FormatError::Ron(e)),
        },
        Format::Toml => match toml_codec::to_vec_pretty(value) {
            Ok(b) => Ok(b),
            Err(e) => Err(FormatError::Toml(e)),
        },
        _ => Err(unsupported(format, Feature::Pretty)),
    }
}

/// Serialize a record to a byte vector in the selected format.
pub fn to_vec(format: Format, value: &Record) -> (r: Result<Vec<u8>, FormatError>)
    ensures
        bytes_encode_post(format, value@, r),
{
    match format {
        Format::Bincode => match bincode_codec::to_vec(value) {
            Ok(b) => Ok(b),
            Err(e) => Err(FormatError::Bincode(e)),
        },
        Format::Cbor => match cbor::to_vec(value) {
            Ok(b) => Ok(b),
            Err(e) => Err(FormatError::Cbor(e)),
        },
        Format::Json => match json::to_vec(value) {
            Ok(b) => Ok(b),
            Err(e) => Err(FormatError::Json(e)),
        },
        Format::MessagePack => match messagepack::to_vec(value) {
            Ok(b) => Ok(b),
            Err(e) => Err(FormatError::MessagePack(e)),
        },
        Format::Ron => match ron_codec::to_vec(value) {
            Ok(b) => Ok(b),
            Err(e) => Err(FormatError::Ron(e)),
        },
        Format::Toml => match toml_codec::to_vec(value) {
            Ok(b) => Ok(b),
            Err(e) => Err(FormatError::Toml(e)),
        },
        Format::Xml => match xml::to_vec(value) {
            Ok(b) => Ok(b),
            Err(e) => Err(FormatError::Xml(e)),
        },
    }
}

/// Deserialize a record from bytes in the selected format.
pub fn from_slice(format: Format, data: &[u8]) -> (r: Result<Record, FormatError>)
    ensures
        bytes_decode_post(format, data@, r),
{
    match format {
        Format::Bincode => match bincode_codec::from_slice(data) {
            Ok(v) => Ok(v),
            Err(e) => Err(FormatError::Bincode(e)),
        },
        Format::Cbor => match cbor::from_slice(data) {
            Ok(v) => Ok(v),
            Err(e) => Err(FormatError::Cbor(e)),
        },
        Format::Json => match json::from_slice(data) {
            Ok(v) => Ok(v),
            Err(e) => Err(FormatError::Json(e)),
        },
        Format::MessagePack => match messagepack::from_slice(data) {
            Ok(v) => Ok(v),
            Err(e) => Err(FormatError::MessagePack(e)),
        },
        Format::Ron => match ron_codec::from_slice(data) {
            Ok(v) => Ok(v),
            Err(e) => Err(FormatError::Ron(e)),
        },
        Format::Toml => match toml_codec::from_slice(data) {
            Ok(v) => Ok(v),
            Err(e) => Err(FormatError::Toml(e)),
        },
        Format::Xml => match xml::from_slice(data) {
            Ok(v) => Ok(v),
            Err(e) => Err(FormatError::Xml(e)),
        },
    }
}

/// Pretty-print serialize a record into a byte writer in the selected
/// format.
pub fn to_writer_pretty(format: Format, writer: &mut Vec<u8>, value: &Record) -> (r: Result<
    (),
    FormatError,
>)
    ensures
        stream_pretty_encode_post(format, value@, old(writer)@, final(writer)@, r),
{
    match format {
        Format::Json => match json::to_writer_pretty(writer, value) {
            Ok(u) => Ok(u),
            Err(e) => Err(FormatError::Json(e)),
        },
        Format::Ron => match ron_codec::to_writer_pretty(writer, value) {
            Ok(u) => Ok(u),
            Err(e) => Err(FormatError::Ron(e)),
        },
        Format::Toml => match toml_codec::to_writer_pretty(writer, value) {
            Ok(u) => Ok(u),
            Err(e) => Err(FormatError::Toml(e)),
        },
        _ => Err(unsupported(format, Feature::Pretty)),
    }
}

/// Serialize a record into a byte writer in the selected format.
pub fn to_writer(format: Format, writer: &mut Vec<u8>, value: &Record) -> (r: Result<
    (),
    FormatError,
>)
    ensures
        stream_encode_post(format, value@, old(writer)@, final(writer)@, r),
{
    match format {
        Format::Bincode => match bincode_codec::to_writer(writer, value) {
            Ok(u) => Ok(u),
            Err(e) => Err(FormatError::Bincode(e)),
        },
        Format::Cbor => match cbor::to_writer(writer, value) {
            Ok(u) => Ok(u),
            Err(e) => Err(FormatError::Cbor(e)),
        },
        Format::Json => match json::to_writer(writer, value) {
            Ok(u) => Ok(u),
            Err(e) => Err(FormatError::Json(e)),
        },
        Format::MessagePack => match messagepack::to_writer(writer, value) {
            Ok(u) => Ok(u),
            Err(e) => Err(FormatError::MessagePack(e)),
        },
        Format::Ron => match ron_codec::to_writer(writer, value) {
            Ok(u) => Ok(u),
            Err(e) => Err(FormatError::Ron(e)),
        },
        Format::Toml => match toml_codec::to_writer(writer, value) {
            Ok(u) => Ok(u),
            Err(e) => Err(FormatError::Toml(e)),
        },
        Format::Xml => match xml::to_writer(writer, value) {
            Ok(u) => Ok(u),
            Err(e) => Err(FormatError::Xml(e)),
        },
    }
}

/// Deserialize a record from a byte-slice stream in the selected format.
pub fn from_reader(format: Format, data: &[u8]) -> (r: Result<Record, FormatError>)
    ensures
        bytes_decode_post(format, data@, r),
{
    match format {
        Format::Bincode => match bincode_codec::from_reader(data) {
            Ok(v) => Ok(v),
            Err(e) => Err(FormatError::Bincode(e)),
        },
        Format::Cbor => match cbor::from_reader(data) {
            Ok(v) => Ok(v),
            Err(e) => Err(FormatError::Cbor(e)),
        },
        Format::Json => match json::from_reader(data) {
            Ok(v) => Ok(v),
            Err(e) => Err(FormatError::Json(e)),
        },
        Format::MessagePack => match messagepack::from_reader(data) {
            Ok(v) => Ok(v),
            Err(e) => Err(FormatError::MessagePack(e)),
        },
        Format::Ron => match ron_codec::from_reader(data) {
            Ok(v) => Ok(v),
            Err(e) => Err(FormatError::Ron(e)),
        },
        Format::Toml => match toml_codec::from_reader(data) {
            Ok(v) => Ok(v),
            Err(e) => Err(FormatError::Toml(e)),
        },
        Format::Xml => match xml::from_reader(data) {
            Ok(v) => Ok(v),
            Err(e) => Err(FormatError::Xml(e)),
        },
    }
}

impl crate::traits::SerdeBytes for Format {
    open spec fn tag(&self) -> Format {
        *self
    }

    fn to_vec_pretty(&self, value: &Record) -> (r: Result<Vec<u8>, FormatError>) {
        to_vec_pretty(*self, value)
    }

    fn to_vec(&self, value: &Record) -> (r: Result<Vec<u8>, FormatError>) {
        to_vec(*self, value)
    }

    fn from_slice(&self, data: &[u8]) -> (r: Result<Record, FormatError>) {
        from_slice(*self, data)
    }
}

impl crate::traits::SerdeText for Format {
    fn to_string_pretty(&self, value: &Record) -> (r: Result<String, FormatError>) {
        to_string_pretty(*self, value)
    }

    fn to_string(&self, value: &Record) -> (r: Result<String, FormatError>) {
        to_string(*self, value)
    }

    fn from_str(&self, data: &str) -> (r: Result<Record, FormatError>) {
        from_str(*self, data)
    }
}

impl crate::traits::SerdeStream for Format {
    fn to_writer_pretty(&self, writer: &mut Vec<u8>, value: &Record) -> (r: Result<
        (),
        FormatError,
    >) {
        to_writer_pretty(*self, writer, value)
    }

    fn to_writer(&self, writer: &mut Vec<u8>, value: &Record) -> (r: Result<(), FormatError>) {
        to_writer(*self, writer, value)
    }

    fn from_reader(&self, data: &[u8]) -> (r: Result<Record, FormatError>) {
        from_reader(*self, data)
    }
}

impl From<crate::formats::bincode_codec::Bincode> for Format {
    /// The lossless, infallible conversion from the statically-chosen codec
    /// to its tag.
    fn from(codec: crate::formats::bincode_codec::Bincode) -> (r: Format) {
        Format::Bincode
    }
}

impl vstd::std_specs::convert::FromSpecImpl<crate::formats::bincode_codec::Bincode> for Format {
    open spec fn obeys_from_spec() -> bool {
        true
    }

    open spec fn from_spec(codec: crate::formats::bincode_codec::Bincode) -> Format {
        Format::Bincode
    }
}

impl From<crate::formats::cbor::Cbor> for Format {
    /// The lossless, infallible conversion from the statically-chosen codec
    /// to its tag.
    fn from(codec: crate::formats::cbor::Cbor) -> (r: Format) {
        Format::Cbor
    }
}

impl vstd::std_specs::convert::FromSpecImpl<crate::formats::cbor::Cbor> for Format {
    open spec fn obeys_from_spec() -> bool {
        true
    }

    open spec fn from_spec(codec: crate::formats::cbor::Cbor) -> Format {
        Format::Cbor
    }
}

impl From<crate::formats::json::Json> for Format {
    /// The lossless, infallible conversion from the statically-chosen codec
    /// to its tag.
    fn from(codec: crate::formats::json::Json) -> (r: Format) {
        Format::Json
    }
}

impl vstd::std_specs::convert::FromSpecImpl<crate::formats::json::Json> for Format {
    open spec fn obeys_from_spec() -> bool {
        true
    }

    open spec fn from_spec(codec: crate::formats::json::Json) -> Format {
        Format::Json
    }
}

impl From<crate::formats::messagepack::MessagePack> for Format {
    /// The lossless, infallible conversion from the statically-chosen codec
    /// to its tag.
    fn from(codec: crate::formats::messagepack::MessagePack) -> (r: Format) {
        Format::MessagePack
    }
}

impl vstd::std_specs::convert::FromSpecImpl<crate::formats::messagepack::MessagePack> for Format {
    open spec fn obeys_from_spec() -> bool {
        true
    }

    open spec fn from_spec(codec: crate::formats::messagepack::MessagePack) -> Format {
        Format::MessagePack
    }
}

impl From<crate::formats::ron_codec::Ron> for Format {
    /// The lossless, infallible conversion from the statically-chosen codec
    /// to its tag.
    fn from(codec: crate::formats::ron_codec::Ron) -> (r: Format) {
        Format::Ron
    }
}

impl vstd::std_specs::convert::FromSpecImpl<crate::formats::ron_codec::Ron> for Format {
    open spec fn obeys_from_spec() -> bool {
        true
    }

    open spec fn from_spec(codec: crate::formats::ron_codec::Ron) -> Format {
        Format::Ron
    }
}

impl From<crate::formats::toml_codec::Toml> for Format {
    /// The lossless, infallible conversion from the statically-chosen codec
    /// to its tag.
    fn from(codec: crate::formats::toml_codec::Toml) -> (r: Format) {
        Format::Toml
    }
}

impl vstd::std_specs::convert::FromSpecImpl<crate::formats::toml_codec::Toml> for Format {
    open spec fn obeys_from_spec() -> bool {
        true
    }

    open spec fn from_spec(codec: crate::formats::toml_codec::Toml) -> Format {
        Format::Toml
    }
}

impl From<crate::formats::xml::Xml> for Format {
    /// The lossless, infallible conversion from the statically-chosen codec
    /// to its tag.
    fn from(codec: crate::formats::xml::Xml) -> (r: Format) {
        Format::Xml
    }
}

impl vstd::std_specs::convert::FromSpecImpl<crate::formats::xml::Xml> for Format {
    open spec fn obeys_from_spec() -> bool {
        true
    }

    open spec fn from_spec(codec: crate::formats::xml::Xml) -> Format {
        Format::Xml
    }
}

} // verus!
