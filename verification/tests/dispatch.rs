//! The two dispatch paths over the same contracts: compile-time generics
//! over the capability traits, and the runtime `Format` tag; plus the
//! concrete scenarios for the JSON tag and a bytes-only tag.

use serde_multi::formats::bincode_codec::Bincode;
use serde_multi::formats::cbor::Cbor;
use serde_multi::formats::json::Json;
use serde_multi::formats::messagepack::MessagePack;
use serde_multi::formats::ron_codec::Ron;
use serde_multi::formats::toml_codec::Toml;
use serde_multi::formats::xml::Xml;
use serde_multi::{Feature, Format, FormatError, Record, SerdeBytes, SerdeStream, SerdeText};

fn sample() -> Record {
    let mut r = Record::new();
    r.insert("foo".to_owned(), -193);
    r.insert("bar".to_owned(), 3058);
    r
}

fn generic_text_round_trip<T: SerdeText>(codec: &T, v: &Record) -> Record {
    let s = codec.to_string(v).expect("encoding failed");
    codec.from_str(&s).expect("decoding failed")
}

fn generic_bytes_round_trip<T: SerdeBytes>(codec: &T, v: &Record) -> Record {
    let b = codec.to_vec(v).expect("encoding failed");
    codec.from_slice(&b).expect("decoding failed")
}

fn generic_stream_round_trip<T: SerdeStream>(codec: &T, v: &Record) -> Record {
    let mut w: Vec<u8> = Vec::new();
    codec.to_writer(&mut w, v).expect("encoding failed");
    codec.from_reader(&w).expect("decoding failed")
}

#[test]
fn json_tag_scenario() {
    let v = sample();
    let text = serde_multi::multi::to_string(Format::Json, &v).expect("encoding failed");
    assert!(text.contains("foo"));
    assert!(text.contains("-193"));
    let back = serde_multi::multi::from_str(Format::Json, &text).expect("decoding failed");
    assert_eq!(back, v);
}

#[test]
fn bytes_only_tag_refuses_text_scenario() {
    let v = sample();
    match serde_multi::multi::to_string(Format::MessagePack, &v) {
        Err(FormatError::Unsupported(u)) => {
            assert_eq!(u.feature, Feature::Text);
            assert_eq!(u.format, Format::MessagePack);
        },
        Err(_) => panic!("expected the unsupported-feature error"),
        Ok(s) => panic!("expected an error, not the string {:?}", s),
    }
}

#[test]
fn generic_text_path_marker_and_tag_agree() {
    let v = sample();
    assert_eq!(generic_text_round_trip(&Json, &v), v);
    assert_eq!(generic_text_round_trip(&Format::Json, &v), v);
    assert_eq!(generic_text_round_trip(&Ron, &v), v);
    assert_eq!(generic_text_round_trip(&Format::Ron, &v), v);
    assert_eq!(generic_text_round_trip(&Toml, &v), v);
    assert_eq!(generic_text_round_trip(&Format::Toml, &v), v);
}

#[test]
fn generic_bytes_path_marker_and_tag_agree() {
    let v = sample();
    assert_eq!(generic_bytes_round_trip(&Bincode, &v), v);
    assert_eq!(generic_bytes_round_trip(&Format::Bincode, &v), v);
    assert_eq!(generic_bytes_round_trip(&Cbor, &v), v);
    assert_eq!(generic_bytes_round_trip(&Format::Cbor, &v), v);
    assert_eq!(generic_bytes_round_trip(&MessagePack, &v), v);
    assert_eq!(generic_bytes_round_trip(&Format::MessagePack, &v), v);
}

#[test]
fn generic_stream_path_marker_and_tag_agree() {
    let v = sample();
    assert_eq!(generic_stream_round_trip(&Json, &v), v);
    assert_eq!(generic_stream_round_trip(&Format::Json, &v), v);
    assert_eq!(generic_stream_round_trip(&Toml, &v), v);
    assert_eq!(generic_stream_round_trip(&Format::Toml, &v), v);
}

#[test]
fn marker_without_pretty_reports_the_gap() {
    let v = sample();
    match Bincode.to_vec_pretty(&v) {
        Err(FormatError::Unsupported(u)) => {
            assert_eq!(u.format, Format::Bincode);
            assert_eq!(u.feature, Feature::Pretty);
        },
        _ => panic!("expected the unsupported-feature error"),
    }
    match Xml.to_string_pretty(&v) {
        Err(FormatError::Unsupported(u)) => {
            assert_eq!(u.format, Format::Xml);
            assert_eq!(u.feature, Feature::Pretty);
        },
        _ => panic!("expected the unsupported-feature error"),
    }
}

#[test]
fn format_from_marker_is_the_tag() {
    assert_eq!(Format::from(Bincode), Format::Bincode);
    assert_eq!(Format::from(Cbor), Format::Cbor);
    assert_eq!(Format::from(Json), Format::Json);
    assert_eq!(Format::from(MessagePack), Format::MessagePack);
    assert_eq!(Format::from(Ron), Format::Ron);
    assert_eq!(Format::from(Toml), Format::Toml);
    assert_eq!(Format::from(Xml), Format::Xml);
}

#[test]
fn static_codec_modules_round_trip() {
    let v = sample();
    let s = serde_multi::formats::json::to_string(&v).expect("encoding failed");
    let back = serde_multi::formats::json::from_str(&s).expect("decoding failed");
    assert_eq!(back, v);
    let b = serde_multi::formats::cbor::to_vec(&v).expect("encoding failed");
    let back = serde_multi::formats::cbor::from_slice(&b).expect("decoding failed");
    assert_eq!(back, v);
}

#[test]
fn xml_text_capability_writes_the_entries() {
    let v = sample();
    let s = serde_multi::multi::to_string(Format::Xml, &v).expect("encoding failed");
    assert!(s.contains("<foo>-193</foo>"));
    assert!(s.contains("<bar>3058</bar>"));
}

#[test]
fn xml_bytes_are_the_utf8_text() {
    let v = sample();
    let s = serde_multi::multi::to_string(Format::Xml, &v).expect("encoding failed");
    let b = serde_multi::multi::to_vec(Format::Xml, &v).expect("encoding failed");
    assert_eq!(b, s.into_bytes());
}

#[test]
fn xml_decode_stays_inside_the_taxonomy() {
    // serde-xml-rs writes a top-level mapping without a root element, so
    // decoding its own output is not promised to recover the mapping; what
    // is promised is a record or an Xml-tagged error, never another tag.
    let v = sample();
    let s = serde_multi::multi::to_string(Format::Xml, &v).expect("encoding failed");
    match serde_multi::multi::from_str(Format::Xml, &s) {
        Ok(back) => assert!(back != v),
        Err(FormatError::Xml(e)) => assert!(!e.message().is_empty()),
        Err(_) => panic!("an XML failure must be tagged Xml"),
    }
}
