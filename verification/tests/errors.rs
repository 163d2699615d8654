//! The error taxonomy: unsupported capabilities name the format and
//! feature, codec failures carry the library's own diagnostic text, and
//! every failure is tagged with the codec that produced it.

use serde_multi::multi::{from_slice, from_str, to_string, to_vec};
use serde_multi::{Feature, Format, FormatError, Record, Unsupported};

fn sample() -> Record {
    let mut r = Record::new();
    r.insert("foo".to_owned(), -193);
    r.insert("bar".to_owned(), 3058);
    r
}

#[test]
fn text_capability_unsupported_on_bytes_only_formats() {
    let v = sample();
    for format in [Format::Bincode, Format::Cbor, Format::MessagePack] {
        match to_string(format, &v) {
            Err(FormatError::Unsupported(Unsupported { format: f, feature })) => {
                assert_eq!(f, format);
                assert_eq!(feature, Feature::Text);
            },
            Err(_) => panic!("expected the unsupported-feature error"),
            Ok(_) => panic!("expected an error, not a value"),
        }
        match from_str(format, "{}") {
            Err(FormatError::Unsupported(Unsupported { format: f, feature })) => {
                assert_eq!(f, format);
                assert_eq!(feature, Feature::Text);
            },
            Err(_) => panic!("expected the unsupported-feature error"),
            Ok(_) => panic!("expected an error, not a value"),
        }
    }
}

#[test]
fn unsupported_message_names_format_and_feature() {
    let v = sample();
    let err = to_string(Format::Bincode, &v).unwrap_err();
    let message = err.message();
    assert_eq!(
        message,
        "Bincode does not support text serialization/deserialization"
    );
}

#[test]
fn unsupported_is_a_value_not_a_panic_nor_a_default() {
    let v = sample();
    let r = to_string(Format::MessagePack, &v);
    assert!(r.is_err());
    let message = r.unwrap_err().message();
    assert!(!message.is_empty());
}

#[test]
fn decode_failure_is_tagged_with_the_active_codec() {
    let json_bytes = to_vec(Format::Json, &sample()).expect("encoding failed");
    match from_slice(Format::MessagePack, &json_bytes) {
        Err(FormatError::MessagePack(e)) => {
            assert!(!e.message().is_empty());
        },
        Err(_) => panic!("the error must be tagged with the decoding codec"),
        Ok(_) => panic!("JSON bytes must not decode as MessagePack"),
    }
}

#[test]
fn decode_failure_message_is_codec_specific() {
    match from_str(Format::Json, "{\"foo\": oops}") {
        Err(FormatError::Json(e)) => {
            let message = e.message();
            assert!(!message.is_empty());
            assert!(message.contains("line") || message.contains("column"));
        },
        Err(_) => panic!("the error must be tagged with the decoding codec"),
        Ok(_) => panic!("malformed JSON must not decode"),
    }
}

#[test]
fn ron_decode_failure_is_tagged_ron() {
    match from_str(Format::Ron, "{\"foo\": }") {
        Err(FormatError::Ron(e)) => {
            assert!(!e.message().is_empty());
        },
        Err(_) => panic!("the error must be tagged with the decoding codec"),
        Ok(_) => panic!("malformed RON must not decode"),
    }
}

#[test]
fn toml_decode_failure_is_tagged_toml() {
    match from_str(Format::Toml, "foo = ") {
        Err(FormatError::Toml(e)) => {
            assert!(!e.message().is_empty());
        },
        Err(_) => panic!("the error must be tagged with the decoding codec"),
        Ok(_) => panic!("malformed TOML must not decode"),
    }
}

#[test]
fn bincode_decode_failure_is_tagged_bincode() {
    match from_slice(Format::Bincode, &[0xFF]) {
        Err(FormatError::Bincode(e)) => {
            assert!(!e.message().is_empty());
        },
        Err(_) => panic!("the error must be tagged with the decoding codec"),
        Ok(_) => panic!("a truncated buffer must not decode"),
    }
}

#[test]
fn cbor_decode_failure_is_tagged_cbor() {
    match from_slice(Format::Cbor, &[0xFF, 0xFF]) {
        Err(FormatError::Cbor(e)) => {
            assert!(!e.message().is_empty());
        },
        Err(_) => panic!("the error must be tagged with the decoding codec"),
        Ok(_) => panic!("malformed CBOR must not decode"),
    }
}

#[test]
fn format_names_are_stable() {
    assert_eq!(Format::Bincode.name(), "Bincode");
    assert_eq!(Format::Cbor.name(), "CBOR");
    assert_eq!(Format::Json.name(), "JSON");
    assert_eq!(Format::MessagePack.name(), "MessagePack");
    assert_eq!(Format::Ron.name(), "RON");
    assert_eq!(Format::Toml.name(), "TOML");
    assert_eq!(Format::Xml.name(), "XML");
}

#[test]
fn feature_descriptions_are_stable() {
    assert_eq!(Feature::Text.describe(), "text serialization/deserialization");
    assert_eq!(Feature::Bytes.describe(), "binary serialization/deserialization");
    assert_eq!(Feature::Stream.describe(), "stream serialization/deserialization");
    assert_eq!(Feature::Pretty.describe(), "pretty-print serialization");
}
