//! Pretty-printing: decoding the pretty form agrees with decoding the plain
//! form, and codecs without a pretty form fail loud.

use serde_multi::multi::{
    from_slice, from_str, to_string, to_string_pretty, to_vec_pretty, to_writer_pretty,
};
use serde_multi::{Feature, Format, FormatError, Record};

fn sample() -> Record {
    let mut r = Record::new();
    r.insert("foo".to_owned(), -193);
    r.insert("bar".to_owned(), 3058);
    r
}

fn assert_pretty_decode_agrees(format: Format) {
    let v = sample();
    let pretty = to_string_pretty(format, &v).expect("pretty encoding failed");
    let plain = to_string(format, &v).expect("encoding failed");
    let from_pretty = from_str(format, &pretty).expect("decoding pretty failed");
    let from_plain = from_str(format, &plain).expect("decoding plain failed");
    assert_eq!(from_pretty, from_plain);
    assert_eq!(from_pretty, v);
}

#[test]
fn pretty_decode_agrees_json() {
    assert_pretty_decode_agrees(Format::Json);
}

#[test]
fn pretty_decode_agrees_ron() {
    assert_pretty_decode_agrees(Format::Ron);
}

#[test]
fn pretty_decode_agrees_toml() {
    assert_pretty_decode_agrees(Format::Toml);
}

#[test]
fn pretty_bytes_decode_json() {
    let v = sample();
    let bytes = to_vec_pretty(Format::Json, &v).expect("pretty encoding failed");
    assert_eq!(from_slice(Format::Json, &bytes).expect("decoding failed"), v);
}

#[test]
fn pretty_bytes_decode_ron() {
    let v = sample();
    let bytes = to_vec_pretty(Format::Ron, &v).expect("pretty encoding failed");
    assert_eq!(from_slice(Format::Ron, &bytes).expect("decoding failed"), v);
}

#[test]
fn pretty_bytes_decode_toml() {
    let v = sample();
    let bytes = to_vec_pretty(Format::Toml, &v).expect("pretty encoding failed");
    assert_eq!(from_slice(Format::Toml, &bytes).expect("decoding failed"), v);
}

#[test]
fn ron_pretty_uses_two_space_indentation() {
    let v = sample();
    let pretty = to_string_pretty(Format::Ron, &v).expect("pretty encoding failed");
    assert!(pretty.contains('\n'));
    assert!(pretty.contains("\n  \""));
}

#[test]
fn pretty_unsupported_for_binary_codecs() {
    let v = sample();
    for format in [Format::Bincode, Format::Cbor, Format::MessagePack] {
        match to_string_pretty(format, &v) {
            Err(FormatError::Unsupported(u)) => {
                assert_eq!(u.format, format);
                assert_eq!(u.feature, Feature::Pretty);
            },
            _ => panic!("expected an unsupported-feature error"),
        }
        match to_vec_pretty(format, &v) {
            Err(FormatError::Unsupported(u)) => {
                assert_eq!(u.format, format);
                assert_eq!(u.feature, Feature::Pretty);
            },
            _ => panic!("expected an unsupported-feature error"),
        }
    }
}

#[test]
fn pretty_unsupported_for_xml() {
    let v = sample();
    match to_string_pretty(Format::Xml, &v) {
        Err(FormatError::Unsupported(u)) => {
            assert_eq!(u.format, Format::Xml);
            assert_eq!(u.feature, Feature::Pretty);
        },
        _ => panic!("expected an unsupported-feature error"),
    }
}

#[test]
fn pretty_unsupported_leaves_writer_untouched() {
    let v = sample();
    let mut writer: Vec<u8> = vec![1, 2, 3];
    let r = to_writer_pretty(Format::MessagePack, &mut writer, &v);
    assert!(matches!(r, Err(FormatError::Unsupported(_))));
    assert_eq!(writer, vec![1, 2, 3]);
}
