//! Round trips: for every codec and capability it supports, decoding what
//! was encoded yields the mapping back.

use serde_multi::multi::{from_reader, from_slice, from_str, to_string, to_vec, to_writer};
use serde_multi::{Format, Record};

fn sample() -> Record {
    let mut r = Record::new();
    r.insert("foo".to_owned(), -193);
    r.insert("bar".to_owned(), 3058);
    r.insert("empty".to_owned(), 0);
    r
}

fn assert_bytes_round_trip(format: Format) {
    let v = sample();
    let bytes = to_vec(format, &v).expect("encoding failed");
    let back = from_slice(format, &bytes).expect("decoding failed");
    assert_eq!(back, v);
}

fn assert_stream_round_trip(format: Format) {
    let v = sample();
    let mut writer: Vec<u8> = Vec::new();
    to_writer(format, &mut writer, &v).expect("stream encoding failed");
    let back = from_reader(format, &writer).expect("stream decoding failed");
    assert_eq!(back, v);
}

#[test]
fn bytes_round_trip_bincode() {
    assert_bytes_round_trip(Format::Bincode);
}

#[test]
fn bytes_round_trip_cbor() {
    assert_bytes_round_trip(Format::Cbor);
}

#[test]
fn bytes_round_trip_json() {
    assert_bytes_round_trip(Format::Json);
}

#[test]
fn bytes_round_trip_messagepack() {
    assert_bytes_round_trip(Format::MessagePack);
}

#[test]
fn bytes_round_trip_ron() {
    assert_bytes_round_trip(Format::Ron);
}

#[test]
fn bytes_round_trip_toml() {
    assert_bytes_round_trip(Format::Toml);
}

#[test]
fn stream_round_trip_bincode() {
    assert_stream_round_trip(Format::Bincode);
}

#[test]
fn stream_round_trip_cbor() {
    assert_stream_round_trip(Format::Cbor);
}

#[test]
fn stream_round_trip_json() {
    assert_stream_round_trip(Format::Json);
}

#[test]
fn stream_round_trip_messagepack() {
    assert_stream_round_trip(Format::MessagePack);
}

#[test]
fn stream_round_trip_ron() {
    assert_stream_round_trip(Format::Ron);
}

#[test]
fn stream_round_trip_toml() {
    assert_stream_round_trip(Format::Toml);
}

#[test]
fn text_round_trip_json() {
    let v = sample();
    let s = to_string(Format::Json, &v).expect("encoding failed");
    assert_eq!(from_str(Format::Json, &s).expect("decoding failed"), v);
}

#[test]
fn text_round_trip_ron() {
    let v = sample();
    let s = to_string(Format::Ron, &v).expect("encoding failed");
    assert_eq!(from_str(Format::Ron, &s).expect("decoding failed"), v);
}

#[test]
fn text_round_trip_toml() {
    let v = sample();
    let s = to_string(Format::Toml, &v).expect("encoding failed");
    assert_eq!(from_str(Format::Toml, &s).expect("decoding failed"), v);
}

#[test]
fn stream_write_appends_after_existing_bytes() {
    let v = sample();
    let mut writer: Vec<u8> = vec![0xAA, 0xBB];
    to_writer(Format::Cbor, &mut writer, &v).expect("stream encoding failed");
    assert_eq!(&writer[..2], &[0xAA, 0xBB]);
    let back = from_reader(Format::Cbor, &writer[2..]).expect("decoding failed");
    assert_eq!(back, v);
}

#[test]
fn empty_record_round_trips() {
    let v = Record::new();
    for format in [
        Format::Bincode,
        Format::Cbor,
        Format::Json,
        Format::MessagePack,
        Format::Ron,
        Format::Toml,
    ] {
        let bytes = to_vec(format, &v).expect("encoding failed");
        let back = from_slice(format, &bytes).expect("decoding failed");
        assert_eq!(back, v);
    }
}
