use remotro::net::frame::{decode, encode};
use remotro::net::Error;

#[test]
fn encode_writes_kind_separator_body_newline() {
    assert_eq!(encode("play/click", "{\"indices\":[0,1]}"), "play/click!{\"indices\":[0,1]}\n");
}

#[test]
fn decode_round_trips_encode() {
    let line = encode("shop/info", "{\"main\":[]}");
    let f = decode(&line).unwrap();
    assert_eq!(f.kind, "shop/info");
    assert_eq!(f.body, "{\"main\":[]}");
}

#[test]
fn decode_splits_at_first_separator() {
    let f = decode("result/play/hand!{\"Err\":\"no!\"}\n").unwrap();
    assert_eq!(f.kind, "result/play/hand");
    assert_eq!(f.body, "{\"Err\":\"no!\"}");
}

#[test]
fn decode_accepts_line_without_newline_and_empty_body() {
    let f = decode("screen/get!").unwrap();
    assert_eq!(f.kind, "screen/get");
    assert_eq!(f.body, "");
}

#[test]
fn decode_rejects_line_without_separator() {
    assert!(matches!(decode("garbage\n"), Err(Error::MalformedFrame)));
    assert!(matches!(decode(""), Err(Error::MalformedFrame)));
}

#[test]
fn round_trip_keeps_non_ascii_body() {
    let line = encode("k", "é!ü");
    let f = decode(&line).unwrap();
    assert_eq!(f.kind, "k");
    assert_eq!(f.body, "é!ü");
}
