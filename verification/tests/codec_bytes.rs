//! Exact codec output per format, and decode failures on malformed bytes.

use abserde::decode;
use abserde::encode;
use abserde::Error;
use abserde::Format;
use abserde::PrettyJsonIndent;
use abserde::Record;

fn two_entry_record() -> Record {
    let mut r = Record::new();
    r.set("a", 1);
    r.set("b", 2);
    r
}

#[test]
fn test_json_example_bytes() {
    let mut r = Record::new();
    r.set("x", 1);
    assert_eq!(encode(&r, &Format::Json), b"{\"x\":1}");
}

#[test]
fn test_json_bytes() {
    assert_eq!(encode(&two_entry_record(), &Format::Json), b"{\"a\":1,\"b\":2}");
}

#[test]
fn test_pretty_json_bytes() {
    let bytes = encode(&two_entry_record(), &Format::PrettyJson(PrettyJsonIndent::Tab));
    assert_eq!(bytes, b"{\n\t\"a\": 1,\n\t\"b\": 2\n}\n");
    let bytes = encode(
        &two_entry_record(),
        &Format::PrettyJson(PrettyJsonIndent::Spaces(2)),
    );
    assert_eq!(bytes, b"{\n  \"a\": 1,\n  \"b\": 2\n}\n");
}

#[test]
fn test_yaml_bytes() {
    assert_eq!(encode(&two_entry_record(), &Format::Yaml), b"a: 1\nb: 2\n");
}

#[test]
fn test_toml_bytes() {
    assert_eq!(encode(&two_entry_record(), &Format::Toml), b"a = 1\nb = 2\n");
}

#[test]
fn test_ini_bytes() {
    assert_eq!(encode(&two_entry_record(), &Format::Ini), b"a=1\r\nb=2\r\n");
}

#[test]
fn test_pickle_round_trip() {
    let r = two_entry_record();
    let bytes = encode(&r, &Format::Pickle);
    assert!(!bytes.is_empty());
    assert_eq!(decode(&bytes, &Format::Pickle).unwrap(), r);
}

#[test]
fn test_decode_rejects_malformed() {
    let cases: [(&[u8], Format); 6] = [
        (b"{\"a\":", Format::Json),
        (b"{\"a\":", Format::PrettyJson(PrettyJsonIndent::Tab)),
        (b"[not yaml", Format::Yaml),
        (b"x", Format::Pickle),
        (b"line without equals", Format::Ini),
        (b"= 1\n", Format::Toml),
    ];
    for (bytes, format) in cases {
        let out = decode(&bytes.to_vec(), &format);
        assert_eq!(out, Err(Error::DecodingFailure));
    }
}

#[test]
fn test_decode_rejects_wrong_shape() {
    let cases: [(&[u8], Format); 4] = [
        (b"[1,2]", Format::Json),
        (b"- 1\n- 2\n", Format::Yaml),
        (b"a = \"text\"\n", Format::Toml),
        (b"{\"a\":\"text\"}", Format::Json),
    ];
    for (bytes, format) in cases {
        let out = decode(&bytes.to_vec(), &format);
        assert_eq!(out, Err(Error::DecodingFailure));
    }
}

#[test]
fn test_cross_format_decode_differs() {
    let r = two_entry_record();
    let json = encode(&r, &Format::Json);
    let toml = encode(&r, &Format::Toml);
    assert_ne!(json, toml);
    assert_eq!(decode(&json, &Format::Json).unwrap(), r);
    assert_eq!(decode(&toml, &Format::Toml).unwrap(), r);
}
