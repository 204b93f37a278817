//! Codec dispatch: one encode/decode pair per storage format.
//!
//! The byte-level work is done by the serde-based codec crates; each call
//! stands behind a trusted wrapper. What a codec produces for given record
//! contents is named by an uninterpreted function (`json_bytes_of` and its
//! siblings), and the decode wrappers state the round trip over those names:
//! parsing a codec's own output yields the contents it was given.

use vstd::prelude::*;

use crate::error::Error;
use crate::format::Format;
use crate::record::Record;
use crate::record::record_entries;

verus! {

/// The bytes serde_json produces for these record contents.
pub uninterp spec fn json_bytes_of(m: Map<Seq<char>, i64>) -> Seq<u8>;

/// The bytes serde_json's pretty printer produces for these record contents,
/// indenting each level with `indent`.
pub uninterp spec fn pretty_json_bytes_of(m: Map<Seq<char>, i64>, indent: Seq<char>) -> Seq<u8>;

/// The bytes serde_yaml produces for these record contents.
pub uninterp spec fn yaml_bytes_of(m: Map<Seq<char>, i64>) -> Seq<u8>;

/// The bytes serde-pickle produces for these record contents.
pub uninterp spec fn pickle_bytes_of(m: Map<Seq<char>, i64>) -> Seq<u8>;

/// The bytes serde_ini produces for these record contents.
pub uninterp spec fn ini_bytes_of(m: Map<Seq<char>, i64>) -> Seq<u8>;

/// The bytes the toml crate produces for these record contents.
pub uninterp spec fn toml_bytes_of(m: Map<Seq<char>, i64>) -> Seq<u8>;

/// Whether every character of `ind` is JSON inter-token whitespace (spaces
/// and tabs), as every indentation produced by [`PrettyJsonIndent`] is.
pub open spec fn blank_indent(ind: Seq<char>) -> bool {
    forall|i: int| 0 <= i < ind.len() ==> #[trigger] ind[i] == ' ' || ind[i] == '\t'
}

/// A plain key: non-empty, made of ASCII letters, digits, `_`, `-` and `.`.
/// The line- and key-oriented texts (YAML, INI, TOML) carry such keys
/// unchanged; a key holding `=` or a newline, say, would not survive an INI
/// file.
pub open spec fn is_plain_key_char(c: char) -> bool {
    ('a' <= c && c <= 'z') || ('A' <= c && c <= 'Z') || ('0' <= c && c <= '9') || c == '_' || c
        == '-' || c == '.'
}

/// Whether `k` is a plain key.
pub open spec fn plain_key(k: Seq<char>) -> bool {
    k.len() > 0 && forall|i: int| 0 <= i < k.len() ==> is_plain_key_char(#[trigger] k[i])
}

/// Whether every key of `m` is plain.
pub open spec fn plain_keys(m: Map<Seq<char>, i64>) -> bool {
    forall|k| #[trigger] m.dom().contains(k) ==> plain_key(k)
}

/// Whether contents `m` survive the given format's text unchanged: the
/// key-oriented formats need plain keys, the self-escaping ones carry any.
pub open spec fn round_trip_keys(m: Map<Seq<char>, i64>, f: Format) -> bool {
    match f {
        Format::Json => true,
        Format::PrettyJson(_) => true,
        Format::Pickle => true,
        Format::Yaml => plain_keys(m),
        Format::Ini => plain_keys(m),
        Format::Toml => plain_keys(m),
    }
}

/// The bytes [`encode`] produces for contents `m` in format `f`. The
/// pretty-printed JSON format appends one final newline to the printer's
/// output.
pub open spec fn encoded_bytes(m: Map<Seq<char>, i64>, f: Format) -> Seq<u8> {
    match f {
        Format::Json => json_bytes_of(m),
        Format::PrettyJson(ind) => pretty_json_bytes_of(m, ind.indent_seq()).push(10u8),
        Format::Yaml => yaml_bytes_of(m),
        Format::Pickle => pickle_bytes_of(m),
        Format::Ini => ini_bytes_of(m),
        Format::Toml => toml_bytes_of(m),
    }
}

/// Relies on serde_json::to_vec: a string-to-integer map serialises as a JSON
/// object, and for this shape serialisation cannot fail.
#[verifier::external_body]
fn json_encode(record: &Record) -> (bytes: Vec<u8>)
    ensures
        bytes@ == json_bytes_of(record_entries(*record)),
{
    serde_json::to_vec(&record.entries).expect("a string-keyed map serialises as a JSON object")
}

/// Relies on serde_json::Serializer::with_formatter with a PrettyFormatter:
/// pretty-printing a string-to-integer map into a byte buffer cannot fail.
#[verifier::external_body]
fn pretty_json_encode(record: &Record, indent: &str) -> (bytes: Vec<u8>)
    ensures
        bytes@ == pretty_json_bytes_of(record_entries(*record), indent@),
{
    let mut buf = Vec::new();
    let formatter = serde_json::ser::PrettyFormatter::with_indent(indent.as_bytes());
    let mut ser = serde_json::Serializer::with_formatter(&mut buf, formatter);
    serde::Serialize::serialize(&record.entries, &mut ser)
        .expect("a string-keyed map serialises as a JSON object");
    buf
}

/// Relies on serde_yaml::to_string: a string-to-integer map serialises as a
/// YAML mapping, and for this flat shape serialisation cannot fail.
#[verifier::external_body]
fn yaml_encode(record: &Record) -> (bytes: Vec<u8>)
    ensures
        bytes@ == yaml_bytes_of(record_entries(*record)),
{
    serde_yaml::to_string(&record.entries)
        .expect("a flat string-keyed map serialises as a YAML mapping")
        .into_bytes()
}

/// Relies on serde_pickle::to_vec: a string-to-integer map serialises as a
/// pickled dict into a byte buffer, which cannot fail.
#[verifier::external_body]
fn pickle_encode(record: &Record) -> (bytes: Vec<u8>)
    ensures
        bytes@ == pickle_bytes_of(record_entries(*record)),
{
    serde_pickle::to_vec(&record.entries, serde_pickle::SerOptions::new())
        .expect("a string-keyed map serialises as a pickled dict")
}

/// Relies on serde_ini::to_vec: a string-to-integer map serialises as
/// `key=value` lines, and for this shape serialisation cannot fail.
#[verifier::external_body]
fn ini_encode(record: &Record) -> (bytes: Vec<u8>)
    ensures
        bytes@ == ini_bytes_of(record_entries(*record)),
{
    serde_ini::to_vec(&record.entries).expect("a string-keyed map serialises as INI lines")
}

/// Relies on toml::to_string: a string-to-integer map serialises as a flat
/// TOML table, which cannot fail.
#[verifier::external_body]
fn toml_encode(record: &Record) -> (bytes: Vec<u8>)
    ensures
        bytes@ == toml_bytes_of(record_entries(*record)),
{
    toml::to_string(&record.entries)
        .expect("a flat string-keyed map serialises as a TOML table")
        .into_bytes()
}

/// Whether a decode succeeded with a record holding exactly the contents `m`.
pub open spec fn decodes_to(out: Result<Record, Error>, m: Map<Seq<char>, i64>) -> bool {
    out matches Ok(r2) && record_entries(r2) == m
}

/// Relies on serde_json::from_slice: parsing serde_json's own serialisation
/// of a string-to-integer map yields that map back — also the pretty
/// printer's output under any blank indent, since a JSON parser ignores
/// inter-token whitespace and serde_json accepts trailing whitespace. The
/// `indent` parameter only names that indent in the contract.
#[verifier::external_body]
fn json_decode(bytes: &Vec<u8>, indent: &str) -> (out: Result<Record, Error>)
    ensures
        out matches Err(e) ==> e == Error::DecodingFailure,
        forall|m|
            #![trigger json_bytes_of(m)]
            bytes@ == json_bytes_of(m) ==> decodes_to(out, m),
        forall|m|
            #![trigger pretty_json_bytes_of(m, indent@)]
            blank_indent(indent@) && bytes@ == pretty_json_bytes_of(m, indent@).push(10u8)
                ==> decodes_to(out, m),
{
    let _ = indent;
    match serde_json::from_slice(bytes) {
        Ok(m) => Ok(Record { entries: m }),
        Err(_) => Err(Error::DecodingFailure),
    }
}

/// Relies on serde_yaml::from_slice: parsing serde_yaml's own serialisation
/// of a string-to-integer map with plain keys yields that map back.
#[verifier::external_body]
fn yaml_decode(bytes: &Vec<u8>) -> (out: Result<Record, Error>)
    ensures
        out matches Err(e) ==> e == Error::DecodingFailure,
        forall|m|
            #![trigger yaml_bytes_of(m)]
            plain_keys(m) && bytes@ == yaml_bytes_of(m) ==> decodes_to(out, m),
{
    match serde_yaml::from_slice(bytes) {
        Ok(m) => Ok(Record { entries: m }),
        Err(_) => Err(Error::DecodingFailure),
    }
}

/// Relies on serde_pickle::from_slice: parsing serde-pickle's own
/// serialisation of a string-to-integer map yields that map back.
#[verifier::external_body]
fn pickle_decode(bytes: &Vec<u8>) -> (out: Result<Record, Error>)
    ensures
        out matches Err(e) ==> e == Error::DecodingFailure,
        forall|m|
            #![trigger pickle_bytes_of(m)]
            bytes@ == pickle_bytes_of(m) ==> decodes_to(out, m),
{
    match serde_pickle::from_slice(bytes, serde_pickle::DeOptions::new()) {
        Ok(m) => Ok(Record { entries: m }),
        Err(_) => Err(Error::DecodingFailure),
    }
}

/// Relies on serde_ini::from_read: parsing serde_ini's own `key=value` lines
/// for a string-to-integer map with plain keys yields that map back.
#[verifier::external_body]
fn ini_decode(bytes: &Vec<u8>) -> (out: Result<Record, Error>)
    ensures
        out matches Err(e) ==> e == Error::DecodingFailure,
        forall|m|
            #![trigger ini_bytes_of(m)]
            plain_keys(m) && bytes@ == ini_bytes_of(m) ==> decodes_to(out, m),
{
    match serde_ini::from_read(bytes.as_slice()) {
        Ok(m) => Ok(Record { entries: m }),
        Err(_) => Err(Error::DecodingFailure),
    }
}

/// Relies on toml::from_slice: parsing the toml crate's own serialisation of
/// a string-to-integer map with plain keys yields that map back.
#[verifier::external_body]
fn toml_decode(bytes: &Vec<u8>) -> (out: Result<Record, Error>)
    ensures
        out matches Err(e) ==> e == Error::DecodingFailure,
        forall|m|
            #![trigger toml_bytes_of(m)]
            plain_keys(m) && bytes@ == toml_bytes_of(m) ==> decodes_to(out, m),
{
    match toml::from_slice(bytes) {
        Ok(m) => Ok(Record { entries: m }),
        Err(_) => Err(Error::DecodingFailure),
    }
}

/// Encode a record in the given format. No format rejects the record shape
/// this store carries, so encoding is total.
pub fn encode(record: &Record, format: &Format) -> (bytes: Vec<u8>)
    ensures
        bytes@ == encoded_bytes(record_entries(*record), *format),
{
    match format {
        Format::Json => json_encode(record),
        Format::PrettyJson(indent) => {
            let ind = indent.indent_string();
            let mut b = pretty_json_encode(record, ind.as_str());
            b.push(10u8);
            b
        },
        Format::Yaml => yaml_encode(record),
        Format::Pickle => pickle_encode(record),
        Format::Ini => ini_encode(record),
        Format::Toml => toml_encode(record),
    }
}

/// Decode bytes in the given format. Parsing what [`encode`] produced yields
/// the encoded contents back; malformed bytes fail with `DecodingFailure`.
pub fn decode(bytes: &Vec<u8>, format: &Format) -> (out: Result<Record, Error>)
    ensures
        out matches Err(e) ==> e == Error::DecodingFailure,
        forall|m|
            #![trigger encoded_bytes(m, *format)]
            round_trip_keys(m, *format) && bytes@ == encoded_bytes(m, *format) ==> decodes_to(
                out,
                m,
            ),
{
    match format {
        Format::Json => json_decode(bytes, ""),
        Format::PrettyJson(indent) => {
            let ind = indent.indent_string();
            json_decode(bytes, ind.as_str())
        },
        Format::Yaml => yaml_decode(bytes),
        Format::Pickle => pickle_decode(bytes),
        Format::Ini => ini_decode(bytes),
        Format::Toml => toml_decode(bytes),
    }
}

/// Round-trip law: for every supported format, decoding what `encode`
/// produced yields a record with the same entries. For the key-oriented
/// texts (YAML, INI, TOML) the law is stated for records whose keys are
/// plain, since those texts cannot carry an arbitrary key unchanged.
pub fn encode_then_decode(record: &Record, format: &Format) -> (out: Result<Record, Error>)
    ensures
        round_trip_keys(record_entries(*record), *format) ==> decodes_to(
            out,
            record_entries(*record),
        ),
{
    let bytes = encode(record, format);
    decode(&bytes, format)
}

} // verus!
