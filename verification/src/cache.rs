//! The JSON-file-backed key/value cache: one top-level JSON object per
//! file, one entry per key. The host reads and writes the file; the
//! library turns the file's text and a key into the stored value's
//! text, and an update into the rewritten text, through serde_json.
//! Values are spoken of by their canonical (compact) rendering, so the
//! contracts can say which value every key holds.

use vstd::prelude::*;

verus! {

#[verifier::external_type_specification]
#[verifier::external_body]
pub struct ExValue(serde_json::Value);

#[verifier::external_type_specification]
#[verifier::external_body]
pub struct ExError(serde_json::Error);

/// Whether a text parses as one JSON document. Parsing depends on the
/// text alone.
pub uninterp spec fn json_text_ok(s: Seq<char>) -> bool;

/// Whether a text parses as one JSON document whose root is an object.
pub uninterp spec fn json_is_object(s: Seq<char>) -> bool;

/// The canonical (compact) rendering of the document a text parses to;
/// meaningful only for texts that parse.
pub uninterp spec fn json_canonical(s: Seq<char>) -> Seq<char>;

/// The entries of a text's top-level object: each key mapped to the
/// canonical rendering of its value. Empty when the text is not a
/// valid document, or its document is not an object.
pub uninterp spec fn json_entries(s: Seq<char>) -> Map<Seq<char>, Seq<char>>;

/// The keys of a text's top-level object.
pub open spec fn json_object_keys(s: Seq<char>) -> Set<Seq<char>> {
    json_entries(s).dom()
}

/// A store with no entries at all.
pub open spec fn spec_no_entries() -> Map<Seq<char>, Seq<char>> {
    Map::<Seq<char>, Seq<char>>::empty()
}

/// Relies on serde_json::from_str::<Value>: it accepts a text exactly
/// when the text is one valid JSON document.
#[verifier::external_body]
fn parse_json_value(s: &str) -> (r: Result<serde_json::Value, serde_json::Error>)
    ensures
        r is Ok <==> json_text_ok(s@),
{
    serde_json::from_str::<serde_json::Value>(s)
}

/// Relies on serde_json::from_str, Map::get and to_string: a text whose
/// document is an object holds, under each of its keys, the value whose
/// canonical rendering the entries name gives; under a text that is no
/// object nothing is held. to_string of a Value cannot fail (object
/// keys are strings and Value's serialization has no failure path), so
/// the found value's rendering is returned directly.
#[verifier::external_body]
fn lookup_json_object(contents: &str, key: &str) -> (r: Option<String>)
    ensures
        r is Some <==> json_entries(contents@).dom().contains(key@),
        r matches Some(t) ==> t@ == json_entries(contents@)[key@],
        !json_is_object(contents@) ==> r is None,
{
    match serde_json::from_str::<serde_json::Value>(contents) {
        Ok(serde_json::Value::Object(map)) => match map.get(key) {
            Some(v) => Some(serde_json::to_string(v).expect("rendering a Value cannot fail")),
            None => None,
        },
        _ => None,
    }
}

/// Relies on serde_json::from_str, Map::insert and to_string_pretty:
/// the rewritten store holds the existing top-level object's entries —
/// none when the text held no object — with the payload's value under
/// `key`. to_string_pretty of a Value cannot fail, and the payload is
/// admitted only when it parses, so the rewritten text is returned
/// directly. The entries equation needs every rendered value to parse
/// back to itself; for non-integer numbers that holds only with
/// serde_json's float_roundtrip feature, which this crate enables —
/// a correctly-rounded parser reads the shortest rendering back
/// exactly.
#[verifier::external_body]
fn store_json_entry(existing: &str, key: &str, payload: &str) -> (r: String)
    requires
        json_text_ok(payload@),
    ensures
        json_entries(r@) == json_entries(existing@).insert(key@, json_canonical(payload@)),
{
    let mut root = match serde_json::from_str::<serde_json::Value>(existing) {
        Ok(serde_json::Value::Object(map)) => map,
        _ => serde_json::Map::new(),
    };
    let value = serde_json::from_str::<serde_json::Value>(payload)
        .expect("admitted payloads parse");
    root.insert(key.to_owned(), value);
    serde_json::to_string_pretty(&serde_json::Value::Object(root))
        .expect("rendering a Value cannot fail")
}

/// Relies on serde_json::Map::insert and to_string_pretty: a store
/// built from nothing holds exactly the payload's value under the one
/// key. As above, neither call can fail on admitted payloads, and the
/// rendered-value round trip rests on the float_roundtrip feature.
#[verifier::external_body]
fn fresh_store_entry(key: &str, payload: &str) -> (r: String)
    requires
        json_text_ok(payload@),
    ensures
        json_entries(r@) == spec_no_entries().insert(key@, json_canonical(payload@)),
{
    let value = serde_json::from_str::<serde_json::Value>(payload)
        .expect("admitted payloads parse");
    let mut root = serde_json::Map::new();
    root.insert(key.to_owned(), value);
    serde_json::to_string_pretty(&serde_json::Value::Object(root))
        .expect("rendering a Value cannot fail")
}

/// Relies on Display for serde_json::Error, for the human-readable text
/// carried inside the cache error messages.
#[verifier::external_body]
fn json_error_text(e: &serde_json::Error) -> String {
    format!("{e}")
}

/// Whether `s` begins with `prefix`.
pub open spec fn spec_starts_with(s: Seq<char>, prefix: Seq<char>) -> bool {
    s.len() >= prefix.len() && s.subrange(0, prefix.len() as int) == prefix
}

/// The prefix of the error reported for a payload that is not JSON.
pub open spec fn spec_invalid_payload_prefix() -> Seq<char> {
    "Invalid cache payload JSON: "@
}

/// The entries already stored: those of the file's text, none when the
/// file does not exist yet.
pub open spec fn spec_prior_entries(contents: Option<&String>) -> Map<Seq<char>, Seq<char>> {
    match contents {
        Some(c) => json_entries(c@),
        None => spec_no_entries(),
    }
}

/// `prefix + rest` begins with `prefix`.
proof fn lemma_concat_starts_with(prefix: Seq<char>, rest: Seq<char>)
    ensures
        spec_starts_with(prefix + rest, prefix),
{
    assert((prefix + rest).subrange(0, prefix.len() as int) =~= prefix);
}

/// Reads the value stored under `key`, as its canonical rendering.
/// `contents` is the cache file's text, or nothing when the file does
/// not exist. A file that does not parse, or whose document is not an
/// object, holds no entries — every key reads as absent, never as an
/// error.
pub fn read_cache_entry(contents: Option<&String>, key: &str) -> (r: Option<String>)
    ensures
        r is Some <==> spec_prior_entries(contents).dom().contains(key@),
        r matches Some(t) ==> t@ == spec_prior_entries(contents)[key@],
        contents matches Some(c) && !json_is_object(c@) ==> r is None,
{
    match contents {
        None => None,
        Some(c) => lookup_json_object(c.as_str(), key),
    }
}

/// Stores a JSON payload under `key` and returns the rewritten file
/// text: exactly the prior entries — none, when the file was absent,
/// corrupt or not an object — with the payload's value under `key`.
/// Exactly the payloads that are not JSON are rejected, with an error
/// naming the reason.
pub fn write_cache_entry(contents: Option<&String>, key: &str, value: &str) -> (r: Result<
    String,
    String,
>)
    ensures
        r is Ok <==> json_text_ok(value@),
        r matches Ok(text) ==> json_entries(text@) == spec_prior_entries(contents).insert(
            key@,
            json_canonical(value@),
        ),
        r matches Err(m) ==> spec_starts_with(m@, spec_invalid_payload_prefix()),
{
    match parse_json_value(value) {
        Err(e) => {
            let mut message = String::from_str("Invalid cache payload JSON: ");
            let detail = json_error_text(&e);
            message.append(detail.as_str());
            proof {
                lemma_concat_starts_with(spec_invalid_payload_prefix(), detail@);
            }
            Err(message)
        },
        Ok(_) => match contents {
            Some(c) => Ok(store_json_entry(c.as_str(), key, value)),
            None => Ok(fresh_store_entry(key, value)),
        },
    }
}

/// Law: after a successful write, reading the written key back yields
/// the payload's canonical rendering, and every other key is exactly as
/// it was — present or absent as before, and with its prior value.
pub proof fn lemma_cache_read_after_write(
    prior: Map<Seq<char>, Seq<char>>,
    key: Seq<char>,
    canonical: Seq<char>,
    other: Seq<char>,
)
    requires
        other != key,
    ensures
        prior.insert(key, canonical).dom().contains(key),
        prior.insert(key, canonical)[key] == canonical,
        prior.insert(key, canonical).dom().contains(other) == prior.dom().contains(other),
        prior.dom().contains(other) ==> prior.insert(key, canonical)[other] == prior[other],
{
}

} // verus!
