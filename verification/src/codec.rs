//! Calls into the encoding crates: base64 and JSON string literals.

use vstd::prelude::*;

use base64::Engine;
use chrono::Datelike;
use std::collections::hash_map::DefaultHasher;
use std::hash::Hasher;
use vstd::std_specs::hash::DefaultHasherAdditionalSpecFns;
use vstd::string::StringSliceAdditionalSpecFns;

use crate::model::ssl::CalendarDate;
use crate::text::{hex_digit, join};
use vstd::utf8::encode_utf8;

verus! {

/// The character of the RFC 4648 base64 alphabet for `v < 64`:
/// `A`–`Z`, `a`–`z`, `0`–`9`, `+`, `/`.
pub open spec fn base64_char(v: nat) -> char {
    if v < 26 {
        (65 + v) as char
    } else if v < 52 {
        (97 + (v - 26)) as char
    } else if v < 62 {
        (48 + (v - 52)) as char
    } else if v == 62 {
        '+'
    } else {
        '/'
    }
}

/// The base64 encoding of `b`, with `=` padding: every three bytes give
/// four characters of six bits each; a last group of one or two bytes is
/// padded with zero bits and ends in `==` or `=`.
pub open spec fn base64_bytes(b: Seq<u8>) -> Seq<char>
    decreases b.len(),
{
    if b.len() == 0 {
        Seq::empty()
    } else if b.len() == 1 {
        seq![base64_char(b[0] as nat / 4), base64_char((b[0] as nat % 4) * 16), '=', '=']
    } else if b.len() == 2 {
        seq![
            base64_char(b[0] as nat / 4),
            base64_char((b[0] as nat % 4) * 16 + b[1] as nat / 16),
            base64_char((b[1] as nat % 16) * 4),
            '=',
        ]
    } else {
        seq![
            base64_char(b[0] as nat / 4),
            base64_char((b[0] as nat % 4) * 16 + b[1] as nat / 16),
            base64_char((b[1] as nat % 16) * 4 + b[2] as nat / 64),
            base64_char(b[2] as nat % 64),
        ] + base64_bytes(b.skip(3))
    }
}

/// The standard base64 encoding (RFC 4648 alphabet, with `=` padding) of the
/// UTF-8 bytes of `text`.
pub open spec fn base64_standard(text: Seq<char>) -> Seq<char> {
    base64_bytes(encode_utf8(text))
}

/// The six-bit value a character of the base64 alphabet stands for.
pub open spec fn base64_value(c: char) -> nat {
    if 'A' <= c && c <= 'Z' {
        (c as nat - 65) as nat
    } else if 'a' <= c && c <= 'z' {
        (c as nat - 97 + 26) as nat
    } else if '0' <= c && c <= '9' {
        (c as nat - 48 + 52) as nat
    } else if c == '+' {
        62
    } else {
        63
    }
}

/// Decoding of padded base64 text: each group of four characters gives
/// three bytes, or fewer where the group ends in `=` padding.
pub open spec fn base64_decode(s: Seq<char>) -> Seq<u8>
    decreases s.len(),
{
    if s.len() < 4 {
        Seq::empty()
    } else {
        let v0 = base64_value(s[0]);
        let v1 = base64_value(s[1]);
        let v2 = base64_value(s[2]);
        let v3 = base64_value(s[3]);
        let b0 = (v0 * 4 + v1 / 16) as u8;
        let b1 = ((v1 % 16) * 16 + v2 / 4) as u8;
        let b2 = ((v2 % 4) * 64 + v3) as u8;
        if s[2] == '=' {
            seq![b0]
        } else if s[3] == '=' {
            seq![b0, b1]
        } else {
            seq![b0, b1, b2] + base64_decode(s.skip(4))
        }
    }
}

proof fn lemma_base64_char(v: nat)
    requires
        v < 64,
    ensures
        base64_value(base64_char(v)) == v,
        base64_char(v) != '=',
{
}

proof fn lemma_split_byte(x: nat, k: nat)
    requires
        x < 256,
        k == 4 || k == 16 || k == 64,
    ensures
        (x / k) * k + x % k == x,
        x / k < 256nat / k,
        x % k < k,
{
    assert((x / k) * k + x % k == x) by (nonlinear_arith)
        requires
            k > 0,
    ;
    assert(x / k < 256nat / k) by (nonlinear_arith)
        requires
            k == 4 || k == 16 || k == 64,
            x < 256,
    ;
}

/// Decoding the base64 encoding of bytes gives the bytes back.
pub proof fn lemma_base64_round_trip(b: Seq<u8>)
    ensures
        base64_decode(base64_bytes(b)) == b,
    decreases b.len(),
{
    let e = base64_bytes(b);
    if b.len() == 0 {
    } else {
        let x0 = b[0] as nat;
        let x1 = if b.len() > 1 { b[1] as nat } else { 0 };
        let x2 = if b.len() > 2 { b[2] as nat } else { 0 };
        lemma_split_byte(x0, 4);
        lemma_split_byte(x1, 16);
        lemma_split_byte(x2, 64);
        let v0 = x0 / 4;
        let v1 = (x0 % 4) * 16 + x1 / 16;
        let v2 = (x1 % 16) * 4 + x2 / 64;
        let v3 = x2 % 64;
        assert(v1 / 16 == x0 % 4 && v1 % 16 == x1 / 16) by (nonlinear_arith)
            requires
                v1 == (x0 % 4) * 16 + x1 / 16,
                x0 % 4 < 4,
                x1 / 16 < 16,
        ;
        assert(v2 / 4 == x1 % 16 && v2 % 4 == x2 / 64) by (nonlinear_arith)
            requires
                v2 == (x1 % 16) * 4 + x2 / 64,
                x1 % 16 < 16,
                x2 / 64 < 4,
        ;
        lemma_base64_char(v0);
        lemma_base64_char(v1);
        lemma_base64_char(v2);
        lemma_base64_char(v3);
        if b.len() == 1 {
            assert(v1 == (x0 % 4) * 16);
            assert(base64_decode(e) =~= b);
        } else if b.len() == 2 {
            assert(base64_decode(e) =~= b);
        } else {
            lemma_base64_round_trip(b.skip(3));
            let head = seq![base64_char(v0), base64_char(v1), base64_char(v2), base64_char(v3)];
            assert(e == head + base64_bytes(b.skip(3)));
            assert(e.skip(4) =~= base64_bytes(b.skip(3)));
            assert(base64_decode(e) =~= b);
        }
    }
}

/// Encodes text with base64's `STANDARD` engine (`Engine::encode`).
/// Trusted: the result is the standard base64 encoding, with padding, of
/// the text's UTF-8 bytes (`base64_standard`).
#[verifier::external_body]
pub fn base64_encode(text: &str) -> (r: String)
    ensures
        r@ == base64_standard(text@),
{
    base64::engine::general_purpose::STANDARD.encode(text)
}

/// How serde_json writes one character inside a string literal: `"` and
/// `\` behind a backslash; backspace, tab, line feed, form feed and carriage
/// return as `\b`, `\t`, `\n`, `\f`, `\r`; the other control characters
/// below U+0020 as `\u00` and two lowercase hexadecimal digits; anything
/// else as it is.
pub open spec fn json_escape_char(c: char) -> Seq<char> {
    if c == '"' {
        seq!['\\', '"']
    } else if c == '\\' {
        seq!['\\', '\\']
    } else if c == '\u{8}' {
        seq!['\\', 'b']
    } else if c == '\t' {
        seq!['\\', 't']
    } else if c == '\n' {
        seq!['\\', 'n']
    } else if c == '\u{c}' {
        seq!['\\', 'f']
    } else if c == '\r' {
        seq!['\\', 'r']
    } else if (c as nat) < 32 {
        seq!['\\', 'u', '0', '0', hex_digit(c as nat / 16), hex_digit(c as nat % 16)]
    } else {
        seq![c]
    }
}

/// The characters of `text`, each written as `json_escape_char` writes it.
pub open spec fn json_escaped(text: Seq<char>) -> Seq<char>
    decreases text.len(),
{
    if text.len() == 0 {
        Seq::empty()
    } else {
        json_escape_char(text[0]) + json_escaped(text.drop_first())
    }
}

/// The JSON string literal of `text`, as serde_json writes it: in double
/// quotes, with the escapes of `json_escape_char`.
pub open spec fn json_string_literal(text: Seq<char>) -> Seq<char> {
    seq!['"'] + json_escaped(text) + seq!['"']
}

/// The texts of a list of string pairs.
pub open spec fn pair_texts(v: Seq<(String, String)>) -> Seq<(Seq<char>, Seq<char>)> {
    v.map_values(|p: (String, String)| (p.0@, p.1@))
}

/// One member of a compact JSON object: `"key":"value"`.
pub open spec fn json_member(p: (Seq<char>, Seq<char>)) -> Seq<char> {
    json_string_literal(p.0) + ":"@ + json_string_literal(p.1)
}

/// A compact JSON object whose values are all strings, members in the
/// given order: `{`, the members separated by `,`, then `}`.
pub open spec fn json_object(fields: Seq<(Seq<char>, Seq<char>)>) -> Seq<char> {
    "{"@ + join(fields.map_values(|p: (Seq<char>, Seq<char>)| json_member(p)), ","@) + "}"@
}

/// `a` sorts before `b` in the order of Rust's `String` (character by
/// character, which for UTF-8 is the order of the bytes; a proper prefix
/// first).
pub open spec fn text_before(a: Seq<char>, b: Seq<char>) -> bool
    decreases a.len(),
{
    if a.len() == 0 {
        b.len() > 0
    } else if b.len() == 0 {
        false
    } else if a[0] != b[0] {
        (a[0] as nat) < (b[0] as nat)
    } else {
        text_before(a.drop_first(), b.drop_first())
    }
}

/// Each key sorts before the next one: the keys are distinct and in
/// ascending order.
pub open spec fn keys_ascending(fields: Seq<(Seq<char>, Seq<char>)>) -> bool
    decreases fields.len(),
{
    fields.len() < 2 || (text_before(fields[0].0, fields[1].0) && keys_ascending(fields.drop_first()))
}

/// Serializes string members as a JSON object with serde_json: a
/// `serde_json::Map` of `Value::String`s, written by `Value`'s `Display`
/// (compact form). Trusted: serde_json's map (a `BTreeMap` in this build)
/// lists its keys in ascending order, so members whose keys are already
/// distinct and ascending come out in the given order, each written as a
/// JSON string literal (`json_object`).
#[verifier::external_body]
pub fn json_object_string(fields: &Vec<(String, String)>) -> (r: String)
    requires
        keys_ascending(pair_texts(fields@)),
    ensures
        r@ == json_object(pair_texts(fields@)),
{
    let map: serde_json::Map<String, serde_json::Value> =
        fields.iter().map(|p| (p.0.clone(), serde_json::Value::String(p.1.clone()))).collect();
    serde_json::Value::Object(map).to_string()
}

} // verus!

verus! {

/// The date that `chrono::NaiveDate::parse_from_str(text, "%Y-%m-%d")`
/// reads from `text`, if it reads one.
pub uninterp spec fn parsed_iso_date(text: Seq<char>) -> Option<CalendarDate>;

/// Reads a `YYYY-MM-DD` date with chrono's `NaiveDate::parse_from_str`.
/// Trusted: the result is chrono's reading of the text, named
/// `parsed_iso_date`; which texts chrono accepts is not stated.
#[verifier::external_body]
pub fn parse_iso_date(text: &str) -> (r: Option<CalendarDate>)
    ensures
        r == parsed_iso_date(text@),
{
    match chrono::NaiveDate::parse_from_str(text, "%Y-%m-%d") {
        Ok(d) => Some(CalendarDate { year: d.year(), month: d.month(), day: d.day() }),
        Err(_) => None,
    }
}

/// The date `days` days after `date`, as chrono computes it, if `date` is a
/// valid date and the result is in chrono's range.
pub uninterp spec fn date_plus_days(date: CalendarDate, days: i64) -> Option<
    CalendarDate,
>;

/// Adds days to a date with chrono's `NaiveDate::checked_add_signed`.
/// Trusted: the result is chrono's sum, named `date_plus_days`; it is `None`
/// where chrono has no such date.
#[verifier::external_body]
pub fn add_days(date: CalendarDate, days: i64) -> (r: Option<CalendarDate>)
    ensures
        r == date_plus_days(date, days),
{
    let sum = chrono::NaiveDate::from_ymd_opt(date.year, date.month, date.day).and_then(
        |d| chrono::TimeDelta::try_days(days).and_then(|t| d.checked_add_signed(t)),
    );
    sum.map(|d| CalendarDate { year: d.year(), month: d.month(), day: d.day() })
}

} // verus!

verus! {

/// A text that uuid's `Uuid::parse_str` accepts, in the 36-character
/// hyphenated form: what every fresh UUID looks like.
pub open spec fn fresh_uuid(u: Seq<char>) -> bool {
    uuid_text_valid(u) && u.len() == 36
}

/// A fresh random (version 4) UUID in its hyphenated form
/// (`uuid::Uuid::new_v4().to_string()`). Trusted: whatever comes out is
/// uuid's 36-character hyphenated form, which `Uuid::parse_str` accepts;
/// which UUID it is, is random and not stated.
#[verifier::external_body]
pub fn new_uuid_v4() -> (r: String)
    ensures
        uuid_text_valid(r@),
        r@.len() == 36,
{
    uuid::Uuid::new_v4().to_string()
}

/// Whether uuid's `Uuid::parse_str` accepts `text` (simple, hyphenated, URN
/// or braced forms).
pub uninterp spec fn uuid_text_valid(text: Seq<char>) -> bool;

/// Checks text with `uuid::Uuid::parse_str`. Trusted: the result is whether
/// uuid accepts the text, named `uuid_text_valid`.
#[verifier::external_body]
pub fn uuid_parses(text: &str) -> (r: bool)
    ensures
        r == uuid_text_valid(text@),
{
    uuid::Uuid::parse_str(text).is_ok()
}

/// The 64-bit hash of `text` by std's `DefaultHasher`, fed as `str`
/// hashes itself: the UTF-8 bytes of the text, then the byte `0xff` that
/// ends a string. The digest is vstd's `spec_finish` of those two writes;
/// std does not promise its value across releases.
pub fn default_hash(text: &str) -> (r: u64)
    ensures
        r == DefaultHasher::spec_finish(seq![text.spec_bytes(), seq![0xffu8]]),
{
    let mut h = DefaultHasher::new();
    h.write(text.as_bytes());
    let end: Vec<u8> = vec![0xffu8];
    assert(end@ =~= seq![0xffu8]);
    h.write(end.as_slice());
    assert(h@ =~= seq![text.spec_bytes(), seq![0xffu8]]);
    h.finish()
}

} // verus!
