//! The graphics-settings document: decoding the stored blob (NUL-padded
//! UTF-8 JSON), replacing one setting in it, and encoding it back.
//!
//! JSON itself is read and written by serde_json; its values are opaque here
//! and are described through the names below.

use vstd::prelude::*;
use vstd::string::StrSliceExecFns;
use vstd::utf8::{decode_utf8, encode_utf8, valid_utf8};
use crate::setting::{key_name, GraphicsSetting};
use crate::selector::render_scale_labels;
use crate::text::is_ascii_digit;
use crate::validator::{setting_value, setting_value_of, SettingValue};

verus! {

#[verifier::external_type_specification]
#[verifier::external_body]
pub struct ExValue(serde_json::Value);

#[verifier::external_type_specification]
#[verifier::external_body]
pub struct ExJsonError(serde_json::Error);

/// The document that serde_json reads from `text`; `None` when it rejects it.
pub uninterp spec fn json_parse(text: Seq<char>) -> Option<serde_json::Value>;

/// The member of `v` under `key`; `None` when `v` is not an object or has
/// no such member.
pub uninterp spec fn json_entry(v: serde_json::Value, key: Seq<char>) -> Option<serde_json::Value>;

/// The compact JSON text that serde_json writes for `v`.
pub uninterp spec fn json_text(v: serde_json::Value) -> Seq<char>;

/// The JSON boolean `b`.
pub uninterp spec fn bool_json(b: bool) -> serde_json::Value;

/// The JSON number `n`.
pub uninterp spec fn u16_json(n: u16) -> serde_json::Value;

/// The JSON number that serde_json reads from `text`; `None` when `text` is
/// not exactly one JSON number.
pub uninterp spec fn number_json(text: Seq<char>) -> Option<serde_json::Value>;

/// One ASCII digit, a decimal point, one ASCII digit.
pub open spec fn is_short_decimal(s: Seq<char>) -> bool {
    s.len() == 3 && is_ascii_digit(s[0]) && s[1] == '.' && is_ascii_digit(s[2])
}

/// Relies on `serde_json::from_str::<Value>`: its result depends on the text
/// alone.
#[verifier::external_body]
fn parse_json(text: &str) -> (r: Result<serde_json::Value, serde_json::Error>)
    ensures
        match r {
            Ok(v) => json_parse(text@) == Some(v),
            Err(_) => json_parse(text@) is None,
        },
{
    serde_json::from_str(text)
}

/// Relies on `serde_json::Value::get` with a string index, which yields the
/// member `key` of an object and `None` for anything else.
#[verifier::external_body]
fn has_entry(v: &serde_json::Value, key: &str) -> (r: bool)
    ensures
        r == json_entry(*v, key@) is Some,
{
    v.get(key).is_some()
}

/// Relies on `IndexMut<&str>` for `serde_json::Value`: on an object that has
/// a member `key`, `v[key] = new` replaces that member and keeps the others.
#[verifier::external_body]
fn replace_entry(v: &mut serde_json::Value, key: &str, new: serde_json::Value)
    requires
        json_entry(*old(v), key@) is Some,
    ensures
        json_entry(*final(v), key@) == Some(new),
        forall|k: Seq<char>| k != key@ ==> json_entry(*final(v), k) == json_entry(*old(v), k),
{
    v[key] = new;
}

/// Relies on `serde_json::to_string`, which cannot fail on a `Value`: its
/// object keys are strings and writing into memory does not fail.
#[verifier::external_body]
fn write_json(v: &serde_json::Value) -> (r: Result<String, serde_json::Error>)
    ensures
        r is Ok,
        r matches Ok(t) ==> t@ == json_text(*v),
{
    serde_json::to_string(v)
}

/// Relies on `From<bool>` for `serde_json::Value`.
#[verifier::external_body]
fn bool_value(b: bool) -> (r: serde_json::Value)
    ensures
        r == bool_json(b),
{
    serde_json::Value::from(b)
}

/// Relies on `From<u16>` for `serde_json::Value`.
#[verifier::external_body]
fn u16_value(n: u16) -> (r: serde_json::Value)
    ensures
        r == u16_json(n),
{
    serde_json::Value::from(n)
}

/// Relies on `FromStr` for `serde_json::Number`, taken as a
/// `Value::Number`: the whole text must be one JSON number, which one digit,
/// a point and one digit always is.
#[verifier::external_body]
fn number_value(text: &str) -> (r: Result<serde_json::Value, serde_json::Error>)
    ensures
        match r {
            Ok(v) => number_json(text@) == Some(v),
            Err(_) => number_json(text@) is None,
        },
        is_short_decimal(text@) ==> r is Ok,
{
    text.parse::<serde_json::Number>().map(serde_json::Value::Number)
}

/// Relies on `std::str::from_utf8`, which accepts exactly the valid UTF-8
/// byte strings and returns the text they encode.
#[verifier::external_body]
fn utf8_text(bytes: &[u8]) -> (r: Option<&str>)
    ensures
        match r {
            Some(t) => valid_utf8(bytes@) && t@ == decode_utf8(bytes@),
            None => !valid_utf8(bytes@),
        },
{
    std::str::from_utf8(bytes).ok()
}

/// `b` without its leading zero bytes.
pub open spec fn strip_leading_nuls(b: Seq<u8>) -> Seq<u8>
    decreases b.len(),
{
    if b.len() > 0 && b[0] == 0 {
        strip_leading_nuls(b.drop_first())
    } else {
        b
    }
}

/// `b` without its trailing zero bytes.
pub open spec fn strip_trailing_nuls(b: Seq<u8>) -> Seq<u8>
    decreases b.len(),
{
    if b.len() > 0 && b.last() == 0 {
        strip_trailing_nuls(b.drop_last())
    } else {
        b
    }
}

/// `b` without its leading and trailing zero bytes.
pub open spec fn trim_nuls(b: Seq<u8>) -> Seq<u8> {
    strip_trailing_nuls(strip_leading_nuls(b))
}

/// Removes the zero bytes at both ends of `bytes`.
pub fn trim_nul_bytes(bytes: &[u8]) -> (r: &[u8])
    ensures
        r@ == trim_nuls(bytes@),
{
    let n = bytes.len();
    let mut lo: usize = 0;
    assert(bytes@.subrange(0, n as int) =~= bytes@);
    while lo < n && bytes[lo] == 0
        invariant
            n == bytes@.len(),
            lo <= n,
            strip_leading_nuls(bytes@) == strip_leading_nuls(bytes@.subrange(lo as int, n as int)),
        decreases n - lo,
    {
        assert(bytes@.subrange(lo as int, n as int).drop_first() =~= bytes@.subrange(lo + 1, n as int));
        lo = lo + 1;
    }
    assert(strip_leading_nuls(bytes@) == bytes@.subrange(lo as int, n as int));
    let mut hi: usize = n;
    while hi > lo && bytes[hi - 1] == 0
        invariant
            n == bytes@.len(),
            lo <= hi <= n,
            trim_nuls(bytes@) == strip_trailing_nuls(bytes@.subrange(lo as int, hi as int)),
        decreases hi - lo,
    {
        assert(bytes@.subrange(lo as int, hi as int).drop_last() =~= bytes@.subrange(lo as int, hi - 1));
        hi = hi - 1;
    }
    vstd::slice::slice_subrange(bytes, lo, hi)
}

/// Why a stored blob could not be read as a settings document.
#[derive(Debug, Clone, Copy, PartialEq, Eq, Structural)]
pub enum BlobError {
    /// The registry value is not of the binary type.
    NotBinary,
    /// The bytes, less the NUL padding, are not UTF-8.
    NotUtf8,
    /// The text is not JSON.
    InvalidJson,
}

/// Reads the settings document from a stored value: `is_binary` tells
/// whether the value has the binary type, `bytes` is its content.
pub fn parse_setting_json(is_binary: bool, bytes: &[u8]) -> (r: Result<serde_json::Value, BlobError>)
    ensures
        !is_binary ==> r == Err::<serde_json::Value, BlobError>(BlobError::NotBinary),
        is_binary && !valid_utf8(trim_nuls(bytes@)) ==> r == Err::<serde_json::Value, BlobError>(
            BlobError::NotUtf8,
        ),
        is_binary && valid_utf8(trim_nuls(bytes@)) ==> r == match json_parse(
            decode_utf8(trim_nuls(bytes@)),
        ) {
            Some(v) => Ok(v),
            None => Err(BlobError::InvalidJson),
        },
{
    if !is_binary {
        return Err(BlobError::NotBinary);
    }
    let text = match utf8_text(trim_nul_bytes(bytes)) {
        Some(t) => t,
        None => {
            return Err(BlobError::NotUtf8);
        },
    };
    match parse_json(text) {
        Ok(v) => Ok(v),
        Err(_) => Err(BlobError::InvalidJson),
    }
}

/// The bytes stored for document `v`: its JSON text in UTF-8, then a NUL.
pub open spec fn blob_bytes(v: serde_json::Value) -> Seq<u8> {
    encode_utf8(json_text(v)).push(0u8)
}

/// Encodes a settings document as it is stored.
pub fn encode_setting_json(doc: &serde_json::Value) -> (r: Vec<u8>)
    ensures
        r@ == blob_bytes(*doc),
{
    match write_json(doc) {
        Ok(text) => {
            let mut bytes = text.as_str().as_bytes_vec();
            bytes.push(0u8);
            bytes
        },
        Err(_) => Vec::new(),
    }
}

/// Why a setting could not be replaced.
#[derive(Debug, Clone, Copy, PartialEq, Eq, Structural)]
pub enum EditError {
    /// The document has no member for the setting.
    MissingField,
    /// The entry is not accepted for the setting.
    InvalidInput,
}

/// The decimal text of a render scale given in tenths.
pub open spec fn render_scale_text(tenths: u16) -> Seq<char> {
    render_scale_labels()[(tenths - 6) / 2]
}

/// The JSON value stored for a setting value.
pub open spec fn json_of_setting_value(v: SettingValue) -> Option<serde_json::Value> {
    match v {
        SettingValue::Flag(b) => Some(bool_json(b)),
        SettingValue::Number(n) => Some(u16_json(n)),
        SettingValue::Scale(t) => number_json(render_scale_text(t)),
    }
}

/// Every offered render scale is written as one digit, a point and one digit.
proof fn lemma_render_scales_short(i: int)
    requires
        0 <= i < render_scale_labels().len(),
    ensures
        is_short_decimal(render_scale_labels()[i]),
{
    reveal_strlit("0.6");
    reveal_strlit("0.8");
    reveal_strlit("1.0");
    reveal_strlit("1.2");
    reveal_strlit("1.4");
    reveal_strlit("1.6");
    reveal_strlit("1.8");
    reveal_strlit("2.0");
}

/// Sets the member of `doc` for `key` to the value that `input` stands for,
/// and returns the bytes to store for the updated document. The document is
/// left as it was when it has no member for `key` or `input` is not accepted.
pub fn update_graphics_setting(doc: &mut serde_json::Value, key: GraphicsSetting, input: &str) -> (r:
    Result<Vec<u8>, EditError>)
    ensures
        json_entry(*old(doc), key_name(key)) is None ==> r == Err::<Vec<u8>, EditError>(
            EditError::MissingField,
        ) && *final(doc) == *old(doc),
        json_entry(*old(doc), key_name(key)) is Some && setting_value_of(key, input@) is None ==> r
            == Err::<Vec<u8>, EditError>(EditError::InvalidInput) && *final(doc) == *old(doc),
        json_entry(*old(doc), key_name(key)) is Some && setting_value_of(key, input@) is Some ==> {
            let v = setting_value_of(key, input@)->Some_0;
            &&& json_of_setting_value(v) is Some
            &&& json_entry(*final(doc), key_name(key)) == json_of_setting_value(v)
            &&& forall|k: Seq<char>|
                k != key_name(key) ==> json_entry(*final(doc), k) == json_entry(*old(doc), k)
            &&& r is Ok
            &&& r->Ok_0@ == blob_bytes(*final(doc))
        },
{
    let name = key.as_static_str();
    if !has_entry(doc, name) {
        return Err(EditError::MissingField);
    }
    let value = match setting_value(key, input) {
        Some(v) => v,
        None => {
            return Err(EditError::InvalidInput);
        },
    };
    let new = match value {
        SettingValue::Flag(b) => bool_value(b),
        SettingValue::Number(n) => u16_value(n),
        SettingValue::Scale(t) => {
            proof {
                let i = render_scale_labels().index_of(input@);
                assert(render_scale_labels()[i] == input@);
                assert(render_scale_text(t) == input@);
                lemma_render_scales_short(i);
            }
            match number_value(input) {
                Ok(v) => v,
                Err(_) => {
                    return Err(EditError::InvalidInput);
                },
            }
        },
    };
    replace_entry(doc, name, new);
    Ok(encode_setting_json(doc))
}

} // verus!
