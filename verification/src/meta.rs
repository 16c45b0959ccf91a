use vstd::prelude::*;
use vstd::utf8::*;
use crate::bytes::{append_bytes, lemma_ascii_byte_in_encoding};
use crate::tokens::{
    Meta, MacroParseError, MacroToken, expect_end_after_three, parse_lit_str, spec_parse_lit_str,
    spec_parse_meta,
};

verus! {

/// The bytes of the entry `key=value` in the `.wups.meta` section:
/// the UTF-8 key, `=`, the UTF-8 value and a terminating NUL.
pub open spec fn meta_data(key: Seq<char>, value: Seq<char>) -> Seq<u8> {
    encode_utf8(key) + seq!['=' as u8] + encode_utf8(value) + seq![0u8]
}

/// The symbol under which the entry for `key` is stored.
pub open spec fn meta_symbol(key: Seq<char>) -> Seq<char> {
    "wups_meta_"@ + key
}

/// One entry of the `.wups.meta` section: a static byte array named
/// `symbol`, holding `data` (whose length is the array's length).
#[derive(Debug)]
pub struct MetaEntry {
    pub symbol: String,
    pub data: Vec<u8>,
}

/// `e` is the entry that stores `value` under `key`.
pub open spec fn is_meta_entry(e: MetaEntry, key: Seq<char>, value: Seq<char>) -> bool {
    &&& e.symbol@ == meta_symbol(key)
    &&& e.data@ == meta_data(key, value)
}

/// Builds the entry that stores `value` under `key`.
pub fn meta_entry(key: &str, value: &str) -> (e: MetaEntry)
    ensures
        is_meta_entry(e, key@, value@),
{
    let mut data: Vec<u8> = Vec::new();
    append_bytes(&mut data, key.as_bytes());
    data.push(0x3du8);
    append_bytes(&mut data, value.as_bytes());
    data.push(0u8);
    let symbol = String::from_str("wups_meta_").concat(key);
    assert(data@ == meta_data(key@, value@));
    MetaEntry { symbol, data }
}

/// Reads `key, "value"` and builds the entry storing `value` under `key`.
pub fn wups_meta(input: &[MacroToken]) -> (res: Result<MetaEntry, MacroParseError>)
    ensures
        match spec_parse_meta(input@) {
            Ok((key, value)) => res matches Ok(e) && is_meta_entry(e, key, value),
            Err(err) => res == Err::<MetaEntry, _>(err),
        },
{
    let meta = Meta::parse(input)?;
    expect_end_after_three(input)?;
    Ok(meta_entry(meta.name.as_str(), meta.value.as_str()))
}

/// Reads a single string literal and builds the entry storing it under `key`.
fn keyed_meta(key: &str, input: &[MacroToken]) -> (res: Result<MetaEntry, MacroParseError>)
    ensures
        match spec_parse_lit_str(input@) {
            Ok(value) => res matches Ok(e) && is_meta_entry(e, key@, value),
            Err(err) => res == Err::<MetaEntry, _>(err),
        },
{
    let value = parse_lit_str(input)?;
    Ok(meta_entry(key, value.as_str()))
}

/// The plugin's description, stored under `description`.
#[allow(non_snake_case)]
pub fn WUPS_PLUGIN_DESCRIPTION(input: &[MacroToken]) -> (res: Result<MetaEntry, MacroParseError>)
    ensures
        match spec_parse_lit_str(input@) {
            Ok(value) => res matches Ok(e) && is_meta_entry(e, "description"@, value),
            Err(err) => res == Err::<MetaEntry, _>(err),
        },
{
    keyed_meta("description", input)
}

/// The plugin's version, stored under `version`.
#[allow(non_snake_case)]
pub fn WUPS_PLUGIN_VERSION(input: &[MacroToken]) -> (res: Result<MetaEntry, MacroParseError>)
    ensures
        match spec_parse_lit_str(input@) {
            Ok(value) => res matches Ok(e) && is_meta_entry(e, "version"@, value),
            Err(err) => res == Err::<MetaEntry, _>(err),
        },
{
    keyed_meta("version", input)
}

/// The plugin's author, stored under `author`.
#[allow(non_snake_case)]
pub fn WUPS_PLUGIN_AUTHOR(input: &[MacroToken]) -> (res: Result<MetaEntry, MacroParseError>)
    ensures
        match spec_parse_lit_str(input@) {
            Ok(value) => res matches Ok(e) && is_meta_entry(e, "author"@, value),
            Err(err) => res == Err::<MetaEntry, _>(err),
        },
{
    keyed_meta("author", input)
}

/// The plugin's license, stored under `license`.
#[allow(non_snake_case)]
pub fn WUPS_PLUGIN_LICENSE(input: &[MacroToken]) -> (res: Result<MetaEntry, MacroParseError>)
    ensures
        match spec_parse_lit_str(input@) {
            Ok(value) => res matches Ok(e) && is_meta_entry(e, "license"@, value),
            Err(err) => res == Err::<MetaEntry, _>(err),
        },
{
    keyed_meta("license", input)
}

/// The contents of the `wups` entry: `wups=` followed by the loader's
/// version string, given with its terminating NUL.
pub open spec fn wups_version_data(version_with_nul: Seq<u8>) -> Seq<u8> {
    seq!['w' as u8, 'u' as u8, 'p' as u8, 's' as u8, '=' as u8] + version_with_nul
}

/// Builds the `wups` entry's contents from the loader's version string.
pub fn wups_version_meta(version_with_nul: &[u8]) -> (data: Vec<u8>)
    ensures
        data@ == wups_version_data(version_with_nul@),
        data@.len() == version_with_nul@.len() + 5,
{
    let mut data: Vec<u8> = Vec::new();
    data.push(0x77u8);
    data.push(0x75u8);
    data.push(0x70u8);
    data.push(0x73u8);
    data.push(0x3du8);
    append_bytes(&mut data, version_with_nul);
    data
}

/// An entry can be read back: the first `=` ends the key, the first NUL ends
/// the entry, and the bytes in between decode to the key and the value,
/// provided the key holds neither `=` nor NUL and the value no NUL.
pub proof fn lemma_meta_data_reads_back(key: Seq<char>, value: Seq<char>)
    requires
        !key.contains('='),
        !key.contains('\0'),
        !value.contains('\0'),
    ensures
        ({
            let d = meta_data(key, value);
            let k = encode_utf8(key).len() as int;
            &&& d.len() == k + encode_utf8(value).len() + 2
            &&& d[k] == '=' as u8
            &&& forall|i: int| 0 <= i < k ==> d[i] != '=' as u8
            &&& d[d.len() - 1] == 0u8
            &&& forall|i: int| 0 <= i < d.len() - 1 ==> d[i] != 0u8
            &&& decode_utf8(d.subrange(0, k)) == key
            &&& decode_utf8(d.subrange(k + 1, d.len() - 1)) == value
        }),
{
    let d = meta_data(key, value);
    let ek = encode_utf8(key);
    let ev = encode_utf8(value);
    let k = ek.len() as int;
    assert(d.subrange(0, k) =~= ek);
    assert(d.subrange(k + 1, d.len() - 1) =~= ev);
    encode_utf8_decode_utf8(key);
    encode_utf8_decode_utf8(value);
    assert forall|i: int| 0 <= i < k implies d[i] != '=' as u8 by {
        assert(d[i] == ek[i]);
        if ek[i] == '=' as u8 {
            lemma_ascii_byte_in_encoding(key, '=' as u8, i);
        }
    }
    assert forall|i: int| 0 <= i < d.len() - 1 implies d[i] != 0u8 by {
        if i < k {
            assert(d[i] == ek[i]);
            if ek[i] == 0u8 {
                lemma_ascii_byte_in_encoding(key, 0u8, i);
            }
        } else if i > k {
            assert(d[i] == ev[i - k - 1]);
            if ev[i - k - 1] == 0u8 {
                lemma_ascii_byte_in_encoding(value, 0u8, i - k - 1);
            }
        }
    }
}

} // verus!
