use wups_macros::meta::{
    meta_entry, wups_meta, wups_version_meta, WUPS_PLUGIN_AUTHOR, WUPS_PLUGIN_DESCRIPTION,
    WUPS_PLUGIN_LICENSE, WUPS_PLUGIN_VERSION,
};
use wups_macros::tokens::{MacroParseError, MacroToken, ParseErrorKind};

fn ident(s: &str) -> MacroToken {
    MacroToken::Ident(s.to_string())
}

fn lit(s: &str) -> MacroToken {
    MacroToken::Str(s.to_string())
}

fn err(kind: ParseErrorKind, position: usize) -> MacroParseError {
    MacroParseError { kind, position }
}

#[test]
fn meta_entry_is_key_equals_value_nul() {
    let e = meta_entry("name", "Example Plugin");
    assert_eq!(e.symbol, "wups_meta_name");
    assert_eq!(e.data, b"name=Example Plugin\0".to_vec());
    assert_eq!(e.data.len(), 20);
}

#[test]
fn meta_entry_encodes_utf8() {
    let e = meta_entry("author", "Zoë ☃");
    let mut expected = b"author=".to_vec();
    expected.extend_from_slice("Zoë ☃".as_bytes());
    expected.push(0);
    assert_eq!(e.data, expected);
    assert_eq!(e.data.len(), 7 + 8 + 1);
}

#[test]
fn meta_entry_empty_value() {
    let e = meta_entry("license", "");
    assert_eq!(e.data, b"license=\0".to_vec());
}

#[test]
fn meta_entry_reads_back() {
    // The first '=' ends the key, the only NUL ends the entry.
    let e = meta_entry("description", "a=b, c=d");
    let eq = e.data.iter().position(|b| *b == b'=').unwrap();
    let nul = e.data.iter().position(|b| *b == 0).unwrap();
    assert_eq!(nul, e.data.len() - 1);
    assert_eq!(std::str::from_utf8(&e.data[..eq]).unwrap(), "description");
    assert_eq!(std::str::from_utf8(&e.data[eq + 1..nul]).unwrap(), "a=b, c=d");
}

#[test]
fn wups_meta_reads_key_and_value() {
    let e = wups_meta(&[ident("version"), MacroToken::Punct(','), lit("v1.2")]).unwrap();
    assert_eq!(e.symbol, "wups_meta_version");
    assert_eq!(e.data, b"version=v1.2\0".to_vec());
}

#[test]
fn wups_meta_rejects_missing_key() {
    let r = wups_meta(&[lit("x"), MacroToken::Punct(','), lit("v")]);
    assert_eq!(r.err(), Some(err(ParseErrorKind::ExpectedIdent, 0)));
    let r = wups_meta(&[]);
    assert_eq!(r.err(), Some(err(ParseErrorKind::ExpectedIdent, 0)));
}

#[test]
fn wups_meta_rejects_missing_comma() {
    let r = wups_meta(&[ident("name"), MacroToken::Punct(';'), lit("v")]);
    assert_eq!(r.err(), Some(err(ParseErrorKind::ExpectedComma, 1)));
    let r = wups_meta(&[ident("name")]);
    assert_eq!(r.err(), Some(err(ParseErrorKind::ExpectedComma, 1)));
}

#[test]
fn wups_meta_rejects_non_string_value() {
    let r = wups_meta(&[ident("name"), MacroToken::Punct(','), ident("v")]);
    assert_eq!(r.err(), Some(err(ParseErrorKind::ExpectedString, 2)));
    let r = wups_meta(&[ident("name"), MacroToken::Punct(','), MacroToken::Other]);
    assert_eq!(r.err(), Some(err(ParseErrorKind::ExpectedString, 2)));
}

#[test]
fn wups_meta_rejects_trailing_tokens() {
    let r = wups_meta(&[ident("name"), MacroToken::Punct(','), lit("v"), MacroToken::Punct(',')]);
    assert_eq!(r.err(), Some(err(ParseErrorKind::UnexpectedToken, 3)));
}

#[test]
fn plugin_info_macros_use_their_keys() {
    let input = [lit("text")];
    assert_eq!(WUPS_PLUGIN_DESCRIPTION(&input).unwrap().data, b"description=text\0".to_vec());
    assert_eq!(WUPS_PLUGIN_VERSION(&input).unwrap().data, b"version=text\0".to_vec());
    assert_eq!(WUPS_PLUGIN_AUTHOR(&input).unwrap().data, b"author=text\0".to_vec());
    assert_eq!(WUPS_PLUGIN_LICENSE(&input).unwrap().data, b"license=text\0".to_vec());
    assert_eq!(WUPS_PLUGIN_LICENSE(&input).unwrap().symbol, "wups_meta_license");
}

#[test]
fn plugin_info_macros_reject_bad_input() {
    assert_eq!(WUPS_PLUGIN_AUTHOR(&[]).err(), Some(err(ParseErrorKind::ExpectedString, 0)));
    assert_eq!(
        WUPS_PLUGIN_VERSION(&[lit("a"), lit("b")]).err(),
        Some(err(ParseErrorKind::UnexpectedToken, 1))
    );
    assert_eq!(
        WUPS_PLUGIN_DESCRIPTION(&[ident("a")]).err(),
        Some(err(ParseErrorKind::ExpectedString, 0))
    );
}

#[test]
fn wups_version_entry_prefixes_wups() {
    let data = wups_version_meta(b"0.8.1\0");
    assert_eq!(data, b"wups=0.8.1\0".to_vec());
    assert_eq!(data.len(), 6 + 5);
    assert_eq!(wups_version_meta(b""), b"wups=".to_vec());
}
