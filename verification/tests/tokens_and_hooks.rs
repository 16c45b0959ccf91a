use wups_macros::hooks::{
    expand_lifecycle_attribute, first_invalid_attr_arg, hook_entry, on_acquired_foreground,
    on_application_exit, on_application_request_exit, on_application_start, on_deinitialize,
    on_initialize, on_release_foreground, wups_hook_ex, AttrArg, AttributeInputError,
    LifecycleHook,
};
use wups_macros::input::{read_tokens, RawToken};
use wups_macros::tokens::{parse_lit_str, Hook, MacroParseError, MacroToken, Meta, ParseErrorKind};

fn ident(s: &str) -> MacroToken {
    MacroToken::Ident(s.to_string())
}

fn err(kind: ParseErrorKind, position: usize) -> MacroParseError {
    MacroParseError { kind, position }
}

#[test]
fn meta_parse_accepts_ident_comma_string() {
    let m = Meta::parse(&[ident("k"), MacroToken::Punct(','), MacroToken::Str("v".to_string())]).unwrap();
    assert_eq!(m.name, "k");
    assert_eq!(m.value, "v");
}

#[test]
fn hook_parse_accepts_two_idents() {
    let h = Hook::parse(&[ident("INIT_PLUGIN"), MacroToken::Punct(','), ident("init")]).unwrap();
    assert_eq!(h.hook_type, "INIT_PLUGIN");
    assert_eq!(h.hook_target, "init");
}

#[test]
fn hook_parse_errors() {
    assert_eq!(Hook::parse(&[]).err(), Some(err(ParseErrorKind::ExpectedIdent, 0)));
    assert_eq!(
        Hook::parse(&[ident("A"), MacroToken::Other]).err(),
        Some(err(ParseErrorKind::ExpectedComma, 1))
    );
    assert_eq!(
        Hook::parse(&[ident("A"), MacroToken::Punct(','), MacroToken::Str("f".to_string())]).err(),
        Some(err(ParseErrorKind::ExpectedIdent, 2))
    );
}

#[test]
fn parsers_leave_trailing_tokens_to_the_caller() {
    let h = Hook::parse(&[ident("A"), MacroToken::Punct(','), ident("f"), ident("g")]).unwrap();
    assert_eq!(h.hook_type, "A");
    assert_eq!(h.hook_target, "f");
    let m = Meta::parse(&[ident("k"), MacroToken::Punct(','), MacroToken::Str("v".to_string()), MacroToken::Other])
        .unwrap();
    assert_eq!(m.name, "k");
    assert_eq!(m.value, "v");
    let r = wups_hook_ex(&[ident("A"), MacroToken::Punct(','), ident("f"), ident("g")]);
    assert_eq!(r.err(), Some(err(ParseErrorKind::UnexpectedToken, 3)));
}

#[test]
fn lit_str_parse() {
    assert_eq!(parse_lit_str(&[MacroToken::Str("x".to_string())]).unwrap(), "x");
    assert_eq!(parse_lit_str(&[MacroToken::Other]).err(), Some(err(ParseErrorKind::ExpectedString, 0)));
}

#[test]
fn hook_entry_names() {
    let h = hook_entry("INIT_WUT_MALLOC", "on_init_wut_malloc");
    assert_eq!(h.symbol, "wups_hooks_on_init_wut_malloc");
    assert_eq!(h.hook_type_path, "wups::bindings::wups_loader_hook_type_t::WUPS_LOADER_HOOK_INIT_WUT_MALLOC");
    assert_eq!(h.target, "on_init_wut_malloc");
}

#[test]
fn wups_hook_ex_reads_input() {
    let h = wups_hook_ex(&[ident("APPLICATION_ENDS"), MacroToken::Punct(','), ident("bye")]).unwrap();
    assert_eq!(h.symbol, "wups_hooks_bye");
    assert_eq!(h.hook_type_path, "wups::bindings::wups_loader_hook_type_t::WUPS_LOADER_HOOK_APPLICATION_ENDS");
    assert_eq!(h.target, "bye");
    let r = wups_hook_ex(&[ident("APPLICATION_ENDS"), MacroToken::Punct(',')]);
    assert_eq!(r.err(), Some(err(ParseErrorKind::ExpectedIdent, 2)));
}

#[test]
fn first_invalid_attr_arg_finds_first() {
    assert_eq!(first_invalid_attr_arg(&[]), None);
    let args = [AttrArg::Ident("Udp".to_string()), AttrArg::NotAPath, AttrArg::LongPath];
    assert_eq!(first_invalid_attr_arg(&args), Some(1));
    let args = [AttrArg::Ident("Udp".to_string()), AttrArg::LongPath];
    assert_eq!(first_invalid_attr_arg(&args), Some(1));
    let args = [AttrArg::Ident("Udp".to_string()), AttrArg::Ident("Cafe".to_string())];
    assert_eq!(first_invalid_attr_arg(&args), None);
}

#[test]
fn attribute_without_channels_has_no_logger() {
    let x = on_initialize(&[], "init_plugin");
    assert_eq!(x.function, "init_plugin");
    assert_eq!(x.hook.symbol, "wups_hooks_init_plugin");
    assert_eq!(x.hook.hook_type_path, "wups::bindings::wups_loader_hook_type_t::WUPS_LOADER_HOOK_INIT_PLUGIN");
    assert!(x.logger_channels.is_empty());
    assert!(!x.uses_logger);
}

#[test]
fn attribute_with_channels_opens_logger() {
    let args = [AttrArg::Ident("Udp".to_string()), AttrArg::Ident("Module".to_string())];
    let x = on_application_exit(&args, "f");
    assert_eq!(x.logger_channels, vec!["Udp".to_string(), "Module".to_string()]);
    assert!(x.uses_logger);
    assert_eq!(x.hook.hook_type_path, "wups::bindings::wups_loader_hook_type_t::WUPS_LOADER_HOOK_APPLICATION_ENDS");
}

#[test]
fn lifecycle_attributes_hook_types() {
    let prefix = "wups::bindings::wups_loader_hook_type_t::WUPS_LOADER_HOOK_";
    let cases: Vec<(wups_macros::hooks::AttributeExpansion, &str)> = vec![
        (on_initialize(&[], "f"), "INIT_PLUGIN"),
        (on_deinitialize(&[], "f"), "DEINIT_PLUGIN"),
        (on_application_start(&[], "f"), "APPLICATION_STARTS"),
        (on_release_foreground(&[], "f"), "RELEASE_FOREGROUND"),
        (on_acquired_foreground(&[], "f"), "ACQUIRED_FOREGROUND"),
        (on_application_request_exit(&[], "f"), "APPLICATION_REQUESTS_EXIT"),
        (on_application_exit(&[], "f"), "APPLICATION_ENDS"),
    ];
    for (x, t) in cases {
        assert_eq!(x.hook.hook_type_path, format!("{}{}", prefix, t));
        assert_eq!(x.hook.target, "f");
    }
}

#[test]
fn expand_attribute_from_text() {
    let x = expand_lifecycle_attribute(LifecycleHook::Initialize, "Udp, Module", "fn start() { let _ = 1; }")
        .unwrap();
    assert_eq!(x.function, "start");
    assert_eq!(x.hook.symbol, "wups_hooks_start");
    assert_eq!(x.hook.hook_type_path, "wups::bindings::wups_loader_hook_type_t::WUPS_LOADER_HOOK_INIT_PLUGIN");
    assert_eq!(x.logger_channels, vec!["Udp".to_string(), "Module".to_string()]);
    assert!(x.uses_logger);
    let x = expand_lifecycle_attribute(LifecycleHook::ReleaseForeground, "", "pub fn away() {}").unwrap();
    assert!(!x.uses_logger);
    assert_eq!(x.hook.hook_type_path, "wups::bindings::wups_loader_hook_type_t::WUPS_LOADER_HOOK_RELEASE_FOREGROUND");
}

#[test]
fn expand_attribute_errors() {
    let item = "fn f() {}";
    assert_eq!(
        expand_lifecycle_attribute(LifecycleHook::Initialize, "Udp, wut::Cafe", item).err(),
        Some(AttributeInputError::ArgumentNotAnIdent(1))
    );
    assert_eq!(
        expand_lifecycle_attribute(LifecycleHook::Initialize, "level = 3", item).err(),
        Some(AttributeInputError::ArgumentNotAPath(0))
    );
    assert_eq!(
        expand_lifecycle_attribute(LifecycleHook::Initialize, "Udp Cafe", item).err(),
        Some(AttributeInputError::Arguments)
    );
    assert_eq!(
        expand_lifecycle_attribute(LifecycleHook::Initialize, "Udp", "struct S;").err(),
        Some(AttributeInputError::Item)
    );
    // The arguments are checked before the item is read.
    assert_eq!(
        expand_lifecycle_attribute(LifecycleHook::Initialize, "a::b", "struct S;").err(),
        Some(AttributeInputError::ArgumentNotAnIdent(0))
    );
}

#[test]
fn read_tokens_as_syn_sees_them() {
    let raw = vec![
        RawToken::Ident("name".to_string()),
        RawToken::Punct(','),
        RawToken::Literal("\"a\\nb\"".to_string()),
        RawToken::Ident("fn".to_string()),
        RawToken::Ident("r#type".to_string()),
        RawToken::Literal("42".to_string()),
        RawToken::Group { invisible: false, tokens: vec![RawToken::Ident("x".to_string())] },
    ];
    let toks = read_tokens(&raw);
    assert_eq!(toks.len(), 7);
    assert!(matches!(&toks[0], MacroToken::Ident(s) if s == "name"));
    assert!(matches!(&toks[1], MacroToken::Punct(',')));
    assert!(matches!(&toks[2], MacroToken::Str(s) if s == "a\nb"));
    assert!(matches!(&toks[3], MacroToken::Other));
    assert!(matches!(&toks[4], MacroToken::Ident(s) if s == "r#type"));
    assert!(matches!(&toks[5], MacroToken::Other));
    assert!(matches!(&toks[6], MacroToken::Other));
}

#[test]
fn read_tokens_looks_through_invisible_groups() {
    let raw = vec![
        RawToken::Group {
            invisible: true,
            tokens: vec![
                RawToken::Ident("key".to_string()),
                RawToken::Group { invisible: true, tokens: vec![RawToken::Punct(',')] },
            ],
        },
        RawToken::Literal("\"v\"".to_string()),
    ];
    let toks = read_tokens(&raw);
    let e = wups_macros::meta::wups_meta(&toks).unwrap();
    assert_eq!(e.data, b"key=v\0".to_vec());
}
