use std::collections::HashSet;
use wups_macros::clock::{build_time_at, format_build_time, read_clock, UtcDateTime};
use wups_macros::plugin::{define_plugin, plugin_definition, PluginNameError, WUPS_PLUGIN_NAME};
use wups_macros::tokens::{MacroParseError, MacroToken, ParseErrorKind};

fn at(year: i32, month: u32, day: u32, hour: u32, minute: u32, second: u32, nanosecond: u32) -> UtcDateTime {
    UtcDateTime { year, month, day, hour, minute, second, nanosecond }
}

#[test]
fn build_time_format() {
    let t = at(1996, 2, 12, 23, 59, 1, 0);
    assert_eq!(format_build_time(&t).unwrap(), "Feb 12 1996 23:59:01");
    let t = at(2024, 11, 3, 7, 5, 9, 123_456_789);
    assert_eq!(format_build_time(&t).unwrap(), "Nov 03 2024 07:05:09");
}

#[test]
fn build_time_leap_second() {
    let t = at(2016, 12, 31, 23, 59, 59, 1_500_000_000);
    assert_eq!(format_build_time(&t).unwrap(), "Dec 31 2016 23:59:60");
}

#[test]
fn build_time_invalid_date() {
    assert!(format_build_time(&at(2023, 2, 29, 0, 0, 0, 0)).is_none());
    assert!(format_build_time(&at(2024, 2, 29, 0, 0, 0, 0)).is_some());
    assert!(format_build_time(&at(2023, 4, 31, 0, 0, 0, 0)).is_none());
    assert!(format_build_time(&at(2023, 4, 30, 12, 0, 59, 1_000_000_000)).is_some());
    assert!(format_build_time(&at(2023, 4, 30, 12, 0, 58, 1_000_000_000)).is_none());
    assert!(format_build_time(&at(2023, 4, 30, 24, 0, 0, 0)).is_none());
}

#[test]
fn build_time_of_clock_readings() {
    // 1996-02-12 23:59:01 UTC
    assert_eq!(build_time_at(Some((824_169_541, 0))).unwrap(), "Feb 12 1996 23:59:01");
    assert_eq!(build_time_at(Some((0, 999_999_999))).unwrap(), "Jan 01 1970 00:00:00");
    assert_eq!(build_time_at(None), None);
    assert_eq!(build_time_at(Some((9_000_000_000_000_000, 0))), None);
    // Seconds beyond i64 wrap around as they do in `Utc::now`.
    assert_eq!(build_time_at(Some((u64::MAX, 0))).unwrap(), "Dec 31 1969 23:59:59");
}

#[test]
fn read_clock_gives_a_time_after_2020() {
    let (secs, nanos) = read_clock().unwrap();
    assert!(nanos < 1_000_000_000);
    assert!(secs > 1_577_836_800);
    let text = build_time_at(Some((secs, nanos))).unwrap();
    assert_eq!(text.len(), 20);
    let bytes = text.as_bytes();
    assert_eq!(bytes[3], b' ');
    assert_eq!(bytes[6], b' ');
    assert_eq!(bytes[11], b' ');
    assert_eq!(bytes[14], b':');
    assert_eq!(bytes[17], b':');
}

#[test]
fn define_plugin_at_readings() {
    let d = define_plugin("P", Some((824_169_541, 0))).unwrap();
    assert_eq!(d.build_timestamp, "Feb 12 1996 23:59:01");
    assert_eq!(d.build_timestamp_meta.data, b"buildtimestamp=Feb 12 1996 23:59:01\0".to_vec());
    assert_eq!(define_plugin("P", None).err(), Some(PluginNameError::ClockBeforeEpoch));
    assert_eq!(define_plugin("P", Some((9_000_000_000_000_000, 0))).err(), Some(PluginNameError::ClockOutOfRange));
}

#[test]
fn plugin_definition_entries() {
    let d = plugin_definition("Example", "Feb 12 1996 23:59:01");
    assert_eq!(d.name, "Example");
    assert_eq!(d.name_meta.symbol, "wups_meta_name");
    assert_eq!(d.name_meta.data, b"name=Example\0".to_vec());
    assert_eq!(d.wups_meta_symbol, "wups_meta_wups");
    assert_eq!(d.build_timestamp_meta.data, b"buildtimestamp=Feb 12 1996 23:59:01\0".to_vec());
    assert_eq!(d.storage_id_meta.data, b"storage_id=Example\0".to_vec());
    assert_eq!(d.plugin_name_symbol, "wups_meta_plugin_name");
    assert_eq!(d.plugin_name_data, b"Example\0".to_vec());
    assert_eq!(
        d.info_dump_meta.data,
        b"info_dump=(plugin: Example; wups: 0.8.1; buildtime: Feb 12 1996 23:59:01)\0".to_vec()
    );
    assert_eq!(
        d.linking_order_meta.data,
        b"info_linking_order=Loading \"Example\" failed.\nFunction \"wut_get_thread_specific\" returned unexpected value.\nPlease check linking order (expected \"-lwups -lwut\")\0".to_vec()
    );
    assert_eq!(d.linking_order_meta.symbol, "wups_meta_info_linking_order");
}

#[test]
fn plugin_definition_hooks() {
    let d = plugin_definition("P", "t");
    let libs: Vec<(&str, &str, bool)> = vec![
        ("malloc", "wut_malloc", false),
        ("sockets", "wut_socket", true),
        ("newlib", "wut_newlib", false),
        ("stdcpp", "wut_stdcpp", false),
        ("devoptab", "wut_devoptab", false),
    ];
    assert_eq!(d.wut_libraries.len(), 5);
    for (w, (lib, library, checks)) in d.wut_libraries.iter().zip(libs) {
        assert_eq!(w.init.target, format!("on_init_wut_{}", lib));
        assert_eq!(w.fini.target, format!("on_fini_wut_{}", lib));
        assert_eq!(w.init.symbol, format!("wups_hooks_on_init_wut_{}", lib));
        assert_eq!(
            w.fini.hook_type_path,
            format!("wups::bindings::wups_loader_hook_type_t::WUPS_LOADER_HOOK_FINI_WUT_{}", lib.to_uppercase())
        );
        assert_eq!(w.library_init, format!("__init_{}", library));
        assert_eq!(w.library_fini, format!("__fini_{}", library));
        assert_eq!(w.checks_presence, checks);
    }
    assert_eq!(d.init_wrapper_hook.symbol, "wups_hooks___init_wrapper");
    assert_eq!(d.fini_wrapper_hook.target, "__fini_wrapper");
    assert_eq!(d.linking_check_slot, 0x13371337);
    assert_eq!(d.linking_check_value, 0x42424242);
    assert_eq!(d.config_hook.target, "wups_init_config_functions");
    assert_eq!(d.storage_hook.hook_type_path, "wups::bindings::wups_loader_hook_type_t::WUPS_LOADER_HOOK_INIT_STORAGE");
}

#[test]
fn plugin_item_names_are_distinct() {
    let d = plugin_definition("wups", "name");
    let mut names: Vec<String> = vec![
        d.name_meta.symbol.clone(),
        d.wups_meta_symbol.clone(),
        d.build_timestamp_meta.symbol.clone(),
        d.storage_id_meta.symbol.clone(),
        d.plugin_name_symbol.clone(),
        d.info_dump_meta.symbol.clone(),
        d.linking_order_meta.symbol.clone(),
    ];
    for w in &d.wut_libraries {
        names.push(w.init.symbol.clone());
        names.push(w.fini.symbol.clone());
        names.push(w.init.target.clone());
        names.push(w.fini.target.clone());
    }
    for h in [&d.init_wrapper_hook, &d.fini_wrapper_hook, &d.config_hook, &d.storage_hook] {
        names.push(h.symbol.clone());
        names.push(h.target.clone());
    }
    let set: HashSet<&String> = names.iter().collect();
    assert_eq!(names.len(), 35);
    assert_eq!(set.len(), 35);
}

#[test]
fn wups_plugin_name_from_literal() {
    let d = WUPS_PLUGIN_NAME(&[MacroToken::Str("My Plugin".to_string())]).unwrap();
    assert_eq!(d.wut_libraries[4].library_init, "__init_wut_devoptab");
    assert_eq!(d.name, "My Plugin");
    assert_eq!(d.plugin_name_data, b"My Plugin\0".to_vec());
    let mut dump = b"info_dump=(plugin: My Plugin; wups: 0.8.1; buildtime: ".to_vec();
    dump.extend_from_slice(d.build_timestamp.as_bytes());
    dump.extend_from_slice(b")\0");
    assert_eq!(d.info_dump_meta.data, dump);
    assert_eq!(d.build_timestamp.len(), 20);
}

#[test]
fn wups_plugin_name_rejects_bad_input() {
    let r = WUPS_PLUGIN_NAME(&[MacroToken::Ident("x".to_string())]);
    assert_eq!(
        r.err(),
        Some(PluginNameError::Parse(MacroParseError { kind: ParseErrorKind::ExpectedString, position: 0 }))
    );
}
