use vstd::prelude::*;
use vstd::utf8::encode_utf8;
use crate::bytes::append_bytes;
use crate::clock::{
    UtcDateTime, build_time_at, build_time_of_reading, is_clock_reading, is_valid_utc, read_clock,
    stated_build_time_text,
};
use crate::hooks::{HookEntry, hook_entry, hook_type_path, is_hook_entry};
use crate::meta::{MetaEntry, is_meta_entry, meta_entry, meta_symbol};
use crate::tokens::{MacroParseError, MacroToken, parse_lit_str, spec_parse_lit_str};

verus! {

/// The hooks that set up and tear down one of the wut libraries around the
/// plugin: two exported functions `on_init_..`/`on_fini_..`, hooked at
/// `INIT_..`/`FINI_..`, which call into the library.
#[derive(Debug)]
pub struct WutLibraryHooks {
    pub init: HookEntry,
    pub fini: HookEntry,
    /// The library functions the two hooks declare and call.
    pub library_init: String,
    pub library_fini: String,
    /// Whether the hooks call only when the library function is linked in.
    pub checks_presence: bool,
}

/// `w` hooks the library whose hook types end in `hook_suffix`, whose
/// exported functions end in `function_suffix`, and whose own set-up and
/// tear-down functions end in `library_suffix`.
pub open spec fn is_wut_library_hooks(
    w: WutLibraryHooks,
    hook_suffix: Seq<char>,
    function_suffix: Seq<char>,
    library_suffix: Seq<char>,
    checks_presence: bool,
) -> bool {
    &&& is_hook_entry(w.init, "INIT_"@ + hook_suffix, "on_init_"@ + function_suffix)
    &&& is_hook_entry(w.fini, "FINI_"@ + hook_suffix, "on_fini_"@ + function_suffix)
    &&& w.library_init@ == "__init_"@ + library_suffix
    &&& w.library_fini@ == "__fini_"@ + library_suffix
    &&& w.checks_presence == checks_presence
}

fn wut_library_hooks(
    hook_suffix: &str,
    function_suffix: &str,
    library_suffix: &str,
    checks_presence: bool,
) -> (w: WutLibraryHooks)
    ensures
        is_wut_library_hooks(
            w,
            hook_suffix@,
            function_suffix@,
            library_suffix@,
            checks_presence,
        ),
{
    let init_type = String::from_str("INIT_").concat(hook_suffix);
    let fini_type = String::from_str("FINI_").concat(hook_suffix);
    let init_fn = String::from_str("on_init_").concat(function_suffix);
    let fini_fn = String::from_str("on_fini_").concat(function_suffix);
    WutLibraryHooks {
        init: hook_entry(init_type.as_str(), init_fn.as_str()),
        fini: hook_entry(fini_type.as_str(), fini_fn.as_str()),
        library_init: String::from_str("__init_").concat(library_suffix),
        library_fini: String::from_str("__fini_").concat(library_suffix),
        checks_presence,
    }
}

/// Everything `WUPS_PLUGIN_NAME` places in a plugin, in the order it is emitted.
#[derive(Debug)]
pub struct PluginDefinition {
    /// The plugin's name, also exported as `PLUGIN_NAME`.
    pub name: String,
    /// The build time the metadata records.
    pub build_timestamp: String,
    pub name_meta: MetaEntry,
    /// The symbol of the `wups` entry, whose contents the plugin computes
    /// from the loader's version (see `wups_version_meta`).
    pub wups_meta_symbol: String,
    pub build_timestamp_meta: MetaEntry,
    /// malloc, sockets, newlib, stdcpp and devoptab, in this order.
    pub wut_libraries: Vec<WutLibraryHooks>,
    pub init_wrapper_hook: HookEntry,
    pub fini_wrapper_hook: HookEntry,
    /// Before starting the plugin, the init wrapper reads the thread-specific
    /// slot `linking_check_slot`; unless it holds `linking_check_value`
    /// (which wups stores there when linked before wut), loading stops with
    /// the linking-order message.
    pub linking_check_slot: u32,
    pub linking_check_value: u32,
    pub config_hook: HookEntry,
    pub storage_id_meta: MetaEntry,
    pub storage_hook: HookEntry,
    /// The symbol and contents of the plugin's name entry: the name and a NUL.
    pub plugin_name_symbol: String,
    pub plugin_name_data: Vec<u8>,
    pub info_dump_meta: MetaEntry,
    pub linking_order_meta: MetaEntry,
}

/// The summary the loader prints for the plugin.
pub open spec fn info_dump_text(name: Seq<char>, timestamp: Seq<char>) -> Seq<char> {
    "(plugin: "@ + name + "; wups: "@ + "0.8.1"@ + "; buildtime: "@ + timestamp + ")"@
}

/// The message shown when the plugin was linked against wups and wut in the
/// wrong order.
pub open spec fn linking_order_text(name: Seq<char>) -> Seq<char> {
    "Loading \""@ + name
        + "\" failed.\nFunction \"wut_get_thread_specific\" returned unexpected value.\nPlease check linking order (expected \"-lwups -lwut\")"@
}

/// `d` is the definition of the plugin `name` built at `timestamp`.
pub open spec fn is_plugin_definition(d: PluginDefinition, name: Seq<char>, timestamp: Seq<char>) -> bool {
    &&& d.name@ == name
    &&& d.build_timestamp@ == timestamp
    &&& is_meta_entry(d.name_meta, "name"@, name)
    &&& d.wups_meta_symbol@ == meta_symbol("wups"@)
    &&& is_meta_entry(d.build_timestamp_meta, "buildtimestamp"@, timestamp)
    &&& d.wut_libraries@.len() == 5
    &&& is_wut_library_hooks(d.wut_libraries@[0], "WUT_MALLOC"@, "wut_malloc"@, "wut_malloc"@, false)
    &&& is_wut_library_hooks(d.wut_libraries@[1], "WUT_SOCKETS"@, "wut_sockets"@, "wut_socket"@, true)
    &&& is_wut_library_hooks(d.wut_libraries@[2], "WUT_NEWLIB"@, "wut_newlib"@, "wut_newlib"@, false)
    &&& is_wut_library_hooks(d.wut_libraries@[3], "WUT_STDCPP"@, "wut_stdcpp"@, "wut_stdcpp"@, false)
    &&& is_wut_library_hooks(d.wut_libraries@[4], "WUT_DEVOPTAB"@, "wut_devoptab"@, "wut_devoptab"@, false)
    &&& is_hook_entry(d.init_wrapper_hook, "INIT_WRAPPER"@, "__init_wrapper"@)
    &&& is_hook_entry(d.fini_wrapper_hook, "FINI_WRAPPER"@, "__fini_wrapper"@)
    &&& d.linking_check_slot == 0x13371337
    &&& d.linking_check_value == 0x42424242
    &&& is_hook_entry(d.config_hook, "INIT_CONFIG"@, "wups_init_config_functions"@)
    &&& is_meta_entry(d.storage_id_meta, "storage_id"@, name)
    &&& is_hook_entry(d.storage_hook, "INIT_STORAGE"@, "init_storage"@)
    &&& d.plugin_name_symbol@ == meta_symbol("plugin_name"@)
    &&& d.plugin_name_data@ == encode_utf8(name) + seq![0u8]
    &&& is_meta_entry(d.info_dump_meta, "info_dump"@, info_dump_text(name, timestamp))
    &&& is_meta_entry(d.linking_order_meta, "info_linking_order"@, linking_order_text(name))
}

/// Builds the definition of the plugin `name` built at `timestamp`.
pub fn plugin_definition(name: &str, timestamp: &str) -> (d: PluginDefinition)
    ensures
        is_plugin_definition(d, name@, timestamp@),
{
    let mut wut_libraries: Vec<WutLibraryHooks> = Vec::new();
    wut_libraries.push(wut_library_hooks("WUT_MALLOC", "wut_malloc", "wut_malloc", false));
    wut_libraries.push(wut_library_hooks("WUT_SOCKETS", "wut_sockets", "wut_socket", true));
    wut_libraries.push(wut_library_hooks("WUT_NEWLIB", "wut_newlib", "wut_newlib", false));
    wut_libraries.push(wut_library_hooks("WUT_STDCPP", "wut_stdcpp", "wut_stdcpp", false));
    wut_libraries.push(wut_library_hooks("WUT_DEVOPTAB", "wut_devoptab", "wut_devoptab", false));

    let mut plugin_name_data: Vec<u8> = Vec::new();
    append_bytes(&mut plugin_name_data, name.as_bytes());
    plugin_name_data.push(0u8);

    let info_dump = String::from_str("(plugin: ").concat(name).concat("; wups: ").concat(
        "0.8.1",
    ).concat("; buildtime: ").concat(timestamp).concat(")");
    let linking_order = String::from_str("Loading \"").concat(name).concat(
        "\" failed.\nFunction \"wut_get_thread_specific\" returned unexpected value.\nPlease check linking order (expected \"-lwups -lwut\")",
    );

    assert(plugin_name_data@ == encode_utf8(name@) + seq![0u8]);
    PluginDefinition {
        name: String::from_str(name),
        build_timestamp: String::from_str(timestamp),
        name_meta: meta_entry("name", name),
        wups_meta_symbol: String::from_str("wups_meta_").concat("wups"),
        build_timestamp_meta: meta_entry("buildtimestamp", timestamp),
        wut_libraries,
        init_wrapper_hook: hook_entry("INIT_WRAPPER", "__init_wrapper"),
        fini_wrapper_hook: hook_entry("FINI_WRAPPER", "__fini_wrapper"),
        linking_check_slot: 0x13371337,
        linking_check_value: 0x42424242,
        config_hook: hook_entry("INIT_CONFIG", "wups_init_config_functions"),
        storage_id_meta: meta_entry("storage_id", name),
        storage_hook: hook_entry("INIT_STORAGE", "init_storage"),
        plugin_name_symbol: String::from_str("wups_meta_").concat("plugin_name"),
        plugin_name_data,
        info_dump_meta: meta_entry("info_dump", info_dump.as_str()),
        linking_order_meta: meta_entry("info_linking_order", linking_order.as_str()),
    }
}

/// Why `WUPS_PLUGIN_NAME` produced no definition.
#[derive(Debug, Clone, Copy, PartialEq, Eq, Structural)]
pub enum PluginNameError {
    /// The input is not a single string literal.
    Parse(MacroParseError),
    /// The system clock reads before 1970-01-01 00:00:00 UTC.
    ClockBeforeEpoch,
    /// The clock's reading lies beyond the dates chrono can represent.
    ClockOutOfRange,
}

/// A clock reading between 1970 and the year 10000, which chrono represents
/// and the build time shows with four year digits.
pub open spec fn is_ordinary_reading(reading: Option<(u64, u32)>) -> bool {
    reading matches Some((secs, nanos)) && secs < 253_402_300_800 && nanos < 1_000_000_000
}

/// A clock reading within the dates chrono represents.
pub open spec fn is_representable_reading(reading: Option<(u64, u32)>) -> bool {
    reading matches Some((secs, nanos)) && secs < 8_000_000_000_000 && nanos < 1_000_000_000
}

/// The error for a clock reading that yields no build time.
pub open spec fn clock_error(reading: Option<(u64, u32)>) -> PluginNameError {
    if reading is None {
        PluginNameError::ClockBeforeEpoch
    } else {
        PluginNameError::ClockOutOfRange
    }
}

/// Defines the plugin `name`, stamped with the build time of the clock
/// reading `reading`.
pub fn define_plugin(name: &str, reading: Option<(u64, u32)>) -> (res: Result<PluginDefinition, PluginNameError>)
    ensures
        match build_time_of_reading(reading) {
            Some(timestamp) => res matches Ok(d) && is_plugin_definition(d, name@, timestamp),
            None => res == Err::<PluginDefinition, _>(clock_error(reading)),
        },
        is_representable_reading(reading) ==> res is Ok,
        is_ordinary_reading(reading) ==> (res matches Ok(d) && exists|t: UtcDateTime|
            is_valid_utc(t) && 1970 <= t.year <= 9999 && #[trigger] stated_build_time_text(t) == d.build_timestamp@),
{
    match build_time_at(reading) {
        Some(timestamp) => Ok(plugin_definition(name, timestamp.as_str())),
        None => match reading {
            None => Err(PluginNameError::ClockBeforeEpoch),
            Some(_) => Err(PluginNameError::ClockOutOfRange),
        },
    }
}

/// Reads the plugin's name from a single string literal and defines the
/// plugin, stamped with the current time. Whatever the clock reads, the
/// result is the one `define_plugin` gives for that reading.
#[allow(non_snake_case)]
pub fn WUPS_PLUGIN_NAME(input: &[MacroToken]) -> (res: Result<PluginDefinition, PluginNameError>)
    ensures
        match spec_parse_lit_str(input@) {
            Err(e) => res == Err::<PluginDefinition, _>(PluginNameError::Parse(e)),
            Ok(name) => exists|reading: Option<(u64, u32)>|
                #[trigger] is_clock_reading(reading) && (match build_time_of_reading(reading) {
                    Some(timestamp) => res matches Ok(d) && is_plugin_definition(d, name, timestamp),
                    None => res == Err::<PluginDefinition, _>(clock_error(reading)),
                }) && (is_representable_reading(reading) ==> res is Ok) && (is_ordinary_reading(reading)
                    ==> (res matches Ok(d) && exists|t: UtcDateTime|
                    is_valid_utc(t) && 1970 <= t.year <= 9999 && #[trigger] stated_build_time_text(t)
                    == d.build_timestamp@)),
        },
{
    let name = match parse_lit_str(input) {
        Ok(n) => n,
        Err(e) => return Err(PluginNameError::Parse(e)),
    };
    let reading = read_clock();
    define_plugin(name.as_str(), reading)
}

} // verus!

verus! {

/// No name occurs twice in `names`.
pub open spec fn all_distinct(names: Seq<Seq<char>>) -> bool {
    forall|i: int, j: int|
        0 <= i < names.len() && 0 <= j < names.len() && i != j ==> names[i] != names[j]
}

/// The functions a plugin definition exports, in the order they are emitted.
pub open spec fn plugin_functions(d: PluginDefinition) -> Seq<Seq<char>> {
    seq![
        d.wut_libraries@[0].init.target@, d.wut_libraries@[0].fini.target@,
        d.wut_libraries@[1].init.target@, d.wut_libraries@[1].fini.target@,
        d.wut_libraries@[2].init.target@, d.wut_libraries@[2].fini.target@,
        d.wut_libraries@[3].init.target@, d.wut_libraries@[3].fini.target@,
        d.wut_libraries@[4].init.target@, d.wut_libraries@[4].fini.target@,
        d.init_wrapper_hook.target@, d.fini_wrapper_hook.target@,
        d.config_hook.target@, d.storage_hook.target@,
    ]
}

proof fn lemma_plugin_functions(d: PluginDefinition, name: Seq<char>, timestamp: Seq<char>)
    requires
        is_plugin_definition(d, name, timestamp),
    ensures
        all_distinct(plugin_functions(d)),
        forall|i: int| 0 <= i < 14 ==> #[trigger] plugin_functions(d)[i].len() > 5
            && plugin_functions(d)[i][5] != 'm' && plugin_functions(d)[i][5] != 'h',
{
    reveal_strlit("on_init_");
    reveal_strlit("on_fini_");
    reveal_strlit("wut_malloc");
    reveal_strlit("wut_sockets");
    reveal_strlit("wut_newlib");
    reveal_strlit("wut_stdcpp");
    reveal_strlit("wut_devoptab");
    reveal_strlit("__init_wrapper");
    reveal_strlit("__fini_wrapper");
    reveal_strlit("wups_init_config_functions");
    reveal_strlit("init_storage");
    let f = plugin_functions(d);
    assert(f.len() == 14);
    assert forall|i: int, j: int| 0 <= i < f.len() && 0 <= j < f.len() && i != j implies f[i] != f[j] by {
        if f[i] == f[j] {
            assert(f[i].len() == f[j].len());
            assert(f[i][2] == f[j][2]);
            assert(f[i][3] == f[j][3]);
            assert(f[i][12] == f[j][12]);
        }
    }
}

/// The symbols of the metadata entries a plugin definition introduces.
pub open spec fn plugin_meta_symbols(d: PluginDefinition) -> Seq<Seq<char>> {
    seq![
        d.name_meta.symbol@, d.wups_meta_symbol@, d.build_timestamp_meta.symbol@,
        d.storage_id_meta.symbol@, d.plugin_name_symbol@, d.info_dump_meta.symbol@,
        d.linking_order_meta.symbol@,
    ]
}

/// The symbols of the hook entries a plugin definition introduces, in the
/// order of the functions they call.
pub open spec fn plugin_hook_symbols(d: PluginDefinition) -> Seq<Seq<char>> {
    seq![
        d.wut_libraries@[0].init.symbol@, d.wut_libraries@[0].fini.symbol@,
        d.wut_libraries@[1].init.symbol@, d.wut_libraries@[1].fini.symbol@,
        d.wut_libraries@[2].init.symbol@, d.wut_libraries@[2].fini.symbol@,
        d.wut_libraries@[3].init.symbol@, d.wut_libraries@[3].fini.symbol@,
        d.wut_libraries@[4].init.symbol@, d.wut_libraries@[4].fini.symbol@,
        d.init_wrapper_hook.symbol@, d.fini_wrapper_hook.symbol@,
        d.config_hook.symbol@, d.storage_hook.symbol@,
    ]
}

/// Every item a plugin definition introduces: metadata statics, hook
/// statics and exported functions.
pub open spec fn plugin_item_names(d: PluginDefinition) -> Seq<Seq<char>> {
    plugin_meta_symbols(d) + plugin_hook_symbols(d) + plugin_functions(d)
}

/// The statics and functions that `WUPS_PLUGIN_NAME` places in a plugin all
/// have different names, whatever the plugin's name and build time, so they
/// never clash in the plugin's symbol table.
pub proof fn lemma_plugin_item_names_distinct(d: PluginDefinition, name: Seq<char>, timestamp: Seq<char>)
    requires
        is_plugin_definition(d, name, timestamp),
    ensures
        all_distinct(plugin_item_names(d)),
{
    lemma_plugin_functions(d, name, timestamp);
    reveal_strlit("wups_meta_");
    reveal_strlit("wups_hooks_");
    reveal_strlit("name");
    reveal_strlit("wups");
    reveal_strlit("buildtimestamp");
    reveal_strlit("storage_id");
    reveal_strlit("plugin_name");
    reveal_strlit("info_dump");
    reveal_strlit("info_linking_order");
    let m = plugin_meta_symbols(d);
    let h = plugin_hook_symbols(d);
    let f = plugin_functions(d);
    let all = plugin_item_names(d);
    assert(m.len() == 7 && h.len() == 14 && f.len() == 14);
    assert forall|i: int| 0 <= i < 7 implies (#[trigger] m[i]).len() > 11 && m[i][5] == 'm' by {}
    assert forall|i: int| 0 <= i < 14 implies (#[trigger] h[i]) == "wups_hooks_"@ + f[i] by {}
    assert forall|i: int| 0 <= i < 14 implies (#[trigger] h[i]).len() > 5 && h[i][5] == 'h' by {}
    assert forall|i: int, j: int| 0 <= i < 7 && 0 <= j < 7 && i != j implies m[i] != m[j] by {
        if m[i] == m[j] {
            assert(m[i].len() == m[j].len());
            assert(m[i][10] == m[j][10]);
        }
    }
    assert forall|i: int, j: int| 0 <= i < 14 && 0 <= j < 14 && i != j implies h[i] != h[j] by {
        if h[i] == h[j] {
            assert(h[i].subrange(11, h[i].len() as int) =~= f[i]);
            assert(h[j].subrange(11, h[j].len() as int) =~= f[j]);
        }
    }
    assert forall|i: int, j: int|
        0 <= i < all.len() && 0 <= j < all.len() && i != j implies all[i] != all[j] by {
        if i < 7 && j < 7 {
            assert(all[i] == m[i] && all[j] == m[j]);
        } else if 7 <= i < 21 && 7 <= j < 21 {
            assert(all[i] == h[i - 7] && all[j] == h[j - 7]);
        } else if 21 <= i && 21 <= j {
            assert(all[i] == f[i - 21] && all[j] == f[j - 21]);
        } else {
            if all[i] == all[j] {
                assert(all[i][5] == all[j][5]);
                if i < 7 {
                    assert(all[i] == m[i]);
                } else if i < 21 {
                    assert(all[i] == h[i - 7]);
                } else {
                    assert(all[i] == f[i - 21]);
                }
                if j < 7 {
                    assert(all[j] == m[j]);
                } else if j < 21 {
                    assert(all[j] == h[j - 7]);
                } else {
                    assert(all[j] == f[j - 21]);
                }
            }
        }
    }
}

/// The upper-case form of an ASCII letter; other characters stay.
pub open spec fn ascii_upper_char(c: char) -> char {
    if 'a' <= c <= 'z' {
        ((c as int) - 32) as char
    } else {
        c
    }
}

pub open spec fn ascii_upper(s: Seq<char>) -> Seq<char> {
    Seq::new(s.len(), |i: int| ascii_upper_char(s[i]))
}

/// `init` and `fini` set up and tear down the same thing `f`: they call
/// `<init_prefix>f` and `<fini_prefix>f`, at the loader events `INIT_F`
/// and `FINI_F` named after it.
pub open spec fn is_init_fini_pair(
    init: HookEntry,
    fini: HookEntry,
    init_prefix: Seq<char>,
    fini_prefix: Seq<char>,
) -> bool {
    exists|f: Seq<char>|
        {
            &&& #[trigger] init.target@ == init_prefix + f
            &&& fini.target@ == fini_prefix + f
            &&& init.hook_type_path@ == hook_type_path("INIT_"@ + ascii_upper(f))
            &&& fini.hook_type_path@ == hook_type_path("FINI_"@ + ascii_upper(f))
        }
}

/// `h` is hooked at one of the loader's `INIT_` events.
pub open spec fn is_init_hook(h: HookEntry) -> bool {
    exists|event: Seq<char>| #[trigger] hook_type_path("INIT_"@ + event) == h.hook_type_path@
}

proof fn lemma_upper_literal(lower: &str, upper: &str)
    requires
        lower@.len() == upper@.len(),
        forall|i: int| 0 <= i < lower@.len() ==> ascii_upper_char(#[trigger] lower@[i]) == upper@[i],
    ensures
        ascii_upper(lower@) == upper@,
{
    assert(ascii_upper(lower@) =~= upper@);
}

/// Every hook of a plugin runs at the loader event named after what it does:
/// the set-up function of each wut library and of the plugin's own wrapper at
/// the `INIT_` event, its tear-down function at the `FINI_` event of the same
/// name, and the configuration and storage set-up at `INIT_` events.
pub proof fn lemma_plugin_hooks_at_their_events(d: PluginDefinition, name: Seq<char>, timestamp: Seq<char>)
    requires
        is_plugin_definition(d, name, timestamp),
    ensures
        forall|i: int|
            0 <= i < d.wut_libraries@.len() ==> is_init_fini_pair(
                (#[trigger] d.wut_libraries@[i]).init,
                d.wut_libraries@[i].fini,
                "on_init_"@,
                "on_fini_"@,
            ),
        is_init_fini_pair(d.init_wrapper_hook, d.fini_wrapper_hook, "__init_"@, "__fini_"@),
        is_init_hook(d.config_hook),
        is_init_hook(d.storage_hook),
{
    reveal_strlit("wut_malloc");
    reveal_strlit("WUT_MALLOC");
    reveal_strlit("wut_sockets");
    reveal_strlit("WUT_SOCKETS");
    reveal_strlit("wut_newlib");
    reveal_strlit("WUT_NEWLIB");
    reveal_strlit("wut_stdcpp");
    reveal_strlit("WUT_STDCPP");
    reveal_strlit("wut_devoptab");
    reveal_strlit("WUT_DEVOPTAB");
    reveal_strlit("wrapper");
    reveal_strlit("WRAPPER");
    reveal_strlit("INIT_WRAPPER");
    reveal_strlit("FINI_WRAPPER");
    reveal_strlit("__init_wrapper");
    reveal_strlit("__fini_wrapper");
    reveal_strlit("__init_");
    reveal_strlit("__fini_");
    reveal_strlit("INIT_");
    reveal_strlit("FINI_");
    reveal_strlit("INIT_CONFIG");
    reveal_strlit("CONFIG");
    reveal_strlit("INIT_STORAGE");
    reveal_strlit("STORAGE");
    lemma_upper_literal("wut_malloc", "WUT_MALLOC");
    lemma_upper_literal("wut_sockets", "WUT_SOCKETS");
    lemma_upper_literal("wut_newlib", "WUT_NEWLIB");
    lemma_upper_literal("wut_stdcpp", "WUT_STDCPP");
    lemma_upper_literal("wut_devoptab", "WUT_DEVOPTAB");
    lemma_upper_literal("wrapper", "WRAPPER");
    let libs = seq!["wut_malloc"@, "wut_sockets"@, "wut_newlib"@, "wut_stdcpp"@, "wut_devoptab"@];
    assert forall|i: int| 0 <= i < d.wut_libraries@.len() implies is_init_fini_pair(
        (#[trigger] d.wut_libraries@[i]).init,
        d.wut_libraries@[i].fini,
        "on_init_"@,
        "on_fini_"@,
    ) by {
        let w = d.wut_libraries@[i];
        let f = libs[i];
        assert(w.init.target@ == "on_init_"@ + f);
        assert(w.init.hook_type_path@ == hook_type_path("INIT_"@ + ascii_upper(f)));
    }
    assert("INIT_WRAPPER"@ == "INIT_"@ + "WRAPPER"@);
    assert("FINI_WRAPPER"@ == "FINI_"@ + "WRAPPER"@);
    assert("__init_wrapper"@ == "__init_"@ + "wrapper"@);
    assert("__fini_wrapper"@ == "__fini_"@ + "wrapper"@);
    assert(d.init_wrapper_hook.target@ == "__init_"@ + "wrapper"@);
    assert("INIT_CONFIG"@ == "INIT_"@ + "CONFIG"@);
    assert("INIT_STORAGE"@ == "INIT_"@ + "STORAGE"@);
    assert(hook_type_path("INIT_"@ + "CONFIG"@) == d.config_hook.hook_type_path@);
    assert(hook_type_path("INIT_"@ + "STORAGE"@) == d.storage_hook.hook_type_path@);
}

} // verus!
