use vstd::prelude::*;
use crate::tokens::{Hook, MacroParseError, MacroToken, expect_end_after_three, spec_parse_hook};

verus! {

/// The symbol under which the hook that calls `target` is stored.
pub open spec fn hook_symbol(target: Seq<char>) -> Seq<char> {
    "wups_hooks_"@ + target
}

/// The path of the loader's hook type named `hook_type`.
pub open spec fn hook_type_path(hook_type: Seq<char>) -> Seq<char> {
    "wups::bindings::wups_loader_hook_type_t::WUPS_LOADER_HOOK_"@ + hook_type
}

/// One entry of the `.wups.hooks` section: a static named `symbol` that
/// tells the loader to call `target` at the hook `hook_type_path`.
#[derive(Debug)]
pub struct HookEntry {
    pub symbol: String,
    pub hook_type_path: String,
    pub target: String,
}

/// `h` is the entry that makes the loader call `target` at `hook_type`.
pub open spec fn is_hook_entry(h: HookEntry, hook_type: Seq<char>, target: Seq<char>) -> bool {
    &&& h.symbol@ == hook_symbol(target)
    &&& h.hook_type_path@ == hook_type_path(hook_type)
    &&& h.target@ == target
}

/// Builds the entry that makes the loader call `target` at `hook_type`.
pub fn hook_entry(hook_type: &str, target: &str) -> (h: HookEntry)
    ensures
        is_hook_entry(h, hook_type@, target@),
{
    let symbol = String::from_str("wups_hooks_").concat(target);
    let hook_type_path = String::from_str(
        "wups::bindings::wups_loader_hook_type_t::WUPS_LOADER_HOOK_",
    ).concat(hook_type);
    HookEntry { symbol, hook_type_path, target: String::from_str(target) }
}

/// Reads `HOOK_TYPE, target` and builds the hook entry for it.
pub fn wups_hook_ex(input: &[MacroToken]) -> (res: Result<HookEntry, MacroParseError>)
    ensures
        match spec_parse_hook(input@) {
            Ok((hook_type, target)) => res matches Ok(h) && is_hook_entry(h, hook_type, target),
            Err(err) => res == Err::<HookEntry, _>(err),
        },
{
    let hook = Hook::parse(input)?;
    expect_end_after_three(input)?;
    Ok(hook_entry(hook.hook_type.as_str(), hook.hook_target.as_str()))
}

/// One argument of a lifecycle attribute such as `#[on_initialize(Udp)]`.
#[derive(Debug)]
pub enum AttrArg {
    /// A path made of a single identifier: a logger channel.
    Ident(String),
    /// A path that is not a single identifier (`a::b`, `::a`, `a<T>`).
    LongPath,
    /// Not a path (`a(..)`, `a = ..`).
    NotAPath,
}

/// An attribute argument as a plain value.
pub enum AttrArgView {
    Ident(Seq<char>),
    LongPath,
    NotAPath,
}

impl View for AttrArg {
    type V = AttrArgView;

    open spec fn view(&self) -> AttrArgView {
        match self {
            AttrArg::Ident(s) => AttrArgView::Ident(s@),
            AttrArg::LongPath => AttrArgView::LongPath,
            AttrArg::NotAPath => AttrArgView::NotAPath,
        }
    }
}

pub open spec fn arg_views(args: Seq<AttrArg>) -> Seq<AttrArgView> {
    args.map_values(|a: AttrArg| a@)
}

/// Every argument names a logger channel by a single identifier.
pub open spec fn attr_args_are_idents(args: Seq<AttrArgView>) -> bool {
    forall|i: int| 0 <= i < args.len() ==> (#[trigger] args[i]) is Ident
}

/// `i` is the first argument that is not a single identifier.
pub open spec fn is_first_invalid_arg(args: Seq<AttrArgView>, i: int) -> bool {
    &&& 0 <= i < args.len()
    &&& !(args[i] is Ident)
    &&& forall|j: int| 0 <= j < i ==> (#[trigger] args[j]) is Ident
}

/// The channel named by an argument.
pub open spec fn attr_channel(arg: AttrArgView) -> Seq<char> {
    match arg {
        AttrArgView::Ident(s) => s,
        _ => Seq::empty(),
    }
}

/// The first argument that is not a single identifier, if any.
pub fn first_invalid_attr_arg(args: &[AttrArg]) -> (res: Option<usize>)
    ensures
        match res {
            Some(i) => is_first_invalid_arg(arg_views(args@), i as int),
            None => attr_args_are_idents(arg_views(args@)),
        },
{
    let mut i: usize = 0;
    while i < args.len()
        invariant
            i <= args@.len(),
            forall|j: int| 0 <= j < i ==> (#[trigger] arg_views(args@)[j]) is Ident,
        decreases args@.len() - i,
    {
        match &args[i] {
            AttrArg::Ident(_) => {},
            _ => {
                return Some(i);
            },
        }
        i = i + 1;
    }
    None
}

/// What a lifecycle attribute turns a function into: the function, exported
/// under its own name, a hook entry that makes the loader call it, and the
/// logger channels opened before its body and closed after it.
#[derive(Debug)]
pub struct AttributeExpansion {
    pub function: String,
    pub hook: HookEntry,
    pub logger_channels: Vec<String>,
    pub uses_logger: bool,
}

/// `x` is the expansion of the attribute for `hook_type` with `args` on the
/// function named `function`.
pub open spec fn is_attribute_expansion(
    x: AttributeExpansion,
    hook_type: Seq<char>,
    args: Seq<AttrArgView>,
    function: Seq<char>,
) -> bool {
    &&& x.function@ == function
    &&& is_hook_entry(x.hook, hook_type, function)
    &&& x.logger_channels@.len() == args.len()
    &&& forall|i: int|
        0 <= i < args.len() ==> (#[trigger] x.logger_channels@[i])@ == attr_channel(args[i])
    &&& x.uses_logger == (args.len() > 0)
}

/// Expands a lifecycle attribute: the function is hooked at `hook_type`, and
/// the logger is opened on the given channels around its body when any are
/// given.
pub(crate) fn generate_proc_macro_attribute(hook_type: &str, args: &[AttrArg], function: &str) -> (x:
    AttributeExpansion)
    requires
        attr_args_are_idents(arg_views(args@)),
    ensures
        is_attribute_expansion(x, hook_type@, arg_views(args@), function@),
{
    let mut channels: Vec<String> = Vec::new();
    let mut i: usize = 0;
    while i < args.len()
        invariant
            i <= args@.len(),
            attr_args_are_idents(arg_views(args@)),
            channels@.len() == i,
            forall|j: int|
                0 <= j < i ==> (#[trigger] channels@[j])@ == attr_channel(arg_views(args@)[j]),
        decreases args@.len() - i,
    {
        assert(arg_views(args@)[i as int] is Ident);
        match &args[i] {
            AttrArg::Ident(name) => {
                channels.push(name.clone());
            },
            _ => {},
        }
        i = i + 1;
    }
    let uses_logger = args.len() > 0;
    AttributeExpansion {
        function: String::from_str(function),
        hook: hook_entry(hook_type, function),
        logger_channels: channels,
        uses_logger,
    }
}

/// `#[on_initialize]`: called when the plugin is loaded.
pub fn on_initialize(args: &[AttrArg], function: &str) -> (x: AttributeExpansion)
    requires
        attr_args_are_idents(arg_views(args@)),
    ensures
        is_attribute_expansion(x, "INIT_PLUGIN"@, arg_views(args@), function@),
        is_attribute_expansion(x, lifecycle_hook_type(LifecycleHook::Initialize), arg_views(args@), function@),
{
    generate_proc_macro_attribute("INIT_PLUGIN", args, function)
}

/// `#[on_deinitialize]`: called when the plugin is unloaded.
pub fn on_deinitialize(args: &[AttrArg], function: &str) -> (x: AttributeExpansion)
    requires
        attr_args_are_idents(arg_views(args@)),
    ensures
        is_attribute_expansion(x, "DEINIT_PLUGIN"@, arg_views(args@), function@),
        is_attribute_expansion(x, lifecycle_hook_type(LifecycleHook::Deinitialize), arg_views(args@), function@),
{
    generate_proc_macro_attribute("DEINIT_PLUGIN", args, function)
}

/// `#[on_application_start]`: called when an application starts.
pub fn on_application_start(args: &[AttrArg], function: &str) -> (x: AttributeExpansion)
    requires
        attr_args_are_idents(arg_views(args@)),
    ensures
        is_attribute_expansion(x, "APPLICATION_STARTS"@, arg_views(args@), function@),
        is_attribute_expansion(x, lifecycle_hook_type(LifecycleHook::ApplicationStart), arg_views(args@), function@),
{
    generate_proc_macro_attribute("APPLICATION_STARTS", args, function)
}

/// `#[on_release_foreground]`: called when the application leaves the foreground.
pub fn on_release_foreground(args: &[AttrArg], function: &str) -> (x: AttributeExpansion)
    requires
        attr_args_are_idents(arg_views(args@)),
    ensures
        is_attribute_expansion(x, "RELEASE_FOREGROUND"@, arg_views(args@), function@),
        is_attribute_expansion(x, lifecycle_hook_type(LifecycleHook::ReleaseForeground), arg_views(args@), function@),
{
    generate_proc_macro_attribute("RELEASE_FOREGROUND", args, function)
}

/// `#[on_acquired_foreground]`: called when the application returns to the foreground.
pub fn on_acquired_foreground(args: &[AttrArg], function: &str) -> (x: AttributeExpansion)
    requires
        attr_args_are_idents(arg_views(args@)),
    ensures
        is_attribute_expansion(x, "ACQUIRED_FOREGROUND"@, arg_views(args@), function@),
        is_attribute_expansion(x, lifecycle_hook_type(LifecycleHook::AcquiredForeground), arg_views(args@), function@),
{
    generate_proc_macro_attribute("ACQUIRED_FOREGROUND", args, function)
}

/// `#[on_application_request_exit]`: called when the application is asked to exit.
pub fn on_application_request_exit(args: &[AttrArg], function: &str) -> (x: AttributeExpansion)
    requires
        attr_args_are_idents(arg_views(args@)),
    ensures
        is_attribute_expansion(x, "APPLICATION_REQUESTS_EXIT"@, arg_views(args@), function@),
        is_attribute_expansion(x, lifecycle_hook_type(LifecycleHook::ApplicationRequestExit), arg_views(args@), function@),
{
    generate_proc_macro_attribute("APPLICATION_REQUESTS_EXIT", args, function)
}

/// `#[on_application_exit]`: called when the application ends.
pub fn on_application_exit(args: &[AttrArg], function: &str) -> (x: AttributeExpansion)
    requires
        attr_args_are_idents(arg_views(args@)),
    ensures
        is_attribute_expansion(x, "APPLICATION_ENDS"@, arg_views(args@), function@),
        is_attribute_expansion(x, lifecycle_hook_type(LifecycleHook::ApplicationExit), arg_views(args@), function@),
{
    generate_proc_macro_attribute("APPLICATION_ENDS", args, function)
}

/// The seven lifecycle attributes.
#[derive(Debug, Clone, Copy, PartialEq, Eq, Structural)]
pub enum LifecycleHook {
    Initialize,
    Deinitialize,
    ApplicationStart,
    ReleaseForeground,
    AcquiredForeground,
    ApplicationRequestExit,
    ApplicationExit,
}

/// The loader's hook type each lifecycle attribute hooks its function at.
pub open spec fn lifecycle_hook_type(hook: LifecycleHook) -> Seq<char> {
    match hook {
        LifecycleHook::Initialize => "INIT_PLUGIN"@,
        LifecycleHook::Deinitialize => "DEINIT_PLUGIN"@,
        LifecycleHook::ApplicationStart => "APPLICATION_STARTS"@,
        LifecycleHook::ReleaseForeground => "RELEASE_FOREGROUND"@,
        LifecycleHook::AcquiredForeground => "ACQUIRED_FOREGROUND"@,
        LifecycleHook::ApplicationRequestExit => "APPLICATION_REQUESTS_EXIT"@,
        LifecycleHook::ApplicationExit => "APPLICATION_ENDS"@,
    }
}

/// Different lifecycle attributes hook their functions at different loader
/// events: no two attributes share a hook type.
pub proof fn lemma_lifecycle_hook_types_distinct(a: LifecycleHook, b: LifecycleHook)
    ensures
        lifecycle_hook_type(a) == lifecycle_hook_type(b) ==> a == b,
{
    reveal_strlit("INIT_PLUGIN");
    reveal_strlit("DEINIT_PLUGIN");
    reveal_strlit("APPLICATION_STARTS");
    reveal_strlit("RELEASE_FOREGROUND");
    reveal_strlit("ACQUIRED_FOREGROUND");
    reveal_strlit("APPLICATION_REQUESTS_EXIT");
    reveal_strlit("APPLICATION_ENDS");
    let ta = lifecycle_hook_type(a);
    let tb = lifecycle_hook_type(b);
    if ta == tb {
        assert(ta.len() == tb.len());
        assert(ta[0] == tb[0]);
        assert(ta[12] == tb[12]);
    }
}

/// What syn reads from an attribute's argument text as a comma-separated
/// list of `syn::Meta`, each taken as an `AttrArg`; `None` when the text is
/// no such list.
pub uninterp spec fn syn_attr_args(text: Seq<char>) -> Option<Seq<AttrArgView>>;

/// The name of the function syn reads from the item text as a
/// `syn::ItemFn`; `None` when the text is no function.
pub uninterp spec fn syn_item_fn_name(text: Seq<char>) -> Option<Seq<char>>;

/// `Punctuated::<syn::Meta, syn::token::Comma>::parse_terminated` on the
/// text, each `Meta` taken as an `AttrArg` (a path by `Path::get_ident`).
/// Claimed: the result is what `syn_attr_args` names for the text.
#[verifier::external_body]
fn attr_args(text: &str) -> (r: Option<Vec<AttrArg>>)
    ensures
        match r {
            Some(args) => syn_attr_args(text@) == Some(arg_views(args@)),
            None => syn_attr_args(text@) is None,
        },
{
    let parser = syn::punctuated::Punctuated::<syn::Meta, syn::token::Comma>::parse_terminated;
    let metas = syn::parse::Parser::parse_str(parser, text).ok()?;
    Some(metas.iter().map(|meta| match meta {
        syn::Meta::Path(path) => match path.get_ident() {
            Some(ident) => AttrArg::Ident(ident.to_string()),
            None => AttrArg::LongPath,
        },
        _ => AttrArg::NotAPath,
    }).collect())
}

/// `syn::parse_str::<syn::ItemFn>(text)` and the function's name
/// (`sig.ident`). Claimed: the result is what `syn_item_fn_name` names.
#[verifier::external_body]
fn item_fn_name(text: &str) -> (r: Option<String>)
    ensures
        match r {
            Some(name) => syn_item_fn_name(text@) == Some(name@),
            None => syn_item_fn_name(text@) is None,
        },
{
    match syn::parse_str::<syn::ItemFn>(text) {
        Ok(item) => Some(item.sig.ident.to_string()),
        Err(_) => None,
    }
}

/// Why a lifecycle attribute could not be expanded.
#[derive(Debug, Clone, Copy, PartialEq, Eq, Structural)]
pub enum AttributeInputError {
    /// The arguments are no comma-separated list.
    Arguments,
    /// The argument at this index is no path.
    ArgumentNotAPath(usize),
    /// The argument at this index is a path, but not a single identifier.
    ArgumentNotAnIdent(usize),
    /// The item is no function.
    Item,
}

/// Expands the lifecycle attribute `hook` written with the argument text
/// `attr_text` on the item `item_text`: the arguments are read first, then
/// checked to be channel names, then the item is read as a function.
pub fn expand_lifecycle_attribute(hook: LifecycleHook, attr_text: &str, item_text: &str) -> (res:
    Result<AttributeExpansion, AttributeInputError>)
    ensures
        match syn_attr_args(attr_text@) {
            None => res == Err::<AttributeExpansion, _>(AttributeInputError::Arguments),
            Some(args) => if !attr_args_are_idents(args) {
                ||| res matches Err(AttributeInputError::ArgumentNotAPath(i)) && is_first_invalid_arg(args, i as int)
                    && args[i as int] is NotAPath
                ||| res matches Err(AttributeInputError::ArgumentNotAnIdent(i)) && is_first_invalid_arg(args, i as int)
                    && args[i as int] is LongPath
            } else {
                match syn_item_fn_name(item_text@) {
                    None => res == Err::<AttributeExpansion, _>(AttributeInputError::Item),
                    Some(function) => res matches Ok(x) && is_attribute_expansion(
                        x,
                        lifecycle_hook_type(hook),
                        args,
                        function,
                    ),
                }
            },
        },
{
    let args = match attr_args(attr_text) {
        Some(a) => a,
        None => return Err(AttributeInputError::Arguments),
    };
    if let Some(i) = first_invalid_attr_arg(args.as_slice()) {
        return match &args[i] {
            AttrArg::NotAPath => Err(AttributeInputError::ArgumentNotAPath(i)),
            _ => Err(AttributeInputError::ArgumentNotAnIdent(i)),
        };
    }
    let function = match item_fn_name(item_text) {
        Some(f) => f,
        None => return Err(AttributeInputError::Item),
    };
    let f = function.as_str();
    let x = match hook {
        LifecycleHook::Initialize => on_initialize(args.as_slice(), f),
        LifecycleHook::Deinitialize => on_deinitialize(args.as_slice(), f),
        LifecycleHook::ApplicationStart => on_application_start(args.as_slice(), f),
        LifecycleHook::ReleaseForeground => on_release_foreground(args.as_slice(), f),
        LifecycleHook::AcquiredForeground => on_acquired_foreground(args.as_slice(), f),
        LifecycleHook::ApplicationRequestExit => on_application_request_exit(args.as_slice(), f),
        LifecycleHook::ApplicationExit => on_application_exit(args.as_slice(), f),
    };
    Ok(x)
}

} // verus!
