use vstd::prelude::*;

verus! {

/// One token of a macro's input, as far as the plugin macros look at it.
#[derive(Debug)]
pub enum MacroToken {
    /// An identifier (keywords excluded), by its text.
    Ident(String),
    /// A punctuation character.
    Punct(char),
    /// A string literal, by the value it denotes.
    Str(String),
    /// Any other token (a group, a number, a keyword, ...).
    Other,
}

/// What a macro's input failed to provide.
#[derive(Debug, Clone, Copy, PartialEq, Eq, Structural)]
pub enum ParseErrorKind {
    ExpectedIdent,
    ExpectedComma,
    ExpectedString,
    UnexpectedToken,
}

/// A rejected macro input: what was expected, and at which token
/// (the number of tokens when the input ended too early).
#[derive(Debug, Clone, Copy, PartialEq, Eq, Structural)]
pub struct MacroParseError {
    pub kind: ParseErrorKind,
    pub position: usize,
}

pub open spec fn parse_error(kind: ParseErrorKind, position: int) -> MacroParseError {
    MacroParseError { kind, position: position as usize }
}

/// The identifier at index `i`, if the token there is one.
pub open spec fn ident_at(toks: Seq<MacroToken>, i: int) -> Option<Seq<char>> {
    if 0 <= i < toks.len() {
        match toks[i] {
            MacroToken::Ident(s) => Some(s@),
            _ => None,
        }
    } else {
        None
    }
}

/// The value of the string literal at index `i`, if the token there is one.
pub open spec fn str_at(toks: Seq<MacroToken>, i: int) -> Option<Seq<char>> {
    if 0 <= i < toks.len() {
        match toks[i] {
            MacroToken::Str(s) => Some(s@),
            _ => None,
        }
    } else {
        None
    }
}

/// Whether the token at index `i` is the punctuation `c`.
pub open spec fn punct_at(toks: Seq<MacroToken>, i: int, c: char) -> bool {
    0 <= i < toks.len() && toks[i] == MacroToken::Punct(c)
}

/// `ident , "string"`: what reading the first three tokens as a key and a
/// value gives. Tokens after the third are not looked at.
pub open spec fn spec_read_meta(toks: Seq<MacroToken>) -> Result<(Seq<char>, Seq<char>), MacroParseError> {
    match ident_at(toks, 0) {
        None => Err(parse_error(ParseErrorKind::ExpectedIdent, 0)),
        Some(name) => if !punct_at(toks, 1, ',') {
            Err(parse_error(ParseErrorKind::ExpectedComma, 1))
        } else {
            match str_at(toks, 2) {
                None => Err(parse_error(ParseErrorKind::ExpectedString, 2)),
                Some(value) => Ok((name, value)),
            }
        },
    }
}

/// `ident , ident`: what reading the first three tokens as a hook type and
/// a target gives. Tokens after the third are not looked at.
pub open spec fn spec_read_hook(toks: Seq<MacroToken>) -> Result<(Seq<char>, Seq<char>), MacroParseError> {
    match ident_at(toks, 0) {
        None => Err(parse_error(ParseErrorKind::ExpectedIdent, 0)),
        Some(hook_type) => if !punct_at(toks, 1, ',') {
            Err(parse_error(ParseErrorKind::ExpectedComma, 1))
        } else {
            match ident_at(toks, 2) {
                None => Err(parse_error(ParseErrorKind::ExpectedIdent, 2)),
                Some(target) => Ok((hook_type, target)),
            }
        },
    }
}

/// A whole macro input read by `read`: it must end after the three tokens
/// that `read` consumes.
pub open spec fn whole_input<T>(
    toks: Seq<MacroToken>,
    read: Result<T, MacroParseError>,
) -> Result<T, MacroParseError> {
    match read {
        Err(e) => Err(e),
        Ok(v) => if toks.len() == 3 {
            Ok(v)
        } else {
            Err(parse_error(ParseErrorKind::UnexpectedToken, 3))
        },
    }
}

/// `ident , "string"` and nothing after it.
pub open spec fn spec_parse_meta(toks: Seq<MacroToken>) -> Result<(Seq<char>, Seq<char>), MacroParseError> {
    whole_input(toks, spec_read_meta(toks))
}

/// `ident , ident` and nothing after it.
pub open spec fn spec_parse_hook(toks: Seq<MacroToken>) -> Result<(Seq<char>, Seq<char>), MacroParseError> {
    whole_input(toks, spec_read_hook(toks))
}

/// Checks that a macro input ends after the three tokens a reader consumed.
pub fn expect_end_after_three(toks: &[MacroToken]) -> (res: Result<(), MacroParseError>)
    ensures
        res is Ok <==> toks@.len() == 3,
        res is Err ==> res == Err::<(), _>(parse_error(ParseErrorKind::UnexpectedToken, 3)),
{
    if toks.len() == 3 {
        Ok(())
    } else {
        Err(MacroParseError { kind: ParseErrorKind::UnexpectedToken, position: 3 })
    }
}

/// A single string literal and nothing after it.
pub open spec fn spec_parse_lit_str(toks: Seq<MacroToken>) -> Result<Seq<char>, MacroParseError> {
    match str_at(toks, 0) {
        None => Err(parse_error(ParseErrorKind::ExpectedString, 0)),
        Some(value) => if toks.len() == 1 {
            Ok(value)
        } else {
            Err(parse_error(ParseErrorKind::UnexpectedToken, 1))
        },
    }
}

fn take_ident(toks: &[MacroToken], i: usize) -> (r: Option<String>)
    ensures
        match r {
            Some(s) => ident_at(toks@, i as int) == Some(s@),
            None => ident_at(toks@, i as int) is None,
        },
{
    if i < toks.len() {
        match &toks[i] {
            MacroToken::Ident(s) => Some(s.clone()),
            _ => None,
        }
    } else {
        None
    }
}

fn take_str(toks: &[MacroToken], i: usize) -> (r: Option<String>)
    ensures
        match r {
            Some(s) => str_at(toks@, i as int) == Some(s@),
            None => str_at(toks@, i as int) is None,
        },
{
    if i < toks.len() {
        match &toks[i] {
            MacroToken::Str(s) => Some(s.clone()),
            _ => None,
        }
    } else {
        None
    }
}

fn is_punct(toks: &[MacroToken], i: usize, c: char) -> (r: bool)
    ensures
        r == punct_at(toks@, i as int, c),
{
    if i < toks.len() {
        match &toks[i] {
            MacroToken::Punct(p) => *p == c,
            _ => false,
        }
    } else {
        false
    }
}

/// The input of a metadata macro: a key and the string stored under it.
#[derive(Debug)]
pub struct Meta {
    pub name: String,
    pub value: String,
}

impl Meta {
    /// Reads `key, "value"` from the first three tokens; the tokens after
    /// them are left to the caller.
    pub fn parse(toks: &[MacroToken]) -> (res: Result<Meta, MacroParseError>)
        ensures
            match res {
                Ok(m) => spec_read_meta(toks@) == Ok::<_, MacroParseError>((m.name@, m.value@)),
                Err(e) => spec_read_meta(toks@) == Err::<(Seq<char>, Seq<char>), _>(e),
            },
    {
        let name = match take_ident(toks, 0) {
            Some(n) => n,
            None => return Err(MacroParseError { kind: ParseErrorKind::ExpectedIdent, position: 0 }),
        };
        if !is_punct(toks, 1, ',') {
            return Err(MacroParseError { kind: ParseErrorKind::ExpectedComma, position: 1 });
        }
        let value = match take_str(toks, 2) {
            Some(v) => v,
            None => return Err(MacroParseError { kind: ParseErrorKind::ExpectedString, position: 2 }),
        };
        Ok(Meta { name, value })
    }
}

/// The input of a hook macro: the hook's type and the function it calls.
#[derive(Debug)]
pub struct Hook {
    pub hook_type: String,
    pub hook_target: String,
}

impl Hook {
    /// Reads `HOOK_TYPE, target` from the first three tokens; the tokens
    /// after them are left to the caller.
    pub fn parse(toks: &[MacroToken]) -> (res: Result<Hook, MacroParseError>)
        ensures
            match res {
                Ok(h) => spec_read_hook(toks@) == Ok::<_, MacroParseError>((h.hook_type@, h.hook_target@)),
                Err(e) => spec_read_hook(toks@) == Err::<(Seq<char>, Seq<char>), _>(e),
            },
    {
        let hook_type = match take_ident(toks, 0) {
            Some(n) => n,
            None => return Err(MacroParseError { kind: ParseErrorKind::ExpectedIdent, position: 0 }),
        };
        if !is_punct(toks, 1, ',') {
            return Err(MacroParseError { kind: ParseErrorKind::ExpectedComma, position: 1 });
        }
        let hook_target = match take_ident(toks, 2) {
            Some(t) => t,
            None => return Err(MacroParseError { kind: ParseErrorKind::ExpectedIdent, position: 2 }),
        };
        Ok(Hook { hook_type, hook_target })
    }
}

/// Reads a single string literal and returns its value.
pub fn parse_lit_str(toks: &[MacroToken]) -> (res: Result<String, MacroParseError>)
    ensures
        match res {
            Ok(v) => spec_parse_lit_str(toks@) == Ok::<_, MacroParseError>(v@),
            Err(e) => spec_parse_lit_str(toks@) == Err::<Seq<char>, _>(e),
        },
{
    let value = match take_str(toks, 0) {
        Some(v) => v,
        None => return Err(MacroParseError { kind: ParseErrorKind::ExpectedString, position: 0 }),
    };
    if toks.len() != 1 {
        return Err(MacroParseError { kind: ParseErrorKind::UnexpectedToken, position: 1 });
    }
    Ok(value)
}

/// A single string literal is read whole: its value, unchanged, is the
/// macro's argument.
pub proof fn lemma_lit_str_reads_whole_value(s: String)
    ensures
        spec_parse_lit_str(seq![MacroToken::Str(s)]) == Ok::<_, MacroParseError>(s@),
{
}

/// Only a single string literal is read, and what is read is its value.
pub proof fn lemma_lit_str_accepts_only_one_literal(toks: Seq<MacroToken>, v: Seq<char>)
    requires
        spec_parse_lit_str(toks) == Ok::<_, MacroParseError>(v),
    ensures
        toks.len() == 1,
        toks[0] matches MacroToken::Str(s) && s@ == v,
{
}

/// `key, "value"` is read as the key and the literal's whole value, whatever
/// follows.
pub proof fn lemma_meta_reads_key_and_whole_value(k: String, s: String, rest: Seq<MacroToken>)
    ensures
        spec_read_meta(seq![MacroToken::Ident(k), MacroToken::Punct(','), MacroToken::Str(s)] + rest)
            == Ok::<_, MacroParseError>((k@, s@)),
{
    let toks = seq![MacroToken::Ident(k), MacroToken::Punct(','), MacroToken::Str(s)] + rest;
    assert(toks[0] == MacroToken::Ident(k));
    assert(toks[1] == MacroToken::Punct(','));
    assert(toks[2] == MacroToken::Str(s));
}

/// What is read as a key and a value are the first and third tokens, an
/// identifier and a string literal, separated by a comma.
pub proof fn lemma_meta_reads_only_its_tokens(toks: Seq<MacroToken>, k: Seq<char>, v: Seq<char>)
    requires
        spec_read_meta(toks) == Ok::<_, MacroParseError>((k, v)),
    ensures
        toks.len() >= 3,
        toks[0] matches MacroToken::Ident(x) && x@ == k,
        toks[1] == MacroToken::Punct(','),
        toks[2] matches MacroToken::Str(x) && x@ == v,
{
}

/// `HOOK_TYPE, target` is read as the hook type and the target, whatever
/// follows.
pub proof fn lemma_hook_reads_type_and_target(t: String, f: String, rest: Seq<MacroToken>)
    ensures
        spec_read_hook(seq![MacroToken::Ident(t), MacroToken::Punct(','), MacroToken::Ident(f)] + rest)
            == Ok::<_, MacroParseError>((t@, f@)),
{
    let toks = seq![MacroToken::Ident(t), MacroToken::Punct(','), MacroToken::Ident(f)] + rest;
    assert(toks[0] == MacroToken::Ident(t));
    assert(toks[1] == MacroToken::Punct(','));
    assert(toks[2] == MacroToken::Ident(f));
}

} // verus!
