use vstd::prelude::*;
use crate::tokens::MacroToken;

verus! {

/// One token tree of a macro's raw input, as the compiler hands it over.
#[derive(Debug)]
pub enum RawToken {
    /// An identifier or keyword, by its text (`r#` included for raw ones).
    Ident(String),
    /// A punctuation character.
    Punct(char),
    /// A literal, by its source text (quotes, escapes and suffix included).
    Literal(String),
    /// A delimited group; `invisible` for a group without delimiters, as
    /// macros wrap around the fragments they pass on.
    Group { invisible: bool, tokens: Vec<RawToken> },
}

/// Whether syn reads `text` as an identifier (`syn::Ident`, which refuses
/// keywords and `_`).
pub uninterp spec fn syn_ident(text: Seq<char>) -> bool;

/// The value syn gives the string literal written as `text`
/// (`syn::LitStr::value`, escapes resolved), or `None` when `text` is no
/// string literal.
pub uninterp spec fn syn_lit_str_value(text: Seq<char>) -> Option<Seq<char>>;

/// `syn::parse_str::<syn::Ident>(text)`: claimed to succeed exactly when
/// `syn_ident` holds of the text.
#[verifier::external_body]
fn is_syn_ident(text: &str) -> (r: bool)
    ensures
        r == syn_ident(text@),
{
    syn::parse_str::<syn::Ident>(text).is_ok()
}

/// `syn::parse_str::<syn::LitStr>(text)` and `LitStr::value`: claimed to
/// give what `syn_lit_str_value` names for the text.
#[verifier::external_body]
fn lit_str_value(text: &str) -> (r: Option<String>)
    ensures
        match r {
            Some(v) => syn_lit_str_value(text@) == Some(v@),
            None => syn_lit_str_value(text@) is None,
        },
{
    match syn::parse_str::<syn::LitStr>(text) {
        Ok(lit) => Some(lit.value()),
        Err(_) => None,
    }
}

/// The token trees as syn walks them: invisible groups are looked through,
/// every other tree is one token.
pub open spec fn flatten_tokens(raw: Seq<RawToken>) -> Seq<RawToken>
    decreases raw,
{
    if raw.len() == 0 {
        seq![]
    } else {
        flatten_token(raw[0]) + flatten_tokens(raw.subrange(1, raw.len() as int))
    }
}

pub open spec fn flatten_token(t: RawToken) -> Seq<RawToken>
    decreases t,
{
    match t {
        RawToken::Group { invisible, tokens } => if invisible {
            flatten_tokens(tokens@)
        } else {
            seq![t]
        },
        _ => seq![t],
    }
}

/// `m` is how the macros see the raw token `t`: identifiers syn accepts,
/// punctuation, and string literals by their value; anything else is `Other`.
pub open spec fn reads_as(m: MacroToken, t: RawToken) -> bool {
    match t {
        RawToken::Ident(s) => if syn_ident(s@) {
            m matches MacroToken::Ident(x) && x@ == s@
        } else {
            m is Other
        },
        RawToken::Punct(c) => m == MacroToken::Punct(c),
        RawToken::Literal(text) => match syn_lit_str_value(text@) {
            Some(v) => m matches MacroToken::Str(x) && x@ == v,
            None => m is Other,
        },
        RawToken::Group { .. } => m is Other,
    }
}

/// `toks` is the reading of the token sequence `raws`, token by token.
pub open spec fn reads_all(toks: Seq<MacroToken>, raws: Seq<RawToken>) -> bool {
    &&& toks.len() == raws.len()
    &&& forall|i: int| 0 <= i < toks.len() ==> reads_as(#[trigger] toks[i], raws[i])
}

proof fn lemma_flatten_tokens_append(a: Seq<RawToken>, b: Seq<RawToken>)
    ensures
        flatten_tokens(a + b) == flatten_tokens(a) + flatten_tokens(b),
    decreases a.len(),
{
    if a.len() == 0 {
        assert(a + b == b);
    } else {
        assert((a + b)[0] == a[0]);
        assert((a + b).subrange(1, (a + b).len() as int) == a.subrange(1, a.len() as int) + b);
        lemma_flatten_tokens_append(a.subrange(1, a.len() as int), b);
    }
}

proof fn lemma_flatten_tokens_single(t: RawToken)
    ensures
        flatten_tokens(seq![t]) == flatten_token(t),
{
    let s = seq![t];
    assert(s.subrange(1, 1) == Seq::<RawToken>::empty());
    assert(flatten_tokens(Seq::<RawToken>::empty()) == Seq::<RawToken>::empty());
}

fn read_token(t: &RawToken) -> (m: MacroToken)
    requires
        !(t matches RawToken::Group { invisible: true, .. }),
    ensures
        reads_as(m, *t),
{
    match t {
        RawToken::Ident(s) => if is_syn_ident(s.as_str()) {
            MacroToken::Ident(s.clone())
        } else {
            MacroToken::Other
        },
        RawToken::Punct(c) => MacroToken::Punct(*c),
        RawToken::Literal(text) => match lit_str_value(text.as_str()) {
            Some(v) => MacroToken::Str(v),
            None => MacroToken::Other,
        },
        RawToken::Group { .. } => MacroToken::Other,
    }
}

fn read_into(raw: &[RawToken], out: &mut Vec<MacroToken>)
    ensures
        final(out)@.subrange(0, old(out)@.len() as int) == old(out)@,
        final(out)@.len() >= old(out)@.len(),
        reads_all(final(out)@.subrange(old(out)@.len() as int, final(out)@.len() as int), flatten_tokens(raw@)),
    decreases raw@,
{
    let ghost start = out@;
    let mut i: usize = 0;
    while i < raw.len()
        invariant
            i <= raw@.len(),
            out@.len() >= start.len(),
            out@.subrange(0, start.len() as int) == start,
            reads_all(out@.subrange(start.len() as int, out@.len() as int), flatten_tokens(raw@.subrange(0, i as int))),
        decreases raw@.len() - i,
    {
        let ghost before = out@;
        proof {
            lemma_flatten_tokens_append(raw@.subrange(0, i as int), seq![raw@[i as int]]);
            lemma_flatten_tokens_single(raw@[i as int]);
            assert(raw@.subrange(0, i as int) + seq![raw@[i as int]] == raw@.subrange(0, i + 1));
        }
        match &raw[i] {
            RawToken::Group { invisible: true, tokens } => {
                proof {
                    assert(decreases_to!(raw@ => raw@[i as int]));
                }
                read_into(tokens.as_slice(), out);
                assert(flatten_token(raw@[i as int]) == flatten_tokens(tokens@));
            },
            _ => {
                let m = read_token(&raw[i]);
                out.push(m);
                assert(flatten_token(raw@[i as int]) == seq![raw@[i as int]]);
            },
        }
        let ghost prev = flatten_tokens(raw@.subrange(0, i as int));
        let ghost added = flatten_token(raw@[i as int]);
        assert forall|k: int| 0 <= k < prev.len() + added.len() implies reads_as(
            #[trigger] out@.subrange(start.len() as int, out@.len() as int)[k],
            (prev + added)[k],
        ) by {
            if k < prev.len() {
                assert(out@[start.len() + k] == before[start.len() + k]);
                assert(before.subrange(start.len() as int, before.len() as int)[k] == before[start.len() + k]);
            } else {
                assert(out@.subrange(before.len() as int, out@.len() as int)[k - prev.len()] == out@[start.len() + k]);
            }
        }
        assert(out@.subrange(0, start.len() as int) =~= start);
        i = i + 1;
    }
    assert(raw@.subrange(0, raw@.len() as int) == raw@);
}

/// Reads a macro's raw input into the tokens the macros look at.
pub fn read_tokens(raw: &[RawToken]) -> (toks: Vec<MacroToken>)
    ensures
        reads_all(toks@, flatten_tokens(raw@)),
{
    let mut toks: Vec<MacroToken> = Vec::new();
    read_into(raw, &mut toks);
    assert(toks@.subrange(0, toks@.len() as int) == toks@);
    toks
}

} // verus!
