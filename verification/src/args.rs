//! The arguments of `#[ts(...)]` on a struct: `name = Ident`,
//! `rename_all = "..."` and `extends = A, B, ...` (which takes the rest of
//! the input), separated by commas.
use vstd::prelude::*;
use crate::diag::{fail_at, single, Failure, FailureV};
use crate::syntax::{tokens_view, AttrToken, AttrTokenKind, AttrTokens, Delim, TokenKindV, TokenV};
use crate::text::{push_text, string_of, text_is};

verus! {

/// The parsed arguments.
#[derive(Debug)]
pub struct TsArgs {
    /// The name of the generated JavaScript binding type.
    pub name: Option<String>,
    /// The interfaces that the TypeScript interface extends.
    pub extends: Option<Vec<String>>,
    /// `"none"` keeps the Rust field names; any other value converts them
    /// to lowerCamelCase, as does the absence of the argument.
    pub rename_all: Option<String>,
}

/// The mathematical form of [`TsArgs`].
pub struct TsArgsV {
    pub name: Option<Seq<char>>,
    pub extends: Option<Seq<Seq<char>>>,
    pub rename_all: Option<Seq<char>>,
}

impl View for TsArgs {
    type V = TsArgsV;

    open spec fn view(&self) -> TsArgsV {
        TsArgsV {
            name: match self.name {
                Some(n) => Some(n@),
                None => None,
            },
            extends: match self.extends {
                Some(v) => Some(v.deep_view()),
                None => None,
            },
            rename_all: match self.rename_all {
                Some(r) => Some(r@),
                None => None,
            },
        }
    }
}

/// The words that `syn` refuses as identifiers: the whole behaviour of
/// its identifier test is this fixed list (`accept_as_ident` in `syn`'s
/// `ident` module, which `syn` does not export), so it is stated here.
#[verifier::opaque]
pub open spec fn is_reserved_word(s: Seq<char>) -> bool {
    ||| s == "_"@ || s == "abstract"@ || s == "as"@ || s == "async"@ || s == "await"@
    ||| s == "become"@ || s == "box"@ || s == "break"@ || s == "const"@ || s == "continue"@
    ||| s == "crate"@ || s == "do"@ || s == "dyn"@ || s == "else"@ || s == "enum"@
    ||| s == "extern"@ || s == "false"@ || s == "final"@ || s == "fn"@ || s == "for"@
    ||| s == "if"@ || s == "impl"@ || s == "in"@ || s == "let"@ || s == "loop"@
    ||| s == "macro"@ || s == "match"@ || s == "mod"@ || s == "move"@ || s == "mut"@
    ||| s == "override"@ || s == "priv"@ || s == "pub"@ || s == "ref"@ || s == "return"@
    ||| s == "Self"@ || s == "self"@ || s == "static"@ || s == "struct"@ || s == "super"@
    ||| s == "trait"@ || s == "true"@ || s == "try"@ || s == "type"@ || s == "typeof"@
    ||| s == "unsafe"@ || s == "unsized"@ || s == "use"@ || s == "virtual"@ || s == "where"@
    ||| s == "while"@ || s == "yield"@
}

fn reserved_word(s: &String) -> (r: bool)
    ensures
        r == is_reserved_word(s@),
{
    reveal(is_reserved_word);
    text_is(s, "_") || text_is(s, "abstract") || text_is(s, "as") || text_is(s, "async") || text_is(s, "await")
    || text_is(s, "become") || text_is(s, "box") || text_is(s, "break") || text_is(s, "const") || text_is(s, "continue")
    || text_is(s, "crate") || text_is(s, "do") || text_is(s, "dyn") || text_is(s, "else") || text_is(s, "enum")
    || text_is(s, "extern") || text_is(s, "false") || text_is(s, "final") || text_is(s, "fn") || text_is(s, "for")
    || text_is(s, "if") || text_is(s, "impl") || text_is(s, "in") || text_is(s, "let") || text_is(s, "loop")
    || text_is(s, "macro") || text_is(s, "match") || text_is(s, "mod") || text_is(s, "move") || text_is(s, "mut")
    || text_is(s, "override") || text_is(s, "priv") || text_is(s, "pub") || text_is(s, "ref") || text_is(s, "return")
    || text_is(s, "Self") || text_is(s, "self") || text_is(s, "static") || text_is(s, "struct") || text_is(s, "super")
    || text_is(s, "trait") || text_is(s, "true") || text_is(s, "try") || text_is(s, "type") || text_is(s, "typeof")
    || text_is(s, "unsafe") || text_is(s, "unsized") || text_is(s, "use") || text_is(s, "virtual") || text_is(s, "where")
    || text_is(s, "while") || text_is(s, "yield")
}

/// An error: its site and message.
pub type ParseErr = (usize, Seq<char>);

/// The identifier at `pos`.
pub open spec fn expect_ident(toks: Seq<TokenV>, end: usize, pos: int) -> Result<Seq<char>, ParseErr> {
    if pos < 0 || pos >= toks.len() {
        Err((end, "unexpected end of input, expected identifier"@))
    } else {
        match toks[pos].kind {
            TokenKindV::Ident(s) => {
                if is_reserved_word(s) {
                    Err((toks[pos].site, "expected identifier, found keyword `"@ + s + "`"@))
                } else {
                    Ok(s)
                }
            },
            _ => Err((toks[pos].site, "expected identifier"@)),
        }
    }
}

/// The punctuation `c` at `pos`; `msg` is ``expected `c` ``.
pub open spec fn expect_punct(toks: Seq<TokenV>, end: usize, pos: int, c: char, msg: Seq<char>) -> Result<(), ParseErr> {
    if pos < 0 || pos >= toks.len() {
        Err((end, msg))
    } else {
        match toks[pos].kind {
            TokenKindV::Punct(p) => if p == c { Ok(()) } else { Err((toks[pos].site, msg)) },
            _ => Err((toks[pos].site, msg)),
        }
    }
}

/// Identifiers separated by commas, with an optional trailing comma, to the
/// end of the input, from `pos` on.
pub open spec fn idents_terminated(toks: Seq<TokenV>, end: usize, pos: int) -> Result<Seq<Seq<char>>, ParseErr>
    decreases toks.len() - pos,
{
    if pos < 0 || pos >= toks.len() {
        Ok(seq![])
    } else {
        match expect_ident(toks, end, pos) {
            Err(e) => Err(e),
            Ok(id) => {
                if pos + 1 >= toks.len() {
                    Ok(seq![id])
                } else {
                    match expect_punct(toks, end, pos + 1, ',', "expected `,`"@) {
                        Err(e) => Err(e),
                        Ok(_) => match idents_terminated(toks, end, pos + 2) {
                            Err(e) => Err(e),
                            Ok(rest) => Ok(seq![id] + rest),
                        },
                    }
                }
            },
        }
    }
}

/// The index of the first `,` at or after `pos`, or the length.
pub open spec fn next_comma(toks: Seq<TokenV>, pos: int) -> int
    decreases toks.len() - pos,
{
    if pos < 0 || pos >= toks.len() {
        toks.len() as int
    } else if toks[pos].kind == TokenKindV::Punct(',') {
        pos
    } else {
        next_comma(toks, pos + 1)
    }
}

/// Whether the token at `i` cannot continue an expression that ends just
/// before it. An expression goes on with a binary or assignment operator
/// (each begins with one of `+ - * / % ^ & | < > =`, or is `!=`, that is
/// `!` written directly before `=`), a range `..`, a method call or field
/// `.`, `?`, a cast `as`, a call `( )` or an index `[ ]`; anything else (a
/// literal, another identifier, a `{ }` group, a lone `!`, the arrows `->`
/// and `=>`, or one of `# @ $ ~ ; : '`) ends it.
pub open spec fn ends_expression(toks: Seq<TokenV>, i: int) -> bool {
    match toks[i].kind {
        TokenKindV::Str(_) => true,
        TokenKindV::Literal => true,
        TokenKindV::Ident(s) => s != "as"@,
        TokenKindV::Punct(c) => {
            if c == '!' {
                !joined_with(toks, i, '=')
            } else if c == '-' || c == '=' {
                joined_with(toks, i, '>')
            } else {
                !(c == '+' || c == '*' || c == '/' || c == '%' || c == '^' || c == '&' || c == '|' || c == '<'
                    || c == '>' || c == '.' || c == '?')
            }
        },
        TokenKindV::Group(d) => d == Delim::Brace,
    }
}

/// The punctuation at `i` is written directly before the punctuation `c`.
pub open spec fn joined_with(toks: Seq<TokenV>, i: int, c: char) -> bool {
    toks[i].joint && i + 1 < toks.len() && toks[i + 1].kind == TokenKindV::Punct(c)
}

/// The value of `rename_all` at `pos` (the key at `key_site`), read as an
/// expression: a string literal at the end of the input or before a comma
/// is the value; one followed by a token that cannot continue it ends the
/// expression, and that token is then not the comma that must follow; an
/// empty value is no expression; any other value is an expression that is
/// not a string literal.
pub open spec fn rename_value(toks: Seq<TokenV>, end: usize, pos: int, key_site: usize) -> Result<Seq<char>, ParseErr> {
    if pos >= toks.len() {
        Err((end, "unexpected end of input, expected an expression"@))
    } else if next_comma(toks, pos) == pos {
        Err((toks[pos].site, "expected an expression"@))
    } else {
        match toks[pos].kind {
            TokenKindV::Str(s) => {
                if next_comma(toks, pos) == pos + 1 {
                    Ok(s)
                } else if ends_expression(toks, pos + 1) {
                    Err((toks[pos + 1].site, "expected `,`"@))
                } else {
                    Err((key_site, "Expected string literal for `rename_all`"@))
                }
            },
            _ => Err((key_site, "Expected string literal for `rename_all`"@)),
        }
    }
}

/// After a value ending before `pos`: the end of the input, or a comma.
pub open spec fn after_value(toks: Seq<TokenV>, end: usize, pos: int) -> Result<int, ParseErr> {
    if pos >= toks.len() {
        Ok(toks.len() as int)
    } else {
        match expect_punct(toks, end, pos, ',', "expected `,`"@) {
            Ok(_) => Ok(pos + 1),
            Err(e) => Err(e),
        }
    }
}

/// The arguments parsed from `pos` on, on top of those in `acc`; a later
/// occurrence of a key replaces an earlier one.
pub open spec fn parse_from(toks: Seq<TokenV>, end: usize, pos: int, acc: TsArgsV) -> Result<TsArgsV, ParseErr>
    decreases toks.len() - pos,
{
    if pos < 0 || pos >= toks.len() {
        Ok(acc)
    } else {
        match expect_ident(toks, end, pos) {
            Err(e) => Err(e),
            Ok(key) => match expect_punct(toks, end, pos + 1, '=', "expected `=`"@) {
                Err(e) => Err(e),
                Ok(_) => {
                    if key == "name"@ {
                        match expect_ident(toks, end, pos + 2) {
                            Err(e) => Err(e),
                            Ok(n) => match after_value(toks, end, pos + 3) {
                                Err(e) => Err(e),
                                Ok(next) => parse_from(toks, end, next, TsArgsV { name: Some(n), ..acc }),
                            },
                        }
                    } else if key == "extends"@ {
                        match idents_terminated(toks, end, pos + 2) {
                            Err(e) => Err(e),
                            Ok(list) => Ok(TsArgsV { extends: Some(list), ..acc }),
                        }
                    } else if key == "rename_all"@ {
                        match rename_value(toks, end, pos + 2, toks[pos].site) {
                            Err(e) => Err(e),
                            Ok(v) => match after_value(toks, end, pos + 3) {
                                Err(e) => Err(e),
                                Ok(next) => parse_from(toks, end, next, TsArgsV { rename_all: Some(v), ..acc }),
                            },
                        }
                    } else {
                        Err((toks[pos].site, "Unknown argument: `"@ + key + "`"@))
                    }
                },
            },
        }
    }
}

/// No arguments.
pub open spec fn no_args() -> TsArgsV {
    TsArgsV { name: None, extends: None, rename_all: None }
}

/// The arguments of the token list, or the first error.
pub open spec fn parse_ts_args(input: AttrTokens) -> Result<TsArgsV, ParseErr> {
    parse_from(tokens_view(input.tokens@), input.end_site, 0, no_args())
}

/// The exec result agrees with the specified one.
pub open spec fn parse_agrees<T>(r: Result<T, Failure>, s: Result<T, ParseErr>) -> bool {
    match s {
        Ok(v) => r == Ok::<T, Failure>(v),
        Err((site, m)) => r matches Err(f) && f@ == single(site, m),
    }
}

fn ident_at(toks: &Vec<AttrToken>, end: usize, pos: usize) -> (r: Result<String, Failure>)
    ensures
        match expect_ident(tokens_view(toks@), end, pos as int) {
            Ok(v) => r matches Ok(x) && x@ == v,
            Err((site, m)) => r matches Err(f) && f@ == single(site, m),
        },
{
    if pos >= toks.len() {
        return Err(fail_at(end, string_of("unexpected end of input, expected identifier")));
    }
    match &toks[pos].kind {
        AttrTokenKind::Ident(s) => {
            if reserved_word(s) {
                let mut m = string_of("expected identifier, found keyword `");
                push_text(&mut m, s.as_str());
                push_text(&mut m, "`");
                Err(fail_at(toks[pos].site, m))
            } else {
                Ok(s.clone())
            }
        },
        _ => Err(fail_at(toks[pos].site, string_of("expected identifier"))),
    }
}

fn punct_at(toks: &Vec<AttrToken>, end: usize, pos: usize, c: char, msg: &str) -> (r: Result<(), Failure>)
    ensures
        parse_agrees(r, expect_punct(tokens_view(toks@), end, pos as int, c, msg@)),
{
    if pos >= toks.len() {
        return Err(fail_at(end, string_of(msg)));
    }
    match &toks[pos].kind {
        AttrTokenKind::Punct(p) => {
            if *p == c {
                Ok(())
            } else {
                Err(fail_at(toks[pos].site, string_of(msg)))
            }
        },
        _ => Err(fail_at(toks[pos].site, string_of(msg))),
    }
}

fn idents_from(toks: &Vec<AttrToken>, end: usize, pos: usize) -> (r: Result<Vec<String>, Failure>)
    ensures
        match idents_terminated(tokens_view(toks@), end, pos as int) {
            Ok(v) => r matches Ok(x) && x.deep_view() == v,
            Err((site, m)) => r matches Err(f) && f@ == single(site, m),
        },
    decreases toks.len() - pos,
{
    if pos >= toks.len() {
        let out: Vec<String> = Vec::new();
        assert(out.deep_view() =~= Seq::<Seq<char>>::empty());
        return Ok(out);
    }
    let id = match ident_at(toks, end, pos) {
        Ok(id) => id,
        Err(f) => return Err(f),
    };
    if pos + 1 >= toks.len() {
        let mut out: Vec<String> = Vec::new();
        out.push(id);
        assert(out.deep_view() =~= seq![id@]);
        return Ok(out);
    }
    match punct_at(toks, end, pos + 1, ',', "expected `,`") {
        Err(f) => return Err(f),
        Ok(_) => {},
    }
    match idents_from(toks, end, pos + 2) {
        Err(f) => Err(f),
        Ok(rest) => {
            let ghost id_v = id@;
            let mut out = rest;
            let ghost before = out.deep_view();
            out.insert(0, id);
            assert(out.deep_view() =~= seq![id_v] + before);
            Ok(out)
        },
    }
}

fn comma_from(toks: &Vec<AttrToken>, pos: usize) -> (r: usize)
    requires
        pos <= toks.len(),
    ensures
        r as int == next_comma(tokens_view(toks@), pos as int),
        pos <= r <= toks.len(),
{
    let mut i = pos;
    while i < toks.len()
        invariant
            pos <= i <= toks.len(),
            next_comma(tokens_view(toks@), pos as int) == next_comma(tokens_view(toks@), i as int),
        decreases toks.len() - i,
    {
        if let AttrTokenKind::Punct(c) = &toks[i].kind {
            if *c == ',' {
                return i;
            }
        }
        i = i + 1;
    }
    i
}

fn joined_with_at(toks: &Vec<AttrToken>, i: usize, c: char) -> (r: bool)
    requires
        i < toks.len(),
    ensures
        r == joined_with(tokens_view(toks@), i as int, c),
{
    toks[i].joint && i + 1 < toks.len() && match &toks[i + 1].kind {
        AttrTokenKind::Punct(d) => *d == c,
        _ => false,
    }
}

fn ends_expression_at(toks: &Vec<AttrToken>, i: usize) -> (r: bool)
    requires
        i < toks.len(),
    ensures
        r == ends_expression(tokens_view(toks@), i as int),
{
    proof {
        reveal_strlit("as");
    }
    match &toks[i].kind {
        AttrTokenKind::Str(_) => true,
        AttrTokenKind::Literal => true,
        AttrTokenKind::Ident(s) => !text_is(s, "as"),
        AttrTokenKind::Punct(c) => {
            if *c == '!' {
                !joined_with_at(toks, i, '=')
            } else if *c == '-' || *c == '=' {
                joined_with_at(toks, i, '>')
            } else {
                !(*c == '+' || *c == '*' || *c == '/' || *c == '%' || *c == '^' || *c == '&' || *c == '|'
                    || *c == '<' || *c == '>' || *c == '.' || *c == '?')
            }
        },
        AttrTokenKind::Group(d) => match d {
            Delim::Brace => true,
            _ => false,
        },
    }
}

fn rename_value_at(toks: &Vec<AttrToken>, end: usize, pos: usize, key_site: usize) -> (r: Result<String, Failure>)
    requires
        pos <= toks.len(),
    ensures
        match rename_value(tokens_view(toks@), end, pos as int, key_site) {
            Ok(v) => r matches Ok(x) && x@ == v,
            Err((site, m)) => r matches Err(f) && f@ == single(site, m),
        },
{
    if pos >= toks.len() {
        return Err(fail_at(end, string_of("unexpected end of input, expected an expression")));
    }
    let stop = comma_from(toks, pos);
    if stop == pos {
        return Err(fail_at(toks[pos].site, string_of("expected an expression")));
    }
    if let AttrTokenKind::Str(v) = &toks[pos].kind {
        if stop == pos + 1 {
            return Ok(v.clone());
        }
        if ends_expression_at(toks, pos + 1) {
            return Err(fail_at(toks[pos + 1].site, string_of("expected `,`")));
        }
    }
    Err(fail_at(key_site, string_of("Expected string literal for `rename_all`")))
}

fn after_value_at(toks: &Vec<AttrToken>, end: usize, pos: usize) -> (r: Result<usize, Failure>)
    ensures
        match after_value(tokens_view(toks@), end, pos as int) {
            Ok(v) => r matches Ok(x) && x as int == v,
            Err((site, m)) => r matches Err(f) && f@ == single(site, m),
        },
{
    if pos >= toks.len() {
        return Ok(toks.len());
    }
    match punct_at(toks, end, pos, ',', "expected `,`") {
        Ok(_) => Ok(pos + 1),
        Err(f) => Err(f),
    }
}

impl TsArgs {
    /// Parses the arguments of `#[ts(...)]` on a struct (see
    /// [`parse_ts_args`]).
    pub fn parse(input: &AttrTokens) -> (r: Result<TsArgs, Failure>)
        ensures
            match parse_ts_args(*input) {
                Ok(a) => r matches Ok(x) && x@ == a,
                Err((site, m)) => r matches Err(f) && f@ == single(site, m),
            },
    {
        let toks = &input.tokens;
        let end = input.end_site;
        let mut args = TsArgs { name: None, extends: None, rename_all: None };
        let mut pos: usize = 0;
        proof {
            reveal_strlit("name");
            reveal_strlit("extends");
            reveal_strlit("rename_all");
        }
        while pos < toks.len()
            invariant
                pos <= toks.len(),
                parse_ts_args(*input) == parse_from(tokens_view(toks@), end, pos as int, args@),
                toks == input.tokens,
                end == input.end_site,
            decreases toks.len() - pos,
        {
            let key = match ident_at(toks, end, pos) {
                Ok(k) => k,
                Err(f) => return Err(f),
            };
            match punct_at(toks, end, pos + 1, '=', "expected `=`") {
                Err(f) => return Err(f),
                Ok(_) => {},
            }
            if text_is(&key, "name") {
                let n = match ident_at(toks, end, pos + 2) {
                    Ok(n) => n,
                    Err(f) => return Err(f),
                };
                let next = match after_value_at(toks, end, pos + 3) {
                    Ok(next) => next,
                    Err(f) => return Err(f),
                };
                args.name = Some(n);
                pos = next;
            } else if text_is(&key, "extends") {
                let list = match idents_from(toks, end, pos + 2) {
                    Ok(list) => list,
                    Err(f) => return Err(f),
                };
                args.extends = Some(list);
                return Ok(args);
            } else if text_is(&key, "rename_all") {
                let v = match rename_value_at(toks, end, pos + 2, toks[pos].site) {
                    Ok(v) => v,
                    Err(f) => return Err(f),
                };
                let next = match after_value_at(toks, end, pos + 3) {
                    Ok(next) => next,
                    Err(f) => return Err(f),
                };
                args.rename_all = Some(v);
                pos = next;
            } else {
                let mut m = string_of("Unknown argument: `");
                push_text(&mut m, key.as_str());
                push_text(&mut m, "`");
                return Err(fail_at(toks[pos].site, m));
            }
        }
        Ok(args)
    }
}

} // verus!
