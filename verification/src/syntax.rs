//! The library's model of the Rust syntax that the attribute reads.
//!
//! Every node that a diagnostic may point at carries a `site` (or `node`)
//! number; the caller keeps the matching source location.
use vstd::prelude::*;

verus! {

/// A generic argument inside `<...>`: a type, or anything else (a lifetime,
/// a constant, an associated-type binding).
#[derive(Debug)]
pub enum GenericArg {
    Type(RustType),
    Other,
}

/// The arguments of the last segment of a path.
#[derive(Debug)]
pub enum PathArgs {
    /// No arguments: `Vec`.
    Bare,
    /// Angle-bracketed arguments: `Vec<u8>`.
    Angle(Vec<GenericArg>),
    /// Parenthesized arguments: `Fn(u8) -> u8`.
    Paren,
}

/// A path type such as `::js_sys::Float64Array` or `Vec<u8>`: whether it
/// starts with `::`, the identifiers of its segments, and the arguments of
/// its last segment.
#[derive(Debug)]
pub struct PathType {
    pub leading_colon: bool,
    pub idents: Vec<String>,
    pub args: PathArgs,
}

/// A bound of an `impl Trait` type: a trait path, or anything else.
#[derive(Debug)]
pub enum TypeBound {
    Trait(PathType),
    Other,
}

/// An argument of a function pointer type: its optional name and its type.
#[derive(Debug)]
pub struct BareArg {
    pub name: Option<String>,
    pub ty: RustType,
}

/// The shapes of Rust types that the attribute distinguishes.
#[derive(Debug)]
pub enum TypeKind {
    Path(PathType),
    /// `&T` or `&mut T`.
    Reference(Box<RustType>),
    /// `[T]`.
    Slice(Box<RustType>),
    /// `impl A + B`.
    ImplTrait(Vec<TypeBound>),
    /// `fn(a: A, B) -> R`; the output is `None` for the default `()` return.
    FnPtr(Vec<BareArg>, Option<Box<RustType>>),
    /// Any other type (tuples, arrays, trait objects, ...).
    Other,
}

/// A Rust type, with the number of its node in the caller's source map.
#[derive(Debug)]
pub struct RustType {
    pub node: usize,
    pub kind: TypeKind,
}

/// A token of an attribute's arguments: an identifier (as written,
/// `r#` included), a punctuation character, a string literal (its value),
/// another literal, or a group with its delimiter.
#[derive(Debug)]
pub enum AttrTokenKind {
    Ident(String),
    Punct(char),
    Str(String),
    Literal,
    Group(Delim),
}

/// The delimiter of a group: `( )`, `[ ]` or `{ }`.
#[derive(PartialEq, Eq, Structural, Clone, Copy, Debug)]
pub enum Delim {
    Paren,
    Bracket,
    Brace,
}

/// A token with its site; `joint` marks a punctuation character written
/// directly before another one (as `!` in `!=`).
#[derive(Debug)]
pub struct AttrToken {
    pub site: usize,
    pub joint: bool,
    pub kind: AttrTokenKind,
}

/// The mathematical form of a token's kind.
pub enum TokenKindV {
    Ident(Seq<char>),
    Punct(char),
    Str(Seq<char>),
    Literal,
    Group(Delim),
}

/// The mathematical form of a token.
pub struct TokenV {
    pub site: usize,
    pub joint: bool,
    pub kind: TokenKindV,
}

impl View for AttrToken {
    type V = TokenV;

    open spec fn view(&self) -> TokenV {
        TokenV {
            site: self.site,
            joint: self.joint,
            kind: match self.kind {
                AttrTokenKind::Ident(s) => TokenKindV::Ident(s@),
                AttrTokenKind::Punct(c) => TokenKindV::Punct(c),
                AttrTokenKind::Str(s) => TokenKindV::Str(s@),
                AttrTokenKind::Literal => TokenKindV::Literal,
                AttrTokenKind::Group(d) => TokenKindV::Group(d),
            },
        }
    }
}

/// The mathematical form of a token list.
pub open spec fn tokens_view(toks: Seq<AttrToken>) -> Seq<TokenV> {
    Seq::new(toks.len(), |i: int| toks[i]@)
}

/// The tokens of an attribute's arguments, with the site that errors at
/// the end of the input point at.
#[derive(Debug)]
pub struct AttrTokens {
    pub tokens: Vec<AttrToken>,
    pub end_site: usize,
}

/// The value of a `key = value` item in `#[ts(...)]` on a field: a string
/// literal, a boolean literal, or any other expression.
#[derive(Debug)]
pub enum MetaValue {
    Str(String),
    Bool(bool),
    Other,
}

/// An item of `#[ts(...)]` on a field: `key = value`, with the key when it
/// is one identifier, or any other form.
#[derive(Debug)]
pub enum TsMeta {
    NameValue { key: Option<String>, value: MetaValue },
    Other,
}

/// An attribute of a field.
#[derive(Debug)]
pub enum FieldAttr {
    /// `#[doc ...]`: the text of `#[doc = "..."]`, or `None` for another form.
    Doc(Option<String>),
    /// `#[ts(...)]`: its items, or the message of the error in reading them.
    TsList(Result<Vec<TsMeta>, String>),
    /// `#[ts]` or `#[ts = ...]`.
    TsOther,
    /// Any other attribute.
    Other,
}

/// A named field: its name, its type and its attributes.
#[derive(Debug)]
pub struct Field {
    pub name: String,
    pub ty: RustType,
    pub attrs: Vec<FieldAttr>,
}

/// A struct: its name and its named fields, or `None` when its fields are
/// not named.
#[derive(Debug)]
pub struct StructItem {
    pub name: String,
    pub fields: Option<Vec<Field>>,
}

/// A variant of an enum: its site, its name, and whether it is a unit
/// variant.
#[derive(Debug)]
pub struct Variant {
    pub site: usize,
    pub name: String,
    pub is_unit: bool,
}

/// An enum: its name and its variants.
#[derive(Debug)]
pub struct EnumItem {
    pub name: String,
    pub variants: Vec<Variant>,
}

/// An item that the attribute is applied to.
#[derive(Debug)]
pub enum Item {
    Struct(StructItem),
    Enum(EnumItem),
    Type(TypeAlias),
    Impl(ImplBlock),
    /// Any other item, with its site.
    Other { site: usize },
}

/// `type Name = Type;` with the sites of the item and of a `default`
/// modifier, if it has one.
#[derive(Debug)]
pub struct TypeAlias {
    pub site: usize,
    pub default_site: Option<usize>,
    pub name: String,
    pub ty: RustType,
}

/// An input of a method: `self` in any form, or a typed pattern with the
/// identifier it binds, if it is a plain identifier pattern.
#[derive(Debug)]
pub enum FnInput {
    Receiver { site: usize },
    Typed { site: usize, pat_ident: Option<String>, ty: RustType },
}

/// A method of an impl block: its name, the site of its signature, its
/// inputs and its output type (`None` for `()`).
#[derive(Debug)]
pub struct ImplFn {
    pub name: String,
    pub sig_site: usize,
    pub inputs: Vec<FnInput>,
    pub output: Option<RustType>,
}

/// An impl block: its site, the sites of a `default` and of a `!`
/// modifier, whether it implements a trait, its self type and its methods
/// (other associated items are left out).
#[derive(Debug)]
pub struct ImplBlock {
    pub site: usize,
    pub default_site: Option<usize>,
    pub negative_site: Option<usize>,
    pub is_trait_impl: bool,
    pub self_ty: RustType,
    pub fns: Vec<ImplFn>,
}

impl PathType {
    /// The identifier of the last segment, if the path has a segment.
    pub open spec fn last_ident(self) -> Option<Seq<char>> {
        if self.idents.len() > 0 {
            Some(self.idents@.last()@)
        } else {
            None
        }
    }

    /// The path is one plain identifier: no leading `::`, one segment, no
    /// arguments.
    pub open spec fn is_single_ident(self) -> bool {
        &&& !self.leading_colon
        &&& self.idents.len() == 1
        &&& self.args is Bare
    }

    /// The identifier of the last segment.
    pub fn last(&self) -> (r: Option<&String>)
        ensures
            match r {
                Some(s) => self.last_ident() == Some(s@),
                None => self.last_ident() is None,
            },
    {
        let n = self.idents.len();
        if n > 0 {
            Some(&self.idents[n - 1])
        } else {
            None
        }
    }

    /// The path as one identifier, where it is one.
    pub fn get_ident(&self) -> (r: Option<&String>)
        ensures
            match r {
                Some(s) => self.is_single_ident() && s@ == self.idents@[0]@,
                None => !self.is_single_ident(),
            },
    {
        if !self.leading_colon && self.idents.len() == 1 && matches!(self.args, PathArgs::Bare) {
            Some(&self.idents[0])
        } else {
            None
        }
    }
}

/// The first generic argument, where the arguments are angle-bracketed and
/// that argument is a type.
pub open spec fn first_type_arg(args: PathArgs) -> Option<RustType> {
    match args {
        PathArgs::Angle(v) => {
            if v.len() > 0 {
                match v@[0] {
                    GenericArg::Type(t) => Some(t),
                    GenericArg::Other => None,
                }
            } else {
                None
            }
        },
        _ => None,
    }
}

/// Exec form of [`first_type_arg`].
pub fn get_first_type_arg(args: &PathArgs) -> (r: Option<&RustType>)
    ensures
        match r {
            Some(t) => first_type_arg(*args) == Some(*t),
            None => first_type_arg(*args) is None,
        },
{
    match args {
        PathArgs::Angle(v) => {
            if v.len() > 0 {
                match &v[0] {
                    GenericArg::Type(t) => Some(t),
                    GenericArg::Other => None,
                }
            } else {
                None
            }
        },
        _ => None,
    }
}

} // verus!
