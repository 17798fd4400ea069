//! The TypeScript type of a Rust type.
//!
//! | Rust | TypeScript |
//! | :--- | :--- |
//! | `f32`, `f64`, `i8`-`i32`, `u8`-`u32` | `number` |
//! | `i64`, `u64` | `bigint` |
//! | `bool` | `boolean` |
//! | `String`, `str` | `string` |
//! | `Option<T>` | `T \| undefined` |
//! | `Vec<T>`, `Box<[T]>`, `Arc<[T]>`, `Rc<[T]>`, `[T]`, `&[T]` | the typed array of `T`, or `T[]` |
//! | `JsValue` | `any` |
//! | `Object` | `object` |
//! | `impl Into<T>`, `impl AsRef<[T]>` | the type of `T`, `[T]` |
//! | `&T` | the type of `T` |
//! | any other path `Name<A, ..>` | `Name<a, ..>` |
use vstd::prelude::*;
use crate::arrays::{get_typed_array_ident, is_container, typed_array_of};
use crate::syntax::{first_type_arg, GenericArg, PathArgs, PathType, RustType, TypeBound, TypeKind};
use crate::text::{join, join_strings, push_text, string_of, text_is};

verus! {

/// Why a Rust type has no TypeScript type.
#[derive(PartialEq, Eq, Structural, Clone, Copy, Debug)]
pub enum TsError {
    /// A tuple, array, function pointer, trait object or other shape, or
    /// `Option` without a type argument.
    UnsupportedType,
    /// An `impl Trait` without an `Into<T>` or `AsRef<[T]>` bound.
    UnsupportedImplTrait,
}

impl TsError {
    pub open spec fn spec_message(self) -> Seq<char> {
        match self {
            TsError::UnsupportedType => "Unsupported type: it has no TypeScript equivalent"@,
            TsError::UnsupportedImplTrait =>
                "Unsupported `impl Trait`: only `impl Into<T>` and `impl AsRef<[T]>` have a TypeScript equivalent"@,
        }
    }

    /// The text of the diagnostic.
    pub fn message(&self) -> (r: String)
        ensures
            r@ == self.spec_message(),
    {
        match self {
            TsError::UnsupportedType => string_of("Unsupported type: it has no TypeScript equivalent"),
            TsError::UnsupportedImplTrait => string_of(
                "Unsupported `impl Trait`: only `impl Into<T>` and `impl AsRef<[T]>` have a TypeScript equivalent",
            ),
        }
    }
}

/// A TypeScript type as text, with whether it is a union with `undefined`.
#[derive(Debug)]
pub struct TsText {
    pub text: String,
    pub optional: bool,
}

/// The numeric primitives that travel as a JavaScript `number`.
pub open spec fn is_number_ident(s: Seq<char>) -> bool {
    s == "f32"@ || s == "f64"@ || s == "i8"@ || s == "i16"@ || s == "i32"@ || s == "u8"@
        || s == "u16"@ || s == "u32"@
}

/// The 64-bit integers, which travel as a JavaScript `bigint`.
pub open spec fn is_bigint_ident(s: Seq<char>) -> bool {
    s == "i64"@ || s == "u64"@
}

/// `T[]`, with `T` in parentheses when it is a union.
pub open spec fn array_suffixed(t: Seq<char>, union: bool) -> Seq<char> {
    if union {
        seq!['('] + t + seq![')'] + "[]"@
    } else {
        t + "[]"@
    }
}

/// The TypeScript type of an array of `elem`: its typed array where there is
/// one, else `T[]` for the type `T` of `elem`.
pub open spec fn array_ts(elem: RustType, elem_ts: Result<(Seq<char>, bool), TsError>) -> Result<
    (Seq<char>, bool),
    TsError,
> {
    match typed_array_of(elem) {
        Some(a) => Ok((a.spec_name(), false)),
        None => match elem_ts {
            Ok((t, union)) => Ok((array_suffixed(t, union), false)),
            Err(e) => Err(e),
        },
    }
}

/// The TypeScript type of a Rust type, as text with whether it is a union
/// with `undefined`; see the table at the head of this module.
pub open spec fn ts_of(ty: RustType) -> Result<(Seq<char>, bool), TsError>
    decreases ty, 0int,
{
    match ty.kind {
        TypeKind::ImplTrait(bounds) => bounds_ts(bounds@, 0),
        TypeKind::Reference(r) => match r.kind {
            TypeKind::Slice(e) => array_ts(*e, ts_of(*e)),
            _ => ts_of(*r),
        },
        TypeKind::Slice(e) => array_ts(*e, ts_of(*e)),
        TypeKind::Path(p) => path_ts(p),
        _ => Err(TsError::UnsupportedType),
    }
}

/// The TypeScript type of an `impl Trait` from its bounds, looked for from
/// index `i` on: the first bound `Into<T>`, or `AsRef<[T]>`, gives it.
pub open spec fn bounds_ts(bounds: Seq<TypeBound>, i: int) -> Result<(Seq<char>, bool), TsError>
    decreases bounds, bounds.len() - i,
{
    if i < 0 || i >= bounds.len() {
        Err(TsError::UnsupportedImplTrait)
    } else {
        match bounds[i] {
            TypeBound::Trait(p) => match p.args {
                PathArgs::Angle(v) => {
                    if v.len() > 0 {
                        match v@[0] {
                            GenericArg::Type(inner) => {
                                if p.last_ident() == Some("Into"@) {
                                    ts_of(inner)
                                } else if p.last_ident() == Some("AsRef"@) && inner.kind is Slice {
                                    ts_of(inner)
                                } else {
                                    bounds_ts(bounds, i + 1)
                                }
                            },
                            GenericArg::Other => bounds_ts(bounds, i + 1),
                        }
                    } else {
                        bounds_ts(bounds, i + 1)
                    }
                },
                _ => bounds_ts(bounds, i + 1),
            },
            TypeBound::Other => bounds_ts(bounds, i + 1),
        }
    }
}

/// The TypeScript types of the type arguments among `args`, from index `i`
/// on; other generic arguments are passed over.
pub open spec fn type_args_ts(args: Seq<GenericArg>, i: int) -> Result<Seq<Seq<char>>, TsError>
    decreases args, args.len() - i,
{
    if i < 0 || i >= args.len() {
        Ok(seq![])
    } else {
        match args[i] {
            GenericArg::Type(t) => match ts_of(t) {
                Err(e) => Err(e),
                Ok((s, _)) => match type_args_ts(args, i + 1) {
                    Err(e) => Err(e),
                    Ok(rest) => Ok(seq![s] + rest),
                },
            },
            GenericArg::Other => type_args_ts(args, i + 1),
        }
    }
}

/// `Name` or `Name<a, b>` for the path's last identifier and the TypeScript
/// types of its type arguments.
pub open spec fn generic_text(name: Seq<char>, args: Seq<Seq<char>>) -> Seq<char> {
    if args.len() == 0 {
        name
    } else {
        name + seq!['<'] + join(args, ", "@) + seq!['>']
    }
}

/// The TypeScript type of a path type.
pub open spec fn path_ts(p: PathType) -> Result<(Seq<char>, bool), TsError>
    decreases p, 0int,
{
    match p.last_ident() {
        None => Err(TsError::UnsupportedType),
        Some(id) => {
            if is_container(id) && first_type_arg(p.args) is Some {
                match p.args {
                    PathArgs::Angle(v) => match v@[0] {
                        GenericArg::Type(inner) => match inner.kind {
                            TypeKind::Slice(e) => array_ts(*e, ts_of(*e)),
                            _ => array_ts(inner, ts_of(inner)),
                        },
                        GenericArg::Other => Err(TsError::UnsupportedType),
                    },
                    _ => Err(TsError::UnsupportedType),
                }
            } else if is_number_ident(id) {
                Ok(("number"@, false))
            } else if is_bigint_ident(id) {
                Ok(("bigint"@, false))
            } else if id == "bool"@ {
                Ok(("boolean"@, false))
            } else if id == "String"@ || id == "str"@ {
                Ok(("string"@, false))
            } else if id == "JsValue"@ {
                Ok(("any"@, false))
            } else if id == "Object"@ {
                Ok(("object"@, false))
            } else if id == "Option"@ {
                match p.args {
                    PathArgs::Angle(v) => {
                        if v.len() > 0 {
                            match v@[0] {
                                GenericArg::Type(inner) => match ts_of(inner) {
                                    Ok((t, _)) => Ok((t + " | undefined"@, true)),
                                    Err(e) => Err(e),
                                },
                                GenericArg::Other => Err(TsError::UnsupportedType),
                            }
                        } else {
                            Err(TsError::UnsupportedType)
                        }
                    },
                    _ => Err(TsError::UnsupportedType),
                }
            } else {
                match p.args {
                    PathArgs::Angle(v) => match type_args_ts(v@, 0) {
                        Ok(args) => Ok((generic_text(id, args), false)),
                        Err(e) => Err(e),
                    },
                    _ => Ok((id, false)),
                }
            }
        },
    }
}

/// The exec result agrees with the specified one.
pub open spec fn ts_agrees(r: Result<TsText, TsError>, s: Result<(Seq<char>, bool), TsError>) -> bool {
    match (r, s) {
        (Ok(t), Ok((x, o))) => t.text@ == x && t.optional == o,
        (Err(e1), Err(e2)) => e1 == e2,
        _ => false,
    }
}

/// The TypeScript type of `ty` (see [`ts_of`]).
pub fn to_ts_type(ty: &RustType) -> (r: Result<TsText, TsError>)
    ensures
        ts_agrees(r, ts_of(*ty)),
    decreases ty, 0int,
{
    match &ty.kind {
        TypeKind::ImplTrait(bounds) => bounds_to_ts(bounds, 0),
        TypeKind::Reference(r) => match &r.kind {
            TypeKind::Slice(e) => array_to_ts(&**e),
            _ => to_ts_type(&**r),
        },
        TypeKind::Slice(e) => array_to_ts(&**e),
        TypeKind::Path(p) => path_to_ts(p),
        _ => Err(TsError::UnsupportedType),
    }
}

fn array_to_ts(elem: &RustType) -> (r: Result<TsText, TsError>)
    ensures
        ts_agrees(r, array_ts(*elem, ts_of(*elem))),
    decreases elem, 1int,
{
    match get_typed_array_ident(elem) {
        Some(a) => Ok(TsText { text: a.name(), optional: false }),
        None => match to_ts_type(elem) {
            Ok(t) => {
                let mut text = String::new();
                if t.optional {
                    push_text(&mut text, "(");
                    push_text(&mut text, t.text.as_str());
                    push_text(&mut text, ")");
                } else {
                    push_text(&mut text, t.text.as_str());
                }
                push_text(&mut text, "[]");
                proof {
                    reveal_strlit("(");
                    reveal_strlit(")");
                    if t.optional {
                        assert(text@ =~= array_suffixed(t.text@, true));
                    } else {
                        assert(text@ =~= array_suffixed(t.text@, false));
                    }
                }
                Ok(TsText { text, optional: false })
            },
            Err(e) => Err(e),
        },
    }
}

fn bounds_to_ts(bounds: &Vec<TypeBound>, i: usize) -> (r: Result<TsText, TsError>)
    requires
        i <= bounds.len(),
    ensures
        ts_agrees(r, bounds_ts(bounds@, i as int)),
    decreases bounds@, bounds@.len() - i,
{
    if i >= bounds.len() {
        return Err(TsError::UnsupportedImplTrait);
    }
    match &bounds[i] {
        TypeBound::Trait(p) => match &p.args {
            PathArgs::Angle(v) => {
                if v.len() > 0 {
                    match &v[0] {
                        GenericArg::Type(inner) => {
                            let is_into = match p.last() {
                                Some(id) => text_is(id, "Into"),
                                None => false,
                            };
                            let is_as_ref = match p.last() {
                                Some(id) => text_is(id, "AsRef"),
                                None => false,
                            };
                            if is_into {
                                to_ts_type(inner)
                            } else if is_as_ref && matches!(inner.kind, TypeKind::Slice(_)) {
                                to_ts_type(inner)
                            } else {
                                bounds_to_ts(bounds, i + 1)
                            }
                        },
                        GenericArg::Other => bounds_to_ts(bounds, i + 1),
                    }
                } else {
                    bounds_to_ts(bounds, i + 1)
                }
            },
            _ => bounds_to_ts(bounds, i + 1),
        },
        TypeBound::Other => bounds_to_ts(bounds, i + 1),
    }
}

fn type_args_to_ts(args: &Vec<GenericArg>, i: usize) -> (r: Result<Vec<String>, TsError>)
    requires
        i <= args.len(),
    ensures
        match (r, type_args_ts(args@, i as int)) {
            (Ok(out), Ok(s)) => out.deep_view() == s,
            (Err(e1), Err(e2)) => e1 == e2,
            _ => false,
        },
    decreases args@, args@.len() - i,
{
    if i >= args.len() {
        let out: Vec<String> = Vec::new();
        assert(out.deep_view() =~= Seq::<Seq<char>>::empty());
        return Ok(out);
    }
    match &args[i] {
        GenericArg::Type(t) => match to_ts_type(t) {
            Err(e) => Err(e),
            Ok(s) => match type_args_to_ts(args, i + 1) {
                Err(e) => Err(e),
                Ok(rest) => {
                    let mut out = rest;
                    let ghost before = out.deep_view();
                    out.insert(0, s.text);
                    assert(out.deep_view() =~= seq![s.text@] + before);
                    Ok(out)
                },
            },
        },
        GenericArg::Other => type_args_to_ts(args, i + 1),
    }
}

fn path_to_ts(p: &PathType) -> (r: Result<TsText, TsError>)
    ensures
        ts_agrees(r, path_ts(*p)),
    decreases p, 0int,
{
    let id = match p.last() {
        Some(id) => id,
        None => return Err(TsError::UnsupportedType),
    };
    let container = text_is(id, "Vec") || text_is(id, "Box") || text_is(id, "Arc") || text_is(id, "Rc");
    if container {
        if let PathArgs::Angle(v) = &p.args {
            if v.len() > 0 {
                if let GenericArg::Type(inner) = &v[0] {
                    return match &inner.kind {
                        TypeKind::Slice(e) => array_to_ts(&**e),
                        _ => array_to_ts(inner),
                    };
                }
            }
        }
    }
    let word = if text_is(id, "f32") || text_is(id, "f64") || text_is(id, "i8") || text_is(id, "i16")
        || text_is(id, "i32") || text_is(id, "u8") || text_is(id, "u16") || text_is(id, "u32") {
        Some(string_of("number"))
    } else if text_is(id, "i64") || text_is(id, "u64") {
        Some(string_of("bigint"))
    } else if text_is(id, "bool") {
        Some(string_of("boolean"))
    } else if text_is(id, "String") || text_is(id, "str") {
        Some(string_of("string"))
    } else if text_is(id, "JsValue") {
        Some(string_of("any"))
    } else if text_is(id, "Object") {
        Some(string_of("object"))
    } else {
        None
    };
    if let Some(text) = word {
        return Ok(TsText { text, optional: false });
    }
    if text_is(id, "Option") {
        if let PathArgs::Angle(v) = &p.args {
            if v.len() > 0 {
                if let GenericArg::Type(inner) = &v[0] {
                    return match to_ts_type(inner) {
                        Ok(t) => {
                            let mut text = t.text;
                            push_text(&mut text, " | undefined");
                            Ok(TsText { text, optional: true })
                        },
                        Err(e) => Err(e),
                    };
                }
            }
        }
        return Err(TsError::UnsupportedType);
    }
    match &p.args {
        PathArgs::Angle(v) => match type_args_to_ts(v, 0) {
            Ok(args) => {
                let mut text = id.clone();
                if args.len() > 0 {
                    push_text(&mut text, "<");
                    let inner = join_strings(&args, ", ");
                    push_text(&mut text, inner.as_str());
                    push_text(&mut text, ">");
                    proof {
                        reveal_strlit("<");
                        reveal_strlit(">");
                        assert(text@ =~= generic_text(id@, args.deep_view()));
                    }
                }
                assert(text@ == generic_text(id@, args.deep_view()));
                Ok(TsText { text, optional: false })
            },
            Err(e) => Err(e),
        },
        _ => Ok(TsText { text: id.clone(), optional: false }),
    }
}

} // verus!
