//! How the generated `call` method hands each argument to JavaScript and
//! turns the returned `JsValue` back into the declared Rust type.
use vstd::prelude::*;
use crate::arrays::{get_slice_element_type, get_typed_array_ident, slice_element, typed_array_of, TypedArray};
use crate::diag::{fail_at, single, Failure};
use crate::syntax::{GenericArg, PathArgs, RustType, TypeBound, TypeKind};
use crate::text::{string_of, text_is};
use crate::ts_type::{is_bigint_ident, is_number_ident};

verus! {

/// How one argument becomes the `JsValue` passed to the function.
#[derive(PartialEq, Eq, Debug)]
pub enum ArgConversion {
    /// `Into::<JsValue>::into(arg)`.
    IntoJsValue,
    /// The slice of elements of node `elem` copied into the typed array.
    TypedArray { array: TypedArray, elem: usize },
    /// The slice of elements of node `elem` mapped into a `js_sys::Array`.
    JsArray { elem: usize },
    /// `Into::<T>::into(arg)` for the type `T` of node `target`, then
    /// the conversion `then` of that type.
    Into { target: usize, then: Box<ArgConversion> },
}

/// The conversion of a slice of `elem`: its typed array where there is one,
/// else a plain `js_sys::Array`.
pub open spec fn typed_array_conversion(elem: RustType) -> ArgConversion {
    match typed_array_of(elem) {
        Some(a) => ArgConversion::TypedArray { array: a, elem: elem.node },
        None => ArgConversion::JsArray { elem: elem.node },
    }
}

/// The conversion of an argument of type `ty`, or the node of the
/// `impl Trait` type that none fits.
pub open spec fn conversion_of(ty: RustType) -> Result<ArgConversion, usize>
    decreases ty, 0int,
{
    match ty.kind {
        TypeKind::ImplTrait(bounds) => impl_conversion(bounds@, 0, ty.node),
        _ => match slice_element(ty) {
            Some(e) => Ok(typed_array_conversion(e)),
            None => Ok(ArgConversion::IntoJsValue),
        },
    }
}

/// The conversion of an `impl Trait` argument (node `node`) from its bounds,
/// looked for from index `i` on: `Into<T>` converts into `T` first,
/// `AsRef<[T]>` passes the slice.
pub open spec fn impl_conversion(bounds: Seq<TypeBound>, i: int, node: usize) -> Result<ArgConversion, usize>
    decreases bounds, bounds.len() - i,
{
    if i < 0 || i >= bounds.len() {
        Err(node)
    } else {
        match bounds[i] {
            TypeBound::Trait(p) => match p.args {
                PathArgs::Angle(v) => {
                    if v.len() > 0 && p.last_ident() is Some {
                        match v@[0] {
                            GenericArg::Type(inner) => {
                                if p.last_ident() == Some("Into"@) {
                                    match conversion_of(inner) {
                                        Ok(c) => Ok(ArgConversion::Into { target: inner.node, then: Box::new(c) }),
                                        Err(n) => Err(n),
                                    }
                                } else if p.last_ident() == Some("AsRef"@) {
                                    match inner.kind {
                                        TypeKind::Slice(e) => Ok(typed_array_conversion(*e)),
                                        _ => impl_conversion(bounds, i + 1, node),
                                    }
                                } else {
                                    impl_conversion(bounds, i + 1, node)
                                }
                            },
                            GenericArg::Other => impl_conversion(bounds, i + 1, node),
                        }
                    } else {
                        impl_conversion(bounds, i + 1, node)
                    }
                },
                _ => impl_conversion(bounds, i + 1, node),
            },
            TypeBound::Other => impl_conversion(bounds, i + 1, node),
        }
    }
}

/// The message for an `impl Trait` argument that cannot be converted.
pub open spec fn unsupported_impl_message() -> Seq<char> {
    "Unsupported `impl Trait`. Only `impl Into<T>` and `impl AsRef<[T]>` are supported."@
}

/// The conversion of a slice of `inner_ty` (see [`typed_array_conversion`]).
pub fn generate_typed_array_conversion(inner_ty: &RustType) -> (r: ArgConversion)
    ensures
        r == typed_array_conversion(*inner_ty),
{
    match get_typed_array_ident(inner_ty) {
        Some(array) => ArgConversion::TypedArray { array, elem: inner_ty.node },
        None => ArgConversion::JsArray { elem: inner_ty.node },
    }
}

/// The conversion of an argument of type `ty`; an `impl Trait` type with
/// no `Into<T>` or `AsRef<[T]>` bound is refused at its node.
pub fn generate_conversion(ty: &RustType) -> (r: Result<ArgConversion, Failure>)
    ensures
        match conversion_of(*ty) {
            Ok(c) => r == Ok::<ArgConversion, Failure>(c),
            Err(n) => r matches Err(f) && f@ == single(n, unsupported_impl_message()),
        },
    decreases ty, 0int,
{
    match &ty.kind {
        TypeKind::ImplTrait(bounds) => impl_bound_conversion(bounds, 0, ty.node),
        _ => match get_slice_element_type(ty) {
            Some(e) => Ok(generate_typed_array_conversion(e)),
            None => Ok(ArgConversion::IntoJsValue),
        },
    }
}

fn impl_bound_conversion(bounds: &Vec<TypeBound>, i: usize, node: usize) -> (r: Result<ArgConversion, Failure>)
    requires
        i <= bounds.len(),
    ensures
        match impl_conversion(bounds@, i as int, node) {
            Ok(c) => r == Ok::<ArgConversion, Failure>(c),
            Err(n) => r matches Err(f) && f@ == single(n, unsupported_impl_message()),
        },
    decreases bounds@, bounds@.len() - i,
{
    if i >= bounds.len() {
        return Err(fail_at(node, string_of(
            "Unsupported `impl Trait`. Only `impl Into<T>` and `impl AsRef<[T]>` are supported.",
        )));
    }
    if let TypeBound::Trait(p) = &bounds[i] {
        if let PathArgs::Angle(v) = &p.args {
            if v.len() > 0 {
                if let Some(id) = p.last() {
                    if let GenericArg::Type(inner) = &v[0] {
                        if text_is(id, "Into") {
                            return match generate_conversion(inner) {
                                Ok(c) => Ok(ArgConversion::Into { target: inner.node, then: Box::new(c) }),
                                Err(f) => Err(f),
                            };
                        } else if text_is(id, "AsRef") {
                            if let TypeKind::Slice(e) = &inner.kind {
                                return Ok(generate_typed_array_conversion(&**e));
                            }
                        }
                    }
                }
            }
        }
    }
    impl_bound_conversion(bounds, i + 1, node)
}

/// How the `JsValue` returned by the function becomes the declared type.
#[derive(PartialEq, Eq, Debug)]
pub enum ReturnConversion {
    /// Cast into the typed array, copied into the type of node `ty`.
    TypedArray { array: TypedArray, ty: usize },
    /// `as_f64`, cast to the numeric type of node `ty`.
    Number { ty: usize },
    /// `TryInto` the 64-bit integer type of node `ty`.
    BigInt { ty: usize },
    /// `as_bool`.
    Bool,
    /// `as_string`.
    Str,
    /// The value itself.
    JsValue,
    /// `None` for `null` or `undefined`, else `Some` of the inner conversion.
    Optional(Box<ReturnConversion>),
    /// `TryFrom<JsValue>` into the type of node `ty`.
    TryConvert { ty: usize },
}

/// Why a return type cannot be converted.
#[derive(PartialEq, Eq, Structural, Clone, Copy, Debug)]
pub enum ReturnError {
    /// A path without segments.
    NoSegment,
    /// `Option` without angle-bracketed arguments.
    OptionWithoutArguments,
    /// `Option<..>` whose first argument is not a type.
    OptionWithoutType,
    /// Not a path type.
    Unsupported,
}

impl ReturnError {
    pub open spec fn spec_message(self) -> Seq<char> {
        match self {
            ReturnError::NoSegment => "Expected a type segment"@,
            ReturnError::OptionWithoutArguments => "Expected generic argument for Option"@,
            ReturnError::OptionWithoutType => "Expected type argument for Option"@,
            ReturnError::Unsupported =>
                "Unsupported return type in type alias pattern. Use the `impl` escape hatch instead."@,
        }
    }

    pub fn message(&self) -> (r: String)
        ensures
            r@ == self.spec_message(),
    {
        match self {
            ReturnError::NoSegment => string_of("Expected a type segment"),
            ReturnError::OptionWithoutArguments => string_of("Expected generic argument for Option"),
            ReturnError::OptionWithoutType => string_of("Expected type argument for Option"),
            ReturnError::Unsupported => string_of(
                "Unsupported return type in type alias pattern. Use the `impl` escape hatch instead.",
            ),
        }
    }
}

/// The conversion of a return value of type `ty`, or the node and reason
/// of the refusal.
pub open spec fn return_conversion_of(ty: RustType) -> Result<ReturnConversion, (usize, ReturnError)>
    decreases ty,
{
    match ty.kind {
        TypeKind::Path(p) => match p.last_ident() {
            None => Err((ty.node, ReturnError::NoSegment)),
            Some(id) => {
                if slice_element(ty) is Some && typed_array_of(slice_element(ty).unwrap()) is Some {
                    Ok(ReturnConversion::TypedArray {
                        array: typed_array_of(slice_element(ty).unwrap()).unwrap(),
                        ty: ty.node,
                    })
                } else if is_number_ident(id) {
                    Ok(ReturnConversion::Number { ty: ty.node })
                } else if is_bigint_ident(id) {
                    Ok(ReturnConversion::BigInt { ty: ty.node })
                } else if id == "bool"@ {
                    Ok(ReturnConversion::Bool)
                } else if id == "String"@ {
                    Ok(ReturnConversion::Str)
                } else if id == "JsValue"@ {
                    Ok(ReturnConversion::JsValue)
                } else if id == "Option"@ {
                    match p.args {
                        PathArgs::Angle(v) => {
                            if v.len() > 0 {
                                match v@[0] {
                                    GenericArg::Type(inner) => match return_conversion_of(inner) {
                                        Ok(c) => Ok(ReturnConversion::Optional(Box::new(c))),
                                        Err(e) => Err(e),
                                    },
                                    GenericArg::Other => Err((ty.node, ReturnError::OptionWithoutType)),
                                }
                            } else {
                                Err((ty.node, ReturnError::OptionWithoutType))
                            }
                        },
                        _ => Err((ty.node, ReturnError::OptionWithoutArguments)),
                    }
                } else {
                    Ok(ReturnConversion::TryConvert { ty: ty.node })
                }
            },
        },
        _ => Err((ty.node, ReturnError::Unsupported)),
    }
}

/// The conversion of the returned value into the declared type `ty`.
pub fn generate_return_conversion(ty: &RustType) -> (r: Result<ReturnConversion, Failure>)
    ensures
        match return_conversion_of(*ty) {
            Ok(c) => r == Ok::<ReturnConversion, Failure>(c),
            Err((n, e)) => r matches Err(f) && f@ == single(n, e.spec_message()),
        },
    decreases ty,
{
    let p = match &ty.kind {
        TypeKind::Path(p) => p,
        _ => return Err(fail_at(ty.node, ReturnError::Unsupported.message())),
    };
    let id = match p.last() {
        Some(id) => id,
        None => return Err(fail_at(ty.node, ReturnError::NoSegment.message())),
    };
    if let Some(e) = get_slice_element_type(ty) {
        if let Some(array) = get_typed_array_ident(e) {
            return Ok(ReturnConversion::TypedArray { array, ty: ty.node });
        }
    }
    if text_is(id, "f32") || text_is(id, "f64") || text_is(id, "i8") || text_is(id, "i16")
        || text_is(id, "i32") || text_is(id, "u8") || text_is(id, "u16") || text_is(id, "u32") {
        Ok(ReturnConversion::Number { ty: ty.node })
    } else if text_is(id, "i64") || text_is(id, "u64") {
        Ok(ReturnConversion::BigInt { ty: ty.node })
    } else if text_is(id, "bool") {
        Ok(ReturnConversion::Bool)
    } else if text_is(id, "String") {
        Ok(ReturnConversion::Str)
    } else if text_is(id, "JsValue") {
        Ok(ReturnConversion::JsValue)
    } else if text_is(id, "Option") {
        match &p.args {
            PathArgs::Angle(v) => {
                if v.len() > 0 {
                    match &v[0] {
                        GenericArg::Type(inner) => match generate_return_conversion(inner) {
                            Ok(c) => Ok(ReturnConversion::Optional(Box::new(c))),
                            Err(f) => Err(f),
                        },
                        GenericArg::Other => Err(fail_at(ty.node, ReturnError::OptionWithoutType.message())),
                    }
                } else {
                    Err(fail_at(ty.node, ReturnError::OptionWithoutType.message()))
                }
            },
            _ => Err(fail_at(ty.node, ReturnError::OptionWithoutArguments.message())),
        }
    } else {
        Ok(ReturnConversion::TryConvert { ty: ty.node })
    }
}

} // verus!
