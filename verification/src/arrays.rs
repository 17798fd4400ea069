//! Element types of array-like Rust types and the JavaScript typed arrays
//! that carry them.
use vstd::prelude::*;
use crate::syntax::{first_type_arg, get_first_type_arg, RustType, TypeKind};
use crate::text::{string_of, text_is};

verus! {

/// The JavaScript typed-array classes of `js_sys`.
#[derive(PartialEq, Eq, Structural, Clone, Copy, Debug)]
pub enum TypedArray {
    Uint8Array,
    Int8Array,
    Uint16Array,
    Int16Array,
    Uint32Array,
    Int32Array,
    Float32Array,
    Float64Array,
    BigUint64Array,
    BigInt64Array,
}

impl TypedArray {
    /// The class name, which is also its TypeScript type.
    pub open spec fn spec_name(self) -> Seq<char> {
        match self {
            TypedArray::Uint8Array => "Uint8Array"@,
            TypedArray::Int8Array => "Int8Array"@,
            TypedArray::Uint16Array => "Uint16Array"@,
            TypedArray::Int16Array => "Int16Array"@,
            TypedArray::Uint32Array => "Uint32Array"@,
            TypedArray::Int32Array => "Int32Array"@,
            TypedArray::Float32Array => "Float32Array"@,
            TypedArray::Float64Array => "Float64Array"@,
            TypedArray::BigUint64Array => "BigUint64Array"@,
            TypedArray::BigInt64Array => "BigInt64Array"@,
        }
    }

    /// The class name, which is also its TypeScript type.
    pub fn name(&self) -> (r: String)
        ensures
            r@ == self.spec_name(),
    {
        match self {
            TypedArray::Uint8Array => string_of("Uint8Array"),
            TypedArray::Int8Array => string_of("Int8Array"),
            TypedArray::Uint16Array => string_of("Uint16Array"),
            TypedArray::Int16Array => string_of("Int16Array"),
            TypedArray::Uint32Array => string_of("Uint32Array"),
            TypedArray::Int32Array => string_of("Int32Array"),
            TypedArray::Float32Array => string_of("Float32Array"),
            TypedArray::Float64Array => string_of("Float64Array"),
            TypedArray::BigUint64Array => string_of("BigUint64Array"),
            TypedArray::BigInt64Array => string_of("BigInt64Array"),
        }
    }
}

/// The typed array whose elements are the primitive named `s`.
pub open spec fn typed_array_for(s: Seq<char>) -> Option<TypedArray> {
    if s == "u8"@ {
        Some(TypedArray::Uint8Array)
    } else if s == "i8"@ {
        Some(TypedArray::Int8Array)
    } else if s == "u16"@ {
        Some(TypedArray::Uint16Array)
    } else if s == "i16"@ {
        Some(TypedArray::Int16Array)
    } else if s == "u32"@ {
        Some(TypedArray::Uint32Array)
    } else if s == "i32"@ {
        Some(TypedArray::Int32Array)
    } else if s == "f32"@ {
        Some(TypedArray::Float32Array)
    } else if s == "f64"@ {
        Some(TypedArray::Float64Array)
    } else if s == "u64"@ {
        Some(TypedArray::BigUint64Array)
    } else if s == "i64"@ {
        Some(TypedArray::BigInt64Array)
    } else {
        None
    }
}

/// The typed array for an element type: defined for a path type whose last
/// segment names one of the ten numeric primitives.
pub open spec fn typed_array_of(ty: RustType) -> Option<TypedArray> {
    match ty.kind {
        TypeKind::Path(p) => match p.last_ident() {
            Some(id) => typed_array_for(id),
            None => None,
        },
        _ => None,
    }
}

/// The typed array that carries elements of type `inner_ty`, if any.
pub fn get_typed_array_ident(inner_ty: &RustType) -> (r: Option<TypedArray>)
    ensures
        r == typed_array_of(*inner_ty),
{
    match &inner_ty.kind {
        TypeKind::Path(p) => match p.last() {
            Some(id) => {
                if text_is(id, "u8") {
                    Some(TypedArray::Uint8Array)
                } else if text_is(id, "i8") {
                    Some(TypedArray::Int8Array)
                } else if text_is(id, "u16") {
                    Some(TypedArray::Uint16Array)
                } else if text_is(id, "i16") {
                    Some(TypedArray::Int16Array)
                } else if text_is(id, "u32") {
                    Some(TypedArray::Uint32Array)
                } else if text_is(id, "i32") {
                    Some(TypedArray::Int32Array)
                } else if text_is(id, "f32") {
                    Some(TypedArray::Float32Array)
                } else if text_is(id, "f64") {
                    Some(TypedArray::Float64Array)
                } else if text_is(id, "u64") {
                    Some(TypedArray::BigUint64Array)
                } else if text_is(id, "i64") {
                    Some(TypedArray::BigInt64Array)
                } else {
                    None
                }
            },
            None => None,
        },
        _ => None,
    }
}

/// The containers whose element type is read off their first generic
/// argument: `Vec`, `Box`, `Arc` and `Rc`.
pub open spec fn is_container(s: Seq<char>) -> bool {
    s == "Vec"@ || s == "Box"@ || s == "Arc"@ || s == "Rc"@
}

/// The element type of an array-like type: for `Vec<T>`, `Box<T>`,
/// `Arc<T>`, `Rc<T>` the argument `T`, or `E` where `T` is the slice `[E]`;
/// for a reference to a slice `&[E]` the type `E`; for any other reference,
/// the element type of the referenced type.
pub open spec fn slice_element(ty: RustType) -> Option<RustType>
    decreases ty,
{
    match ty.kind {
        TypeKind::Path(p) => match p.last_ident() {
            Some(id) => {
                if is_container(id) {
                    match first_type_arg(p.args) {
                        Some(inner) => match inner.kind {
                            TypeKind::Slice(e) => Some(*e),
                            _ => Some(inner),
                        },
                        None => None,
                    }
                } else {
                    None
                }
            },
            None => None,
        },
        TypeKind::Reference(r) => match r.kind {
            TypeKind::Slice(e) => Some(*e),
            _ => slice_element(*r),
        },
        _ => None,
    }
}

/// The element type of an array-like type (see [`slice_element`]).
pub fn get_slice_element_type(ty: &RustType) -> (r: Option<&RustType>)
    ensures
        match r {
            Some(e) => slice_element(*ty) == Some(*e),
            None => slice_element(*ty) is None,
        },
    decreases ty,
{
    match &ty.kind {
        TypeKind::Path(p) => {
            let id = match p.last() {
                Some(id) => id,
                None => return None,
            };
            if text_is(id, "Vec") || text_is(id, "Box") || text_is(id, "Arc") || text_is(id, "Rc") {
                match get_first_type_arg(&p.args) {
                    Some(inner) => match &inner.kind {
                        TypeKind::Slice(e) => Some(&**e),
                        _ => Some(inner),
                    },
                    None => None,
                }
            } else {
                None
            }
        },
        TypeKind::Reference(r) => match &r.kind {
            TypeKind::Slice(e) => Some(&**e),
            _ => get_slice_element_type(&**r),
        },
        _ => None,
    }
}

} // verus!
