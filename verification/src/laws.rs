//! Properties that span several of the library's functions.
use vstd::prelude::*;
use crate::arrays::{slice_element, typed_array_of, TypedArray};
use crate::conversion::{conversion_of, return_conversion_of, typed_array_conversion, ArgConversion, ReturnConversion};
use crate::args::{
    expect_ident, idents_terminated, is_reserved_word, parse_from, parse_ts_args, TsArgsV,
};
use crate::dispatch::expansion_failure;
use crate::signature::{
    ts_arg_entries, ts_function_type, bare_arg_list, bare_output, call_impl_of, find_call, item_type_failure, method_arg_list, wrapper_of,
    CallImpl, FnWrapper,
};
use crate::syntax::{
    first_type_arg, tokens_view, TypeBound, AttrTokens, Field, FieldAttr, ImplBlock, Item, RustType, TokenKindV, TokenV,
    TypeAlias, TypeKind,
};
use crate::interface::{
    apply_attrs, apply_metas, default_ts_name, interface_failure, interface_of, process_field, process_fields,
    FieldState, Interface,
};
use crate::text::join;
use crate::ts_type::{array_ts, path_ts, ts_of};

verus! {

/// An argument that the generated `call` passes as an array (a `Vec`, a
/// boxed or shared slice, or a reference to a slice) is declared in
/// TypeScript as an array of the same elements: as their typed array
/// whenever it passes them in one.
pub proof fn lemma_array_argument_types_agree(ty: RustType)
    requires
        !(ty.kind is ImplTrait),
        slice_element(ty) is Some,
    ensures
        conversion_of(ty) == Ok::<ArgConversion, usize>(typed_array_conversion(slice_element(ty).unwrap())),
        ts_of(ty) == array_ts(slice_element(ty).unwrap(), ts_of(slice_element(ty).unwrap())),
        typed_array_of(slice_element(ty).unwrap()) matches Some(a) ==> {
            &&& conversion_of(ty) == Ok::<ArgConversion, usize>(
                ArgConversion::TypedArray { array: a, elem: slice_element(ty).unwrap().node },
            )
            &&& ts_of(ty) == Ok::<(Seq<char>, bool), crate::ts_type::TsError>((a.spec_name(), false))
        },
    decreases ty,
{
    match ty.kind {
        TypeKind::Reference(r) => {
            match r.kind {
                TypeKind::Slice(_) => {},
                _ => {
                    lemma_array_argument_types_agree(*r);
                },
            }
        },
        TypeKind::Path(p) => {
            assert(ts_of(ty) == path_ts(p));
        },
        _ => {},
    }
}

/// A path return type that names a typed-array container (such as
/// `Vec<u8>` or `Box<[f64]>`) is read back from the typed array that
/// TypeScript declares for it.
pub proof fn lemma_array_return_types_agree(ty: RustType, a: TypedArray)
    requires
        ty.kind is Path,
        slice_element(ty) matches Some(e) && typed_array_of(e) == Some(a),
    ensures
        return_conversion_of(ty) == Ok::<ReturnConversion, (usize, crate::conversion::ReturnError)>(
            ReturnConversion::TypedArray { array: a, ty: ty.node },
        ),
        ts_of(ty) == Ok::<(Seq<char>, bool), crate::ts_type::TsError>((a.spec_name(), false)),
{
    lemma_array_argument_types_agree(ty);
}

/// `Option<T>` is declared as `T | undefined`, is an optional property in an
/// interface, and as a return type, and as a property that `try_parse`
/// reads, is read as `None` for `null` and `undefined` and otherwise as `T`.
pub proof fn lemma_option_types_agree(ty: RustType)
    requires
        ty.kind matches TypeKind::Path(p) && p.last_ident() == Some("Option"@) && first_type_arg(p.args) is Some,
    ensures
        ({
            let inner = match ty.kind {
                TypeKind::Path(p) => first_type_arg(p.args).unwrap(),
                _ => ty,
            };
            &&& ts_of(inner) matches Ok((t, _)) ==> ts_of(ty) == Ok::<(Seq<char>, bool), crate::ts_type::TsError>(
                (t + " | undefined"@, true),
            )
            &&& return_conversion_of(inner) matches Ok(c) ==> return_conversion_of(ty) == Ok::<
                ReturnConversion,
                (usize, crate::conversion::ReturnError),
            >(ReturnConversion::Optional(Box::new(c)))
            &&& return_conversion_of(inner) matches Ok(c) ==> crate::interface::field_read_of(ty)
                == crate::interface::FieldRead::Checked(ReturnConversion::Optional(Box::new(c)))
        }),
{
    reveal_strlit("Option");
    reveal_strlit("Vec");
    reveal_strlit("Box");
    reveal_strlit("Arc");
    reveal_strlit("Rc");
    reveal_strlit("f32");
    reveal_strlit("f64");
    reveal_strlit("i8");
    reveal_strlit("i16");
    reveal_strlit("i32");
    reveal_strlit("u8");
    reveal_strlit("u16");
    reveal_strlit("u32");
    reveal_strlit("i64");
    reveal_strlit("u64");
    reveal_strlit("bool");
    reveal_strlit("String");
    reveal_strlit("str");
    reveal_strlit("JsValue");
    reveal_strlit("Object");
    if let TypeKind::Path(p) = ty.kind {
        assert(ts_of(ty) == path_ts(p));
        assert(slice_element(ty) is None);
        assert(p.last_ident() == Some("Option"@));
        assert(!crate::arrays::is_container("Option"@));
        assert(!crate::ts_type::is_number_ident("Option"@));
        assert(!crate::ts_type::is_bigint_ident("Option"@));
        assert("Option"@ != "bool"@);
        assert("Option"@[0] != "String"@[0]);
        assert("Option"@ != "String"@);
        assert("Option"@ != "str"@);
        assert("Option"@ != "JsValue"@);
        assert("Option"@[1] != "Object"@[1]);
        assert("Option"@ != "Object"@);
        let inner = first_type_arg(p.args).unwrap();
        assert(p.args is Angle);
        if let Ok((t, _)) = ts_of(inner) {
            assert(path_ts(p) == Ok::<(Seq<char>, bool), crate::ts_type::TsError>((t + " | undefined"@, true)));
        }
        if let Ok(c) = return_conversion_of(inner) {
            assert(return_conversion_of(ty) == Ok::<ReturnConversion, (usize, crate::conversion::ReturnError)>(ReturnConversion::Optional(Box::new(c))));
        }
    }
}

proof fn lemma_plain_attrs(field: Seq<char>, attrs: Seq<FieldAttr>, i: int, st: FieldState)
    requires
        0 <= i <= attrs.len(),
        attrs.len() <= usize::MAX,
        forall|k: int| 0 <= k < attrs.len() ==> (#[trigger] attrs[k]) is Doc || attrs[k] is Other,
        forall|k: int| 0 <= k < st.kept.len() ==> attrs[#[trigger] st.kept[k] as int] is Other,
    ensures
        apply_attrs(field, attrs, i, st) matches Ok(out) && {
            &&& out.ts_name == st.ts_name
            &&& out.ts_type == st.ts_type
            &&& out.optional == st.optional
            &&& forall|k: int| 0 <= k < out.kept.len() ==> attrs[#[trigger] out.kept[k] as int] is Other
        },
    decreases attrs.len() - i,
{
    if i < attrs.len() {
        match attrs[i] {
            FieldAttr::Doc(Some(line)) => {
                lemma_plain_attrs(field, attrs, i + 1, FieldState { docs: st.docs.push(line@), ..st });
            },
            FieldAttr::Other => {
                let next = FieldState { kept: st.kept.push(i as usize), ..st };
                assert forall|k: int| 0 <= k < next.kept.len() implies attrs[#[trigger] next.kept[k] as int] is Other by {
                    if k < st.kept.len() {
                        assert(next.kept[k] == st.kept[k]);
                    }
                }
                lemma_plain_attrs(field, attrs, i + 1, next);
            },
            _ => {
                lemma_plain_attrs(field, attrs, i + 1, st);
            },
        }
    }
}

/// A field that carries no `#[ts]` attribute is listed under its default
/// name (its lowerCamelCase form, or the Rust name under
/// `rename_all = "none"`) with the TypeScript type of its Rust type, and is
/// optional exactly when that type is a union with `undefined`; only its
/// attributes other than doc comments stay on the Rust field.
pub proof fn lemma_plain_field(f: Field, keep_names: bool)
    requires
        forall|k: int| 0 <= k < f.attrs.len() ==> (#[trigger] f.attrs@[k]) is Doc || f.attrs@[k] is Other,
        ts_of(f.ty) is Ok,
    ensures
        process_field(f, keep_names) matches Ok(st) && {
            &&& st.ts_name == default_ts_name(f.name@, keep_names)
            &&& ts_of(f.ty) == Ok::<(Seq<char>, bool), crate::ts_type::TsError>((st.ts_type, st.optional))
            &&& forall|k: int| 0 <= k < st.kept.len() ==> f.attrs@[#[trigger] st.kept[k] as int] is Other
        },
{
    if let Ok((t, optional)) = ts_of(f.ty) {
        lemma_plain_attrs(
            f.name@,
            f.attrs@,
            0,
            FieldState {
                ts_name: default_ts_name(f.name@, keep_names),
                ts_type: t,
                optional,
                docs: seq![],
                kept: seq![],
            },
        );
    }
}

/// `kept` lists, in increasing order, exactly the indices below `i` of
/// the attributes that are neither doc comments nor `#[ts]`.
pub open spec fn keeps_exactly_others(attrs: Seq<FieldAttr>, i: int, kept: Seq<usize>) -> bool {
    &&& forall|a: int| 0 <= a < kept.len() ==> (#[trigger] kept[a]) < i && attrs[kept[a] as int] is Other
    &&& forall|a: int, b: int| 0 <= a < b < kept.len() ==> (#[trigger] kept[a]) < (#[trigger] kept[b])
    &&& forall|k: int| 0 <= k < i && (#[trigger] attrs[k]) is Other ==> exists|a: int| 0 <= a < kept.len() && kept[a] == k
}

proof fn lemma_metas_keep(field: Seq<char>, metas: Seq<crate::syntax::TsMeta>, j: int, st: FieldState)
    ensures
        apply_metas(field, metas, j, st) matches Ok(out) ==> out.kept == st.kept,
    decreases metas.len() - j,
{
    if 0 <= j < metas.len() {
        lemma_metas_keep(field, metas, j + 1, FieldState { ts_name: st.ts_name, ..st });
        match metas[j] {
            crate::syntax::TsMeta::NameValue { key: Some(k), value } => {
                match value {
                    crate::syntax::MetaValue::Str(v) => {
                        lemma_metas_keep(field, metas, j + 1, FieldState { ts_name: v@, ..st });
                        lemma_metas_keep(field, metas, j + 1, FieldState { ts_type: v@, ..st });
                    },
                    crate::syntax::MetaValue::Bool(b) => {
                        lemma_metas_keep(field, metas, j + 1, FieldState { optional: b, ..st });
                    },
                    _ => {},
                }
            },
            _ => {},
        }
    }
}

proof fn lemma_attrs_keep(field: Seq<char>, attrs: Seq<FieldAttr>, i: int, st: FieldState)
    requires
        0 <= i <= attrs.len(),
        attrs.len() <= usize::MAX,
        keeps_exactly_others(attrs, i, st.kept),
    ensures
        apply_attrs(field, attrs, i, st) matches Ok(out) ==> keeps_exactly_others(attrs, attrs.len() as int, out.kept),
    decreases attrs.len() - i,
{
    if i < attrs.len() {
        match attrs[i] {
            FieldAttr::Doc(Some(line)) => {
                lemma_attrs_keep(field, attrs, i + 1, FieldState { docs: st.docs.push(line@), ..st });
            },
            FieldAttr::Doc(None) => {
                lemma_attrs_keep(field, attrs, i + 1, st);
            },
            FieldAttr::Other => {
                let kept = st.kept.push(i as usize);
                assert forall|k: int| 0 <= k < i + 1 && (#[trigger] attrs[k]) is Other implies exists|a: int|
                    0 <= a < kept.len() && kept[a] == k by {
                    if k == i {
                        assert(kept[kept.len() - 1] == k);
                    } else {
                        let a = choose|a: int| 0 <= a < st.kept.len() && st.kept[a] == k;
                        assert(kept[a] == k);
                    }
                }
                lemma_attrs_keep(field, attrs, i + 1, FieldState { kept, ..st });
            },
            FieldAttr::TsList(Ok(metas)) => {
                lemma_metas_keep(field, metas@, 0, st);
                if let Ok(st2) = apply_metas(field, metas@, 0, st) {
                    lemma_attrs_keep(field, attrs, i + 1, st2);
                }
            },
            _ => {},
        }
    }
}

/// Of an accepted field, exactly the attributes that are neither doc
/// comments nor `#[ts]` stay on the Rust field, in their order.
pub proof fn lemma_kept_attributes(f: Field, keep_names: bool)
    requires
        process_field(f, keep_names) is Ok,
    ensures
        process_field(f, keep_names) matches Ok(st) && keeps_exactly_others(f.attrs@, f.attrs@.len() as int, st.kept),
{
    assert(f.attrs.len() == f.attrs@.len());
    if let Ok((t, optional)) = ts_of(f.ty) {
        lemma_attrs_keep(
            f.name@,
            f.attrs@,
            0,
            FieldState {
                ts_name: default_ts_name(f.name@, keep_names),
                ts_type: t,
                optional,
                docs: seq![],
                kept: seq![],
            },
        );
    }
}

proof fn lemma_process_fields_each(fields: Seq<Field>, j: int, keep_names: bool, acc: Seq<FieldState>)
    requires
        0 <= j <= fields.len(),
    ensures
        process_fields(fields, j, keep_names, acc) matches Ok(states) ==> {
            &&& states.len() == acc.len() + fields.len() - j
            &&& forall|a: int| 0 <= a < acc.len() ==> states[a] == acc[a]
            &&& forall|k: int| j <= k < fields.len() ==> process_field(#[trigger] fields[k], keep_names)
                == Ok::<FieldState, Seq<char>>(states[acc.len() + k - j])
        },
    decreases fields.len() - j,
{
    if j < fields.len() {
        if let Ok(st) = process_field(fields[j], keep_names) {
            lemma_process_fields_each(fields, j + 1, keep_names, acc.push(st));
            if let Ok(states) = process_fields(fields, j, keep_names, acc) {
                assert(states[acc.len() as int] == acc.push(st)[acc.len() as int]);
            }
        }
    }
}

/// The Rust struct that the attribute re-emits keeps, on each of its
/// fields, exactly the attributes that are neither doc comments nor
/// `#[ts]`, in their order; and the interface has one entry per field.
pub proof fn lemma_struct_keeps_other_attributes(args: TsArgsV, item: crate::syntax::StructItem, out: Interface)
    requires
        interface_failure(args, item) is None,
        interface_of(args, item, out),
    ensures
        out.fields.len() == item.fields.unwrap().len(),
        forall|k: int| 0 <= k < out.fields.len() ==> keeps_exactly_others(
            item.fields.unwrap()@[k].attrs@,
            item.fields.unwrap()@[k].attrs@.len() as int,
            (#[trigger] out.fields@[k]).kept_attrs@,
        ),
{
    let fields = item.fields.unwrap()@;
    let keep = args.rename_all == Some("none"@);
    lemma_process_fields_each(fields, 0, keep, seq![]);
    assert forall|k: int| 0 <= k < out.fields.len() implies keeps_exactly_others(
        fields[k].attrs@,
        fields[k].attrs@.len() as int,
        (#[trigger] out.fields@[k]).kept_attrs@,
    ) by {
        assert(process_field(fields[k], keep) is Ok);
        lemma_kept_attributes(fields[k], keep);
    }
}

/// The entry `name: type` of argument `k`, when its type has a TypeScript
/// type.
pub open spec fn arg_entry(args: Seq<(Seq<char>, RustType)>, k: int) -> Seq<char> {
    args[k].0 + ": "@ + ts_of(args[k].1).unwrap().0
}

proof fn lemma_entries_from(args: Seq<(Seq<char>, RustType)>, i: int)
    requires
        0 <= i <= args.len(),
        forall|k: int| 0 <= k < args.len() ==> #[trigger] ts_of(args[k].1) is Ok,
    ensures
        ts_arg_entries(args, i) == Ok::<Seq<Seq<char>>, (usize, crate::ts_type::TsError)>(
            Seq::new((args.len() - i) as nat, |k: int| arg_entry(args, i + k)),
        ),
    decreases args.len() - i,
{
    if i < args.len() {
        lemma_entries_from(args, i + 1);
        let rest = Seq::new((args.len() - i - 1) as nat, |k: int| arg_entry(args, i + 1 + k));
        assert(ts_of(args[i].1) is Ok);
        assert(seq![arg_entry(args, i)] + rest =~= Seq::new((args.len() - i) as nat, |k: int| arg_entry(args, i + k)));
    } else {
        assert(Seq::new((args.len() - i) as nat, |k: int| arg_entry(args, i + k)) =~= Seq::<Seq<char>>::empty());
    }
}

/// When every argument type and the output type have TypeScript types, the
/// function type that `generate_abi_traits` declares is
/// `type S = (a1: t1, ..., an: tn) => R;`, the arguments in their order
/// and `R` being `void` for no output.
pub proof fn lemma_function_type_closed_form(name: Seq<char>, args: Seq<(Seq<char>, RustType)>, output: Option<RustType>)
    requires
        forall|k: int| 0 <= k < args.len() ==> #[trigger] ts_of(args[k].1) is Ok,
        output matches Some(t) ==> ts_of(t) is Ok,
    ensures
        ts_function_type(name, args, output) == Ok::<Seq<char>, (usize, crate::ts_type::TsError)>(
            "type "@ + name + " = ("@ + join(Seq::new(args.len(), |k: int| arg_entry(args, k)), ", "@) + ") => "@
                + (match output {
                    None => "void"@,
                    Some(t) => ts_of(t).unwrap().0,
                }) + ";"@,
        ),
{
    lemma_entries_from(args, 0);
    assert(Seq::new((args.len() - 0) as nat, |k: int| arg_entry(args, 0 + k)) =~= Seq::new(args.len(), |k: int| arg_entry(args, k)));
}

proof fn lemma_entries_first_failure(args: Seq<(Seq<char>, RustType)>, i: int, f: int)
    requires
        0 <= i <= f < args.len(),
        forall|k: int| i <= k < f ==> #[trigger] ts_of(args[k].1) is Ok,
        ts_of(args[f].1) is Err,
    ensures
        ts_arg_entries(args, i) == Err::<Seq<Seq<char>>, (usize, crate::ts_type::TsError)>(
            (args[f].1.node, ts_of(args[f].1)->Err_0),
        ),
    decreases f - i,
{
    if i < f {
        assert(ts_of(args[i].1) is Ok);
        lemma_entries_first_failure(args, i + 1, f);
    }
}

/// When some type has no TypeScript type, `generate_abi_traits` reports the
/// first such type, the arguments taken left to right before the output,
/// at that type's node and with its reason.
pub proof fn lemma_function_type_first_failure(name: Seq<char>, args: Seq<(Seq<char>, RustType)>, output: Option<RustType>)
    requires
        (exists|k: int| 0 <= k < args.len() && #[trigger] ts_of(args[k].1) is Err)
            || (output matches Some(t) && ts_of(t) is Err),
    ensures
        (exists|f: int| 0 <= f < args.len() && #[trigger] ts_of(args[f].1) is Err) ==> {
            let f = choose|f: int| 0 <= f < args.len() && ts_of(args[f].1) is Err
                && forall|k: int| 0 <= k < f ==> #[trigger] ts_of(args[k].1) is Ok;
            ts_function_type(name, args, output) == Err::<Seq<char>, (usize, crate::ts_type::TsError)>(
                (args[f].1.node, ts_of(args[f].1)->Err_0),
            )
        },
        (forall|k: int| 0 <= k < args.len() ==> #[trigger] ts_of(args[k].1) is Ok) ==> (output matches Some(t)
            && ts_function_type(name, args, output) == Err::<Seq<char>, (usize, crate::ts_type::TsError)>(
                (t.node, ts_of(t)->Err_0),
            )),
{
    if exists|f: int| 0 <= f < args.len() && #[trigger] ts_of(args[f].1) is Err {
        let w = choose|f: int| 0 <= f < args.len() && #[trigger] ts_of(args[f].1) is Err;
        lemma_first_err_exists(args, w);
        let f = choose|f: int| 0 <= f < args.len() && ts_of(args[f].1) is Err
            && forall|k: int| 0 <= k < f ==> #[trigger] ts_of(args[k].1) is Ok;
        lemma_entries_first_failure(args, 0, f);
    } else {
        lemma_entries_from(args, 0);
    }
}

proof fn lemma_first_err_exists(args: Seq<(Seq<char>, RustType)>, w: int)
    requires
        0 <= w < args.len(),
        ts_of(args[w].1) is Err,
    ensures
        exists|f: int| 0 <= f < args.len() && ts_of(args[f].1) is Err
            && forall|k: int| 0 <= k < f ==> #[trigger] ts_of(args[k].1) is Ok,
    decreases w,
{
    if exists|k: int| 0 <= k < w && #[trigger] ts_of(args[k].1) is Err {
        let k = choose|k: int| 0 <= k < w && #[trigger] ts_of(args[k].1) is Err;
        lemma_first_err_exists(args, k);
    } else {
        assert(forall|k: int| 0 <= k < w ==> #[trigger] ts_of(args[k].1) is Ok);
    }
}

/// A function type alias with more than nine arguments is refused.
pub proof fn lemma_at_most_nine_arguments(alias: TypeAlias)
    requires
        alias.ty.kind matches TypeKind::FnPtr(inputs, _) && inputs.len() > 9,
    ensures
        item_type_failure(alias) is Some,
{
}

/// The `call` impl block of a struct declares the same TypeScript function
/// type as a `fn(..)` type alias of that name with the same arguments and
/// output.
pub proof fn lemma_escape_hatch_declares_same_type(alias: TypeAlias, block: ImplBlock, w: FnWrapper, c: CallImpl)
    requires
        wrapper_of(alias, w),
        call_impl_of(block, c),
        block.self_ty.kind matches TypeKind::Path(p) && p.idents@[0]@ == alias.name@,
        alias.ty.kind matches TypeKind::FnPtr(inputs, output) && {
            let m = block.fns@[find_call(block.fns@, 0).unwrap()];
            &&& bare_arg_list(inputs@) == method_arg_list(m.inputs@)
            &&& bare_output(output) == m.output
        },
    ensures
        w.abi.ts_definition@ == c.abi.ts_definition@,
{
}

/// The attribute's arguments are read for structs only: for any other item
/// the outcome does not depend on them.
pub proof fn lemma_arguments_only_for_structs(a1: AttrTokens, a2: AttrTokens, item: Item)
    requires
        !(item is Struct),
    ensures
        expansion_failure(a1, item) == expansion_failure(a2, item),
{
}

/// `a, b, c`: identifiers separated by commas.
pub open spec fn render_idents(list: Seq<Seq<char>>, site: usize) -> Seq<TokenV>
    decreases list.len(),
{
    if list.len() == 0 {
        seq![]
    } else if list.len() == 1 {
        seq![TokenV { site, joint: false, kind: TokenKindV::Ident(list[0]) }]
    } else {
        seq![TokenV { site, joint: false, kind: TokenKindV::Ident(list[0]) }, TokenV { site, joint: false, kind: TokenKindV::Punct(',') }]
            + render_idents(list.drop_first(), site)
    }
}

/// `key = ` for an argument.
pub open spec fn render_key(key: Seq<char>, site: usize) -> Seq<TokenV> {
    seq![TokenV { site, joint: false, kind: TokenKindV::Ident(key) }, TokenV { site, joint: false, kind: TokenKindV::Punct('=') }]
}

/// The arguments written out: `name = N,` then `rename_all = "R",` then
/// `extends = A, B` (each where present).
pub open spec fn render_args(a: TsArgsV, site: usize) -> Seq<TokenV> {
    let comma = TokenV { site, joint: false, kind: TokenKindV::Punct(',') };
    (match a.name {
        Some(n) => render_key("name"@, site) + seq![TokenV { site, joint: false, kind: TokenKindV::Ident(n) }, comma],
        None => seq![],
    }) + (match a.rename_all {
        Some(r) => render_key("rename_all"@, site) + seq![TokenV { site, joint: false, kind: TokenKindV::Str(r) }, comma],
        None => seq![],
    }) + (match a.extends {
        Some(list) => render_key("extends"@, site) + render_idents(list, site),
        None => seq![],
    })
}

proof fn lemma_idents_round_trip(prefix: Seq<TokenV>, list: Seq<Seq<char>>, site: usize, end: usize)
    requires
        forall|k: int| 0 <= k < list.len() ==> !is_reserved_word(#[trigger] list[k]),
    ensures
        idents_terminated(prefix + render_idents(list, site), end, prefix.len() as int) == Ok::<Seq<Seq<char>>, (usize, Seq<char>)>(list),
    decreases list.len(),
{
    let toks = prefix + render_idents(list, site);
    if list.len() == 0 {
        assert(toks =~= prefix);
        assert(list =~= seq![]);
    } else if list.len() == 1 {
        assert(toks[prefix.len() as int] == TokenV { site, joint: false, kind: TokenKindV::Ident(list[0]) });
        assert(seq![list[0]] =~= list);
    } else {
        let two = seq![TokenV { site, joint: false, kind: TokenKindV::Ident(list[0]) }, TokenV { site, joint: false, kind: TokenKindV::Punct(',') }];
        let rest = list.drop_first();
        assert forall|k: int| 0 <= k < rest.len() implies !is_reserved_word(#[trigger] rest[k]) by {
            assert(rest[k] == list[k + 1]);
        }
        lemma_idents_round_trip(prefix + two, rest, site, end);
        assert(toks =~= (prefix + two) + render_idents(rest, site));
        assert(toks[prefix.len() as int] == TokenV { site, joint: false, kind: TokenKindV::Ident(list[0]) });
        assert(toks[prefix.len() as int + 1] == TokenV { site, joint: false, kind: TokenKindV::Punct(',') });
        assert(seq![list[0]] + rest =~= list);
    }
}

proof fn lemma_keys_are_not_reserved()
    ensures
        !is_reserved_word("name"@),
        !is_reserved_word("rename_all"@),
        !is_reserved_word("extends"@),
{
    reveal(is_reserved_word);
    reveal_strlit("name");
    reveal_strlit("rename_all");
    reveal_strlit("extends");
    reveal_strlit("_");
    reveal_strlit("abstract");
    reveal_strlit("as");
    reveal_strlit("async");
    reveal_strlit("await");
    reveal_strlit("become");
    reveal_strlit("box");
    reveal_strlit("break");
    reveal_strlit("const");
    reveal_strlit("continue");
    reveal_strlit("crate");
    reveal_strlit("do");
    reveal_strlit("dyn");
    reveal_strlit("else");
    reveal_strlit("enum");
    reveal_strlit("extern");
    reveal_strlit("false");
    reveal_strlit("final");
    reveal_strlit("fn");
    reveal_strlit("for");
    reveal_strlit("if");
    reveal_strlit("impl");
    reveal_strlit("in");
    reveal_strlit("let");
    reveal_strlit("loop");
    reveal_strlit("macro");
    reveal_strlit("match");
    reveal_strlit("mod");
    reveal_strlit("move");
    reveal_strlit("mut");
    reveal_strlit("override");
    reveal_strlit("priv");
    reveal_strlit("pub");
    reveal_strlit("ref");
    reveal_strlit("return");
    reveal_strlit("Self");
    reveal_strlit("self");
    reveal_strlit("static");
    reveal_strlit("struct");
    reveal_strlit("super");
    reveal_strlit("trait");
    reveal_strlit("true");
    reveal_strlit("try");
    reveal_strlit("type");
    reveal_strlit("typeof");
    reveal_strlit("unsafe");
    reveal_strlit("unsized");
    reveal_strlit("use");
    reveal_strlit("virtual");
    reveal_strlit("where");
    reveal_strlit("while");
    reveal_strlit("yield");
    assert("name"@[0] == 'n');
    assert("rename_all"@[0] == 'r');
    assert("rename_all"@.len() == 10);
    assert("extends"@[0] == 'e');
    assert("extends"@.len() == 7);
}

proof fn lemma_extends_part(pre: Seq<TokenV>, list: Seq<Seq<char>>, site: usize, end: usize, acc: TsArgsV)
    requires
        forall|k: int| 0 <= k < list.len() ==> !is_reserved_word(#[trigger] list[k]),
    ensures
        parse_from(pre + render_key("extends"@, site) + render_idents(list, site), end, pre.len() as int, acc)
            == Ok::<TsArgsV, (usize, Seq<char>)>(TsArgsV { extends: Some(list), ..acc }),
{
    lemma_keys_are_not_reserved();
    reveal_strlit("name");
    reveal_strlit("rename_all");
    reveal_strlit("extends");
    assert("extends"@[0] != "name"@[0]);
    assert("extends"@[0] != "rename_all"@[0]);
    let head = pre + render_key("extends"@, site);
    lemma_idents_round_trip(head, list, site, end);
    let toks = pre + render_key("extends"@, site) + render_idents(list, site);
    let pos = pre.len() as int;
    assert(toks[pos] == TokenV { site, joint: false, kind: TokenKindV::Ident("extends"@) });
    assert(toks[pos + 1] == TokenV { site, joint: false, kind: TokenKindV::Punct('=') });
    assert(expect_ident(toks, end, pos) == Ok::<Seq<char>, (usize, Seq<char>)>("extends"@));
}

proof fn lemma_rename_part(toks: Seq<TokenV>, pos: int, r: Seq<char>, site: usize, end: usize, acc: TsArgsV)
    requires
        0 <= pos,
        pos + 4 <= toks.len(),
        toks[pos] == (TokenV { site, joint: false, kind: TokenKindV::Ident("rename_all"@) }),
        toks[pos + 1] == (TokenV { site, joint: false, kind: TokenKindV::Punct('=') }),
        toks[pos + 2] == (TokenV { site, joint: false, kind: TokenKindV::Str(r) }),
        toks[pos + 3] == (TokenV { site, joint: false, kind: TokenKindV::Punct(',') }),
    ensures
        parse_from(toks, end, pos, acc) == parse_from(toks, end, pos + 4, TsArgsV { rename_all: Some(r), ..acc }),
{
    lemma_keys_are_not_reserved();
    reveal_strlit("name");
    reveal_strlit("rename_all");
    reveal_strlit("extends");
    assert("rename_all"@[0] != "name"@[0]);
    assert("rename_all"@[0] != "extends"@[0]);
    assert(crate::args::next_comma(toks, pos + 3) == pos + 3);
    assert(crate::args::next_comma(toks, pos + 2) == pos + 3);
    assert(expect_ident(toks, end, pos) == Ok::<Seq<char>, (usize, Seq<char>)>("rename_all"@));
}

proof fn lemma_name_part(toks: Seq<TokenV>, pos: int, n: Seq<char>, site: usize, end: usize, acc: TsArgsV)
    requires
        0 <= pos,
        pos + 4 <= toks.len(),
        !is_reserved_word(n),
        toks[pos] == (TokenV { site, joint: false, kind: TokenKindV::Ident("name"@) }),
        toks[pos + 1] == (TokenV { site, joint: false, kind: TokenKindV::Punct('=') }),
        toks[pos + 2] == (TokenV { site, joint: false, kind: TokenKindV::Ident(n) }),
        toks[pos + 3] == (TokenV { site, joint: false, kind: TokenKindV::Punct(',') }),
    ensures
        parse_from(toks, end, pos, acc) == parse_from(toks, end, pos + 4, TsArgsV { name: Some(n), ..acc }),
{
    lemma_keys_are_not_reserved();
    assert(expect_ident(toks, end, pos) == Ok::<Seq<char>, (usize, Seq<char>)>("name"@));
    assert(expect_ident(toks, end, pos + 2) == Ok::<Seq<char>, (usize, Seq<char>)>(n));
}

/// Writing arguments out as `name = N, rename_all = "R", extends = A, B`
/// and parsing them gives them back, when the identifiers are not reserved
/// words.
pub proof fn lemma_args_round_trip(a: TsArgsV, site: usize, end: usize)
    requires
        a.name matches Some(n) ==> !is_reserved_word(n),
        a.extends matches Some(list) ==> forall|k: int| 0 <= k < list.len() ==> !is_reserved_word(#[trigger] list[k]),
    ensures
        parse_from(render_args(a, site), end, 0, crate::args::no_args()) == Ok::<TsArgsV, (usize, Seq<char>)>(a),
{
    let comma = TokenV { site, joint: false, kind: TokenKindV::Punct(',') };
    let p1: Seq<TokenV> = match a.name {
        Some(n) => render_key("name"@, site) + seq![TokenV { site, joint: false, kind: TokenKindV::Ident(n) }, comma],
        None => seq![],
    };
    let p2: Seq<TokenV> = match a.rename_all {
        Some(r) => render_key("rename_all"@, site) + seq![TokenV { site, joint: false, kind: TokenKindV::Str(r) }, comma],
        None => seq![],
    };
    let toks = render_args(a, site);
    let acc0 = crate::args::no_args();
    let acc1 = TsArgsV { name: a.name, ..acc0 };
    let acc2 = TsArgsV { rename_all: a.rename_all, ..acc1 };
    let pos2 = (p1.len() + p2.len()) as int;
    match a.extends {
        Some(list) => {
            lemma_extends_part(p1 + p2, list, site, end, acc2);
            assert(toks =~= (p1 + p2) + render_key("extends"@, site) + render_idents(list, site));
        },
        None => {
            assert(toks =~= p1 + p2);
        },
    }
    assert(parse_from(toks, end, pos2, acc2) == Ok::<TsArgsV, (usize, Seq<char>)>(a));
    if let Some(r) = a.rename_all {
        assert(toks[p1.len() as int] == TokenV { site, joint: false, kind: TokenKindV::Ident("rename_all"@) });
        assert(toks[p1.len() as int + 1] == TokenV { site, joint: false, kind: TokenKindV::Punct('=') });
        assert(toks[p1.len() as int + 2] == TokenV { site, joint: false, kind: TokenKindV::Str(r) });
        assert(toks[p1.len() as int + 3] == comma);
        lemma_rename_part(toks, p1.len() as int, r, site, end, acc1);
    }
    assert(parse_from(toks, end, p1.len() as int, acc1) == Ok::<TsArgsV, (usize, Seq<char>)>(a));
    if let Some(n) = a.name {
        assert(toks[0] == TokenV { site, joint: false, kind: TokenKindV::Ident("name"@) });
        assert(toks[1] == TokenV { site, joint: false, kind: TokenKindV::Punct('=') });
        assert(toks[2] == TokenV { site, joint: false, kind: TokenKindV::Ident(n) });
        assert(toks[3] == comma);
        lemma_name_part(toks, 0, n, site, end, acc0);
    }
}

/// The lengths and first two characters of the type names of the table,
/// which tell any two of them apart.
proof fn lemma_type_names()
    ensures
        "f32"@.len() == 3, "f32"@[0] == 'f', "f32"@[1] == '3',
        "f64"@.len() == 3, "f64"@[0] == 'f', "f64"@[1] == '6',
        "i8"@.len() == 2, "i8"@[0] == 'i', "i8"@[1] == '8',
        "i16"@.len() == 3, "i16"@[0] == 'i', "i16"@[1] == '1',
        "i32"@.len() == 3, "i32"@[0] == 'i', "i32"@[1] == '3',
        "u8"@.len() == 2, "u8"@[0] == 'u', "u8"@[1] == '8',
        "u16"@.len() == 3, "u16"@[0] == 'u', "u16"@[1] == '1',
        "u32"@.len() == 3, "u32"@[0] == 'u', "u32"@[1] == '3',
        "i64"@.len() == 3, "i64"@[0] == 'i', "i64"@[1] == '6',
        "u64"@.len() == 3, "u64"@[0] == 'u', "u64"@[1] == '6',
        "bool"@.len() == 4, "bool"@[0] == 'b', "bool"@[1] == 'o',
        "String"@.len() == 6, "String"@[0] == 'S', "String"@[1] == 't',
        "str"@.len() == 3, "str"@[0] == 's', "str"@[1] == 't',
        "JsValue"@.len() == 7, "JsValue"@[0] == 'J', "JsValue"@[1] == 's',
        "Object"@.len() == 6, "Object"@[0] == 'O', "Object"@[1] == 'b',
        "Vec"@.len() == 3, "Vec"@[0] == 'V', "Vec"@[1] == 'e',
        "Box"@.len() == 3, "Box"@[0] == 'B', "Box"@[1] == 'o',
        "Arc"@.len() == 3, "Arc"@[0] == 'A', "Arc"@[1] == 'r',
        "Rc"@.len() == 2, "Rc"@[0] == 'R', "Rc"@[1] == 'c',
        "Option"@.len() == 6, "Option"@[0] == 'O', "Option"@[1] == 'p',
{
    reveal_strlit("f32");
    reveal_strlit("f64");
    reveal_strlit("i8");
    reveal_strlit("i16");
    reveal_strlit("i32");
    reveal_strlit("u8");
    reveal_strlit("u16");
    reveal_strlit("u32");
    reveal_strlit("i64");
    reveal_strlit("u64");
    reveal_strlit("bool");
    reveal_strlit("String");
    reveal_strlit("str");
    reveal_strlit("JsValue");
    reveal_strlit("Object");
    reveal_strlit("Vec");
    reveal_strlit("Box");
    reveal_strlit("Arc");
    reveal_strlit("Rc");
    reveal_strlit("Option");
}

/// The primitive table: a path type whose last identifier is one of the
/// numeric primitives of 32 bits or fewer, written without angle-bracketed
/// arguments, is the TypeScript `number`; `i64` and `u64` are `bigint`;
/// `bool` is `boolean`; `String` and `str` are `string`; `JsValue` is `any`;
/// `Object` is `object`. None of them is a union with `undefined`.
pub proof fn lemma_primitive_type_table(ty: RustType)
    requires
        ty.kind matches TypeKind::Path(p) && !(p.args is Angle) && p.idents.len() > 0,
    ensures
        ({
            let id = match ty.kind {
                TypeKind::Path(p) => p.idents@.last()@,
                _ => seq![],
            };
            &&& (id == "f32"@ || id == "f64"@ || id == "i8"@ || id == "i16"@ || id == "i32"@ || id == "u8"@
                || id == "u16"@ || id == "u32"@) ==> ts_of(ty) == Ok::<(Seq<char>, bool), crate::ts_type::TsError>(
                ("number"@, false),
            )
            &&& (id == "i64"@ || id == "u64"@) ==> ts_of(ty) == Ok::<(Seq<char>, bool), crate::ts_type::TsError>(
                ("bigint"@, false),
            )
            &&& id == "bool"@ ==> ts_of(ty) == Ok::<(Seq<char>, bool), crate::ts_type::TsError>(("boolean"@, false))
            &&& (id == "String"@ || id == "str"@) ==> ts_of(ty) == Ok::<(Seq<char>, bool), crate::ts_type::TsError>(
                ("string"@, false),
            )
            &&& id == "JsValue"@ ==> ts_of(ty) == Ok::<(Seq<char>, bool), crate::ts_type::TsError>(("any"@, false))
            &&& id == "Object"@ ==> ts_of(ty) == Ok::<(Seq<char>, bool), crate::ts_type::TsError>(("object"@, false))
        }),
{
    lemma_type_names();
    if let TypeKind::Path(p) = ty.kind {
        assert(first_type_arg(p.args) is None);
        assert(ts_of(ty) == path_ts(p));
    }
}

/// A returned value of a numeric primitive of 32 bits or fewer is read with
/// `as_f64` (`Number`), one of `i64` or `u64` with `TryInto` from a
/// JavaScript `bigint` (`BigInt`), each at the type's own node; and a path
/// type is read back as `Number` only when its TypeScript type is `number`,
/// and as `BigInt` only when it is `bigint`; `bool`, `String` and `JsValue`
/// are read with `as_bool`, `as_string` and as they are.
pub proof fn lemma_numeric_return_conversions(ty: RustType)
    ensures
        ty.kind matches TypeKind::Path(p) && p.idents.len() > 0 && {
            let id = p.idents@.last()@;
            id == "f32"@ || id == "f64"@ || id == "i8"@ || id == "i16"@ || id == "i32"@ || id == "u8"@
                || id == "u16"@ || id == "u32"@
        } ==> return_conversion_of(ty) == Ok::<ReturnConversion, (usize, crate::conversion::ReturnError)>(
            ReturnConversion::Number { ty: ty.node },
        ),
        ty.kind matches TypeKind::Path(p) && p.idents.len() > 0 && {
            let id = p.idents@.last()@;
            id == "i64"@ || id == "u64"@
        } ==> return_conversion_of(ty) == Ok::<ReturnConversion, (usize, crate::conversion::ReturnError)>(
            ReturnConversion::BigInt { ty: ty.node },
        ),
        ty.kind matches TypeKind::Path(p) && p.idents.len() > 0 && p.idents@.last()@ == "bool"@
            ==> return_conversion_of(ty) == Ok::<ReturnConversion, (usize, crate::conversion::ReturnError)>(
            ReturnConversion::Bool,
        ),
        ty.kind matches TypeKind::Path(p) && p.idents.len() > 0 && p.idents@.last()@ == "String"@
            ==> return_conversion_of(ty) == Ok::<ReturnConversion, (usize, crate::conversion::ReturnError)>(
            ReturnConversion::Str,
        ),
        ty.kind matches TypeKind::Path(p) && p.idents.len() > 0 && p.idents@.last()@ == "JsValue"@
            ==> return_conversion_of(ty) == Ok::<ReturnConversion, (usize, crate::conversion::ReturnError)>(
            ReturnConversion::JsValue,
        ),
        return_conversion_of(ty) matches Ok(ReturnConversion::Number { ty: n }) ==> n == ty.node
            && ts_of(ty) == Ok::<(Seq<char>, bool), crate::ts_type::TsError>(("number"@, false)),
        return_conversion_of(ty) matches Ok(ReturnConversion::BigInt { ty: n }) ==> n == ty.node
            && ts_of(ty) == Ok::<(Seq<char>, bool), crate::ts_type::TsError>(("bigint"@, false)),
{
    lemma_type_names();
    if let TypeKind::Path(p) = ty.kind {
        if p.idents.len() > 0 {
            let id = p.idents@.last()@;
            if crate::ts_type::is_number_ident(id) || crate::ts_type::is_bigint_ident(id) || id == "bool"@
                || id == "String"@ || id == "JsValue"@ {
                assert(!crate::arrays::is_container(id));
                assert(slice_element(ty) is None);
                assert(ts_of(ty) == path_ts(p));
            }
        }
    }
}

/// An `impl Trait` argument whose bounds before index `i` are neither
/// `Into` nor `AsRef`, and whose bound `i` is `Into<T>`, is first converted
/// into `T` (at `T`'s node) and then handed on as `T` is, whatever the
/// conversion of `T` (a plain `Into<JsValue>` included).
pub proof fn lemma_into_bound_converts_first(ty: RustType, i: int)
    requires
        ty.kind matches TypeKind::ImplTrait(bounds) && 0 <= i < bounds.len() && {
            &&& forall|k: int| 0 <= k < i ==> (#[trigger] bounds@[k] matches TypeBound::Trait(q) ==> (
                q.last_ident() != Some("Into"@) && q.last_ident() != Some("AsRef"@)))
            &&& bounds@[i] matches TypeBound::Trait(q) && q.last_ident() == Some("Into"@)
                && first_type_arg(q.args) is Some
        },
    ensures
        ({
            let inner = match ty.kind {
                TypeKind::ImplTrait(bounds) => match bounds@[i] {
                    TypeBound::Trait(q) => first_type_arg(q.args).unwrap(),
                    _ => ty,
                },
                _ => ty,
            };
            conversion_of(inner) matches Ok(c) ==> conversion_of(ty) == Ok::<ArgConversion, usize>(
                ArgConversion::Into { target: inner.node, then: Box::new(c) },
            )
        }),
{
    if let TypeKind::ImplTrait(bounds) = ty.kind {
        lemma_impl_conversion_skips(bounds@, 0, i, ty.node);
    }
}

proof fn lemma_impl_conversion_skips(bounds: Seq<TypeBound>, j: int, i: int, node: usize)
    requires
        0 <= j <= i < bounds.len(),
        forall|k: int| 0 <= k < i ==> (#[trigger] bounds[k] matches TypeBound::Trait(q) ==> (
            q.last_ident() != Some("Into"@) && q.last_ident() != Some("AsRef"@))),
    ensures
        crate::conversion::impl_conversion(bounds, j, node) == crate::conversion::impl_conversion(bounds, i, node),
    decreases i - j,
{
    if j < i {
        assert(bounds[j] matches TypeBound::Trait(q) ==> (q.last_ident() != Some("Into"@) && q.last_ident()
            != Some("AsRef"@)));
        lemma_impl_conversion_skips(bounds, j + 1, i, node);
    }
}

/// `meta` is the item `optional = b`.
pub open spec fn is_optional_item(meta: crate::syntax::TsMeta, b: bool) -> bool {
    match meta {
        crate::syntax::TsMeta::NameValue { key: Some(k), value: crate::syntax::MetaValue::Bool(v) } =>
            k@ == "optional"@ && v == b,
        _ => false,
    }
}

/// Item `m` of the `#[ts(...)]` attribute at index `a` is `optional = b`.
pub open spec fn optional_item_at(attrs: Seq<FieldAttr>, a: int, m: int, b: bool) -> bool {
    0 <= a < attrs.len() && match attrs[a] {
        FieldAttr::TsList(Ok(metas)) => 0 <= m < metas.len() && is_optional_item(metas@[m], b),
        _ => false,
    }
}

proof fn lemma_key_names()
    ensures
        "optional"@.len() == 8,
        "name"@.len() == 4,
        "type"@.len() == 4,
{
    reveal_strlit("optional");
    reveal_strlit("name");
    reveal_strlit("type");
}

proof fn lemma_metas_optional_none(field: Seq<char>, metas: Seq<crate::syntax::TsMeta>, j: int, st: FieldState)
    requires
        0 <= j,
        forall|m: int, b: bool| j <= m < metas.len() ==> !#[trigger] is_optional_item(metas[m], b),
    ensures
        apply_metas(field, metas, j, st) matches Ok(out) ==> out.optional == st.optional,
    decreases metas.len() - j,
{
    if j < metas.len() {
        if let crate::syntax::TsMeta::NameValue { key: Some(k), value } = metas[j] {
            if let crate::syntax::MetaValue::Str(v) = value {
                lemma_metas_optional_none(field, metas, j + 1, FieldState { ts_name: v@, ..st });
                lemma_metas_optional_none(field, metas, j + 1, FieldState { ts_type: v@, ..st });
            } else if let crate::syntax::MetaValue::Bool(v) = value {
                assert(!is_optional_item(metas[j], v));
            }
        }
    }
}

proof fn lemma_metas_optional_last(
    field: Seq<char>,
    metas: Seq<crate::syntax::TsMeta>,
    j: int,
    st: FieldState,
    m: int,
    b: bool,
)
    requires
        0 <= j <= m < metas.len(),
        is_optional_item(metas[m], b),
        forall|m2: int, b2: bool| m < m2 < metas.len() ==> !#[trigger] is_optional_item(metas[m2], b2),
    ensures
        apply_metas(field, metas, j, st) matches Ok(out) ==> out.optional == b,
    decreases metas.len() - j,
{
    lemma_key_names();
    if j < m {
        if let crate::syntax::TsMeta::NameValue { key: Some(k), value } = metas[j] {
            match value {
                crate::syntax::MetaValue::Str(v) => {
                    lemma_metas_optional_last(field, metas, j + 1, FieldState { ts_name: v@, ..st }, m, b);
                    lemma_metas_optional_last(field, metas, j + 1, FieldState { ts_type: v@, ..st }, m, b);
                },
                crate::syntax::MetaValue::Bool(v) => {
                    lemma_metas_optional_last(field, metas, j + 1, FieldState { optional: v, ..st }, m, b);
                },
                _ => {},
            }
        }
    } else {
        let next = FieldState { optional: b, ..st };
        lemma_metas_optional_none(field, metas, j + 1, next);
    }
}

proof fn lemma_attrs_optional_none(field: Seq<char>, attrs: Seq<FieldAttr>, i: int, st: FieldState)
    requires
        0 <= i,
        forall|a: int, m: int, b: bool| i <= a ==> !#[trigger] optional_item_at(attrs, a, m, b),
    ensures
        apply_attrs(field, attrs, i, st) matches Ok(out) ==> out.optional == st.optional,
    decreases attrs.len() - i,
{
    if i < attrs.len() {
        match attrs[i] {
            FieldAttr::Doc(Some(line)) => {
                lemma_attrs_optional_none(field, attrs, i + 1, FieldState { docs: st.docs.push(line@), ..st });
            },
            FieldAttr::Doc(None) => {
                lemma_attrs_optional_none(field, attrs, i + 1, st);
            },
            FieldAttr::Other => {
                lemma_attrs_optional_none(field, attrs, i + 1, FieldState { kept: st.kept.push(i as usize), ..st });
            },
            FieldAttr::TsList(Ok(metas)) => {
                assert forall|m: int, b: bool| 0 <= m < metas@.len() implies !#[trigger] is_optional_item(metas@[m], b) by {
                    assert(!optional_item_at(attrs, i, m, b));
                }
                lemma_metas_optional_none(field, metas@, 0, st);
                if let Ok(st2) = apply_metas(field, metas@, 0, st) {
                    lemma_attrs_optional_none(field, attrs, i + 1, st2);
                }
            },
            _ => {},
        }
    }
}

proof fn lemma_attrs_optional_last(field: Seq<char>, attrs: Seq<FieldAttr>, i: int, st: FieldState, a: int, m: int, b: bool)
    requires
        0 <= i <= a,
        optional_item_at(attrs, a, m, b),
        forall|a2: int, m2: int, b2: bool| #[trigger] optional_item_at(attrs, a2, m2, b2) ==> a2 < a || (a2 == a
            && m2 <= m),
    ensures
        apply_attrs(field, attrs, i, st) matches Ok(out) ==> out.optional == b,
    decreases attrs.len() - i,
{
    if i < a {
        match attrs[i] {
            FieldAttr::Doc(Some(line)) => {
                lemma_attrs_optional_last(field, attrs, i + 1, FieldState { docs: st.docs.push(line@), ..st }, a, m, b);
            },
            FieldAttr::Doc(None) => {
                lemma_attrs_optional_last(field, attrs, i + 1, st, a, m, b);
            },
            FieldAttr::Other => {
                lemma_attrs_optional_last(
                    field,
                    attrs,
                    i + 1,
                    FieldState { kept: st.kept.push(i as usize), ..st },
                    a,
                    m,
                    b,
                );
            },
            FieldAttr::TsList(Ok(metas)) => {
                if let Ok(st2) = apply_metas(field, metas@, 0, st) {
                    lemma_attrs_optional_last(field, attrs, i + 1, st2, a, m, b);
                }
            },
            _ => {},
        }
    } else {
        if let FieldAttr::TsList(Ok(metas)) = attrs[i] {
            assert forall|m2: int, b2: bool| m < m2 < metas@.len() implies !#[trigger] is_optional_item(metas@[m2], b2) by {
                if is_optional_item(metas@[m2], b2) {
                    assert(optional_item_at(attrs, a, m2, b2));
                }
            }
            lemma_metas_optional_last(field, metas@, 0, st, m, b);
            if let Ok(st2) = apply_metas(field, metas@, 0, st) {
                assert forall|a2: int, m2: int, b2: bool| i + 1 <= a2 implies !#[trigger] optional_item_at(
                    attrs,
                    a2,
                    m2,
                    b2,
                ) by {}
                lemma_attrs_optional_none(field, attrs, i + 1, st2);
            }
        }
    }
}

/// A field's `#[ts(optional = b)]` decides whether its property is
/// optional: the last such item among the field's `#[ts(...)]` attributes
/// wins, so `optional = false` makes even an `Option` field required.
pub proof fn lemma_optional_item_decides(f: Field, keep_names: bool, a: int, m: int, b: bool)
    requires
        process_field(f, keep_names) is Ok,
        optional_item_at(f.attrs@, a, m, b),
        forall|a2: int, m2: int, b2: bool| #[trigger] optional_item_at(f.attrs@, a2, m2, b2) ==> a2 < a || (a2 == a
            && m2 <= m),
    ensures
        process_field(f, keep_names)->Ok_0.optional == b,
{
    if let Ok((t, optional)) = ts_of(f.ty) {
        lemma_attrs_optional_last(
            f.name@,
            f.attrs@,
            0,
            FieldState {
                ts_name: default_ts_name(f.name@, keep_names),
                ts_type: t,
                optional,
                docs: seq![],
                kept: seq![],
            },
            a,
            m,
            b,
        );
    }
}

/// Without any `optional = ..` item, a field's property is optional exactly
/// when its TypeScript type is a union with `undefined`.
pub proof fn lemma_optional_follows_type(f: Field, keep_names: bool)
    requires
        process_field(f, keep_names) is Ok,
        forall|a: int, m: int, b: bool| !#[trigger] optional_item_at(f.attrs@, a, m, b),
    ensures
        process_field(f, keep_names)->Ok_0.optional == ts_of(f.ty)->Ok_0.1,
{
    if let Ok((t, optional)) = ts_of(f.ty) {
        lemma_attrs_optional_none(
            f.name@,
            f.attrs@,
            0,
            FieldState {
                ts_name: default_ts_name(f.name@, keep_names),
                ts_type: t,
                optional,
                docs: seq![],
                kept: seq![],
            },
        );
    }
}

/// A struct's expansion uses the attribute's arguments as parsed: it is an
/// interface of the kind `ts_internal` gives for those arguments, whose
/// JavaScript binding type is named by `name` when it is given and is `I`
/// and the struct's name only when it is not, and which extends exactly the
/// interfaces listed by `extends`.
pub proof fn lemma_struct_expansion_uses_arguments(attr: AttrTokens, s: crate::syntax::StructItem, exp: crate::dispatch::Expansion)
    requires
        crate::dispatch::expansion_of(attr, Item::Struct(s), exp),
    ensures
        parse_ts_args(attr) matches Ok(a) && exp matches crate::dispatch::Expansion::Interface(i) && {
            &&& interface_of(a, s, i)
            &&& i.binding_name@ == (match a.name {
                Some(n) => n,
                None => "I"@ + s.name@,
            })
            &&& i.extends.deep_view() == (match a.extends {
                Some(l) => l,
                None => seq![],
            })
        },
{
}

} // verus!
