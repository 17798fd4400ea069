use ts_function::args::TsArgs;
use ts_function::arrays::TypedArray;
use ts_function::conversion::{generate_conversion, generate_return_conversion, ArgConversion, ReturnConversion};
use ts_function::diag::Failure;
use ts_function::dispatch::{ts_internal_dispatcher, Expansion};
use ts_function::interface::{ts_internal, FieldRead};
use ts_function::signature::{parse_item_impl, parse_item_type};
use ts_function::syntax::{
    AttrToken, AttrTokenKind, AttrTokens, BareArg, EnumItem, Field, FieldAttr, FnInput, GenericArg, ImplBlock, ImplFn,
    Delim, Item, MetaValue, PathArgs, PathType, RustType, StructItem, TsMeta, TypeAlias, TypeBound, TypeKind, Variant,
};
use ts_function::ts_type::to_ts_type;

fn path(node: usize, idents: &[&str]) -> RustType {
    RustType {
        node,
        kind: TypeKind::Path(PathType {
            leading_colon: false,
            idents: idents.iter().map(|s| s.to_string()).collect(),
            args: PathArgs::Bare,
        }),
    }
}

fn generic(node: usize, ident: &str, args: Vec<RustType>) -> RustType {
    RustType {
        node,
        kind: TypeKind::Path(PathType {
            leading_colon: false,
            idents: vec![ident.to_string()],
            args: PathArgs::Angle(args.into_iter().map(GenericArg::Type).collect()),
        }),
    }
}

fn impl_trait(node: usize, bound: &str, arg: RustType) -> RustType {
    RustType {
        node,
        kind: TypeKind::ImplTrait(vec![TypeBound::Trait(PathType {
            leading_colon: false,
            idents: vec![bound.to_string()],
            args: PathArgs::Angle(vec![GenericArg::Type(arg)]),
        })]),
    }
}

fn fn_ptr(node: usize, args: Vec<(&str, RustType)>, output: Option<RustType>) -> RustType {
    RustType {
        node,
        kind: TypeKind::FnPtr(
            args.into_iter().map(|(n, ty)| BareArg { name: Some(n.to_string()), ty }).collect(),
            output.map(Box::new),
        ),
    }
}

fn alias(name: &str, ty: RustType) -> TypeAlias {
    TypeAlias { site: 0, default_site: None, name: name.to_string(), ty }
}

fn call_impl(name: &str, args: Vec<(&str, RustType)>, default_site: Option<usize>) -> ImplBlock {
    let mut inputs = vec![FnInput::Receiver { site: 90 }];
    for (i, (n, ty)) in args.into_iter().enumerate() {
        inputs.push(FnInput::Typed { site: 91 + i, pat_ident: Some(n.to_string()), ty });
    }
    ImplBlock {
        site: 80,
        default_site,
        negative_site: None,
        is_trait_impl: false,
        self_ty: path(81, &[name]),
        fns: vec![ImplFn { name: "call".to_string(), sig_site: 82, inputs, output: None }],
    }
}

fn no_attr() -> AttrTokens {
    AttrTokens { tokens: vec![], end_site: 0 }
}

fn field(name: &str, ty: RustType) -> Field {
    Field { name: name.to_string(), ty, attrs: vec![] }
}

fn ident(site: usize, s: &str) -> AttrToken {
    AttrToken { site, joint: false, kind: AttrTokenKind::Ident(s.to_string()) }
}

fn punct(site: usize, c: char) -> AttrToken {
    AttrToken { site, joint: false, kind: AttrTokenKind::Punct(c) }
}

fn string(site: usize, s: &str) -> AttrToken {
    AttrToken { site, joint: false, kind: AttrTokenKind::Str(s.to_string()) }
}


fn ts(ty: &RustType) -> String {
    to_ts_type(ty).unwrap().text
}

fn bare(failure: Failure) -> String {
    match failure {
        Failure::Bare(m) => m,
        Failure::Spanned(_) => panic!("expected a bare compile error"),
    }
}

fn spanned(failure: Failure) -> Vec<(usize, String)> {
    match failure {
        Failure::Spanned(v) => v.into_iter().map(|d| (d.site, d.message)).collect(),
        Failure::Bare(_) => panic!("expected spanned errors"),
    }
}

fn interface_of(fields: Vec<Field>, attr: &AttrTokens) -> Result<ts_function::interface::Interface, Failure> {
    let args = TsArgs::parse(attr).unwrap();
    ts_internal(&args, &StructItem { name: "Token".to_string(), fields: Some(fields) })
}

fn with_attrs(name: &str, ty: RustType, attrs: Vec<FieldAttr>) -> Field {
    Field { name: name.to_string(), ty, attrs }
}

fn ts_items(items: Vec<(&str, MetaValue)>) -> FieldAttr {
    FieldAttr::TsList(Ok(items
        .into_iter()
        .map(|(k, v)| TsMeta::NameValue { key: Some(k.to_string()), value: v })
        .collect()))
}

#[test]
fn ts_types_follow_the_table() {
    assert_eq!(ts(&path(1, &["f32"])), "number");
    assert_eq!(ts(&path(1, &["u32"])), "number");
    assert_eq!(ts(&path(1, &["i64"])), "bigint");
    assert_eq!(ts(&path(1, &["u64"])), "bigint");
    assert_eq!(ts(&path(1, &["bool"])), "boolean");
    assert_eq!(ts(&path(1, &["String"])), "string");
    let str_ref = RustType { node: 1, kind: TypeKind::Reference(Box::new(path(2, &["str"]))) };
    assert_eq!(ts(&str_ref), "string");
    assert_eq!(ts(&path(1, &["wasm_bindgen", "JsValue"])), "any");
    assert_eq!(ts(&path(1, &["js_sys", "Object"])), "object");
    assert_eq!(ts(&path(1, &["js_sys", "Uint8Array"])), "Uint8Array");
    assert_eq!(ts(&path(1, &["UserStatus"])), "UserStatus");
    assert_eq!(ts(&generic(1, "Option", vec![path(2, &["String"])])), "string | undefined");
    assert_eq!(ts(&generic(1, "Vec", vec![path(2, &["String"])])), "string[]");
    assert_eq!(
        ts(&generic(1, "Vec", vec![generic(2, "Option", vec![path(3, &["String"])])])),
        "(string | undefined)[]"
    );
    assert_eq!(
        ts(&generic(1, "HashMap", vec![path(2, &["String"]), path(3, &["f64"])])),
        "HashMap<string, number>"
    );
    assert!(to_ts_type(&RustType { node: 1, kind: TypeKind::Other }).is_err());
    assert!(to_ts_type(&RustType { node: 1, kind: TypeKind::ImplTrait(vec![]) }).is_err());
}

#[test]
fn every_numeric_element_has_its_typed_array() {
    let table = [
        ("u8", TypedArray::Uint8Array, "Uint8Array"),
        ("i8", TypedArray::Int8Array, "Int8Array"),
        ("u16", TypedArray::Uint16Array, "Uint16Array"),
        ("i16", TypedArray::Int16Array, "Int16Array"),
        ("u32", TypedArray::Uint32Array, "Uint32Array"),
        ("i32", TypedArray::Int32Array, "Int32Array"),
        ("f32", TypedArray::Float32Array, "Float32Array"),
        ("f64", TypedArray::Float64Array, "Float64Array"),
        ("u64", TypedArray::BigUint64Array, "BigUint64Array"),
        ("i64", TypedArray::BigInt64Array, "BigInt64Array"),
    ];
    for (elem, array, name) in table {
        let ty = generic(1, "Vec", vec![path(2, &[elem])]);
        assert_eq!(ts(&ty), name);
        assert_eq!(generate_conversion(&ty).unwrap(), ArgConversion::TypedArray { array, elem: 2 });
        assert_eq!(generate_return_conversion(&ty).unwrap(), ReturnConversion::TypedArray { array, ty: 1 });
    }
}

#[test]
fn array_arguments_are_typed_as_they_are_passed() {
    // Box<[u8]>, &[f64], Arc<[i32]>, Vec<String>
    let boxed = generic(1, "Box", vec![RustType { node: 2, kind: TypeKind::Slice(Box::new(path(3, &["u8"]))) }]);
    assert_eq!(ts(&boxed), "Uint8Array");
    assert_eq!(generate_conversion(&boxed).unwrap(), ArgConversion::TypedArray { array: TypedArray::Uint8Array, elem: 3 });

    let slice_ref = RustType {
        node: 1,
        kind: TypeKind::Reference(Box::new(RustType { node: 2, kind: TypeKind::Slice(Box::new(path(3, &["f64"]))) })),
    };
    assert_eq!(ts(&slice_ref), "Float64Array");
    assert_eq!(
        generate_conversion(&slice_ref).unwrap(),
        ArgConversion::TypedArray { array: TypedArray::Float64Array, elem: 3 }
    );

    let strings = generic(1, "Vec", vec![path(2, &["String"])]);
    assert_eq!(ts(&strings), "string[]");
    assert_eq!(generate_conversion(&strings).unwrap(), ArgConversion::JsArray { elem: 2 });

    let as_ref = impl_trait(1, "AsRef", RustType { node: 2, kind: TypeKind::Slice(Box::new(path(3, &["f64"]))) });
    assert_eq!(ts(&as_ref), "Float64Array");
    assert_eq!(
        generate_conversion(&as_ref).unwrap(),
        ArgConversion::TypedArray { array: TypedArray::Float64Array, elem: 3 }
    );

    let into_vec = impl_trait(1, "Into", generic(2, "Vec", vec![path(3, &["u32"])]));
    assert_eq!(ts(&into_vec), "Uint32Array");
    assert_eq!(
        generate_conversion(&into_vec).unwrap(),
        ArgConversion::Into {
            target: 2,
            then: Box::new(ArgConversion::TypedArray { array: TypedArray::Uint32Array, elem: 3 })
        }
    );
    assert_eq!(generate_conversion(&path(1, &["f64"])).unwrap(), ArgConversion::IntoJsValue);
}

#[test]
fn option_is_undefined_in_typescript_and_none_on_return() {
    // pub type OptionStringFn = fn(v: Option<String>) -> Option<String>;
    let item_type = alias(
        "OptionStringFn",
        fn_ptr(
            1,
            vec![("v", generic(2, "Option", vec![path(3, &["String"])]))],
            Some(generic(4, "Option", vec![path(5, &["String"])])),
        ),
    );
    let w = parse_item_type(&item_type).unwrap();
    assert_eq!(w.abi.ts_definition, "type OptionStringFn = (v: string | undefined) => string | undefined;");
    let out = w.output.unwrap();
    assert_eq!(out.ty, 4);
    assert_eq!(out.conversion, ReturnConversion::Optional(Box::new(ReturnConversion::Str)));
}

#[test]
fn return_conversions_follow_the_declared_type() {
    let cases = vec![
        (path(1, &["f64"]), ReturnConversion::Number { ty: 1 }),
        (path(1, &["i32"]), ReturnConversion::Number { ty: 1 }),
        (path(1, &["u64"]), ReturnConversion::BigInt { ty: 1 }),
        (path(1, &["bool"]), ReturnConversion::Bool),
        (path(1, &["String"]), ReturnConversion::Str),
        (path(1, &["JsValue"]), ReturnConversion::JsValue),
        (path(1, &["js_sys", "Object"]), ReturnConversion::TryConvert { ty: 1 }),
        (generic(1, "Vec", vec![path(2, &["String"])]), ReturnConversion::TryConvert { ty: 1 }),
    ];
    for (ty, expected) in cases {
        assert_eq!(generate_return_conversion(&ty).unwrap(), expected);
    }
    let no_segment = RustType {
        node: 9,
        kind: TypeKind::Path(PathType { leading_colon: false, idents: vec![], args: PathArgs::Bare }),
    };
    assert_eq!(spanned(generate_return_conversion(&no_segment).unwrap_err()), vec![(9, "Expected a type segment".to_string())]);
    assert_eq!(
        spanned(generate_return_conversion(&path(9, &["Option"])).unwrap_err()),
        vec![(9, "Expected generic argument for Option".to_string())]
    );
    let option_lifetime = RustType {
        node: 9,
        kind: TypeKind::Path(PathType {
            leading_colon: false,
            idents: vec!["Option".to_string()],
            args: PathArgs::Angle(vec![GenericArg::Other]),
        }),
    };
    assert_eq!(
        spanned(generate_return_conversion(&option_lifetime).unwrap_err()),
        vec![(9, "Expected type argument for Option".to_string())]
    );
}

#[test]
fn unnamed_arguments_are_numbered() {
    // pub type Pair = fn(f64, bool) -> bool;
    let item_type = TypeAlias {
        site: 0,
        default_site: None,
        name: "Pair".to_string(),
        ty: RustType {
            node: 1,
            kind: TypeKind::FnPtr(
                vec![BareArg { name: None, ty: path(2, &["f64"]) }, BareArg { name: None, ty: path(3, &["bool"]) }],
                Some(Box::new(path(4, &["bool"]))),
            ),
        },
    };
    let w = parse_item_type(&item_type).unwrap();
    assert_eq!(w.abi.ts_definition, "type Pair = (arg0: number, arg1: boolean) => boolean;");
    assert_eq!(w.args[0].ident, "arg0");
    assert_eq!(w.args[1].ident, "arg1");
    assert_eq!(w.call_method, "call2");
    assert_eq!(w.abi.try_convert.try_convert_fn, "try_convert_Pair");
    assert_eq!(w.abi.try_convert.into_js_trait, "IntoJsValue_Pair");
}

#[test]
fn zero_argument_functions_return_void() {
    let w = parse_item_type(&alias("ThrowFn", fn_ptr(1, vec![], None))).unwrap();
    assert_eq!(w.abi.ts_definition, "type ThrowFn = () => void;");
    assert_eq!(w.call_method, "call0");
    assert!(w.output.is_none());
}

#[test]
fn more_than_nine_arguments_are_refused() {
    let nine: Vec<(&str, RustType)> =
        ["a", "b", "c", "d", "e", "f", "g", "h", "i"].iter().enumerate().map(|(k, n)| (*n, path(10 + k, &["f64"]))).collect();
    let w = parse_item_type(&alias("Nine", fn_ptr(1, nine, None))).unwrap();
    assert_eq!(w.call_method, "call9");

    let ten: Vec<(&str, RustType)> = ["a", "b", "c", "d", "e", "f", "g", "h", "i", "j"]
        .iter()
        .enumerate()
        .map(|(k, n)| (*n, path(10 + k, &["f64"])))
        .collect();
    let mut item_type = alias("Ten", fn_ptr(1, ten, None));
    item_type.site = 5;
    assert_eq!(
        spanned(parse_item_type(&item_type).unwrap_err()),
        vec![(5, "Functions with more than 9 arguments are not supported yet".to_string())]
    );
}

#[test]
fn type_alias_refusals() {
    let mut with_default = alias("F", fn_ptr(1, vec![], None));
    with_default.default_site = Some(3);
    assert_eq!(spanned(parse_item_type(&with_default).unwrap_err()), vec![(3, "unexpected type alias modifier".to_string())]);

    let not_fn = alias("F", path(4, &["u8"]));
    assert_eq!(
        spanned(parse_item_type(&not_fn).unwrap_err()),
        vec![(4, "Expected a function pointer type (e.g., `fn(x: f64)`)".to_string())]
    );

    let bad_impl = RustType {
        node: 6,
        kind: TypeKind::ImplTrait(vec![TypeBound::Trait(PathType {
            leading_colon: false,
            idents: vec!["Into".to_string()],
            args: PathArgs::Angle(vec![GenericArg::Type(RustType { node: 7, kind: TypeKind::ImplTrait(vec![]) })]),
        })]),
    };
    let failure = parse_item_type(&alias("F", fn_ptr(1, vec![("x", bad_impl)], None))).unwrap_err();
    assert_eq!(spanned(failure)[0].0, 6);

    let reference_return = alias(
        "F",
        fn_ptr(1, vec![], Some(RustType { node: 8, kind: TypeKind::Reference(Box::new(path(9, &["str"]))) })),
    );
    assert_eq!(
        spanned(parse_item_type(&reference_return).unwrap_err()),
        vec![(8, "Unsupported return type in type alias pattern. Use the `impl` escape hatch instead.".to_string())]
    );

    let as_ref_str = impl_trait(2, "AsRef", path(3, &["str"]));
    let failure = ts_function::conversion::generate_conversion(&as_ref_str).unwrap_err();
    assert_eq!(
        spanned(failure),
        vec![(2, "Unsupported `impl Trait`. Only `impl Into<T>` and `impl AsRef<[T]>` are supported.".to_string())]
    );
}

#[test]
fn impl_block_refusals() {
    let mut both = call_impl("Callback", vec![], Some(3));
    both.negative_site = Some(4);
    assert_eq!(
        spanned(parse_item_impl(&both).unwrap_err()),
        vec![(3, "unexpected impl modifier".to_string()), (4, "unexpected impl modifier".to_string())]
    );

    let mut trait_impl = call_impl("Callback", vec![], None);
    trait_impl.is_trait_impl = true;
    assert_eq!(
        spanned(parse_item_impl(&trait_impl).unwrap_err()),
        vec![(80, "#[ts_function] cannot be applied to trait impls".to_string())]
    );

    let mut not_path = call_impl("Callback", vec![], None);
    not_path.self_ty = RustType { node: 5, kind: TypeKind::Other };
    assert_eq!(spanned(parse_item_impl(&not_path).unwrap_err()), vec![(5, "Expected a simple path for the struct".to_string())]);

    let mut qualified = call_impl("Callback", vec![], None);
    qualified.self_ty = path(6, &["module", "Callback"]);
    assert_eq!(
        spanned(parse_item_impl(&qualified).unwrap_err()),
        vec![(6, "Expected a single identifier for the struct".to_string())]
    );

    let mut no_call = call_impl("Callback", vec![], None);
    no_call.fns[0].name = "invoke".to_string();
    assert_eq!(spanned(parse_item_impl(&no_call).unwrap_err()), vec![(80, "Missing `call` method in impl block".to_string())]);

    let mut no_self = call_impl("Callback", vec![("x", path(2, &["f64"]))], None);
    no_self.fns[0].inputs.remove(0);
    assert_eq!(
        spanned(parse_item_impl(&no_self).unwrap_err()),
        vec![(82, "The `call` method must take `&self` or `&mut self` as its first parameter".to_string())]
    );

    let mut second_self = call_impl("Callback", vec![], None);
    second_self.fns[0].inputs.push(FnInput::Receiver { site: 99 });
    assert_eq!(spanned(parse_item_impl(&second_self).unwrap_err()), vec![(99, "Expected a typed argument".to_string())]);
}

#[test]
fn impl_block_names_untyped_patterns_and_uses_the_first_call() {
    let mut block = call_impl("Callback", vec![], None);
    block.fns[0].inputs.push(FnInput::Typed { site: 7, pat_ident: None, ty: path(8, &["f64"]) });
    block.fns[0].output = Some(path(9, &["bool"]));
    block.fns.insert(0, ImplFn { name: "helper".to_string(), sig_site: 1, inputs: vec![], output: None });
    let c = parse_item_impl(&block).unwrap();
    assert_eq!(c.abi.ts_definition, "type Callback = (arg0: number) => boolean;");
}

#[test]
fn escape_hatch_declares_the_same_type_as_the_alias() {
    let a = parse_item_type(&alias("OnScroll", fn_ptr(1, vec![("y", path(2, &["f64"]))], None))).unwrap();
    let c = parse_item_impl(&call_impl("OnScroll", vec![("y", path(3, &["f64"]))], None)).unwrap();
    assert_eq!(a.abi.ts_definition, c.abi.ts_definition);
}

#[test]
fn plain_fields_use_camel_case_and_optional_unions() {
    let fields = vec![
        with_attrs(
            "symbol",
            path(1, &["String"]),
            vec![FieldAttr::Doc(Some(" The symbol".to_string())), FieldAttr::Other],
        ),
        field("decimals", generic(2, "Option", vec![path(3, &["u8"])])),
        field("total_supply", path(4, &["u64"])),
    ];
    let out = interface_of(fields, &no_attr()).unwrap();
    assert_eq!(
        out.ts_definition,
        "export interface Token {\n  /**\n   * The symbol\n   */\n  symbol: string;\n  decimals?: number | undefined;\n  totalSupply: bigint;\n}"
    );
    assert_eq!(out.binding_name, "IToken");
    assert_eq!(out.const_name, "TOKEN__TS_DEF");
    assert_eq!(out.ts_interface_name, "Token");
    assert_eq!(out.fields[0].doc_lines, vec![" The symbol".to_string()]);
    assert_eq!(out.fields[0].kept_attrs, vec![1]);
    assert_eq!(out.fields[2].ts_name, "totalSupply");
    assert_eq!(out.fields[2].rust_name, "total_supply");
}

#[test]
fn rename_all_none_keeps_rust_names() {
    let attr = AttrTokens {
        tokens: vec![ident(1, "rename_all"), punct(2, '='), string(3, "none")],
        end_site: 0,
    };
    let out = interface_of(vec![field("total_supply", path(4, &["u64"]))], &attr).unwrap();
    assert!(out.ts_definition.contains("total_supply: bigint;"));

    let attr = AttrTokens {
        tokens: vec![ident(1, "rename_all"), punct(2, '='), string(3, "camelCase")],
        end_site: 0,
    };
    let out = interface_of(vec![field("total_supply", path(4, &["u64"]))], &attr).unwrap();
    assert!(out.ts_definition.contains("totalSupply: bigint;"));
}

#[test]
fn name_and_extends_arguments() {
    let attr = AttrTokens {
        tokens: vec![
            ident(1, "name"),
            punct(2, '='),
            ident(3, "JsToken"),
            punct(4, ','),
            ident(5, "extends"),
            punct(6, '='),
            ident(7, "Base1"),
            punct(8, ','),
            ident(9, "Base2"),
        ],
        end_site: 0,
    };
    let out = interface_of(vec![field("value", path(4, &["f64"]))], &attr).unwrap();
    assert_eq!(out.binding_name, "JsToken");
    assert_eq!(out.extends, vec!["Base1".to_string(), "Base2".to_string()]);
    assert_eq!(out.ts_definition, "export interface Token extends Base1, Base2 {\n  value: number;\n}");
}

#[test]
fn field_attributes_override_name_type_and_optional() {
    let fields = vec![with_attrs(
        "on_ready",
        path(1, &["js_sys", "Function"]),
        vec![ts_items(vec![
            ("name", MetaValue::Str("ready".to_string())),
            ("type", MetaValue::Str("() => void".to_string())),
            ("optional", MetaValue::Bool(true)),
        ])],
    )];
    let out = interface_of(fields, &no_attr()).unwrap();
    assert!(out.ts_definition.contains("ready?: () => void;"));
    assert!(out.fields[0].kept_attrs.is_empty());
}

#[test]
fn field_attribute_refusals() {
    let unit = StructItem { name: "Unit".to_string(), fields: None };
    let args = TsArgs::parse(&no_attr()).unwrap();
    assert_eq!(bare(ts_internal(&args, &unit).unwrap_err()), "The `ts` attribute can only be used on structs with named fields.");

    let unsupported = vec![field("cb", RustType { node: 1, kind: TypeKind::Other })];
    assert_eq!(bare(interface_of(unsupported, &no_attr()).unwrap_err()), "Unsupported type: it has no TypeScript equivalent");

    let not_list = vec![with_attrs("on_ready", path(1, &["f64"]), vec![FieldAttr::TsOther])];
    assert_eq!(
        bare(interface_of(not_list, &no_attr()).unwrap_err()),
        "`ts` attribute for field `on_ready` must be a list, e.g. `#[ts(type = \"JsOnReady\")]`."
    );

    let not_pairs = vec![with_attrs("on_ready", path(1, &["f64"]), vec![FieldAttr::TsList(Ok(vec![TsMeta::Other]))])];
    assert_eq!(
        bare(interface_of(not_pairs, &no_attr()).unwrap_err()),
        "`ts` attribute for field `on_ready` must be a list of name-value pairs, e.g. `#[ts(type = \"OnReady\")]`."
    );

    let no_key = vec![with_attrs(
        "x",
        path(1, &["f64"]),
        vec![FieldAttr::TsList(Ok(vec![TsMeta::NameValue { key: None, value: MetaValue::Other }]))],
    )];
    assert_eq!(bare(interface_of(no_key, &no_attr()).unwrap_err()), "Expected an identifier for the key");

    let bad_name = vec![with_attrs("x", path(1, &["f64"]), vec![ts_items(vec![("name", MetaValue::Bool(true))])])];
    assert_eq!(bare(interface_of(bad_name, &no_attr()).unwrap_err()), "`name` for field `x` must be a string literal.");

    let bad_type = vec![with_attrs("x", path(1, &["f64"]), vec![ts_items(vec![("type", MetaValue::Other)])])];
    assert_eq!(bare(interface_of(bad_type, &no_attr()).unwrap_err()), "`type` for field `x` must be a string literal.");

    let bad_optional = vec![with_attrs("x", path(1, &["f64"]), vec![ts_items(vec![("optional", MetaValue::Str("yes".to_string()))])])];
    assert_eq!(
        bare(interface_of(bad_optional, &no_attr()).unwrap_err()),
        "`optional` for field `x` must be a boolean literal."
    );

    let unknown = vec![with_attrs("x", path(1, &["f64"]), vec![ts_items(vec![("color", MetaValue::Other)])])];
    let expected = format!(
        "Unknown argument for field `x`: `color`. Options are:\n{0}- type: The TypeScript type of the field\n{0}- name: The name of the field in the TypeScript interface\n{0}- optional: Whether the field is optional in TypeScript",
        " ".repeat(36)
    );
    assert_eq!(bare(interface_of(unknown, &no_attr()).unwrap_err()), expected);

    let unreadable = vec![with_attrs("x", path(1, &["f64"]), vec![FieldAttr::TsList(Err("expected `,`".to_string()))])];
    assert_eq!(bare(interface_of(unreadable, &no_attr()).unwrap_err()), "expected `,`");
}

#[test]
fn attribute_argument_refusals() {
    let parse = |tokens: Vec<AttrToken>| spanned(TsArgs::parse(&AttrTokens { tokens, end_site: 100 }).unwrap_err());
    assert_eq!(parse(vec![ident(1, "color"), punct(2, '='), ident(3, "red")]), vec![(1, "Unknown argument: `color`".to_string())]);
    assert_eq!(parse(vec![ident(1, "name"), ident(2, "X")]), vec![(2, "expected `=`".to_string())]);
    assert_eq!(parse(vec![ident(1, "name")]), vec![(100, "expected `=`".to_string())]);
    assert_eq!(
        parse(vec![ident(1, "type"), punct(2, '=')]),
        vec![(1, "expected identifier, found keyword `type`".to_string())]
    );
    assert_eq!(parse(vec![string(1, "x")]), vec![(1, "expected identifier".to_string())]);
    assert_eq!(
        parse(vec![ident(1, "name"), punct(2, '=')]),
        vec![(100, "unexpected end of input, expected identifier".to_string())]
    );
    assert_eq!(
        parse(vec![ident(1, "name"), punct(2, '='), ident(3, "A"), ident(4, "B")]),
        vec![(4, "expected `,`".to_string())]
    );
    assert_eq!(
        parse(vec![ident(1, "rename_all"), punct(2, '='), ident(3, "none")]),
        vec![(1, "Expected string literal for `rename_all`".to_string())]
    );
    assert_eq!(
        parse(vec![ident(1, "rename_all"), punct(2, '=')]),
        vec![(100, "unexpected end of input, expected an expression".to_string())]
    );
    assert_eq!(
        parse(vec![ident(1, "rename_all"), punct(2, '='), punct(3, ',')]),
        vec![(3, "expected an expression".to_string())]
    );
    assert_eq!(
        parse(vec![ident(1, "extends"), punct(2, '='), ident(3, "A"), ident(4, "B")]),
        vec![(4, "expected `,`".to_string())]
    );
}

#[test]
fn attribute_arguments_round_trip() {
    let attr = AttrTokens {
        tokens: vec![
            ident(1, "name"),
            punct(2, '='),
            ident(3, "N"),
            punct(4, ','),
            ident(5, "rename_all"),
            punct(6, '='),
            string(7, "none"),
            punct(8, ','),
            ident(9, "extends"),
            punct(10, '='),
            ident(11, "A"),
        ],
        end_site: 0,
    };
    let args = TsArgs::parse(&attr).unwrap();
    assert_eq!(args.name.as_deref(), Some("N"));
    assert_eq!(args.rename_all.as_deref(), Some("none"));
    assert_eq!(args.extends, Some(vec!["A".to_string()]));

    let empty = TsArgs::parse(&no_attr()).unwrap();
    assert!(empty.name.is_none() && empty.extends.is_none() && empty.rename_all.is_none());

    let later_wins = AttrTokens {
        tokens: vec![
            ident(1, "name"),
            punct(2, '='),
            ident(3, "A"),
            punct(4, ','),
            ident(5, "name"),
            punct(6, '='),
            ident(7, "B"),
            punct(8, ','),
        ],
        end_site: 0,
    };
    assert_eq!(TsArgs::parse(&later_wins).unwrap().name.as_deref(), Some("B"));
}

#[test]
fn arguments_are_read_only_for_structs() {
    let garbage = AttrTokens { tokens: vec![punct(1, '!')], end_site: 0 };
    let item = Item::Type(alias("F", fn_ptr(1, vec![], None)));
    assert!(ts_internal_dispatcher(&garbage, &item).is_ok());
    let item = Item::Struct(StructItem { name: "S".to_string(), fields: Some(vec![]) });
    assert!(ts_internal_dispatcher(&garbage, &item).is_err());
}

#[test]
fn enums_and_other_items() {
    let with_fields = Item::Enum(EnumItem {
        name: "Shape".to_string(),
        variants: vec![
            Variant { site: 1, name: "Dot".to_string(), is_unit: true },
            Variant { site: 2, name: "Circle".to_string(), is_unit: false },
        ],
    });
    assert_eq!(
        spanned(ts_internal_dispatcher(&no_attr(), &with_fields).unwrap_err()),
        vec![(2, "#[ts] enums must only contain unit variants".to_string())]
    );
    let other = Item::Other { site: 7 };
    assert_eq!(
        spanned(ts_internal_dispatcher(&no_attr(), &other).unwrap_err()),
        vec![(7, "#[ts] can only be applied to a struct, enum, type alias, or impl block".to_string())]
    );
    match ts_internal_dispatcher(&no_attr(), &Item::Enum(EnumItem { name: "E".to_string(), variants: vec![] })) {
        Ok(Expansion::Enum(plan)) => assert!(plan.variants.is_empty()),
        _ => panic!("expected an enum plan"),
    }
}

#[test]
fn enum_constants_differ_for_names_equal_up_to_case() {
    let e = Item::Enum(EnumItem {
        name: "E".to_string(),
        variants: (0..12)
            .map(|i| Variant { site: i, name: if i % 2 == 0 { "Ab".to_string() } else { "AB".to_string() }, is_unit: true })
            .collect(),
    });
    let plan = match ts_internal_dispatcher(&no_attr(), &e) {
        Ok(Expansion::Enum(plan)) => plan,
        _ => panic!("expected an enum plan"),
    };
    let names: Vec<&str> = plan.variants.iter().map(|v| v.const_name.as_str()).collect();
    assert_eq!(names[0], "__TS_FUNCTION_VARIANT_0");
    assert_eq!(names[1], "__TS_FUNCTION_VARIANT_1");
    assert_eq!(names[10], "__TS_FUNCTION_VARIANT_10");
    assert_eq!(names[11], "__TS_FUNCTION_VARIANT_11");
    for j in 0..names.len() {
        for k in j + 1..names.len() {
            assert_ne!(names[j], names[k]);
        }
    }
}

#[test]
fn try_parse_plan_checks_each_field_with_its_context() {
    let token = interface_of(
        vec![
            field("symbol", path(1, &["String"])),
            field("decimals", generic(2, "Option", vec![path(3, &["u8"])])),
            field("total_supply", path(4, &["u64"])),
        ],
        &no_attr(),
    )
    .unwrap();
    assert_eq!(token.try_convert.try_convert_fn, "try_convert_Token");
    assert!(matches!(token.fields[0].read, FieldRead::Checked(ReturnConversion::Str)));
    assert!(matches!(&token.fields[1].read, FieldRead::Checked(ReturnConversion::Optional(inner))
        if **inner == ReturnConversion::Number { ty: 3 }));
    assert!(matches!(token.fields[2].read, FieldRead::Checked(ReturnConversion::BigInt { ty: 4 })));
    assert_eq!(token.fields[0].missing_message, "Missing required field `symbol`");
    assert_eq!(token.fields[0].invalid_prefix, "Invalid field `symbol`: ");
    assert_eq!(token.fields[2].missing_message, "Missing required field `totalSupply`");

    let order = ts_internal(
        &TsArgs::parse(&no_attr()).unwrap(),
        &StructItem {
            name: "Order".to_string(),
            fields: Some(vec![
                field("account", path(5, &["String"])),
                field("amount", path(6, &["u64"])),
                field("token", path(7, &["Token"])),
                field("data", generic(8, "Vec", vec![path(9, &["u8"])])),
                with_attrs("label", RustType { node: 10, kind: TypeKind::Reference(Box::new(path(11, &["str"]))) }, vec![]),
            ]),
        },
    )
    .unwrap();
    assert!(matches!(order.fields[2].read, FieldRead::Checked(ReturnConversion::TryConvert { ty: 7 })));
    assert!(matches!(order.fields[3].read, FieldRead::Checked(ReturnConversion::TypedArray { array: TypedArray::Uint8Array, ty: 8 })));
    assert!(matches!(order.fields[4].read, FieldRead::Unchecked));
    // A nested failure keeps its field context.
    let nested = format!("{}{}", order.fields[2].invalid_prefix, token.fields[0].missing_message);
    assert_eq!(nested, "Invalid field `token`: Missing required field `symbol`");
    let nested = format!("{}{}{}", order.fields[2].invalid_prefix, token.fields[0].invalid_prefix, "Expected a string");
    assert_eq!(nested, "Invalid field `token`: Invalid field `symbol`: Expected a string");
}

#[test]
fn rename_all_value_is_read_as_an_expression() {
    let parse = |tokens: Vec<AttrToken>| TsArgs::parse(&AttrTokens { tokens, end_site: 100 });
    let err = |tokens: Vec<AttrToken>| spanned(parse(tokens).unwrap_err());
    // Two literals: the expression ends after the first, and the second is
    // not the comma that must follow.
    assert_eq!(
        err(vec![ident(1, "rename_all"), punct(2, '='), string(3, "a"), string(4, "b")]),
        vec![(4, "expected `,`".to_string())]
    );
    assert_eq!(
        err(vec![ident(1, "rename_all"), punct(2, '='), string(3, "a"), ident(4, "x")]),
        vec![(4, "expected `,`".to_string())]
    );
    // An operator carries the expression on: it is not a plain literal.
    assert_eq!(
        err(vec![ident(1, "rename_all"), punct(2, '='), string(3, "a"), punct(4, '+'), string(5, "b")]),
        vec![(1, "Expected string literal for `rename_all`".to_string())]
    );
    assert_eq!(
        err(vec![ident(1, "rename_all"), punct(2, '='), string(3, "a"), ident(4, "as"), ident(5, "T")]),
        vec![(1, "Expected string literal for `rename_all`".to_string())]
    );
    let ok = parse(vec![ident(1, "rename_all"), punct(2, '='), string(3, "none"), punct(4, ',')]).unwrap();
    assert_eq!(ok.rename_all.as_deref(), Some("none"));
}

#[test]
fn abi_type_reports_the_first_type_without_a_typescript_type() {
    let other = |node: usize| RustType { node, kind: TypeKind::Other };
    let mut block = call_impl("Cb", vec![("a", path(20, &["u8"])), ("b", other(21)), ("c", other(22))], None);
    block.fns[0].output = Some(other(23));
    let failure = parse_item_impl(&block).unwrap_err();
    assert_eq!(spanned(failure)[0].0, 21);

    let mut block = call_impl("Cb", vec![("a", path(20, &["u8"]))], None);
    block.fns[0].output = Some(other(23));
    let failure = parse_item_impl(&block).unwrap_err();
    assert_eq!(spanned(failure)[0].0, 23);

    let mut block = call_impl("Cb", vec![("a", path(20, &["u8"])), ("b", path(21, &["String"]))], None);
    block.fns[0].output = Some(path(23, &["bool"]));
    let c = parse_item_impl(&block).unwrap();
    assert_eq!(c.abi.ts_definition, "type Cb = (a: number, b: string) => boolean;");
}

#[test]
fn rename_all_value_ends_where_no_operator_continues_it() {
    let err = |rest: Vec<AttrToken>| {
        let mut tokens = vec![ident(1, "rename_all"), punct(2, '='), string(3, "a")];
        tokens.extend(rest);
        spanned(TsArgs::parse(&AttrTokens { tokens, end_site: 100 }).unwrap_err())
    };
    let joint = |site: usize, c: char| AttrToken { site, joint: true, kind: AttrTokenKind::Punct(c) };
    let group = |site: usize, d: Delim| AttrToken { site, joint: false, kind: AttrTokenKind::Group(d) };
    let comma = vec![(4, "expected `,`".to_string())];
    let not_literal = vec![(1, "Expected string literal for `rename_all`".to_string())];
    // A lone `!` is no operator.
    assert_eq!(err(vec![punct(4, '!'), ident(5, "x")]), comma);
    // `!=` is.
    assert_eq!(err(vec![joint(4, '!'), punct(5, '='), string(6, "b")]), not_literal);
    // `{ }` is no trailer; `( )` and `[ ]` are.
    assert_eq!(err(vec![group(4, Delim::Brace)]), comma);
    assert_eq!(err(vec![group(4, Delim::Paren)]), not_literal);
    assert_eq!(err(vec![group(4, Delim::Bracket)]), not_literal);
    // The arrows `=>` and `->` end it; `=` and `-` alone go on.
    assert_eq!(err(vec![joint(4, '='), punct(5, '>'), ident(6, "x")]), comma);
    assert_eq!(err(vec![joint(4, '-'), punct(5, '>'), ident(6, "x")]), comma);
    assert_eq!(err(vec![punct(4, '='), ident(5, "x")]), not_literal);
    assert_eq!(err(vec![punct(4, '-'), ident(5, "x")]), not_literal);
    assert_eq!(err(vec![punct(4, '#')]), comma);
}
