use ts_function::args::TsArgs;
use ts_function::dispatch::{ts_internal_dispatcher, Expansion};
use ts_function::interface::ts_internal;
use ts_function::signature::{parse_item_impl, parse_item_type};
use ts_function::syntax::{
    AttrToken, AttrTokenKind, AttrTokens, BareArg, EnumItem, Field, FnInput, GenericArg, ImplBlock, ImplFn,
    Item, PathArgs, PathType, RustType, StructItem, TypeAlias, TypeBound, TypeKind, Variant,
};

fn path(node: usize, idents: &[&str]) -> RustType {
    RustType {
        node,
        kind: TypeKind::Path(PathType {
            leading_colon: false,
            idents: idents.iter().map(|s| s.to_string()).collect(),
            args: PathArgs::Bare,
        }),
    }
}

fn generic(node: usize, ident: &str, args: Vec<RustType>) -> RustType {
    RustType {
        node,
        kind: TypeKind::Path(PathType {
            leading_colon: false,
            idents: vec![ident.to_string()],
            args: PathArgs::Angle(args.into_iter().map(GenericArg::Type).collect()),
        }),
    }
}

fn impl_trait(node: usize, bound: &str, arg: RustType) -> RustType {
    RustType {
        node,
        kind: TypeKind::ImplTrait(vec![TypeBound::Trait(PathType {
            leading_colon: false,
            idents: vec![bound.to_string()],
            args: PathArgs::Angle(vec![GenericArg::Type(arg)]),
        })]),
    }
}

fn fn_ptr(node: usize, args: Vec<(&str, RustType)>, output: Option<RustType>) -> RustType {
    RustType {
        node,
        kind: TypeKind::FnPtr(
            args.into_iter().map(|(n, ty)| BareArg { name: Some(n.to_string()), ty }).collect(),
            output.map(Box::new),
        ),
    }
}

fn alias(name: &str, ty: RustType) -> TypeAlias {
    TypeAlias { site: 0, default_site: None, name: name.to_string(), ty }
}

fn call_impl(name: &str, args: Vec<(&str, RustType)>, default_site: Option<usize>) -> ImplBlock {
    let mut inputs = vec![FnInput::Receiver { site: 90 }];
    for (i, (n, ty)) in args.into_iter().enumerate() {
        inputs.push(FnInput::Typed { site: 91 + i, pat_ident: Some(n.to_string()), ty });
    }
    ImplBlock {
        site: 80,
        default_site,
        negative_site: None,
        is_trait_impl: false,
        self_ty: path(81, &[name]),
        fns: vec![ImplFn { name: "call".to_string(), sig_site: 82, inputs, output: None }],
    }
}

fn no_attr() -> AttrTokens {
    AttrTokens { tokens: vec![], end_site: 0 }
}

fn field(name: &str, ty: RustType) -> Field {
    Field { name: name.to_string(), ty, attrs: vec![] }
}

#[test]
fn test_item_type() {
    // pub type OnClick = fn(x: f64, y: impl Into<f64>, arr: js_sys::Float64Array);
    let item_type = alias(
        "OnClick",
        fn_ptr(
            1,
            vec![
                ("x", path(2, &["f64"])),
                ("y", impl_trait(3, "Into", path(4, &["f64"]))),
                ("arr", path(5, &["js_sys", "Float64Array"])),
            ],
            None,
        ),
    );
    let result = parse_item_type(&item_type).unwrap();

    assert!(result.abi.ts_definition.contains("type OnClick = (x: number, y: number, arr: Float64Array) => void;"));
    assert_eq!(result.abi.struct_ident, "OnClick");
    let names: Vec<&str> = result.args.iter().map(|a| a.ident.as_str()).collect();
    assert_eq!(names, vec!["x", "y", "arr"]);
    let nodes: Vec<usize> = result.args.iter().map(|a| a.ty).collect();
    assert_eq!(nodes, vec![2, 3, 5]);
    assert_eq!(result.call_method, "call3");
}

#[test]
fn test_item_impl() {
    // impl OnScroll { pub fn call(&self, y: f64) { } }
    let item_impl = call_impl("OnScroll", vec![("y", path(2, &["f64"]))], None);
    let result = parse_item_impl(&item_impl).unwrap();

    assert!(result.abi.ts_definition.contains("type OnScroll = (y: number) => void;"));
    assert_eq!(result.abi.struct_ident, "OnScroll");
}

#[test]
fn test_dispatcher_item_struct() {
    // pub struct MyStruct { pub field: f64 }
    let input = Item::Struct(StructItem {
        name: "MyStruct".to_string(),
        fields: Some(vec![field("field", path(1, &["f64"]))]),
    });
    let result = match ts_internal_dispatcher(&no_attr(), &input) {
        Ok(Expansion::Interface(i)) => i,
        _ => panic!("expected an interface"),
    };

    assert!(result.ts_definition.contains("export interface MyStruct"));
    assert!(result.ts_definition.contains("field: number;"));
}

#[test]
fn test_dispatcher_item_type() {
    // pub type OnClick = fn(x: f64);
    let input = Item::Type(alias("OnClick", fn_ptr(1, vec![("x", path(2, &["f64"]))], None)));
    let result = match ts_internal_dispatcher(&no_attr(), &input) {
        Ok(Expansion::FnAlias(w)) => w,
        _ => panic!("expected a function wrapper"),
    };

    assert!(result.abi.ts_definition.contains("type OnClick = (x: number) => void;"));
    assert_eq!(result.abi.struct_ident, "OnClick");
}

#[test]
fn test_dispatcher_item_impl() {
    // impl OnScroll { pub fn call(&self, y: f64) {} }
    let input = Item::Impl(call_impl("OnScroll", vec![("y", path(2, &["f64"]))], None));
    let result = match ts_internal_dispatcher(&no_attr(), &input) {
        Ok(Expansion::CallImpl(c)) => c,
        _ => panic!("expected a call impl"),
    };

    assert!(result.abi.ts_definition.contains("type OnScroll = (y: number) => void;"));
    assert_eq!(result.abi.struct_ident, "OnScroll");
}

#[test]
fn test_enum_item() {
    // pub enum Status { Active, Inactive }
    let input = Item::Enum(EnumItem {
        name: "Status".to_string(),
        variants: vec![
            Variant { site: 1, name: "Active".to_string(), is_unit: true },
            Variant { site: 2, name: "Inactive".to_string(), is_unit: true },
        ],
    });
    let result = match ts_internal_dispatcher(&no_attr(), &input) {
        Ok(Expansion::Enum(e)) => e,
        _ => panic!("expected an enum plan"),
    };

    assert_eq!(result.name, "Status");
    let names: Vec<&str> = result.variants.iter().map(|v| v.name.as_str()).collect();
    assert_eq!(names, vec!["Active", "Inactive"]);
    assert_eq!(result.variants[0].const_name, "__TS_FUNCTION_VARIANT_0");
    assert_eq!(result.variants[1].const_name, "__TS_FUNCTION_VARIANT_1");
}

#[test]
fn test_recursive_generics() {
    // pub type ResultFn = fn(res: Result<String, i32>);
    let item_type = alias(
        "ResultFn",
        fn_ptr(1, vec![("res", generic(2, "Result", vec![path(3, &["String"]), path(4, &["i32"])]))], None),
    );
    let result = parse_item_type(&item_type).unwrap();
    assert!(result.abi.ts_definition.contains("type ResultFn = (res: Result<string, number>) => void;"));

    // pub type NestedVecFn = fn(args: Vec<Vec<f64>>);
    let item_type = alias(
        "NestedVecFn",
        fn_ptr(1, vec![("args", generic(2, "Vec", vec![generic(3, "Vec", vec![path(4, &["f64"])])]))], None),
    );
    let result = parse_item_type(&item_type).unwrap();
    assert!(result.abi.ts_definition.contains("type NestedVecFn = (args: Float64Array[]) => void;"));
}

#[test]
fn test_item_impl_rejects_modifiers() {
    // default impl Callback { fn call(&self) {} }
    let item_impl = call_impl("Callback", vec![], Some(7));

    assert!(parse_item_impl(&item_impl).is_err());
}

fn ident(site: usize, s: &str) -> AttrToken {
    AttrToken { site, joint: false, kind: AttrTokenKind::Ident(s.to_string()) }
}

fn punct(site: usize, c: char) -> AttrToken {
    AttrToken { site, joint: false, kind: AttrTokenKind::Punct(c) }
}

fn string(site: usize, s: &str) -> AttrToken {
    AttrToken { site, joint: false, kind: AttrTokenKind::Str(s.to_string()) }
}

#[test]
fn test_ts_args_parse() {
    // name = MyStruct, rename_all = "none", extends = Base1, Base2
    let attr = AttrTokens {
        tokens: vec![
            ident(1, "name"),
            punct(2, '='),
            ident(3, "MyStruct"),
            punct(4, ','),
            ident(5, "rename_all"),
            punct(6, '='),
            string(7, "none"),
            punct(8, ','),
            ident(9, "extends"),
            punct(10, '='),
            ident(11, "Base1"),
            punct(12, ','),
            ident(13, "Base2"),
        ],
        end_site: 0,
    };
    let args = TsArgs::parse(&attr).unwrap();
    assert_eq!(args.name.unwrap().to_string(), "MyStruct");
    assert_eq!(args.extends.unwrap().len(), 2);
    assert_eq!(args.rename_all.unwrap(), "none");
}

#[test]
fn test_ts_enum_field() {
    // pub struct User { pub status: Status }
    let args = TsArgs::parse(&no_attr()).unwrap();
    let item = StructItem { name: "User".to_string(), fields: Some(vec![field("status", path(1, &["Status"]))]) };
    let result = ts_internal(&args, &item).unwrap();

    assert!(result.ts_definition.contains("export interface User"));
    assert!(result.ts_definition.contains("status: Status;"));
}
