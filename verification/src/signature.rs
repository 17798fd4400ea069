//! Function wrappers: the TypeScript function type and `wasm-bindgen` ABI
//! glue for a `call` signature, from a `fn(..)` type alias or from the
//! `call` method of an impl block.
use vstd::prelude::*;
use crate::conversion::{
    conversion_of, generate_conversion, generate_return_conversion, return_conversion_of,
    unsupported_impl_message, ArgConversion, ReturnConversion,
};
use crate::diag::{fail_at, single, Diagnostic, Failure, FailureV};
use crate::syntax::{BareArg, FnInput, ImplBlock, ImplFn, RustType, TypeAlias, TypeKind};
use crate::text::{decimal, join, join_strings, push_decimal, push_text, string_of, text_is};
use crate::ts_type::{to_ts_type, ts_of, TsError};

verus! {

/// A `call` signature: the wrapper struct's name, the named arguments and
/// the declared output (`None` for `()`).
pub struct ParsedSignature<'a> {
    pub struct_ident: &'a String,
    pub args: Vec<(String, &'a RustType)>,
    pub output: Option<&'a RustType>,
}

impl<'a> ParsedSignature<'a> {
    /// The arguments as (name, type) pairs.
    pub open spec fn arg_list(self) -> Seq<(Seq<char>, RustType)> {
        Seq::new(self.args.len() as nat, |i: int| (self.args@[i].0@, *self.args@[i].1))
    }

    /// The declared output type.
    pub open spec fn output_type(self) -> Option<RustType> {
        match self.output {
            Some(t) => Some(*t),
            None => None,
        }
    }
}

/// The name of the `i`-th argument: its own name, or `arg{i}`.
pub open spec fn arg_ident(name: Option<String>, i: int) -> Seq<char> {
    match name {
        Some(n) => n@,
        None => "arg"@ + decimal(i as nat),
    }
}

/// `name: type` for each argument from index `i` on, or the node of the
/// first argument type without a TypeScript type and the reason.
pub open spec fn ts_arg_entries(args: Seq<(Seq<char>, RustType)>, i: int) -> Result<Seq<Seq<char>>, (usize, TsError)>
    decreases args.len() - i,
{
    if i < 0 || i >= args.len() {
        Ok(seq![])
    } else {
        match ts_of(args[i].1) {
            Err(e) => Err((args[i].1.node, e)),
            Ok((t, _)) => match ts_arg_entries(args, i + 1) {
                Err(e) => Err(e),
                Ok(rest) => Ok(seq![args[i].0 + ": "@ + t] + rest),
            },
        }
    }
}

/// The TypeScript result type: `void` for no output.
pub open spec fn ts_output(output: Option<RustType>) -> Result<Seq<char>, (usize, TsError)> {
    match output {
        None => Ok("void"@),
        Some(t) => match ts_of(t) {
            Ok((s, _)) => Ok(s),
            Err(e) => Err((t.node, e)),
        },
    }
}

/// `type Name = (a: A, b: B) => R;`, or the node and reason of the first
/// type (arguments first, then the output) without a TypeScript type.
pub open spec fn ts_function_type(name: Seq<char>, args: Seq<(Seq<char>, RustType)>, output: Option<RustType>) -> Result<Seq<char>, (usize, TsError)> {
    match ts_arg_entries(args, 0) {
        Err(e) => Err(e),
        Ok(entries) => match ts_output(output) {
            Err(e) => Err(e),
            Ok(out) => Ok("type "@ + name + " = ("@ + join(entries, ", "@) + ") => "@ + out + ";"@),
        },
    }
}

/// The helper items that turn a returned `JsValue` into the declared type:
/// a conversion function and a marker trait, both named after the struct.
#[derive(Debug)]
pub struct TryConvertSupport {
    pub try_convert_fn: String,
    pub into_js_trait: String,
}

/// The ABI glue of a function wrapper struct.
#[derive(Debug)]
pub struct AbiTraits {
    pub struct_ident: String,
    pub ts_definition: String,
    pub try_convert: TryConvertSupport,
}

/// The names of the conversion helpers of struct `name`.
pub open spec fn try_convert_names(s: TryConvertSupport, name: Seq<char>) -> bool {
    &&& s.try_convert_fn@ == "try_convert_"@ + name
    &&& s.into_js_trait@ == "IntoJsValue_"@ + name
}

/// The ABI glue of struct `name` with TypeScript definition `definition`.
pub open spec fn abi_of(a: AbiTraits, name: Seq<char>, definition: Seq<char>) -> bool {
    &&& a.struct_ident@ == name
    &&& a.ts_definition@ == definition
    &&& try_convert_names(a.try_convert, name)
}

/// The names of the conversion helpers for struct `struct_ident`.
pub fn generate_try_convert_support(struct_ident: &String) -> (r: TryConvertSupport)
    ensures
        try_convert_names(r, struct_ident@),
{
    let mut try_convert_fn = string_of("try_convert_");
    push_text(&mut try_convert_fn, struct_ident.as_str());
    let mut into_js_trait = string_of("IntoJsValue_");
    push_text(&mut into_js_trait, struct_ident.as_str());
    TryConvertSupport { try_convert_fn, into_js_trait }
}

fn ts_entries_from(args: &Vec<(String, &RustType)>, i: usize) -> (r: Result<Vec<String>, Failure>)
    requires
        i <= args.len(),
    ensures
        match ts_arg_entries(Seq::new(args.len() as nat, |k: int| (args@[k].0@, *args@[k].1)), i as int) {
            Ok(s) => r matches Ok(out) && out.deep_view() == s,
            Err((n, e)) => r matches Err(f) && f@ == single(n, e.spec_message()),
        },
    decreases args.len() - i,
{
    let ghost list = Seq::new(args.len() as nat, |k: int| (args@[k].0@, *args@[k].1));
    if i >= args.len() {
        let out: Vec<String> = Vec::new();
        assert(out.deep_view() =~= Seq::<Seq<char>>::empty());
        return Ok(out);
    }
    let (ident, ty) = &args[i];
    match to_ts_type(ty) {
        Err(e) => Err(fail_at(ty.node, e.message())),
        Ok(t) => match ts_entries_from(args, i + 1) {
            Err(f) => Err(f),
            Ok(rest) => {
                let mut entry = ident.clone();
                push_text(&mut entry, ": ");
                push_text(&mut entry, t.text.as_str());
                let mut out = rest;
                let ghost before = out.deep_view();
                out.insert(0, entry);
                assert(out.deep_view() =~= seq![list[i as int].0 + ": "@ + t.text@] + before);
                Ok(out)
            },
        },
    }
}

/// The TypeScript function type and ABI glue of a `call` signature;
/// arguments and output without a TypeScript type are refused at their
/// node.
pub fn generate_abi_traits(parsed: &ParsedSignature) -> (r: Result<AbiTraits, Failure>)
    ensures
        match ts_function_type(parsed.struct_ident@, parsed.arg_list(), parsed.output_type()) {
            Ok(d) => r matches Ok(a) && abi_of(a, parsed.struct_ident@, d),
            Err((n, e)) => r matches Err(f) && f@ == single(n, e.spec_message()),
        },
{
    let entries = match ts_entries_from(&parsed.args, 0) {
        Ok(entries) => entries,
        Err(f) => return Err(f),
    };
    let ts_output = match parsed.output {
        None => string_of("void"),
        Some(ty) => match to_ts_type(ty) {
            Ok(t) => t.text,
            Err(e) => return Err(fail_at(ty.node, e.message())),
        },
    };
    let mut ts_definition = string_of("type ");
    push_text(&mut ts_definition, parsed.struct_ident.as_str());
    push_text(&mut ts_definition, " = (");
    let joined = join_strings(&entries, ", ");
    push_text(&mut ts_definition, joined.as_str());
    push_text(&mut ts_definition, ") => ");
    push_text(&mut ts_definition, ts_output.as_str());
    push_text(&mut ts_definition, ";");
    let try_convert = generate_try_convert_support(parsed.struct_ident);
    Ok(AbiTraits { struct_ident: parsed.struct_ident.clone(), ts_definition, try_convert })
}

/// The conversions of the arguments from index `i` on, or the node of the
/// first `impl Trait` argument that none fits.
pub open spec fn arg_conversions(args: Seq<(Seq<char>, RustType)>, i: int) -> Result<Seq<ArgConversion>, usize>
    decreases args.len() - i,
{
    if i < 0 || i >= args.len() {
        Ok(seq![])
    } else {
        match conversion_of(args[i].1) {
            Err(n) => Err(n),
            Ok(c) => match arg_conversions(args, i + 1) {
                Err(n) => Err(n),
                Ok(rest) => Ok(seq![c] + rest),
            },
        }
    }
}

/// An argument of the generated `call` method.
#[derive(Debug)]
pub struct WrapperArg {
    pub ident: String,
    pub ty: usize,
    pub conversion: ArgConversion,
}

/// The declared output of the generated `call` method.
#[derive(Debug)]
pub struct WrapperOutput {
    pub ty: usize,
    pub conversion: ReturnConversion,
}

/// The wrapper struct generated for a `fn(..)` type alias: its ABI glue,
/// the arguments of its `call` method, the `js_sys::Function` method it
/// calls (`call0` to `call9`) and its output.
#[derive(Debug)]
pub struct FnWrapper {
    pub abi: AbiTraits,
    pub args: Vec<WrapperArg>,
    pub call_method: String,
    pub output: Option<WrapperOutput>,
}

/// The named arguments of a function pointer type.
pub open spec fn bare_arg_list(inputs: Seq<BareArg>) -> Seq<(Seq<char>, RustType)> {
    Seq::new(inputs.len(), |i: int| (arg_ident(inputs[i].name, i), inputs[i].ty))
}

/// The output type of a function pointer type.
pub open spec fn bare_output(output: Option<Box<RustType>>) -> Option<RustType> {
    match output {
        Some(b) => Some(*b),
        None => None,
    }
}

/// The arity limit of `js_sys::Function::call0` to `call9`.
pub open spec fn too_many_args_message() -> Seq<char> {
    "Functions with more than 9 arguments are not supported yet"@
}

/// Why a type alias is refused, or `None` when it is accepted. The checks,
/// in order: no `default` modifier; a function pointer type; a TypeScript
/// type for each argument and the output; a conversion for each argument;
/// at most nine arguments; a conversion for the output.
pub open spec fn item_type_failure(alias: TypeAlias) -> Option<FailureV> {
    match alias.default_site {
        Some(s) => Some(single(s, "unexpected type alias modifier"@)),
        None => match alias.ty.kind {
            TypeKind::FnPtr(inputs, output) => {
                let args = bare_arg_list(inputs@);
                let out = bare_output(output);
                match ts_function_type(alias.name@, args, out) {
                    Err((n, e)) => Some(single(n, e.spec_message())),
                    Ok(_) => match arg_conversions(args, 0) {
                        Err(n) => Some(single(n, unsupported_impl_message())),
                        Ok(_) => {
                            if inputs.len() > 9 {
                                Some(single(alias.site, too_many_args_message()))
                            } else {
                                match out {
                                    Some(t) => match return_conversion_of(t) {
                                        Err((n, e)) => Some(single(n, e.spec_message())),
                                        Ok(_) => None,
                                    },
                                    None => None,
                                }
                            }
                        },
                    }
                }
            },
            _ => Some(single(alias.ty.node, "Expected a function pointer type (e.g., `fn(x: f64)`)"@)),
        },
    }
}

/// `w` is the wrapper of the accepted alias `alias`.
pub open spec fn wrapper_of(alias: TypeAlias, w: FnWrapper) -> bool {
    match alias.ty.kind {
        TypeKind::FnPtr(inputs, output) => {
            let args = bare_arg_list(inputs@);
            let out = bare_output(output);
            let convs = arg_conversions(args, 0).unwrap();
            &&& abi_of(w.abi, alias.name@, ts_function_type(alias.name@, args, out).unwrap())
            &&& w.args.len() == inputs.len()
            &&& forall|k: int|
                0 <= k < inputs.len() ==> {
                    &&& (#[trigger] w.args@[k]).ident@ == args[k].0
                    &&& w.args@[k].ty == args[k].1.node
                    &&& w.args@[k].conversion == convs[k]
                }
            &&& w.call_method@ == "call"@ + decimal(inputs.len() as nat)
            &&& match out {
                None => w.output is None,
                Some(t) => w.output matches Some(o) && o.ty == t.node && o.conversion
                    == return_conversion_of(t).unwrap(),
            }
        },
        _ => false,
    }
}

fn conversions_from(args: &Vec<(String, &RustType)>, i: usize) -> (r: Result<Vec<WrapperArg>, Failure>)
    requires
        i <= args.len(),
    ensures
        match arg_conversions(Seq::new(args.len() as nat, |k: int| (args@[k].0@, *args@[k].1)), i as int) {
            Ok(s) => r matches Ok(out) && out.len() == args.len() - i && s.len() == out.len() && forall|k: int|
                0 <= k < out.len() ==> {
                    &&& (#[trigger] out@[k]).ident@ == args@[i + k].0@
                    &&& out@[k].ty == args@[i + k].1.node
                    &&& out@[k].conversion == s[k]
                },
            Err(n) => r matches Err(f) && f@ == single(n, unsupported_impl_message()),
        },
    decreases args.len() - i,
{
    if i >= args.len() {
        return Ok(Vec::new());
    }
    let ghost list = Seq::new(args.len() as nat, |k: int| (args@[k].0@, *args@[k].1));
    let (ident, ty) = &args[i];
    match generate_conversion(ty) {
        Err(f) => Err(f),
        Ok(conversion) => match conversions_from(args, i + 1) {
            Err(f) => Err(f),
            Ok(rest) => {
                let ghost s_rest = arg_conversions(list, i + 1).unwrap();
                let ghost c = conversion;
                let mut out = rest;
                out.insert(0, WrapperArg { ident: ident.clone(), ty: ty.node, conversion });
                assert(arg_conversions(list, i as int) == Ok::<Seq<ArgConversion>, usize>(seq![c] + s_rest));
                assert forall|k: int| 0 <= k < out.len() implies {
                    &&& (#[trigger] out@[k]).ident@ == args@[i + k].0@
                    &&& out@[k].ty == args@[i + k].1.node
                    &&& out@[k].conversion == (seq![c] + s_rest)[k]
                } by {
                    if k > 0 {
                        assert(out@[k] == rest@[k - 1]);
                    }
                }
                Ok(out)
            },
        },
    }
}

/// The wrapper struct for `type Name = fn(..) -> R;` (see
/// [`item_type_failure`] for when it is refused, and [`wrapper_of`] for
/// what it holds).
pub fn parse_item_type(item_type: &TypeAlias) -> (r: Result<FnWrapper, Failure>)
    ensures
        match item_type_failure(*item_type) {
            Some(f) => r matches Err(g) && g@ == f,
            None => r matches Ok(w) && wrapper_of(*item_type, w),
        },
{
    if let Some(site) = item_type.default_site {
        return Err(fail_at(site, string_of("unexpected type alias modifier")));
    }
    let (inputs, output) = match &item_type.ty.kind {
        TypeKind::FnPtr(inputs, output) => (inputs, output),
        _ => return Err(fail_at(item_type.ty.node, string_of("Expected a function pointer type (e.g., `fn(x: f64)`)"))),
    };
    let ghost list = bare_arg_list(inputs@);
    let mut args: Vec<(String, &RustType)> = Vec::new();
    for i in 0..inputs.len()
        invariant
            args.len() == i,
            list == bare_arg_list(inputs@),
            forall|k: int| 0 <= k < i ==> (#[trigger] args@[k]).0@ == list[k].0 && *args@[k].1 == list[k].1,
    {
        let input: &BareArg = &inputs[i];
        let ident = match &input.name {
            Some(n) => n.clone(),
            None => {
                let mut s = string_of("arg");
                push_decimal(&mut s, i);
                s
            },
        };
        args.push((ident, &input.ty));
    }
    let out: Option<&RustType> = match output {
        Some(b) => Some(&**b),
        None => None,
    };
    let parsed = ParsedSignature { struct_ident: &item_type.name, args, output: out };
    assert(parsed.arg_list() =~= list);
    let abi = match generate_abi_traits(&parsed) {
        Ok(abi) => abi,
        Err(f) => return Err(f),
    };
    let wrapper_args = match conversions_from(&parsed.args, 0) {
        Ok(w) => w,
        Err(f) => return Err(f),
    };
    let n = parsed.args.len();
    if n > 9 {
        return Err(fail_at(item_type.site, string_of("Functions with more than 9 arguments are not supported yet")));
    }
    let mut call_method = string_of("call");
    push_decimal(&mut call_method, n);
    let wrapper_output = match out {
        None => None,
        Some(ty) => match generate_return_conversion(ty) {
            Ok(conversion) => Some(WrapperOutput { ty: ty.node, conversion }),
            Err(f) => return Err(f),
        },
    };
    Ok(FnWrapper { abi, args: wrapper_args, call_method, output: wrapper_output })
}

/// The index of the first method named `call`, looked for from index `i`.
pub open spec fn find_call(fns: Seq<ImplFn>, i: int) -> Option<int>
    decreases fns.len() - i,
{
    if i < 0 || i >= fns.len() {
        None
    } else if fns[i].name@ == "call"@ {
        Some(i)
    } else {
        find_call(fns, i + 1)
    }
}

/// The site of the first input from index `i` on that is not a typed
/// pattern.
pub open spec fn first_untyped(inputs: Seq<FnInput>, i: int) -> Option<usize>
    decreases inputs.len() - i,
{
    if i < 0 || i >= inputs.len() {
        None
    } else {
        match inputs[i] {
            FnInput::Receiver { site } => Some(site),
            FnInput::Typed { .. } => first_untyped(inputs, i + 1),
        }
    }
}

/// The named arguments of a method after its receiver.
pub open spec fn method_arg_list(inputs: Seq<FnInput>) -> Seq<(Seq<char>, RustType)> {
    Seq::new((inputs.len() - 1) as nat, |i: int| match inputs[i + 1] {
        FnInput::Typed { pat_ident, ty, .. } => (arg_ident(pat_ident, i), ty),
        FnInput::Receiver { .. } => (seq![], arbitrary()),
    })
}

pub open spec fn impl_modifier_message() -> Seq<char> {
    "unexpected impl modifier"@
}

/// The errors for the `default` and `!` modifiers of an impl block.
pub open spec fn impl_modifier_failure(block: ImplBlock) -> Option<FailureV> {
    match (block.default_site, block.negative_site) {
        (None, None) => None,
        (Some(d), None) => Some(single(d, impl_modifier_message())),
        (None, Some(n)) => Some(single(n, impl_modifier_message())),
        (Some(d), Some(n)) => Some(FailureV::Spanned(seq![(d, impl_modifier_message()), (n, impl_modifier_message())])),
    }
}

/// Why an impl block is refused, or `None` when it is accepted. The checks,
/// in order: no modifiers; no trait; a self type that is one identifier; a
/// method named `call`; whose first input is `self`; whose other inputs are
/// typed; a TypeScript type for each of them and for the output.
pub open spec fn item_impl_failure(block: ImplBlock) -> Option<FailureV> {
    match impl_modifier_failure(block) {
        Some(f) => Some(f),
        None => if block.is_trait_impl {
            Some(single(block.site, "#[ts_function] cannot be applied to trait impls"@))
        } else {
            match block.self_ty.kind {
                TypeKind::Path(p) => if !p.is_single_ident() {
                    Some(single(block.self_ty.node, "Expected a single identifier for the struct"@))
                } else {
                    match find_call(block.fns@, 0) {
                        None => Some(single(block.site, "Missing `call` method in impl block"@)),
                        Some(ci) => {
                            let m = block.fns@[ci];
                            if m.inputs.len() == 0 || !(m.inputs@[0] is Receiver) {
                                Some(single(
                                    m.sig_site,
                                    "The `call` method must take `&self` or `&mut self` as its first parameter"@,
                                ))
                            } else {
                                match first_untyped(m.inputs@, 1) {
                                    Some(s) => Some(single(s, "Expected a typed argument"@)),
                                    None => match ts_function_type(
                                        p.idents@[0]@,
                                        method_arg_list(m.inputs@),
                                        m.output,
                                    ) {
                                        Err((n, e)) => Some(single(n, e.spec_message())),
                                        Ok(_) => None,
                                    },
                                }
                            }
                        },
                    }
                },
                _ => Some(single(block.self_ty.node, "Expected a simple path for the struct"@)),
            }
        },
    }
}

/// The ABI glue generated beside a `call` impl block, which is kept as it is.
#[derive(Debug)]
pub struct CallImpl {
    pub abi: AbiTraits,
}

/// `c` is the glue of the accepted impl block `block`.
pub open spec fn call_impl_of(block: ImplBlock, c: CallImpl) -> bool {
    match block.self_ty.kind {
        TypeKind::Path(p) => {
            let m = block.fns@[find_call(block.fns@, 0).unwrap()];
            let name = p.idents@[0]@;
            abi_of(c.abi, name, ts_function_type(name, method_arg_list(m.inputs@), m.output).unwrap())
        },
        _ => false,
    }
}

proof fn lemma_find_call_in_range(fns: Seq<ImplFn>, i: int)
    requires
        0 <= i,
    ensures
        find_call(fns, i) matches Some(k) ==> i <= k < fns.len() && fns[k].name@ == "call"@,
    decreases fns.len() - i,
{
    if i < fns.len() && fns[i].name@ != "call"@ {
        lemma_find_call_in_range(fns, i + 1);
    }
}

fn find_call_fn(fns: &Vec<ImplFn>) -> (r: Option<usize>)
    ensures
        match find_call(fns@, 0) {
            Some(i) => r == Some(i as usize),
            None => r is None,
        },
        r matches Some(i) ==> i < fns.len(),
{
    proof {
        lemma_find_call_in_range(fns@, 0);
    }
    let n = fns.len();
    for i in 0..n
        invariant
            n == fns.len(),
            find_call(fns@, 0) == find_call(fns@, i as int),
    {
        if text_is(&fns[i].name, "call") {
            return Some(i);
        }
    }
    None
}

/// The ABI glue for an impl block with a `call` method (see
/// [`item_impl_failure`] for when it is refused, and [`call_impl_of`] for
/// what it holds).
#[verifier::loop_isolation(false)]
pub fn parse_item_impl(item_impl: &ImplBlock) -> (r: Result<CallImpl, Failure>)
    ensures
        match item_impl_failure(*item_impl) {
            Some(f) => r matches Err(g) && g@ == f,
            None => r matches Ok(c) && call_impl_of(*item_impl, c),
        },
{
    let mut diagnostics: Vec<Diagnostic> = Vec::new();
    if let Some(site) = item_impl.default_site {
        diagnostics.push(Diagnostic { site, message: string_of("unexpected impl modifier") });
    }
    if let Some(site) = item_impl.negative_site {
        diagnostics.push(Diagnostic { site, message: string_of("unexpected impl modifier") });
    }
    if diagnostics.len() > 0 {
        let f = Failure::Spanned(diagnostics);
        assert(f@ == impl_modifier_failure(*item_impl).unwrap()) by {
            if let FailureV::Spanned(v) = f@ {
                if item_impl.default_site is Some && item_impl.negative_site is Some {
                    assert(v =~= seq![
                        (item_impl.default_site.unwrap(), impl_modifier_message()),
                        (item_impl.negative_site.unwrap(), impl_modifier_message()),
                    ]);
                } else if item_impl.default_site is Some {
                    assert(v =~= seq![(item_impl.default_site.unwrap(), impl_modifier_message())]);
                } else {
                    assert(v =~= seq![(item_impl.negative_site.unwrap(), impl_modifier_message())]);
                }
            }
        }
        return Err(f);
    }
    if item_impl.is_trait_impl {
        return Err(fail_at(item_impl.site, string_of("#[ts_function] cannot be applied to trait impls")));
    }
    let p = match &item_impl.self_ty.kind {
        TypeKind::Path(p) => p,
        _ => return Err(fail_at(item_impl.self_ty.node, string_of("Expected a simple path for the struct"))),
    };
    let struct_ident = match p.get_ident() {
        Some(id) => id,
        None => return Err(fail_at(item_impl.self_ty.node, string_of("Expected a single identifier for the struct"))),
    };
    let ci = match find_call_fn(&item_impl.fns) {
        Some(ci) => ci,
        None => return Err(fail_at(item_impl.site, string_of("Missing `call` method in impl block"))),
    };
    let method = &item_impl.fns[ci];
    proof {
        lemma_find_call_in_range(item_impl.fns@, 0);
    }
    assert(find_call(item_impl.fns@, 0) == Some(ci as int));
    let inputs = &method.inputs;
    if inputs.len() == 0 || !matches!(inputs[0], FnInput::Receiver { .. }) {
        return Err(fail_at(
            method.sig_site,
            string_of("The `call` method must take `&self` or `&mut self` as its first parameter"),
        ));
    }
    let ghost list = method_arg_list(inputs@);
    let mut args: Vec<(String, &RustType)> = Vec::new();
    let n = inputs.len();
    for j in 1..n
        invariant
            n == inputs.len(),
            n >= 1,
            args.len() == j - 1,
            list == method_arg_list(inputs@),
            first_untyped(inputs@, 1) == first_untyped(inputs@, j as int),
            forall|k: int| 0 <= k < j - 1 ==> (#[trigger] args@[k]).0@ == list[k].0 && *args@[k].1 == list[k].1,
    {
        match &inputs[j] {
            FnInput::Receiver { site } => {
                assert(first_untyped(inputs@, j as int) == Some(*site));
                return Err(fail_at(*site, string_of("Expected a typed argument")));
            },
            FnInput::Typed { pat_ident, ty, .. } => {
                let ident = match pat_ident {
                    Some(id) => id.clone(),
                    None => {
                        let mut s = string_of("arg");
                        push_decimal(&mut s, j - 1);
                        s
                    },
                };
                args.push((ident, ty));
            },
        }
    }
    let out: Option<&RustType> = match &method.output {
        Some(t) => Some(t),
        None => None,
    };
    let parsed = ParsedSignature { struct_ident, args, output: out };
    assert(parsed.arg_list() =~= list);
    match generate_abi_traits(&parsed) {
        Ok(abi) => Ok(CallImpl { abi }),
        Err(f) => Err(f),
    }
}

} // verus!
