//! The TypeScript interface and JavaScript binding generated for a struct
//! with named fields.
use vstd::prelude::*;
use crate::args::{TsArgs, TsArgsV};
use crate::conversion::{generate_return_conversion, return_conversion_of, ReturnConversion};
use crate::signature::{generate_try_convert_support, try_convert_names, TryConvertSupport};
use crate::diag::{Failure, FailureV};
use crate::syntax::{Field, FieldAttr, MetaValue, StructItem, TsMeta};
use crate::text::{
    join, join_strings, lower_camel_case, pascal_case, push_text, string_of, text_is, to_lower_camel_case,
    to_pascal_case, to_upper_case, upper_case,
};
use crate::ts_type::{to_ts_type, ts_of};

verus! {

/// What is known of a field while its attributes are read: its TypeScript
/// name and type, whether it is optional, its doc lines, and the indices of
/// the attributes kept on the Rust field.
pub struct FieldState {
    pub ts_name: Seq<char>,
    pub ts_type: Seq<char>,
    pub optional: bool,
    pub docs: Seq<Seq<char>>,
    pub kept: Seq<usize>,
}

pub open spec fn key_message(field: Seq<char>, key: Seq<char>, expected: Seq<char>) -> Seq<char> {
    "`"@ + key + "` for field `"@ + field + "` must be "@ + expected + "."@
}

pub open spec fn unknown_key_message(field: Seq<char>, key: Seq<char>) -> Seq<char> {
    "Unknown argument for field `"@ + field + "`: `"@ + key + "`. Options are:\n                                    - type: The TypeScript type of the field\n                                    - name: The name of the field in the TypeScript interface\n                                    - optional: Whether the field is optional in TypeScript"@
}

pub open spec fn pairs_message(field: Seq<char>) -> Seq<char> {
    "`ts` attribute for field `"@ + field + "` must be a list of name-value pairs, e.g. `#[ts(type = \""@
        + pascal_case(field) + "\")]`."@
}

pub open spec fn list_message(field: Seq<char>) -> Seq<char> {
    "`ts` attribute for field `"@ + field + "` must be a list, e.g. `#[ts(type = \"Js"@
        + pascal_case(field) + "\")]`."@
}

/// The items of a `#[ts(...)]` attribute of field `field`, applied in order
/// from index `j`: `name = "..."` renames, `type = "..."` replaces the
/// TypeScript type, `optional = bool` sets optionality; anything else is
/// refused with a message.
pub open spec fn apply_metas(field: Seq<char>, metas: Seq<TsMeta>, j: int, st: FieldState) -> Result<FieldState, Seq<char>>
    decreases metas.len() - j,
{
    if j < 0 || j >= metas.len() {
        Ok(st)
    } else {
        match metas[j] {
            TsMeta::Other => Err(pairs_message(field)),
            TsMeta::NameValue { key, value } => match key {
                None => Err("Expected an identifier for the key"@),
                Some(k) => {
                    if k@ == "name"@ {
                        match value {
                            MetaValue::Str(s) => apply_metas(field, metas, j + 1, FieldState { ts_name: s@, ..st }),
                            _ => Err(key_message(field, "name"@, "a string literal"@)),
                        }
                    } else if k@ == "type"@ {
                        match value {
                            MetaValue::Str(s) => apply_metas(field, metas, j + 1, FieldState { ts_type: s@, ..st }),
                            _ => Err(key_message(field, "type"@, "a string literal"@)),
                        }
                    } else if k@ == "optional"@ {
                        match value {
                            MetaValue::Bool(b) => apply_metas(field, metas, j + 1, FieldState { optional: b, ..st }),
                            _ => Err(key_message(field, "optional"@, "a boolean literal"@)),
                        }
                    } else {
                        Err(unknown_key_message(field, k@))
                    }
                },
            },
        }
    }
}

/// The attributes of field `field`, read in order from index `i`: doc
/// lines are collected and removed, `#[ts(...)]` is applied and removed,
/// other attributes are kept.
pub open spec fn apply_attrs(field: Seq<char>, attrs: Seq<FieldAttr>, i: int, st: FieldState) -> Result<FieldState, Seq<char>>
    decreases attrs.len() - i,
{
    if i < 0 || i >= attrs.len() {
        Ok(st)
    } else {
        match attrs[i] {
            FieldAttr::Doc(Some(line)) => apply_attrs(field, attrs, i + 1, FieldState { docs: st.docs.push(line@), ..st }),
            FieldAttr::Doc(None) => apply_attrs(field, attrs, i + 1, st),
            FieldAttr::Other => apply_attrs(field, attrs, i + 1, FieldState { kept: st.kept.push(i as usize), ..st }),
            FieldAttr::TsOther => Err(list_message(field)),
            FieldAttr::TsList(Err(m)) => Err(m@),
            FieldAttr::TsList(Ok(metas)) => match apply_metas(field, metas@, 0, st) {
                Err(m) => Err(m),
                Ok(st2) => apply_attrs(field, attrs, i + 1, st2),
            },
        }
    }
}

/// The TypeScript name of a field before its attributes: the Rust name
/// when `rename_all = "none"`, else its lowerCamelCase form.
pub open spec fn default_ts_name(field: Seq<char>, keep_names: bool) -> Seq<char> {
    if keep_names {
        field
    } else {
        lower_camel_case(field)
    }
}

/// A field: its TypeScript type must exist; then its attributes are read.
pub open spec fn process_field(f: Field, keep_names: bool) -> Result<FieldState, Seq<char>> {
    match ts_of(f.ty) {
        Err(e) => Err(e.spec_message()),
        Ok((t, optional)) => apply_attrs(
            f.name@,
            f.attrs@,
            0,
            FieldState {
                ts_name: default_ts_name(f.name@, keep_names),
                ts_type: t,
                optional,
                docs: seq![],
                kept: seq![],
            },
        ),
    }
}

/// The fields from index `j` on, after the states `acc` of those before;
/// the first refused field stops.
pub open spec fn process_fields(fields: Seq<Field>, j: int, keep_names: bool, acc: Seq<FieldState>) -> Result<Seq<FieldState>, Seq<char>>
    decreases fields.len() - j,
{
    if j < 0 || j >= fields.len() {
        Ok(acc)
    } else {
        match process_field(fields[j], keep_names) {
            Err(m) => Err(m),
            Ok(st) => process_fields(fields, j + 1, keep_names, acc.push(st)),
        }
    }
}

/// The JSDoc block before a field of the interface.
pub open spec fn doc_block(docs: Seq<Seq<char>>) -> Seq<char> {
    if docs.len() == 0 {
        seq![]
    } else {
        "/**\n   *"@ + join(docs, "\n   *"@) + "\n   */\n  "@
    }
}

/// The line of a field in the interface.
pub open spec fn field_line(st: FieldState) -> Seq<char> {
    doc_block(st.docs) + st.ts_name + (if st.optional { "?"@ } else { seq![] }) + ": "@ + st.ts_type + ";"@
}

/// ` extends A, B` for the `extends` argument.
pub open spec fn extends_clause(extends: Option<Seq<Seq<char>>>) -> Seq<char> {
    match extends {
        Some(list) => " extends "@ + join(list, ", "@),
        None => seq![],
    }
}

/// The TypeScript interface of struct `name`.
pub open spec fn interface_definition(name: Seq<char>, extends: Option<Seq<Seq<char>>>, states: Seq<FieldState>) -> Seq<char> {
    "export interface "@ + name + extends_clause(extends) + " {\n  "@
        + join(Seq::new(states.len(), |k: int| field_line(states[k])), "\n  "@) + "\n}"@
}

pub open spec fn unnamed_fields_message() -> Seq<char> {
    "The `ts` attribute can only be used on structs with named fields."@
}

/// Why the struct is refused (the message of a `compile_error!`), or
/// `None`.
pub open spec fn interface_failure(args: TsArgsV, item: StructItem) -> Option<Seq<char>> {
    match item.fields {
        None => Some(unnamed_fields_message()),
        Some(fields) => match process_fields(fields@, 0, args.rename_all == Some("none"@), seq![]) {
            Err(m) => Some(m),
            Ok(_) => None,
        },
    }
}

/// How the fallible `try_parse` of the binding reads one property.
#[derive(Debug)]
pub enum FieldRead {
    /// The property is checked and converted as a returned value of the
    /// field's Rust type is: `Optional` admits `null` and `undefined` as
    /// `None`, every other conversion reports a wrong JavaScript type with
    /// its own message (such as `Expected a string`), and a nested `#[ts]`
    /// type, enum or function wrapper goes through its own `TryFrom`.
    Checked(ReturnConversion),
    /// The field's type has no checked conversion (it is not a path type):
    /// the property is read through the generated getter.
    Unchecked,
}

/// How `try_parse` reads a field of Rust type `ty`.
pub open spec fn field_read_of(ty: crate::syntax::RustType) -> FieldRead {
    match return_conversion_of(ty) {
        Ok(c) => FieldRead::Checked(c),
        Err(_) => FieldRead::Unchecked,
    }
}

/// The error of `try_parse` for a required property `key` that is
/// `undefined`.
pub open spec fn missing_field_message(key: Seq<char>) -> Seq<char> {
    "Missing required field `"@ + key + "`"@
}

/// What `try_parse` puts before the error of the conversion of property
/// `key`, so that a nested error keeps its field context.
pub open spec fn invalid_field_prefix(key: Seq<char>) -> Seq<char> {
    "Invalid field `"@ + key + "`: "@
}

/// A field of the generated binding.
#[derive(Debug)]
pub struct InterfaceField {
    /// The Rust field name.
    pub rust_name: String,
    /// The property name in JavaScript and TypeScript.
    pub ts_name: String,
    /// The doc lines, repeated on the generated getter.
    pub doc_lines: Vec<String>,
    /// The indices of the attributes kept on the Rust field.
    pub kept_attrs: Vec<usize>,
    /// How `try_parse` reads the property.
    pub read: FieldRead,
    /// The error of `try_parse` when the required property is missing.
    pub missing_message: String,
    /// The prefix of the error of `try_parse` when the property does not
    /// convert.
    pub invalid_prefix: String,
}

/// What is generated for a struct: the name of the JavaScript binding type,
/// the name of the constant that holds the TypeScript definition, the
/// interface name, the definition, the extended interfaces and the fields.
#[derive(Debug)]
pub struct Interface {
    pub binding_name: String,
    pub const_name: String,
    pub ts_interface_name: String,
    pub ts_definition: String,
    pub extends: Vec<String>,
    pub fields: Vec<InterfaceField>,
    /// The helpers through which `try_parse` converts nested values.
    pub try_convert: TryConvertSupport,
}

/// `out` is what is generated for the accepted struct `item`.
pub open spec fn interface_of(args: TsArgsV, item: StructItem, out: Interface) -> bool {
    let fields = item.fields.unwrap();
    let states = match process_fields(fields@, 0, args.rename_all == Some("none"@), seq![]) {
        Ok(s) => s,
        Err(_) => seq![],
    };
    &&& out.binding_name@ == (match args.name {
        Some(n) => n,
        None => "I"@ + item.name@,
    })
    &&& out.const_name@ == upper_case(item.name@) + "__TS_DEF"@
    &&& out.ts_interface_name@ == item.name@
    &&& try_convert_names(out.try_convert, item.name@)
    &&& out.ts_definition@ == interface_definition(item.name@, args.extends, states)
    &&& out.extends.deep_view() == (match args.extends {
        Some(list) => list,
        None => seq![],
    })
    &&& out.fields.len() == fields.len()
    &&& states.len() == fields.len()
    &&& forall|k: int|
        0 <= k < fields.len() ==> {
            &&& (#[trigger] out.fields@[k]).rust_name@ == fields@[k].name@
            &&& out.fields@[k].ts_name@ == states[k].ts_name
            &&& out.fields@[k].doc_lines.deep_view() == states[k].docs
            &&& out.fields@[k].kept_attrs@ == states[k].kept
            &&& out.fields@[k].read == field_read_of(fields@[k].ty)
            &&& out.fields@[k].missing_message@ == missing_field_message(states[k].ts_name)
            &&& out.fields@[k].invalid_prefix@ == invalid_field_prefix(states[k].ts_name)
        }
}

/// The state of a field while its attributes are read.
struct FieldWork {
    ts_name: String,
    ts_type: String,
    optional: bool,
    docs: Vec<String>,
    kept: Vec<usize>,
}

impl FieldWork {
    spec fn state(&self) -> FieldState {
        FieldState {
            ts_name: self.ts_name@,
            ts_type: self.ts_type@,
            optional: self.optional,
            docs: self.docs.deep_view(),
            kept: self.kept@,
        }
    }
}

fn key_error(field: &String, key: &str, expected: &str) -> (r: Failure)
    ensures
        r@ == FailureV::Bare(key_message(field@, key@, expected@)),
{
    let mut m = string_of("`");
    push_text(&mut m, key);
    push_text(&mut m, "` for field `");
    push_text(&mut m, field.as_str());
    push_text(&mut m, "` must be ");
    push_text(&mut m, expected);
    push_text(&mut m, ".");
    Failure::Bare(m)
}

fn unknown_key_error(field: &String, key: &String) -> (r: Failure)
    ensures
        r@ == FailureV::Bare(unknown_key_message(field@, key@)),
{
    let mut m = string_of("Unknown argument for field `");
    push_text(&mut m, field.as_str());
    push_text(&mut m, "`: `");
    push_text(&mut m, key.as_str());
    push_text(&mut m, "`. Options are:\n                                    - type: The TypeScript type of the field\n                                    - name: The name of the field in the TypeScript interface\n                                    - optional: Whether the field is optional in TypeScript");
    Failure::Bare(m)
}

fn pairs_error(field: &String) -> (r: Failure)
    ensures
        r@ == FailureV::Bare(pairs_message(field@)),
{
    let mut m = string_of("`ts` attribute for field `");
    push_text(&mut m, field.as_str());
    push_text(&mut m, "` must be a list of name-value pairs, e.g. `#[ts(type = \"");
    let pascal = to_pascal_case(field.as_str());
    push_text(&mut m, pascal.as_str());
    push_text(&mut m, "\")]`.");
    Failure::Bare(m)
}

fn list_error(field: &String) -> (r: Failure)
    ensures
        r@ == FailureV::Bare(list_message(field@)),
{
    let mut m = string_of("`ts` attribute for field `");
    push_text(&mut m, field.as_str());
    push_text(&mut m, "` must be a list, e.g. `#[ts(type = \"Js");
    let pascal = to_pascal_case(field.as_str());
    push_text(&mut m, pascal.as_str());
    push_text(&mut m, "\")]`.");
    Failure::Bare(m)
}

fn apply_ts_items(field: &String, metas: &Vec<TsMeta>, work: &mut FieldWork) -> (r: Result<(), Failure>)
    ensures
        match apply_metas(field@, metas@, 0, old(work).state()) {
            Ok(st) => r is Ok && final(work).state() == st,
            Err(m) => r matches Err(f) && f@ == FailureV::Bare(m),
        },
{
    proof {
        reveal_strlit("name");
        reveal_strlit("type");
        reveal_strlit("optional");
    }
    let ghost start = work.state();
    let n = metas.len();
    for j in 0..n
        invariant
            n == metas.len(),
            start == old(work).state(),
            apply_metas(field@, metas@, 0, start) == apply_metas(field@, metas@, j as int, work.state()),
    {
        match &metas[j] {
            TsMeta::Other => return Err(pairs_error(field)),
            TsMeta::NameValue { key, value } => match key {
                None => return Err(Failure::Bare(string_of("Expected an identifier for the key"))),
                Some(k) => {
                    if text_is(k, "name") {
                        match value {
                            MetaValue::Str(v) => work.ts_name = v.clone(),
                            _ => return Err(key_error(field, "name", "a string literal")),
                        }
                    } else if text_is(k, "type") {
                        match value {
                            MetaValue::Str(v) => work.ts_type = v.clone(),
                            _ => return Err(key_error(field, "type", "a string literal")),
                        }
                    } else if text_is(k, "optional") {
                        match value {
                            MetaValue::Bool(b) => work.optional = *b,
                            _ => return Err(key_error(field, "optional", "a boolean literal")),
                        }
                    } else {
                        return Err(unknown_key_error(field, k));
                    }
                },
            },
        }
    }
    Ok(())
}

fn apply_field_attrs(field: &String, attrs: &Vec<FieldAttr>, work: &mut FieldWork) -> (r: Result<(), Failure>)
    ensures
        match apply_attrs(field@, attrs@, 0, old(work).state()) {
            Ok(st) => r is Ok && final(work).state() == st,
            Err(m) => r matches Err(f) && f@ == FailureV::Bare(m),
        },
{
    let ghost start = work.state();
    let n = attrs.len();
    for i in 0..n
        invariant
            n == attrs.len(),
            start == old(work).state(),
            apply_attrs(field@, attrs@, 0, start) == apply_attrs(field@, attrs@, i as int, work.state()),
    {
        match &attrs[i] {
            FieldAttr::Doc(Some(line)) => {
                let ghost before = work.docs.deep_view();
                work.docs.push(line.clone());
                assert(work.docs.deep_view() =~= before.push(line@));
            },
            FieldAttr::Doc(None) => {},
            FieldAttr::Other => {
                work.kept.push(i);
            },
            FieldAttr::TsOther => return Err(list_error(field)),
            FieldAttr::TsList(Err(m)) => return Err(Failure::Bare(m.clone())),
            FieldAttr::TsList(Ok(metas)) => {
                match apply_ts_items(field, metas, work) {
                    Ok(()) => {},
                    Err(f) => return Err(f),
                }
            },
        }
    }
    Ok(())
}

fn process_one_field(f: &Field, keep_names: bool) -> (r: Result<FieldWork, Failure>)
    ensures
        match process_field(*f, keep_names) {
            Ok(st) => r matches Ok(w) && w.state() == st,
            Err(m) => r matches Err(g) && g@ == FailureV::Bare(m),
        },
{
    let ts_name = if keep_names {
        f.name.clone()
    } else {
        to_lower_camel_case(f.name.as_str())
    };
    let t = match to_ts_type(&f.ty) {
        Ok(t) => t,
        Err(e) => return Err(Failure::Bare(e.message())),
    };
    let mut work = FieldWork { ts_name, ts_type: t.text, optional: t.optional, docs: Vec::new(), kept: Vec::new() };
    assert(work.docs.deep_view() =~= Seq::<Seq<char>>::empty());
    match apply_field_attrs(&f.name, &f.attrs, &mut work) {
        Ok(()) => Ok(work),
        Err(g) => Err(g),
    }
}

fn field_line_text(w: &FieldWork) -> (r: String)
    ensures
        r@ == field_line(w.state()),
{
    let mut line = String::new();
    if w.docs.len() > 0 {
        push_text(&mut line, "/**\n   *");
        let docs = join_strings(&w.docs, "\n   *");
        push_text(&mut line, docs.as_str());
        push_text(&mut line, "\n   */\n  ");
    }
    push_text(&mut line, w.ts_name.as_str());
    if w.optional {
        push_text(&mut line, "?");
    }
    push_text(&mut line, ": ");
    push_text(&mut line, w.ts_type.as_str());
    push_text(&mut line, ";");
    proof {
        if w.docs.len() == 0 {
            assert(doc_block(w.state().docs) =~= Seq::<char>::empty());
        }
        if !w.optional {
            assert(line@ =~= field_line(w.state()));
        }
    }
    line
}

fn copy_strings(v: &Vec<String>) -> (r: Vec<String>)
    ensures
        r.deep_view() == v.deep_view(),
{
    let mut r: Vec<String> = Vec::new();
    for i in 0..v.len()
        invariant
            r.len() == i,
            i <= v.len(),
            forall|k: int| 0 <= k < i ==> (#[trigger] r@[k])@ == v@[k]@,
    {
        r.push(v[i].clone());
    }
    assert(r.deep_view() =~= v.deep_view());
    r
}

fn extends_text(extends: &Option<Vec<String>>) -> (r: String)
    ensures
        r@ == extends_clause(match extends {
            Some(v) => Some(v.deep_view()),
            None => None,
        }),
{
    match extends {
        Some(list) => {
            let mut t = string_of(" extends ");
            let joined = join_strings(list, ", ");
            push_text(&mut t, joined.as_str());
            t
        },
        None => {
            let t = String::new();
            assert(t@ =~= Seq::<char>::empty());
            t
        },
    }
}

/// The TypeScript interface and binding for struct `item` (see
/// [`interface_failure`] for when it is refused, and [`interface_of`] for
/// what is generated).
#[verifier::loop_isolation(false)]
pub fn ts_internal(args: &TsArgs, item: &StructItem) -> (r: Result<Interface, Failure>)
    ensures
        match interface_failure(args@, *item) {
            Some(m) => r matches Err(f) && f@ == FailureV::Bare(m),
            None => r matches Ok(out) && interface_of(args@, *item, out),
        },
{
    let fields = match &item.fields {
        Some(fields) => fields,
        None => return Err(Failure::Bare(string_of(
            "The `ts` attribute can only be used on structs with named fields.",
        ))),
    };
    let keep_names = match &args.rename_all {
        Some(r) => text_is(r, "none"),
        None => false,
    };
    let binding_name = match &args.name {
        Some(n) => n.clone(),
        None => {
            let mut b = string_of("I");
            push_text(&mut b, item.name.as_str());
            b
        },
    };
    let ghost spec_keep = args@.rename_all == Some("none"@);
    assert(keep_names == spec_keep);
    let mut works: Vec<FieldWork> = Vec::new();
    let n = fields.len();
    assert(Seq::new(0 as nat, |k: int| works@[k].state()) =~= Seq::<FieldState>::empty());
    for j in 0..n
        invariant
            n == fields.len(),
            works.len() == j,
            process_fields(fields@, 0, spec_keep, seq![]) == process_fields(
                fields@,
                j as int,
                spec_keep,
                Seq::new(j as nat, |k: int| works@[k].state()),
            ),
    {
        let w = match process_one_field(&fields[j], keep_names) {
            Ok(w) => w,
            Err(f) => return Err(f),
        };
        let ghost before = Seq::new(j as nat, |k: int| works@[k].state());
        let ghost st = w.state();
        works.push(w);
        assert(Seq::new((j + 1) as nat, |k: int| works@[k].state()) =~= before.push(st));
    }
    let ghost states = Seq::new(n as nat, |k: int| works@[k].state());
    assert(process_fields(fields@, 0, spec_keep, seq![]) == Ok::<Seq<FieldState>, Seq<char>>(states));
    let mut lines: Vec<String> = Vec::new();
    for j in 0..n
        invariant
            n == works.len(),
            lines.len() == j,
            states == Seq::new(n as nat, |k: int| works@[k].state()),
            forall|k: int| 0 <= k < j ==> (#[trigger] lines@[k])@ == field_line(states[k]),
    {
        lines.push(field_line_text(&works[j]));
    }
    assert(lines.deep_view() =~= Seq::new(states.len(), |k: int| field_line(states[k])));
    let mut const_name = to_upper_case(item.name.as_str());
    push_text(&mut const_name, "__TS_DEF");
    let extends: Vec<String> = match &args.extends {
        Some(list) => copy_strings(list),
        None => Vec::new(),
    };
    assert(extends.deep_view() =~= (match args@.extends {
        Some(list) => list,
        None => Seq::<Seq<char>>::empty(),
    }));
    let mut ts_definition = string_of("export interface ");
    push_text(&mut ts_definition, item.name.as_str());
    let clause = extends_text(&args.extends);
    push_text(&mut ts_definition, clause.as_str());
    push_text(&mut ts_definition, " {\n  ");
    let body = join_strings(&lines, "\n  ");
    push_text(&mut ts_definition, body.as_str());
    push_text(&mut ts_definition, "\n}");
    assert(ts_definition@ =~= interface_definition(item.name@, args@.extends, states));
    let mut out_fields: Vec<InterfaceField> = Vec::new();
    for j in 0..n
        invariant
            n == works.len(),
            n == fields.len(),
            out_fields.len() == j,
            states == Seq::new(n as nat, |k: int| works@[k].state()),
            forall|k: int|
                0 <= k < j ==> {
                    &&& (#[trigger] out_fields@[k]).rust_name@ == fields@[k].name@
                    &&& out_fields@[k].ts_name@ == states[k].ts_name
                    &&& out_fields@[k].doc_lines.deep_view() == states[k].docs
                    &&& out_fields@[k].kept_attrs@ == states[k].kept
                    &&& out_fields@[k].read == field_read_of(fields@[k].ty)
                    &&& out_fields@[k].missing_message@ == missing_field_message(states[k].ts_name)
                    &&& out_fields@[k].invalid_prefix@ == invalid_field_prefix(states[k].ts_name)
                },
    {
        let w = &works[j];
        let read = match generate_return_conversion(&fields[j].ty) {
            Ok(c) => FieldRead::Checked(c),
            Err(_) => FieldRead::Unchecked,
        };
        let mut missing_message = string_of("Missing required field `");
        push_text(&mut missing_message, w.ts_name.as_str());
        push_text(&mut missing_message, "`");
        let mut invalid_prefix = string_of("Invalid field `");
        push_text(&mut invalid_prefix, w.ts_name.as_str());
        push_text(&mut invalid_prefix, "`: ");
        out_fields.push(InterfaceField {
            rust_name: fields[j].name.clone(),
            ts_name: w.ts_name.clone(),
            doc_lines: w.docs.clone(),
            kept_attrs: w.kept.clone(),
            read,
            missing_message,
            invalid_prefix,
        });
    }
    Ok(Interface {
        binding_name,
        const_name,
        ts_interface_name: item.name.clone(),
        ts_definition,
        extends,
        fields: out_fields,
        try_convert: generate_try_convert_support(&item.name),
    })
}

} // verus!
