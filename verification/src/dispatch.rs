//! The attribute's entry point: which expansion an item receives.
use vstd::prelude::*;
use crate::args::{parse_ts_args, TsArgs};
use crate::diag::{fail_at, single, Failure, FailureV};
use crate::interface::{interface_failure, interface_of, ts_internal, Interface};
use crate::signature::{
    call_impl_of, item_impl_failure, item_type_failure, parse_item_impl, parse_item_type, wrapper_of,
    CallImpl, FnWrapper,
};
use crate::syntax::{AttrTokens, EnumItem, Item, Variant};
use crate::text::{decimal, lemma_decimal_injective, push_decimal, string_of};

verus! {

/// A variant of a `#[ts]` enum and the name of the constant that holds its
/// discriminant in the generated `TryFrom<JsValue>`.
#[derive(Debug)]
pub struct EnumVariant {
    pub name: String,
    pub const_name: String,
}

/// What is generated for a unit-only enum.
#[derive(Debug)]
pub struct EnumPlan {
    pub name: String,
    pub variants: Vec<EnumVariant>,
}

/// The expansion of an item.
#[derive(Debug)]
pub enum Expansion {
    Interface(Interface),
    Enum(EnumPlan),
    FnAlias(FnWrapper),
    CallImpl(CallImpl),
}

/// The index of the first variant from `i` on that is not a unit variant.
pub open spec fn first_non_unit(variants: Seq<Variant>, i: int) -> Option<int>
    decreases variants.len() - i,
{
    if i < 0 || i >= variants.len() {
        None
    } else if !variants[i].is_unit {
        Some(i)
    } else {
        first_non_unit(variants, i + 1)
    }
}

proof fn lemma_first_non_unit_in_range(variants: Seq<Variant>, i: int)
    requires
        0 <= i,
    ensures
        first_non_unit(variants, i) matches Some(k) ==> i <= k < variants.len() && !variants[k].is_unit,
    decreases variants.len() - i,
{
    if i < variants.len() && variants[i].is_unit {
        lemma_first_non_unit_in_range(variants, i + 1);
    }
}

/// The name of the constant for the variant at index `k`: numbered by
/// position, so that no two variants share one.
pub open spec fn variant_const_name(k: int) -> Seq<char> {
    "__TS_FUNCTION_VARIANT_"@ + decimal(k as nat)
}

/// Variants at different positions get constants of different names.
pub proof fn lemma_variant_const_names_distinct(j: int, k: int)
    requires
        0 <= j,
        0 <= k,
        j != k,
    ensures
        variant_const_name(j) != variant_const_name(k),
{
    let p = "__TS_FUNCTION_VARIANT_"@;
    if variant_const_name(j) == variant_const_name(k) {
        let a = variant_const_name(j);
        assert(a.subrange(p.len() as int, a.len() as int) =~= decimal(j as nat));
        assert(a.subrange(p.len() as int, a.len() as int) =~= decimal(k as nat));
        lemma_decimal_injective(j as nat, k as nat);
    }
}

/// `plan` is what is generated for the unit-only enum `e`.
pub open spec fn enum_plan_of(e: EnumItem, plan: EnumPlan) -> bool {
    &&& plan.name@ == e.name@
    &&& plan.variants.len() == e.variants.len()
    &&& forall|k: int|
        0 <= k < e.variants.len() ==> {
            &&& (#[trigger] plan.variants@[k]).name@ == e.variants@[k].name@
            &&& plan.variants@[k].const_name@ == variant_const_name(k)
        }
    &&& forall|j: int, k: int|
        0 <= j < k < e.variants.len() ==> (#[trigger] plan.variants@[j]).const_name@
            != (#[trigger] plan.variants@[k]).const_name@
}

pub open spec fn non_unit_message() -> Seq<char> {
    "#[ts] enums must only contain unit variants"@
}

pub open spec fn other_item_message() -> Seq<char> {
    "#[ts] can only be applied to a struct, enum, type alias, or impl block"@
}

/// Why the attribute refuses `item` with arguments `attr`, or `None`.
/// The arguments are read for structs only.
pub open spec fn expansion_failure(attr: AttrTokens, item: Item) -> Option<FailureV> {
    match item {
        Item::Struct(s) => match parse_ts_args(attr) {
            Err((site, m)) => Some(single(site, m)),
            Ok(a) => match interface_failure(a, s) {
                Some(m) => Some(FailureV::Bare(m)),
                None => None,
            },
        },
        Item::Enum(e) => match first_non_unit(e.variants@, 0) {
            Some(k) => Some(single(e.variants@[k].site, non_unit_message())),
            None => None,
        },
        Item::Type(t) => item_type_failure(t),
        Item::Impl(b) => item_impl_failure(b),
        Item::Other { site } => Some(single(site, other_item_message())),
    }
}

/// `exp` is the expansion of the accepted `item`.
pub open spec fn expansion_of(attr: AttrTokens, item: Item, exp: Expansion) -> bool {
    match (item, exp) {
        (Item::Struct(s), Expansion::Interface(i)) => parse_ts_args(attr) matches Ok(a) && interface_of(a, s, i),
        (Item::Enum(e), Expansion::Enum(p)) => enum_plan_of(e, p),
        (Item::Type(t), Expansion::FnAlias(w)) => wrapper_of(t, w),
        (Item::Impl(b), Expansion::CallImpl(c)) => call_impl_of(b, c),
        _ => false,
    }
}

/// The plan for a unit-only enum, or the first variant with fields.
#[verifier::loop_isolation(false)]
pub fn plan_enum(item_enum: &EnumItem) -> (r: Result<EnumPlan, Failure>)
    ensures
        match first_non_unit(item_enum.variants@, 0) {
            Some(k) => r matches Err(f) && f@ == single(item_enum.variants@[k].site, non_unit_message()),
            None => r matches Ok(p) && enum_plan_of(*item_enum, p),
        },
{
    let variants = &item_enum.variants;
    let n = variants.len();
    proof {
        lemma_first_non_unit_in_range(variants@, 0);
    }
    for i in 0..n
        invariant
            n == variants.len(),
            first_non_unit(variants@, 0) == first_non_unit(variants@, i as int),
    {
        if !variants[i].is_unit {
            return Err(fail_at(variants[i].site, string_of("#[ts] enums must only contain unit variants")));
        }
    }
    let mut out: Vec<EnumVariant> = Vec::new();
    for i in 0..n
        invariant
            n == variants.len(),
            out.len() == i,
            forall|k: int|
                0 <= k < i ==> {
                    &&& (#[trigger] out@[k]).name@ == variants@[k].name@
                    &&& out@[k].const_name@ == variant_const_name(k)
                },
    {
        let mut const_name = string_of("__TS_FUNCTION_VARIANT_");
        push_decimal(&mut const_name, i);
        out.push(EnumVariant { name: variants[i].name.clone(), const_name });
    }
    proof {
        assert forall|j: int, k: int| 0 <= j < k < n implies (#[trigger] out@[j]).const_name@
            != (#[trigger] out@[k]).const_name@ by {
            lemma_variant_const_names_distinct(j, k);
        }
    }
    Ok(EnumPlan { name: item_enum.name.clone(), variants: out })
}

/// The expansion of `item` under the attribute arguments `attr` (see
/// [`expansion_failure`] for when it is refused, and [`expansion_of`] for
/// what it holds).
pub fn ts_internal_dispatcher(attr: &AttrTokens, item: &Item) -> (r: Result<Expansion, Failure>)
    ensures
        match expansion_failure(*attr, *item) {
            Some(f) => r matches Err(g) && g@ == f,
            None => r matches Ok(exp) && expansion_of(*attr, *item, exp),
        },
{
    match item {
        Item::Struct(item_struct) => {
            let args = match TsArgs::parse(attr) {
                Ok(args) => args,
                Err(f) => return Err(f),
            };
            match ts_internal(&args, item_struct) {
                Ok(i) => Ok(Expansion::Interface(i)),
                Err(f) => Err(f),
            }
        },
        Item::Enum(item_enum) => match plan_enum(item_enum) {
            Ok(p) => Ok(Expansion::Enum(p)),
            Err(f) => Err(f),
        },
        Item::Type(item_type) => match parse_item_type(item_type) {
            Ok(w) => Ok(Expansion::FnAlias(w)),
            Err(f) => Err(f),
        },
        Item::Impl(item_impl) => match parse_item_impl(item_impl) {
            Ok(c) => Ok(Expansion::CallImpl(c)),
            Err(f) => Err(f),
        },
        Item::Other { site } => Err(fail_at(
            *site,
            string_of("#[ts] can only be applied to a struct, enum, type alias, or impl block"),
        )),
    }
}

} // verus!
