//! The enum composer: declare an enum, wire its conversions and wire its
//! delegation in one step.
//!
//! This is pure composition — no new rewriting, only the fixed-order
//! invocation of the enum declaration, the conversion generator and the
//! delegate-impl generator, with the tokenized generics and bounds passed
//! through to each of them unchanged.  The "enum already declared by the
//! caller" entry point is the delegate-impl generator itself; this one is the
//! "declare the enum too" entry point, and both reach the same downstream
//! generators with structurally identical arguments.
use vstd::prelude::*;
use crate::ast::{
    arms_of_pairs, clone_string, clone_strings, names_of_pairs, spec_arms_of_pairs,
    spec_names_of_pairs, EnumDecl, SpecEnumDecl, VariantTy,
};
use crate::enum_delegate_impls::{
    enum_delegate_impls, spec_inherent_impl, spec_trait_impl, DelegateBlocks, ImplDecl,
};
use crate::enum_variants_convert::{enum_variants_convert, spec_convert_impls, ConvertImpls};

verus! {

/// Everything one composed invocation emits: the enum declaration, the
/// per-variant conversion impls, and the delegation impl blocks.
#[derive(Debug, Clone, PartialEq, Eq)]
pub struct Composition {
    pub enum_decl: EnumDecl,
    pub conversions: Vec<ConvertImpls>,
    pub impls: Vec<ImplDecl>,
}

/// The enum declaration a composed invocation emits: the described enum
/// itself, with one payload-carrying arm per pair, in order.
pub open spec fn spec_composed_enum_decl(
    attrs: Seq<Seq<char>>,
    vis: Seq<char>,
    name: Seq<char>,
    generics: Seq<Seq<char>>,
    bounds: Seq<Seq<char>>,
    pairs: Seq<crate::ast::SpecVariantTy>,
) -> SpecEnumDecl {
    SpecEnumDecl { attrs, vis, name, generics, bounds, arms: spec_arms_of_pairs(pairs) }
}

/// Declares the enum and generates its conversions and its delegation impls,
/// in that fixed order, handing every stage the same tokenized generics and
/// bounds and the same ordered pair list.
pub fn delegated_enum(
    attrs: &Vec<String>,
    vis: &String,
    name: &String,
    generics: &Vec<String>,
    bounds: &Vec<String>,
    pairs: &Vec<VariantTy>,
    blocks: &DelegateBlocks,
) -> (r: Composition)
    ensures
        r.enum_decl.deep_view() == spec_composed_enum_decl(
            attrs.deep_view(),
            vis@,
            name@,
            generics.deep_view(),
            bounds.deep_view(),
            pairs.deep_view(),
        ),
        r.conversions.deep_view().len() == pairs.deep_view().len(),
        forall|i: int|
            0 <= i < pairs.deep_view().len() ==> r.conversions.deep_view()[i]
                == spec_convert_impls(
                name@,
                generics.deep_view(),
                bounds.deep_view(),
                pairs.deep_view()[i],
            ),
        r.impls.deep_view().len() == blocks.traits.deep_view().len() + 1,
        forall|i: int|
            0 <= i < blocks.traits.deep_view().len() ==> r.impls.deep_view()[i]
                == spec_trait_impl(
                name@,
                generics.deep_view(),
                bounds.deep_view(),
                spec_names_of_pairs(pairs.deep_view()),
                false,
                blocks.traits.deep_view()[i],
            ),
        r.impls.deep_view()[blocks.traits.deep_view().len() as int] == spec_inherent_impl(
            name@,
            generics.deep_view(),
            bounds.deep_view(),
            spec_names_of_pairs(pairs.deep_view()),
            false,
            blocks.inherent.deep_view(),
        ),
{
    let enum_decl = EnumDecl {
        attrs: clone_strings(attrs),
        vis: clone_string(vis),
        name: clone_string(name),
        generics: clone_strings(generics),
        bounds: clone_strings(bounds),
        arms: arms_of_pairs(pairs),
    };
    let conversions = enum_variants_convert(name, generics, bounds, pairs);
    let variants = names_of_pairs(pairs);
    let impls = enum_delegate_impls(name, generics, bounds, &variants, blocks);
    Composition { enum_decl, conversions, impls }
}

} // verus!
