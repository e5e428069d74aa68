//! The composer for payload-less enums: declare the unit enum, wire its
//! marker conversions and probe methods, and wire its delegation, in one
//! step — the same fixed-order composition as the payload composer, with the
//! unit specializations of its stages.
use vstd::prelude::*;
use crate::ast::{clone_string, clone_strings, spec_unit_arms, unit_arms, EnumDecl, SpecEnumDecl};
use crate::enum_delegate_impls::{spec_inherent_impl, spec_trait_impl, DelegateBlocks, ImplDecl};
use crate::unit_enum_delegate_impls::unit_enum_delegate_impls;
use crate::unit_enum_variants_convert::{
    unit_enum_variants_convert, SpecUnitConvertImpls, UnitConvertOut,
};

verus! {

/// Everything one composed unit-enum invocation emits.
#[derive(Debug, Clone, PartialEq, Eq)]
pub struct UnitComposition {
    pub enum_decl: EnumDecl,
    pub conversions: UnitConvertOut,
    pub impls: Vec<ImplDecl>,
}

/// The declaration a unit-enum invocation emits: one payload-less arm per
/// variant, in order; a unit enum carries no generics and no bounds.
pub open spec fn spec_unit_enum_decl(
    attrs: Seq<Seq<char>>,
    vis: Seq<char>,
    name: Seq<char>,
    variants: Seq<Seq<char>>,
) -> SpecEnumDecl {
    SpecEnumDecl {
        attrs,
        vis,
        name,
        generics: Seq::empty(),
        bounds: Seq::empty(),
        arms: spec_unit_arms(variants),
    }
}

/// Declares the unit enum and generates its conversions, probe methods and
/// delegation impls, in that fixed order, over one captured variant list.
pub fn unit_enum_delegated(
    attrs: &Vec<String>,
    vis: &String,
    name: &String,
    variants: &Vec<String>,
    blocks: &DelegateBlocks,
) -> (r: UnitComposition)
    ensures
        r.enum_decl.deep_view() == spec_unit_enum_decl(
            attrs.deep_view(),
            vis@,
            name@,
            variants.deep_view(),
        ),
        r.conversions.probes.enum_name@ == name@,
        r.conversions.impls.deep_view().len() == variants.deep_view().len(),
        forall|i: int|
            0 <= i < variants.deep_view().len() ==> r.conversions.impls.deep_view()[i]
                == (SpecUnitConvertImpls { enum_name: name@, variant: variants.deep_view()[i] }),
        r.impls.deep_view().len() == blocks.traits.deep_view().len() + 1,
        forall|i: int|
            0 <= i < blocks.traits.deep_view().len() ==> r.impls.deep_view()[i]
                == spec_trait_impl(
                name@,
                Seq::empty(),
                Seq::empty(),
                variants.deep_view(),
                true,
                blocks.traits.deep_view()[i],
            ),
        r.impls.deep_view()[blocks.traits.deep_view().len() as int] == spec_inherent_impl(
            name@,
            Seq::empty(),
            Seq::empty(),
            variants.deep_view(),
            true,
            blocks.inherent.deep_view(),
        ),
{
    let empty_generics: Vec<String> = Vec::new();
    let empty_bounds: Vec<String> = Vec::new();
    proof {
        assert(empty_generics.deep_view() =~= Seq::<Seq<char>>::empty());
        assert(empty_bounds.deep_view() =~= Seq::<Seq<char>>::empty());
    }
    let enum_decl = EnumDecl {
        attrs: clone_strings(attrs),
        vis: clone_string(vis),
        name: clone_string(name),
        generics: empty_generics,
        bounds: empty_bounds,
        arms: unit_arms(variants),
    };
    let conversions = unit_enum_variants_convert(name, variants);
    let impls = unit_enum_delegate_impls(name, variants, blocks);
    UnitComposition { enum_decl, conversions, impls }
}

} // verus!
