//! The composer that extracts all variants of a described enum *and* declares
//! a fresh enum wrapping the extracted types: each arm of the declared enum
//! holds the standalone type of the same name (instantiated over the
//! variant's own generics), and the two-way conversions between the enum and
//! every payload type are wired in the same invocation.
//!
//! A skipped variant still gets its enum arm and its conversions — the skip
//! marker only suppresses the standalone type declaration, for wrapping a
//! pre-existing type instead of generating one.
use vstd::prelude::*;
use crate::ast::{
    arms_of_pairs, clone_string, clone_strings, join, spec_arms_of_pairs, spec_join, EnumDecl,
    EnumSpec, SpecEnumDecl, SpecVariant, SpecVariantTy, TypeDecl, VariantSpec, VariantTy,
};
use crate::enum_delegate_impls::{
    enum_delegate_impls, spec_inherent_impl, spec_trait_impl, DelegateBlocks, ImplDecl,
};
use crate::enum_variants_convert::{enum_variants_convert, spec_convert_impls, ConvertImpls};
use crate::extract_variants::{extract_variants, spec_extract_variants};
use vstd::string::StringExecFns;

verus! {

/// The type a variant's arm wraps: the standalone type of the same name,
/// instantiated over the variant's own generics when it has any.
pub open spec fn spec_self_ty(v: SpecVariant) -> Seq<char> {
    if v.generics.len() == 0 {
        v.name
    } else {
        v.name + "<"@ + spec_join(v.generics, ", "@) + ">"@
    }
}

/// The (variant, wrapped type) pairs the composer threads to the enum
/// declaration and the conversion generator, in declaration order.
pub open spec fn spec_pairs_of_variants(vs: Seq<SpecVariant>) -> Seq<SpecVariantTy> {
    vs.map_values(|v: SpecVariant| SpecVariantTy { name: v.name, ty: spec_self_ty(v) })
}

/// Renders the wrapped type of one variant.
fn self_ty(v: &VariantSpec) -> (r: String)
    ensures
        r@ == spec_self_ty(v.deep_view()),
{
    if v.generics.len() == 0 {
        clone_string(&v.name)
    } else {
        let mut out = clone_string(&v.name);
        out.append("<");
        let g = join(&v.generics, ", ");
        out.append(g.as_str());
        out.append(">");
        out
    }
}

/// Builds the (variant, wrapped type) pair list of a variant list.
pub fn pairs_of_variants(vs: &Vec<VariantSpec>) -> (r: Vec<VariantTy>)
    ensures
        r.deep_view() == spec_pairs_of_variants(vs.deep_view()),
{
    let mut out: Vec<VariantTy> = Vec::new();
    let n = vs.len();
    let mut i: usize = 0;
    while i < n
        invariant
            n == vs.len(),
            0 <= i <= n,
            out.deep_view().len() == i as int,
            forall|j: int|
                0 <= j < i as int ==> out.deep_view()[j] == (SpecVariantTy {
                    name: vs.deep_view()[j].name,
                    ty: spec_self_ty(vs.deep_view()[j]),
                }),
        decreases n - i,
    {
        let ghost prev = out.deep_view();
        let p = VariantTy { name: clone_string(&vs[i].name), ty: self_ty(&vs[i]) };
        out.push(p);
        proof {
            assert(out.deep_view() =~= prev.push(
                SpecVariantTy {
                    name: vs.deep_view()[i as int].name,
                    ty: spec_self_ty(vs.deep_view()[i as int]),
                },
            ));
        }
        i = i + 1;
    }
    proof {
        assert(out.deep_view() =~= spec_pairs_of_variants(vs.deep_view()));
    }
    out
}

/// What the extracting composer emits besides delegation: the standalone
/// variant types, the fresh enum declaration, and the conversions.
#[derive(Debug, Clone, PartialEq, Eq)]
pub struct ExtractedEnum {
    pub types: Vec<TypeDecl>,
    pub enum_decl: EnumDecl,
    pub conversions: Vec<ConvertImpls>,
}

/// The enum declaration this composer emits: the described enum, each arm
/// wrapping the standalone type of the same name.
pub open spec fn spec_extracted_enum_decl(e: crate::ast::SpecEnum) -> SpecEnumDecl {
    SpecEnumDecl {
        attrs: e.attrs,
        vis: e.vis,
        name: e.name,
        generics: e.generics,
        bounds: e.bounds,
        arms: spec_arms_of_pairs(spec_pairs_of_variants(e.variants)),
    }
}

/// Extracts the variant types and declares the wrapping enum with its
/// conversions, in that fixed order, over one captured variant list.
pub fn extract_variants_into_enum(shared: &Vec<String>, spec: &EnumSpec) -> (r: ExtractedEnum)
    ensures
        r.types.deep_view() == spec_extract_variants(
            shared.deep_view(),
            spec.vis@,
            spec.variants.deep_view(),
        ),
        r.enum_decl.deep_view() == spec_extracted_enum_decl(spec.deep_view()),
        r.conversions.deep_view().len() == spec.variants.deep_view().len(),
        forall|i: int|
            0 <= i < spec.variants.deep_view().len() ==> r.conversions.deep_view()[i]
                == spec_convert_impls(
                spec.name@,
                spec.generics.deep_view(),
                spec.bounds.deep_view(),
                spec_pairs_of_variants(spec.variants.deep_view())[i],
            ),
{
    let types = extract_variants(shared, spec);
    let pairs = pairs_of_variants(&spec.variants);
    let enum_decl = EnumDecl {
        attrs: clone_strings(&spec.attrs),
        vis: clone_string(&spec.vis),
        name: clone_string(&spec.name),
        generics: clone_strings(&spec.generics),
        bounds: clone_strings(&spec.bounds),
        arms: arms_of_pairs(&pairs),
    };
    let conversions = enum_variants_convert(&spec.name, &spec.generics, &spec.bounds, &pairs);
    ExtractedEnum { types, enum_decl, conversions }
}

/// The extracting composer with delegation: everything the plain form emits,
/// plus the delegation impls over the same captured variant list.
pub fn extract_variants_into_enum_delegated(
    shared: &Vec<String>,
    spec: &EnumSpec,
    blocks: &DelegateBlocks,
) -> (r: (ExtractedEnum, Vec<ImplDecl>))
    ensures
        r.0.types.deep_view() == spec_extract_variants(
            shared.deep_view(),
            spec.vis@,
            spec.variants.deep_view(),
        ),
        r.0.enum_decl.deep_view() == spec_extracted_enum_decl(spec.deep_view()),
        r.0.conversions.deep_view().len() == spec.variants.deep_view().len(),
        forall|i: int|
            0 <= i < spec.variants.deep_view().len() ==> r.0.conversions.deep_view()[i]
                == spec_convert_impls(
                spec.name@,
                spec.generics.deep_view(),
                spec.bounds.deep_view(),
                spec_pairs_of_variants(spec.variants.deep_view())[i],
            ),
        r.1.deep_view().len() == blocks.traits.deep_view().len() + 1,
        forall|i: int|
            0 <= i < blocks.traits.deep_view().len() ==> r.1.deep_view()[i] == spec_trait_impl(
                spec.name@,
                spec.generics.deep_view(),
                spec.bounds.deep_view(),
                crate::ast::variant_names(spec.variants.deep_view()),
                false,
                blocks.traits.deep_view()[i],
            ),
        r.1.deep_view()[blocks.traits.deep_view().len() as int] == spec_inherent_impl(
            spec.name@,
            spec.generics.deep_view(),
            spec.bounds.deep_view(),
            crate::ast::variant_names(spec.variants.deep_view()),
            false,
            blocks.inherent.deep_view(),
        ),
{
    let base = extract_variants_into_enum(shared, spec);
    let mut variants: Vec<String> = Vec::new();
    let n = spec.variants.len();
    let mut i: usize = 0;
    while i < n
        invariant
            n == spec.variants.len(),
            0 <= i <= n,
            variants.deep_view().len() == i as int,
            forall|j: int|
                0 <= j < i as int ==> variants.deep_view()[j] == spec.variants.deep_view()[j].name,
        decreases n - i,
    {
        let ghost prev = variants.deep_view();
        variants.push(clone_string(&spec.variants[i].name));
        proof {
            assert(variants.deep_view() =~= prev.push(spec.variants.deep_view()[i as int].name));
        }
        i = i + 1;
    }
    proof {
        assert(variants.deep_view() =~= crate::ast::variant_names(spec.variants.deep_view()));
    }
    let impls = enum_delegate_impls(&spec.name, &spec.generics, &spec.bounds, &variants, blocks);
    (base, impls)
}

} // verus!
