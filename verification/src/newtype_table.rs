//! The newtype table composer: given ordered (variant, payload type) pairs it
//! extracts one newtype per variant (a tuple type wrapping the payload),
//! declares the enum whose arms hold the raw payload types, and generates the
//! heterogeneous table keyed by the newtype markers, each slot storing the
//! raw payload type in a snake-cased field.
use vstd::prelude::*;
use crate::ast::{
    arms_of_pairs, clone_string, clone_strings, names_of_pairs, spec_arms_of_pairs,
    spec_names_of_pairs, EnumDecl, SpecEnumDecl, SpecVariant, SpecVariantTy, TypeDecl, VariantSpec,
    VariantTy, Shape, SpecShape,
};
use crate::enum_delegate_impls::{
    enum_delegate_impls, spec_inherent_impl, spec_trait_impl, DelegateBlocks, ImplDecl,
};
use crate::extract_variants::spec_extract_variants;
use crate::extract_single_variant::{extract_single_variant, spec_extract_single};
use crate::type_table::{idents_ok, spec_table_slots, type_table, TypeTableDecl};

verus! {

/// The variant descriptions the composer hands to the extractor: one
/// attribute-less tuple variant per pair, wrapping exactly the pair's type.
pub open spec fn spec_newtype_variants(pairs: Seq<SpecVariantTy>) -> Seq<SpecVariant> {
    pairs.map_values(
        |p: SpecVariantTy| SpecVariant {
            attrs: Seq::empty(),
            skip: false,
            name: p.name,
            generics: Seq::empty(),
            shape: SpecShape::Tuple(seq![p.ty]),
            bounds: Seq::empty(),
        },
    )
}

/// Builds the newtype variant descriptions of a pair list.
pub fn newtype_variants(pairs: &Vec<VariantTy>) -> (r: Vec<VariantSpec>)
    ensures
        r.deep_view() == spec_newtype_variants(pairs.deep_view()),
{
    let mut out: Vec<VariantSpec> = Vec::new();
    let n = pairs.len();
    let mut i: usize = 0;
    while i < n
        invariant
            n == pairs.len(),
            0 <= i <= n,
            out.deep_view().len() == i as int,
            forall|j: int|
                0 <= j < i as int ==> out.deep_view()[j] == (SpecVariant {
                    attrs: Seq::empty(),
                    skip: false,
                    name: pairs.deep_view()[j].name,
                    generics: Seq::empty(),
                    shape: SpecShape::Tuple(seq![pairs.deep_view()[j].ty]),
                    bounds: Seq::empty(),
                }),
        decreases n - i,
    {
        let ghost prev = out.deep_view();
        let empty_attrs: Vec<String> = Vec::new();
        let empty_generics: Vec<String> = Vec::new();
        let empty_bounds: Vec<String> = Vec::new();
        let mut tys: Vec<String> = Vec::new();
        tys.push(clone_string(&pairs[i].ty));
        proof {
            assert(empty_attrs.deep_view() =~= Seq::<Seq<char>>::empty());
            assert(empty_generics.deep_view() =~= Seq::<Seq<char>>::empty());
            assert(empty_bounds.deep_view() =~= Seq::<Seq<char>>::empty());
            assert(tys.deep_view() =~= seq![pairs.deep_view()[i as int].ty]);
        }
        let v = VariantSpec {
            attrs: empty_attrs,
            skip: false,
            name: clone_string(&pairs[i].name),
            generics: empty_generics,
            shape: Shape::Tuple(tys),
            bounds: empty_bounds,
        };
        out.push(v);
        proof {
            assert(out.deep_view() =~= prev.push(
                SpecVariant {
                    attrs: Seq::empty(),
                    skip: false,
                    name: pairs.deep_view()[i as int].name,
                    generics: Seq::empty(),
                    shape: SpecShape::Tuple(seq![pairs.deep_view()[i as int].ty]),
                    bounds: Seq::empty(),
                },
            ));
        }
        i = i + 1;
    }
    proof {
        assert(out.deep_view() =~= spec_newtype_variants(pairs.deep_view()));
    }
    out
}

/// Everything one newtype table invocation emits besides delegation.
#[derive(Debug, Clone, PartialEq, Eq)]
pub struct NewtypeTableOut {
    pub types: Vec<TypeDecl>,
    pub enum_decl: EnumDecl,
    pub table: TypeTableDecl,
}

/// Extracts the newtypes, declares the enum over the raw payload types, and
/// generates the table keyed by the newtype markers, in that fixed order.
pub fn newtype_table(
    shared: &Vec<String>,
    enum_attrs: &Vec<String>,
    vis: &String,
    enum_name: &String,
    pairs: &Vec<VariantTy>,
    table_attrs: &Vec<String>,
    table_name: &String,
) -> (r: NewtypeTableOut)
    requires
        idents_ok(pairs.deep_view()),
    ensures
        r.types.deep_view() == spec_extract_variants(
            shared.deep_view(),
            vis@,
            spec_newtype_variants(pairs.deep_view()),
        ),
        r.enum_decl.deep_view() == (SpecEnumDecl {
            attrs: enum_attrs.deep_view(),
            vis: vis@,
            name: enum_name@,
            generics: Seq::empty(),
            bounds: Seq::empty(),
            arms: spec_arms_of_pairs(pairs.deep_view()),
        }),
        r.table.attrs.deep_view() == table_attrs.deep_view(),
        r.table.vis@ == vis@,
        r.table.name@ == table_name@,
        r.table.enum_name@ == enum_name@,
        r.table.slots.deep_view() == spec_table_slots(pairs.deep_view()),
        r.table.length as int == pairs.deep_view().len(),
{
    let variants = newtype_variants(pairs);
    let mut types: Vec<TypeDecl> = Vec::new();
    let n = variants.len();
    let mut i: usize = 0;
    while i < n
        invariant
            n == variants.len(),
            0 <= i <= n,
            types.deep_view() == spec_extract_variants(
                shared.deep_view(),
                vis@,
                variants.deep_view().take(i as int),
            ),
        decreases n - i,
    {
        let ghost prev = types.deep_view();
        let ghost vs = variants.deep_view();
        match extract_single_variant(shared, vis, &variants[i]) {
            Some(d) => {
                types.push(d);
                proof {
                    assert(types.deep_view() =~= prev + seq![
                        spec_extract_single(shared.deep_view(), vis@, vs[i as int]).unwrap(),
                    ]);
                }
            },
            None => {
                proof {
                    assert(types.deep_view() =~= prev + Seq::<
                        crate::ast::SpecTypeDecl,
                    >::empty());
                }
            },
        }
        proof {
            crate::extract_variants::lemma_extract_variants_snoc(
                shared.deep_view(),
                vis@,
                vs.take(i as int),
                vs[i as int],
            );
            assert(vs.take(i as int).push(vs[i as int]) =~= vs.take(i as int + 1));
        }
        i = i + 1;
    }
    proof {
        assert(variants.deep_view().take(n as int) =~= variants.deep_view());
    }
    let empty_generics: Vec<String> = Vec::new();
    let empty_bounds: Vec<String> = Vec::new();
    proof {
        assert(empty_generics.deep_view() =~= Seq::<Seq<char>>::empty());
        assert(empty_bounds.deep_view() =~= Seq::<Seq<char>>::empty());
    }
    let enum_decl = EnumDecl {
        attrs: clone_strings(enum_attrs),
        vis: clone_string(vis),
        name: clone_string(enum_name),
        generics: empty_generics,
        bounds: empty_bounds,
        arms: arms_of_pairs(pairs),
    };
    let table = type_table(table_attrs, vis, table_name, enum_name, pairs);
    NewtypeTableOut { types, enum_decl, table }
}

/// The newtype table composer with delegation: everything the plain form
/// emits, plus the delegation impls over the same captured variant list.
pub fn newtype_table_delegated(
    shared: &Vec<String>,
    enum_attrs: &Vec<String>,
    vis: &String,
    enum_name: &String,
    pairs: &Vec<VariantTy>,
    table_attrs: &Vec<String>,
    table_name: &String,
    blocks: &DelegateBlocks,
) -> (r: (NewtypeTableOut, Vec<ImplDecl>))
    requires
        idents_ok(pairs.deep_view()),
    ensures
        r.0.types.deep_view() == spec_extract_variants(
            shared.deep_view(),
            vis@,
            spec_newtype_variants(pairs.deep_view()),
        ),
        r.0.enum_decl.deep_view() == (SpecEnumDecl {
            attrs: enum_attrs.deep_view(),
            vis: vis@,
            name: enum_name@,
            generics: Seq::empty(),
            bounds: Seq::empty(),
            arms: spec_arms_of_pairs(pairs.deep_view()),
        }),
        r.0.table.slots.deep_view() == spec_table_slots(pairs.deep_view()),
        r.0.table.length as int == pairs.deep_view().len(),
        r.1.deep_view().len() == blocks.traits.deep_view().len() + 1,
        forall|i: int|
            0 <= i < blocks.traits.deep_view().len() ==> r.1.deep_view()[i] == spec_trait_impl(
                enum_name@,
                Seq::empty(),
                Seq::empty(),
                spec_names_of_pairs(pairs.deep_view()),
                false,
                blocks.traits.deep_view()[i],
            ),
        r.1.deep_view()[blocks.traits.deep_view().len() as int] == spec_inherent_impl(
            enum_name@,
            Seq::empty(),
            Seq::empty(),
            spec_names_of_pairs(pairs.deep_view()),
            false,
            blocks.inherent.deep_view(),
        ),
{
    let base = newtype_table(shared, enum_attrs, vis, enum_name, pairs, table_attrs, table_name);
    let variants = names_of_pairs(pairs);
    let empty_generics: Vec<String> = Vec::new();
    let empty_bounds: Vec<String> = Vec::new();
    proof {
        assert(empty_generics.deep_view() =~= Seq::<Seq<char>>::empty());
        assert(empty_bounds.deep_view() =~= Seq::<Seq<char>>::empty());
    }
    let impls = enum_delegate_impls(enum_name, &empty_generics, &empty_bounds, &variants, blocks);
    (base, impls)
}

} // verus!
