//! The delegate-impl generator restricted to payload-less variants.
//!
//! The classification, the arm list and the error path are exactly those of
//! the payload generator; the one difference is marker mode: each generated
//! arm has no payload to bind, so it instantiates the variant's zero-sized
//! marker type on demand and makes the call on that fresh value.  This
//! entry point takes no generics or bounds: a payload-less enum is described
//! by its identifier and variant list alone.
use vstd::prelude::*;
use crate::enum_delegate_impls::{
    delegate_impls_core, spec_inherent_impl, spec_trait_impl, DelegateBlocks, ImplDecl,
};

verus! {

/// Generates every delegation impl for a payload-less enum: one impl per
/// trait template, in order, then exactly one inherent impl, every wrapper in
/// marker mode over the captured variant list.
pub fn unit_enum_delegate_impls(
    enum_name: &String,
    variants: &Vec<String>,
    blocks: &DelegateBlocks,
) -> (r: Vec<ImplDecl>)
    ensures
        r.deep_view().len() == blocks.traits.deep_view().len() + 1,
        forall|i: int|
            0 <= i < blocks.traits.deep_view().len() ==> r.deep_view()[i] == spec_trait_impl(
                enum_name@,
                Seq::empty(),
                Seq::empty(),
                variants.deep_view(),
                true,
                blocks.traits.deep_view()[i],
            ),
        r.deep_view()[blocks.traits.deep_view().len() as int] == spec_inherent_impl(
            enum_name@,
            Seq::empty(),
            Seq::empty(),
            variants.deep_view(),
            true,
            blocks.inherent.deep_view(),
        ),
{
    let empty: Vec<String> = Vec::new();
    proof {
        assert(empty.deep_view() =~= Seq::<Seq<char>>::empty());
    }
    delegate_impls_core(enum_name, &empty, &empty, variants, true, blocks)
}

} // verus!
