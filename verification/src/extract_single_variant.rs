//! The single-variant extractor: turns one variant description into zero or
//! one standalone type declaration.
//!
//! A tuple payload becomes a tuple-like type with one public field per listed
//! type, in order; a record payload becomes a record-like type with one public
//! field per name/type pair; a unit payload becomes a zero-field marker type
//! that carries attributes only (no generics and no bounds, since it holds no
//! data).  A variant with the skip marker emits nothing: the caller supplies
//! that type externally.  The shared attribute set precedes the variant's own
//! attributes on every generated type.
use vstd::prelude::*;
use crate::ast::{
    clone_shape, clone_string, clone_strings, Shape, SpecTypeDecl, SpecVariant, TypeDecl,
    VariantSpec,
};

verus! {

/// What the extractor emits for one variant description.
pub open spec fn spec_extract_single(
    shared: Seq<Seq<char>>,
    vis: Seq<char>,
    v: SpecVariant,
) -> Option<SpecTypeDecl> {
    if v.skip {
        None
    } else {
        Some(
            SpecTypeDecl {
                attrs: shared + v.attrs,
                vis: vis,
                name: v.name,
                generics: if v.shape is Unit {
                    Seq::empty()
                } else {
                    v.generics
                },
                shape: v.shape,
                bounds: if v.shape is Unit {
                    Seq::empty()
                } else {
                    v.bounds
                },
            },
        )
    }
}

/// Extracts one variant into a standalone type declaration, or nothing when
/// the variant carries the skip marker.
pub fn extract_single_variant(shared: &Vec<String>, vis: &String, v: &VariantSpec) -> (r: Option<
    TypeDecl,
>)
    ensures
        r.deep_view() == spec_extract_single(shared.deep_view(), vis@, v.deep_view()),
{
    if v.skip {
        return None;
    }
    let mut attrs = clone_strings(shared);
    let mut own = clone_strings(&v.attrs);
    attrs.append(&mut own);
    proof {
        assert(attrs.deep_view() =~= shared.deep_view() + v.attrs.deep_view());
    }
    let decl = match &v.shape {
        Shape::Unit => {
            let empty_generics: Vec<String> = Vec::new();
            let empty_bounds: Vec<String> = Vec::new();
            proof {
                assert(empty_generics.deep_view() =~= Seq::<Seq<char>>::empty());
                assert(empty_bounds.deep_view() =~= Seq::<Seq<char>>::empty());
            }
            TypeDecl {
                attrs,
                vis: clone_string(vis),
                name: clone_string(&v.name),
                generics: empty_generics,
                shape: Shape::Unit,
                bounds: empty_bounds,
            }
        },
        _ => TypeDecl {
            attrs,
            vis: clone_string(vis),
            name: clone_string(&v.name),
            generics: clone_strings(&v.generics),
            shape: clone_shape(&v.shape),
            bounds: clone_strings(&v.bounds),
        },
    };
    Some(decl)
}

} // verus!
