//! The variant-set extractor: applies the single-variant extractor across all
//! variants of a described enum, in declaration order.
//!
//! The enum's own attributes are parsed but discarded here — they apply only
//! to an actually declared enum, which other stages handle.  The enum's
//! visibility is forwarded to every generated variant type, and declaration
//! order is preserved: later stages rely on identical ordering to pair
//! variants with their payload types positionally.
use vstd::prelude::*;
use crate::ast::{enum_wf, EnumSpec, SpecEnum, SpecTypeDecl, SpecVariant, TypeDecl};
use crate::extract_single_variant::{extract_single_variant, spec_extract_single};

verus! {

/// The declarations emitted for a variant list, in order: one per variant
/// that does not carry the skip marker.
pub open spec fn spec_extract_variants(
    shared: Seq<Seq<char>>,
    vis: Seq<char>,
    vs: Seq<SpecVariant>,
) -> Seq<SpecTypeDecl>
    decreases vs.len(),
{
    if vs.len() == 0 {
        Seq::empty()
    } else {
        let head = match spec_extract_single(shared, vis, vs[0]) {
            Some(d) => seq![d],
            None => Seq::empty(),
        };
        head + spec_extract_variants(shared, vis, vs.drop_first())
    }
}

/// Extending the variant list by one variant extends the emitted declarations
/// by whatever the single-variant extractor emits for it.
pub proof fn lemma_extract_variants_snoc(
    shared: Seq<Seq<char>>,
    vis: Seq<char>,
    vs: Seq<SpecVariant>,
    x: SpecVariant,
)
    ensures
        spec_extract_variants(shared, vis, vs.push(x)) == spec_extract_variants(shared, vis, vs)
            + (match spec_extract_single(shared, vis, x) {
            Some(d) => seq![d],
            None => Seq::<SpecTypeDecl>::empty(),
        }),
    decreases vs.len(),
{
    let tail = match spec_extract_single(shared, vis, x) {
        Some(d) => seq![d],
        None => Seq::<SpecTypeDecl>::empty(),
    };
    if vs.len() == 0 {
        assert(vs.push(x)[0] == x);
        assert(vs.push(x).drop_first() =~= Seq::<SpecVariant>::empty());
        assert(vs =~= Seq::<SpecVariant>::empty());
        assert(spec_extract_variants(shared, vis, Seq::<SpecVariant>::empty())
            == Seq::<SpecTypeDecl>::empty());
        assert(spec_extract_variants(shared, vis, vs.push(x)) =~= tail);
        assert(spec_extract_variants(shared, vis, vs) + tail =~= tail);
    } else {
        assert(vs.push(x)[0] == vs[0]);
        assert(vs.push(x).drop_first() =~= vs.drop_first().push(x));
        lemma_extract_variants_snoc(shared, vis, vs.drop_first(), x);
        let head = match spec_extract_single(shared, vis, vs[0]) {
            Some(d) => seq![d],
            None => Seq::<SpecTypeDecl>::empty(),
        };
        assert(head + (spec_extract_variants(shared, vis, vs.drop_first()) + tail) =~= (head
            + spec_extract_variants(shared, vis, vs.drop_first())) + tail);
    }
}

/// With no skip markers, extraction is one-to-one and order-preserving: one
/// declaration per variant, the i-th named after the i-th variant.
pub proof fn lemma_extract_names(shared: Seq<Seq<char>>, vis: Seq<char>, vs: Seq<SpecVariant>)
    requires
        forall|i: int| 0 <= i < vs.len() ==> !(#[trigger] vs[i]).skip,
    ensures
        spec_extract_variants(shared, vis, vs).len() == vs.len(),
        forall|i: int|
            0 <= i < vs.len() ==> (#[trigger] spec_extract_variants(shared, vis, vs)[i]).name
                == vs[i].name,
    decreases vs.len(),
{
    if vs.len() > 0 {
        lemma_extract_names(shared, vis, vs.drop_first());
        let head = spec_extract_single(shared, vis, vs[0]);
        assert(head is Some);
        let out = spec_extract_variants(shared, vis, vs);
        let rest = spec_extract_variants(shared, vis, vs.drop_first());
        assert(out == seq![head.unwrap()] + rest);
        assert forall|i: int| 0 <= i < vs.len() implies (#[trigger] out[i]).name
            == vs[i].name by {
            if i == 0 {
                assert(out[0] == head.unwrap());
            } else {
                assert(out[i] == rest[i - 1]);
                assert(vs.drop_first()[i - 1] == vs[i]);
            }
        }
    }
}

/// A well-formed enum description without skip markers extracts to type
/// declarations with pairwise-distinct names, so the expansion's standalone
/// types never collide.
pub proof fn lemma_extract_distinct_names(shared: Seq<Seq<char>>, vis: Seq<char>, e: SpecEnum)
    requires
        enum_wf(e),
        forall|i: int| 0 <= i < e.variants.len() ==> !(#[trigger] e.variants[i]).skip,
    ensures
        forall|i: int, j: int|
            0 <= i < j < spec_extract_variants(shared, vis, e.variants).len()
                ==> (#[trigger] spec_extract_variants(shared, vis, e.variants)[i]).name != (
            #[trigger] spec_extract_variants(shared, vis, e.variants)[j]).name,
{
    lemma_extract_names(shared, vis, e.variants);
    assert forall|i: int, j: int|
        0 <= i < j < spec_extract_variants(shared, vis, e.variants).len() implies (
    #[trigger] spec_extract_variants(shared, vis, e.variants)[i]).name != (
    #[trigger] spec_extract_variants(shared, vis, e.variants)[j]).name by {
        assert(crate::ast::variant_names(e.variants)[i] == e.variants[i].name);
        assert(crate::ast::variant_names(e.variants)[j] == e.variants[j].name);
    }
}

/// Extracts every variant of the described enum, in declaration order.
pub fn extract_variants(shared: &Vec<String>, spec: &EnumSpec) -> (r: Vec<TypeDecl>)
    ensures
        r.deep_view() == spec_extract_variants(
            shared.deep_view(),
            spec.vis@,
            spec.variants.deep_view(),
        ),
{
    let mut out: Vec<TypeDecl> = Vec::new();
    let n = spec.variants.len();
    let mut i: usize = 0;
    while i < n
        invariant
            n == spec.variants.len(),
            0 <= i <= n,
            out.deep_view() == spec_extract_variants(
                shared.deep_view(),
                spec.vis@,
                spec.variants.deep_view().take(i as int),
            ),
        decreases n - i,
    {
        let ghost prev = out.deep_view();
        let ghost vs = spec.variants.deep_view();
        match extract_single_variant(shared, &spec.vis, &spec.variants[i]) {
            Some(d) => {
                out.push(d);
                proof {
                    assert(out.deep_view() =~= prev + seq![
                        spec_extract_single(shared.deep_view(), spec.vis@, vs[i as int]).unwrap(),
                    ]);
                }
            },
            None => {
                proof {
                    assert(out.deep_view() =~= prev + Seq::<SpecTypeDecl>::empty());
                }
            },
        }
        proof {
            lemma_extract_variants_snoc(
                shared.deep_view(),
                spec.vis@,
                vs.take(i as int),
                vs[i as int],
            );
            assert(vs.take(i as int).push(vs[i as int]) =~= vs.take(i as int + 1));
        }
        i = i + 1;
    }
    proof {
        assert(spec.variants.deep_view().take(n as int) =~= spec.variants.deep_view());
    }
    out
}

} // verus!
