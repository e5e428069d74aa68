//! The conversion generator: for a fixed enum and its ordered
//! (variant, payload type) pairs it emits, per pair, the two-way conversion
//! impls — wrap the payload into the named arm (total), try to unwrap the
//! payload back out of the enum (partial: on failure the *original* enum value
//! is returned unchanged, so the caller loses nothing) — plus the owned,
//! borrowed and mutably borrowed extraction impls behind the `FromEnum`
//! family of traits.
//!
//! The enum's generics and bounds are tokenized once and re-supplied
//! unchanged to every per-variant impl.  Pairwise-distinct payload types are
//! a caller precondition: with duplicated payload types the reverse
//! conversion is ambiguous, which this generator cannot detect (the host
//! compiler rejects the overlapping impls downstream).
//!
//! The second half of this module is the runtime model of the generated
//! code: an enum value is a variant index (in declaration order) together
//! with the payload it holds, and the conversion bodies are modelled exactly.
//! The round-trip laws are stated and proved over that model.
use vstd::prelude::*;
use crate::ast::{clone_string, clone_strings, SpecVariantTy, VariantTy};

verus! {

// ------------------------------------------------------------------
// Generation
// ------------------------------------------------------------------
/// The conversions generated for one variant: this one record stands for the
/// five impls the generator emits for the pair `(variant, payload_ty)` —
/// `From<payload_ty>` wrapping into the arm `variant`; `TryFrom<Enum>` with
/// the enum itself as error type, returning the payload when `variant` is the
/// held arm and the whole original value otherwise; and the owned, borrowed
/// and mutably borrowed `FromEnum` extraction impls with the same match.
/// Every impl carries the enum's generics and bounds unchanged.
#[derive(Debug, Clone, PartialEq, Eq)]
pub struct ConvertImpls {
    pub enum_name: String,
    pub enum_generics: Vec<String>,
    pub enum_bounds: Vec<String>,
    pub variant: String,
    pub payload_ty: String,
}

pub struct SpecConvertImpls {
    pub enum_name: Seq<char>,
    pub enum_generics: Seq<Seq<char>>,
    pub enum_bounds: Seq<Seq<char>>,
    pub variant: Seq<char>,
    pub payload_ty: Seq<char>,
}

impl DeepView for ConvertImpls {
    type V = SpecConvertImpls;

    open spec fn deep_view(&self) -> SpecConvertImpls {
        SpecConvertImpls {
            enum_name: self.enum_name@,
            enum_generics: self.enum_generics.deep_view(),
            enum_bounds: self.enum_bounds.deep_view(),
            variant: self.variant@,
            payload_ty: self.payload_ty@,
        }
    }
}

/// What the generator emits for one (variant, payload type) pair.
pub open spec fn spec_convert_impls(
    enum_name: Seq<char>,
    enum_generics: Seq<Seq<char>>,
    enum_bounds: Seq<Seq<char>>,
    v: SpecVariantTy,
) -> SpecConvertImpls {
    SpecConvertImpls {
        enum_name: enum_name,
        enum_generics: enum_generics,
        enum_bounds: enum_bounds,
        variant: v.name,
        payload_ty: v.ty,
    }
}

/// Emits the conversion impls for every (variant, payload type) pair, in
/// declaration order, re-supplying the enum's generics and bounds unchanged
/// to each.
pub fn enum_variants_convert(
    enum_name: &String,
    enum_generics: &Vec<String>,
    enum_bounds: &Vec<String>,
    pairs: &Vec<VariantTy>,
) -> (r: Vec<ConvertImpls>)
    ensures
        r.deep_view().len() == pairs.deep_view().len(),
        forall|i: int|
            0 <= i < pairs.deep_view().len() ==> r.deep_view()[i] == spec_convert_impls(
                enum_name@,
                enum_generics.deep_view(),
                enum_bounds.deep_view(),
                pairs.deep_view()[i],
            ),
{
    let mut out: Vec<ConvertImpls> = Vec::new();
    let n = pairs.len();
    let mut i: usize = 0;
    while i < n
        invariant
            n == pairs.len(),
            0 <= i <= n,
            out.deep_view().len() == i as int,
            forall|j: int|
                0 <= j < i as int ==> out.deep_view()[j] == spec_convert_impls(
                    enum_name@,
                    enum_generics.deep_view(),
                    enum_bounds.deep_view(),
                    pairs.deep_view()[j],
                ),
        decreases n - i,
    {
        let c = ConvertImpls {
            enum_name: clone_string(enum_name),
            enum_generics: clone_strings(enum_generics),
            enum_bounds: clone_strings(enum_bounds),
            variant: clone_string(&pairs[i].name),
            payload_ty: clone_string(&pairs[i].ty),
        };
        let ghost prev = out.deep_view();
        out.push(c);
        proof {
            assert(out.deep_view() =~= prev.push(
                spec_convert_impls(
                    enum_name@,
                    enum_generics.deep_view(),
                    enum_bounds.deep_view(),
                    pairs.deep_view()[i as int],
                ),
            ));
        }
        i = i + 1;
    }
    out
}

// ------------------------------------------------------------------
// Runtime model of the generated conversions
// ------------------------------------------------------------------
/// The runtime model of a generated enum value: `tag` is the index of the
/// currently held variant, in declaration order, and `payload` is the value
/// that arm holds.
#[derive(Debug, Clone, PartialEq, Eq)]
pub struct EnumValue<V> {
    pub tag: usize,
    pub payload: V,
}

/// What the generated `TryFrom` body returns: the payload when the asked-for
/// arm is the held one, the whole original value as the error otherwise.
pub open spec fn spec_try_unwrap<V>(e: EnumValue<V>, tag: usize) -> Result<V, EnumValue<V>> {
    if e.tag == tag {
        Ok(e.payload)
    } else {
        Err(e)
    }
}

/// Models the generated `From` impl: wrapping a payload value into the arm
/// with index `tag` is total and stores the payload unchanged.
pub fn wrap<V>(tag: usize, payload: V) -> (e: EnumValue<V>)
    ensures
        e == (EnumValue { tag, payload }),
{
    EnumValue { tag, payload }
}

/// Models the generated `TryFrom` impl: succeeds with the payload exactly
/// when the arm with index `tag` is the held one; otherwise the error carries
/// the original enum value unchanged.
pub fn try_unwrap<V>(e: EnumValue<V>, tag: usize) -> (r: Result<V, EnumValue<V>>)
    ensures
        r == spec_try_unwrap(e, tag),
{
    if e.tag == tag {
        Ok(e.payload)
    } else {
        Err(e)
    }
}

/// Models the generated owned `FromEnum` impl: like `try_unwrap`, with the
/// failure collapsed to `None`.
pub fn into_variant<V>(e: EnumValue<V>, tag: usize) -> (r: Option<V>)
    ensures
        e.tag == tag ==> r == Some(e.payload),
        e.tag != tag ==> r is None,
{
    if e.tag == tag {
        Some(e.payload)
    } else {
        None
    }
}

/// Models the generated `FromEnum` impl on references (behind
/// `FromEnumRef`): a borrow of the payload when the asked-for arm is held,
/// and the enum value is left intact either way.
pub fn extract_ref<'a, V>(e: &'a EnumValue<V>, tag: usize) -> (r: Option<&'a V>)
    ensures
        e.tag == tag ==> r == Some(&e.payload),
        e.tag != tag ==> r is None,
{
    if e.tag == tag {
        Some(&e.payload)
    } else {
        None
    }
}

/// Models the generated `FromEnum` impl on exclusive references (behind
/// `FromEnumMut`): an exclusive borrow of the payload when the asked-for arm
/// is held.  The held arm itself never changes; only the payload behind the
/// returned borrow can.
pub fn extract_mut<'a, V>(e: &'a mut EnumValue<V>, tag: usize) -> (r: Option<&'a mut V>)
    ensures
        old(e).tag != tag ==> r is None && *final(e) == *old(e),
        old(e).tag == tag ==> (match r {
            Some(p) => *p == old(e).payload && final(e).tag == old(e).tag && final(e).payload
                == *final(p),
            None => false,
        }),
{
    if e.tag == tag {
        Some(&mut e.payload)
    } else {
        None
    }
}

/// Models the generated `is`-style probe: asks whether the arm with index
/// `tag` is the held one, without consuming or altering the value.
pub fn is_variant<V>(e: &EnumValue<V>, tag: usize) -> (r: bool)
    ensures
        r == (e.tag == tag),
{
    e.tag == tag
}

/// Round trip: wrapping a payload into an arm and unwrapping that same arm
/// yields back exactly the payload, for every payload value.
pub proof fn lemma_round_trip<V>(tag: usize, payload: V)
    ensures
        spec_try_unwrap(EnumValue { tag, payload }, tag) == Ok::<V, EnumValue<V>>(payload),
{
}

/// No data loss on failure: unwrapping an arm other than the held one fails
/// and the error is the original enum value, unchanged, so the caller can
/// retry a different target.
pub proof fn lemma_unwrap_non_loss<V>(e: EnumValue<V>, tag: usize)
    requires
        e.tag != tag,
    ensures
        spec_try_unwrap(e, tag) == Err::<V, EnumValue<V>>(e),
{
}

} // verus!
