//! The type-state composer: the enum composer specialized for the case where
//! every variant wraps a shared state envelope instantiated over that
//! variant's own marker type, plus the owning transition operation.
//!
//! The envelope is a generic container of fixed fields and one current-state
//! slot.  A transition consumes the envelope by value and replaces only the
//! state slot — every other field is structurally carried forward — and the
//! result is an explicit two-armed `Transition` value, consumed by ordinary
//! pattern matching: a "no transition yet" outcome is an expected case, never
//! a panic.  States are the enum's variants; transitions are caller-driven,
//! with no implicit initial or accepting state.
use vstd::prelude::*;
use vstd::string::StringExecFns;
use core::ops::ControlFlow;
use crate::ast::{
    arms_of_pairs, clone_fields, clone_string, clone_strings, spec_arms_of_pairs, variant_names,
    EnumDecl, EnumSpec, FieldDef, Shape, SpecEnumDecl, SpecField, SpecShape, SpecTypeDecl,
    SpecVariantTy, TypeDecl, VariantTy,
};
use crate::enum_delegate_impls::{
    enum_delegate_impls, spec_inherent_impl, spec_trait_impl, DelegateBlocks, ImplDecl,
};
use crate::enum_variants_convert::{enum_variants_convert, spec_convert_impls, ConvertImpls};
use crate::extract_variants::{extract_variants, spec_extract_variants};
use crate::transition_result::{spec_branch, Transition};

verus! {

// ------------------------------------------------------------------
// The runtime envelope and its transition operation
// ------------------------------------------------------------------
/// The state envelope: the fixed fields every state shares, and the one slot
/// whose type varies across the machine's states.
#[derive(Debug, Clone, PartialEq, Eq)]
pub struct Envelope<D, S> {
    pub fields: D,
    pub state: S,
}

/// What exiting one state and entering another does to the envelope: the
/// state slot is replaced and every other field is carried forward unchanged.
pub open spec fn spec_with_state<D, S, N>(e: Envelope<D, S>, next: N) -> Envelope<D, N> {
    Envelope { fields: e.fields, state: next }
}

impl<D, S> Envelope<D, S> {
    /// Replaces only the state slot, carrying every other field forward.
    pub fn with_state<N>(self, next: N) -> (r: Envelope<D, N>)
        ensures
            r == spec_with_state(self, next),
    {
        Envelope { fields: self.fields, state: next }
    }

    /// Consumes the envelope and advances it into the next state.  The result
    /// is always the `ChangedTo` arm holding the new envelope, which the
    /// generated conversions then wrap into the owning enum; a caller that
    /// chooses not to advance keeps its envelope in an `Unchanged` arm
    /// instead, losing nothing either way.
    pub fn transition_to<N>(self, next: N) -> (r: Transition<Envelope<D, S>, Envelope<D, N>>)
        ensures
            r == Transition::<Envelope<D, S>, Envelope<D, N>>::ChangedTo(
                spec_with_state(self, next),
            ),
    {
        Transition::ChangedTo(self.with_state(next))
    }
}

/// Transition non-loss.  Advancing replaces only the state slot: the new
/// envelope's fixed fields equal the pre-transition envelope's fixed fields,
/// and its state slot equals exactly the value passed in.  Staying put gives
/// the original envelope back untouched through the `Unchanged` branch.
pub proof fn lemma_transition_non_loss<D, S, N>(e: Envelope<D, S>, next: N)
    ensures
        spec_with_state(e, next).fields == e.fields,
        spec_with_state(e, next).state == next,
        spec_branch(Transition::<Envelope<D, S>, Envelope<D, N>>::Unchanged(e)) == ControlFlow::<
            Envelope<D, N>,
            Envelope<D, S>,
        >::Continue(e),
{
}

// ------------------------------------------------------------------
// Generation
// ------------------------------------------------------------------
/// The transition operation the composer wires onto the envelope type: the
/// `with_state` / `transition_to` pair on `State<Curr>`, replacing the named
/// state field and wrapping the result through the generated conversions.
/// Its runtime behaviour is the `Envelope` model above.
#[derive(Debug, Clone, PartialEq, Eq)]
pub struct TransitionOp {
    pub state_name: String,
    pub state_field: String,
}

pub struct SpecTransitionOp {
    pub state_name: Seq<char>,
    pub state_field: Seq<char>,
}

impl DeepView for TransitionOp {
    type V = SpecTransitionOp;

    open spec fn deep_view(&self) -> SpecTransitionOp {
        SpecTransitionOp { state_name: self.state_name@, state_field: self.state_field@ }
    }
}

/// Everything one type-state invocation emits.
#[derive(Debug, Clone, PartialEq, Eq)]
pub struct TypeStateOut {
    pub types: Vec<TypeDecl>,
    pub enum_decl: EnumDecl,
    pub conversions: Vec<ConvertImpls>,
    pub impls: Vec<ImplDecl>,
    pub transition: TransitionOp,
}

/// The payload type of one state's arm: the envelope instantiated over the
/// variant's own marker type.
pub open spec fn spec_wrapped_ty(state_name: Seq<char>, variant: Seq<char>) -> Seq<char> {
    state_name + "<"@ + variant + ">"@
}

/// The (variant, envelope type) pairs threaded to the enum declaration and
/// the conversion generator, in declaration order.
pub open spec fn spec_state_pairs(state_name: Seq<char>, variants: Seq<Seq<char>>) -> Seq<
    SpecVariantTy,
> {
    variants.map_values(
        |v: Seq<char>| SpecVariantTy { name: v, ty: spec_wrapped_ty(state_name, v) },
    )
}

/// Builds the (variant, envelope type) pair list.
pub fn state_pairs(state_name: &String, variants: &Vec<String>) -> (r: Vec<VariantTy>)
    ensures
        r.deep_view() == spec_state_pairs(state_name@, variants.deep_view()),
{
    let mut out: Vec<VariantTy> = Vec::new();
    let n = variants.len();
    let mut i: usize = 0;
    while i < n
        invariant
            n == variants.len(),
            0 <= i <= n,
            out.deep_view().len() == i as int,
            forall|j: int|
                0 <= j < i as int ==> out.deep_view()[j] == (SpecVariantTy {
                    name: variants.deep_view()[j],
                    ty: spec_wrapped_ty(state_name@, variants.deep_view()[j]),
                }),
        decreases n - i,
    {
        let ghost prev = out.deep_view();
        let mut ty = clone_string(state_name);
        ty.append("<");
        ty.append(variants[i].as_str());
        ty.append(">");
        let p = VariantTy { name: clone_string(&variants[i]), ty };
        out.push(p);
        proof {
            assert(out.deep_view() =~= prev.push(
                SpecVariantTy {
                    name: variants.deep_view()[i as int],
                    ty: spec_wrapped_ty(state_name@, variants.deep_view()[i as int]),
                },
            ));
        }
        i = i + 1;
    }
    proof {
        assert(out.deep_view() =~= spec_state_pairs(state_name@, variants.deep_view()));
    }
    out
}

/// The enum declaration a type-state invocation emits: one arm per state,
/// each wrapping the envelope instantiated over that state's marker type.
pub open spec fn spec_state_enum_decl(
    attrs: Seq<Seq<char>>,
    vis: Seq<char>,
    name: Seq<char>,
    state_name: Seq<char>,
    variants: Seq<Seq<char>>,
) -> SpecEnumDecl {
    SpecEnumDecl {
        attrs,
        vis,
        name,
        generics: Seq::empty(),
        bounds: Seq::empty(),
        arms: spec_arms_of_pairs(spec_state_pairs(state_name, variants)),
    }
}

/// Composes the full type-state machinery over one captured variant list:
/// the state enum declaration, the extracted per-state marker types, the
/// conversions between the enum and each wrapped envelope, the delegation
/// impls, and the transition operation on the envelope.
pub fn type_state_enum(
    state_name: &String,
    state_field: &String,
    shared: &Vec<String>,
    spec: &EnumSpec,
    blocks: &DelegateBlocks,
) -> (r: TypeStateOut)
    ensures
        r.types.deep_view() == spec_extract_variants(
            shared.deep_view(),
            spec.vis@,
            spec.variants.deep_view(),
        ),
        r.enum_decl.deep_view() == spec_state_enum_decl(
            spec.attrs.deep_view(),
            spec.vis@,
            spec.name@,
            state_name@,
            variant_names(spec.variants.deep_view()),
        ),
        r.conversions.deep_view().len() == spec.variants.deep_view().len(),
        forall|i: int|
            0 <= i < spec.variants.deep_view().len() ==> r.conversions.deep_view()[i]
                == spec_convert_impls(
                spec.name@,
                Seq::empty(),
                Seq::empty(),
                spec_state_pairs(state_name@, variant_names(spec.variants.deep_view()))[i],
            ),
        r.impls.deep_view().len() == blocks.traits.deep_view().len() + 1,
        forall|i: int|
            0 <= i < blocks.traits.deep_view().len() ==> r.impls.deep_view()[i]
                == spec_trait_impl(
                spec.name@,
                Seq::empty(),
                Seq::empty(),
                variant_names(spec.variants.deep_view()),
                false,
                blocks.traits.deep_view()[i],
            ),
        r.impls.deep_view()[blocks.traits.deep_view().len() as int] == spec_inherent_impl(
            spec.name@,
            Seq::empty(),
            Seq::empty(),
            variant_names(spec.variants.deep_view()),
            false,
            blocks.inherent.deep_view(),
        ),
        r.transition.state_name@ == state_name@,
        r.transition.state_field@ == state_field@,
{
    let types = extract_variants(shared, spec);
    let mut variants: Vec<String> = Vec::new();
    let n = spec.variants.len();
    let mut i: usize = 0;
    while i < n
        invariant
            n == spec.variants.len(),
            0 <= i <= n,
            variants.deep_view().len() == i as int,
            forall|j: int|
                0 <= j < i as int ==> variants.deep_view()[j] == spec.variants.deep_view()[j].name,
        decreases n - i,
    {
        let ghost prev = variants.deep_view();
        variants.push(clone_string(&spec.variants[i].name));
        proof {
            assert(variants.deep_view() =~= prev.push(spec.variants.deep_view()[i as int].name));
        }
        i = i + 1;
    }
    proof {
        assert(variants.deep_view() =~= variant_names(spec.variants.deep_view()));
    }
    let pairs = state_pairs(state_name, &variants);
    let empty_generics: Vec<String> = Vec::new();
    let empty_bounds: Vec<String> = Vec::new();
    proof {
        assert(empty_generics.deep_view() =~= Seq::<Seq<char>>::empty());
        assert(empty_bounds.deep_view() =~= Seq::<Seq<char>>::empty());
    }
    let enum_decl = EnumDecl {
        attrs: clone_strings(&spec.attrs),
        vis: clone_string(&spec.vis),
        name: clone_string(&spec.name),
        generics: empty_generics,
        bounds: empty_bounds,
        arms: arms_of_pairs(&pairs),
    };
    let no_generics: Vec<String> = Vec::new();
    let no_bounds: Vec<String> = Vec::new();
    proof {
        assert(no_generics.deep_view() =~= Seq::<Seq<char>>::empty());
        assert(no_bounds.deep_view() =~= Seq::<Seq<char>>::empty());
    }
    let conversions = enum_variants_convert(&spec.name, &no_generics, &no_bounds, &pairs);
    let impls = enum_delegate_impls(&spec.name, &no_generics, &no_bounds, &variants, blocks);
    let transition = TransitionOp {
        state_name: clone_string(state_name),
        state_field: clone_string(state_field),
    };
    TypeStateOut { types, enum_decl, conversions, impls, transition }
}

/// The envelope declaration the template entry point emits: the caller's
/// fixed fields followed by the implicit current-state slot, over one
/// unsized type parameter.
pub open spec fn spec_envelope_decl(
    attrs: Seq<Seq<char>>,
    vis: Seq<char>,
    name: Seq<char>,
    fields: Seq<SpecField>,
) -> SpecTypeDecl {
    SpecTypeDecl {
        attrs,
        vis,
        name,
        generics: seq!["T: ?Sized"@],
        shape: SpecShape::Record(fields.push(SpecField { name: "state"@, ty: "T"@ })),
        bounds: Seq::empty(),
    }
}

/// The template entry point: declares the envelope struct itself — the given
/// fixed fields plus the implicit `state` slot — and then composes the full
/// type-state machinery around it.
pub fn type_state_enum_with_struct(
    state_attrs: &Vec<String>,
    state_vis: &String,
    state_name: &String,
    state_fields: &Vec<FieldDef>,
    shared: &Vec<String>,
    spec: &EnumSpec,
    blocks: &DelegateBlocks,
) -> (r: (TypeDecl, TypeStateOut))
    ensures
        r.0.deep_view() == spec_envelope_decl(
            state_attrs.deep_view(),
            state_vis@,
            state_name@,
            state_fields.deep_view(),
        ),
        r.1.enum_decl.deep_view() == spec_state_enum_decl(
            spec.attrs.deep_view(),
            spec.vis@,
            spec.name@,
            state_name@,
            variant_names(spec.variants.deep_view()),
        ),
        r.1.transition.state_name@ == state_name@,
        r.1.transition.state_field@ == "state"@,
{
    let mut fields = clone_fields(state_fields);
    let ghost before = fields.deep_view();
    fields.push(FieldDef { name: String::from_str("state"), ty: String::from_str("T") });
    proof {
        assert(fields.deep_view() =~= before.push(SpecField { name: "state"@, ty: "T"@ }));
    }
    let mut generics: Vec<String> = Vec::new();
    generics.push(String::from_str("T: ?Sized"));
    let empty_bounds: Vec<String> = Vec::new();
    proof {
        assert(generics.deep_view() =~= seq!["T: ?Sized"@]);
        assert(empty_bounds.deep_view() =~= Seq::<Seq<char>>::empty());
    }
    let decl = TypeDecl {
        attrs: clone_strings(state_attrs),
        vis: clone_string(state_vis),
        name: clone_string(state_name),
        generics,
        shape: Shape::Record(fields),
        bounds: empty_bounds,
    };
    let state_field = String::from_str("state");
    let out = type_state_enum(state_name, &state_field, shared, spec, blocks);
    (decl, out)
}

} // verus!
