//! The delegate-impl generator, the heart of the pipeline.
//!
//! Given an enum's identifier, generics, bounds and ordered variant list,
//! plus a set of trait-impl and inherent-impl templates, it emits one `impl`
//! per trait template and exactly one inherent `impl` aggregating all
//! inherent items.  Per item it classifies the method's receiver shape —
//! by value, by reference, by mutable reference — and emits a wrapper whose
//! body matches on the enum and forwards the call, with all non-receiver
//! arguments unchanged, to the held variant's own implementation.  The arm
//! list of every emitted match is exactly the variant list captured once per
//! invocation, so adding or removing a variant never requires touching a
//! delegate template.  A method description with no receiver at all is the
//! one error this generator detects itself: it emits a stub with the original
//! signature whose body raises a compile-time diagnostic quoting that
//! signature and a corrected one with a `self` parameter inserted.
//! Associated constants and associated types are re-emitted verbatim: they
//! are one value for the whole enum, never dispatched per variant.
//!
//! The enum's generics and bounds are captured once and re-supplied unchanged
//! to every impl header; a trait template's own generics are kept separate
//! from them, never merged positionally.
use vstd::prelude::*;
use vstd::string::StringExecFns;
use crate::ast::{clone_string, clone_strings, join, spec_join, FieldDef, SpecField};
use crate::enum_variants_convert::EnumValue;

verus! {

// ------------------------------------------------------------------
// Input model
// ------------------------------------------------------------------
/// The receiver shape of a delegated method description.  `Missing` is the
/// rejecting state of the classification: a method description without a
/// receiver cannot be dispatched.
#[derive(Debug, Clone, Copy, PartialEq, Eq, Structural)]
pub enum Receiver {
    ByValue,
    ByRef,
    ByMutRef,
    Missing,
}

/// One delegated method description.
#[derive(Debug, Clone, PartialEq, Eq)]
pub struct MethodSig {
    pub vis: String,
    pub quals: Vec<String>,
    pub name: String,
    pub generics: Vec<String>,
    pub receiver: Receiver,
    pub params: Vec<FieldDef>,
    pub ret: Option<String>,
    pub bounds: Vec<String>,
}

pub struct SpecMethodSig {
    pub vis: Seq<char>,
    pub quals: Seq<Seq<char>>,
    pub name: Seq<char>,
    pub generics: Seq<Seq<char>>,
    pub receiver: Receiver,
    pub params: Seq<SpecField>,
    pub ret: Option<Seq<char>>,
    pub bounds: Seq<Seq<char>>,
}

impl DeepView for MethodSig {
    type V = SpecMethodSig;

    open spec fn deep_view(&self) -> SpecMethodSig {
        SpecMethodSig {
            vis: self.vis@,
            quals: self.quals.deep_view(),
            name: self.name@,
            generics: self.generics.deep_view(),
            receiver: self.receiver,
            params: self.params.deep_view(),
            ret: self.ret.deep_view(),
            bounds: self.bounds.deep_view(),
        }
    }
}

/// An associated constant: re-emitted verbatim, one value for the whole enum.
#[derive(Debug, Clone, PartialEq, Eq)]
pub struct AssocConst {
    pub name: String,
    pub ty: String,
    pub value: String,
}

pub struct SpecAssocConst {
    pub name: Seq<char>,
    pub ty: Seq<char>,
    pub value: Seq<char>,
}

impl DeepView for AssocConst {
    type V = SpecAssocConst;

    open spec fn deep_view(&self) -> SpecAssocConst {
        SpecAssocConst { name: self.name@, ty: self.ty@, value: self.value@ }
    }
}

/// An associated type: re-emitted verbatim, one type for the whole enum.
#[derive(Debug, Clone, PartialEq, Eq)]
pub struct AssocType {
    pub name: String,
    pub ty: String,
}

pub struct SpecAssocType {
    pub name: Seq<char>,
    pub ty: Seq<char>,
}

impl DeepView for AssocType {
    type V = SpecAssocType;

    open spec fn deep_view(&self) -> SpecAssocType {
        SpecAssocType { name: self.name@, ty: self.ty@ }
    }
}

/// One item of a delegate template.
#[derive(Debug, Clone, PartialEq, Eq)]
pub enum DelegateItem {
    Method(MethodSig),
    Const(AssocConst),
    Type(AssocType),
}

pub enum SpecDelegateItem {
    Method(SpecMethodSig),
    Const(SpecAssocConst),
    Type(SpecAssocType),
}

impl DeepView for DelegateItem {
    type V = SpecDelegateItem;

    open spec fn deep_view(&self) -> SpecDelegateItem {
        match self {
            DelegateItem::Method(sig) => SpecDelegateItem::Method(sig.deep_view()),
            DelegateItem::Const(c) => SpecDelegateItem::Const(c.deep_view()),
            DelegateItem::Type(t) => SpecDelegateItem::Type(t.deep_view()),
        }
    }
}

/// One trait-delegation template: the trait path with its own generics and
/// bounds (kept separate from the enum's) and its ordered item list.
#[derive(Debug, Clone, PartialEq, Eq)]
pub struct TraitBlock {
    pub generics: Vec<String>,
    pub path: String,
    pub bounds: Vec<String>,
    pub items: Vec<DelegateItem>,
}

pub struct SpecTraitBlock {
    pub generics: Seq<Seq<char>>,
    pub path: Seq<char>,
    pub bounds: Seq<Seq<char>>,
    pub items: Seq<SpecDelegateItem>,
}

impl DeepView for TraitBlock {
    type V = SpecTraitBlock;

    open spec fn deep_view(&self) -> SpecTraitBlock {
        SpecTraitBlock {
            generics: self.generics.deep_view(),
            path: self.path@,
            bounds: self.bounds.deep_view(),
            items: self.items.deep_view(),
        }
    }
}

/// The full delegate section of an invocation: the ordered trait templates
/// followed by the items of the single inherent template.
#[derive(Debug, Clone, PartialEq, Eq)]
pub struct DelegateBlocks {
    pub traits: Vec<TraitBlock>,
    pub inherent: Vec<DelegateItem>,
}

pub struct SpecDelegateBlocks {
    pub traits: Seq<SpecTraitBlock>,
    pub inherent: Seq<SpecDelegateItem>,
}

impl DeepView for DelegateBlocks {
    type V = SpecDelegateBlocks;

    open spec fn deep_view(&self) -> SpecDelegateBlocks {
        SpecDelegateBlocks {
            traits: self.traits.deep_view(),
            inherent: self.inherent.deep_view(),
        }
    }
}

// ------------------------------------------------------------------
// Output model
// ------------------------------------------------------------------
/// A generated dispatching wrapper: a method with the original signature
/// whose body matches on the enum — by value, by reference or by mutable
/// reference, according to the receiver shape — with exactly one arm per
/// declared variant, in declaration order.  Each arm calls `sig.name` on the
/// payload it binds, forwarding the non-receiver arguments unchanged.  In
/// marker mode (payload-less variant sets) each arm instantiates the
/// variant's zero-sized marker type on demand and calls the method on it.
#[derive(Debug, Clone, PartialEq, Eq)]
pub struct DispatchMethod {
    pub sig: MethodSig,
    pub arms: Vec<String>,
    pub forwarded: Vec<String>,
    pub marker: bool,
}

pub struct SpecDispatchMethod {
    pub sig: SpecMethodSig,
    pub arms: Seq<Seq<char>>,
    pub forwarded: Seq<Seq<char>>,
    pub marker: bool,
}

impl DeepView for DispatchMethod {
    type V = SpecDispatchMethod;

    open spec fn deep_view(&self) -> SpecDispatchMethod {
        SpecDispatchMethod {
            sig: self.sig.deep_view(),
            arms: self.arms.deep_view(),
            forwarded: self.forwarded.deep_view(),
            marker: self.marker,
        }
    }
}

/// The stub emitted for a receiverless method description: a function with
/// the original signature whose body unconditionally raises a compile-time
/// diagnostic.  The message quotes the offending signature and a corrected
/// signature with a `self` parameter inserted, so the author sees actionable
/// guidance instead of a generic macro failure.
#[derive(Debug, Clone, PartialEq, Eq)]
pub struct DiagnosticStub {
    pub sig: MethodSig,
    pub original: String,
    pub corrected: String,
    pub message: String,
}

pub struct SpecDiagnosticStub {
    pub sig: SpecMethodSig,
    pub original: Seq<char>,
    pub corrected: Seq<char>,
    pub message: Seq<char>,
}

impl DeepView for DiagnosticStub {
    type V = SpecDiagnosticStub;

    open spec fn deep_view(&self) -> SpecDiagnosticStub {
        SpecDiagnosticStub {
            sig: self.sig.deep_view(),
            original: self.original@,
            corrected: self.corrected@,
            message: self.message@,
        }
    }
}

/// One generated item of an impl block.
#[derive(Debug, Clone, PartialEq, Eq)]
pub enum ImplItem {
    Dispatch(DispatchMethod),
    Diagnostic(DiagnosticStub),
    Const(AssocConst),
    Type(AssocType),
}

pub enum SpecImplItem {
    Dispatch(SpecDispatchMethod),
    Diagnostic(SpecDiagnosticStub),
    Const(SpecAssocConst),
    Type(SpecAssocType),
}

impl DeepView for ImplItem {
    type V = SpecImplItem;

    open spec fn deep_view(&self) -> SpecImplItem {
        match self {
            ImplItem::Dispatch(m) => SpecImplItem::Dispatch(m.deep_view()),
            ImplItem::Diagnostic(d) => SpecImplItem::Diagnostic(d.deep_view()),
            ImplItem::Const(c) => SpecImplItem::Const(c.deep_view()),
            ImplItem::Type(t) => SpecImplItem::Type(t.deep_view()),
        }
    }
}

/// The trait half of a generated impl header.
#[derive(Debug, Clone, PartialEq, Eq)]
pub struct TraitRef {
    pub generics: Vec<String>,
    pub path: String,
    pub bounds: Vec<String>,
}

pub struct SpecTraitRef {
    pub generics: Seq<Seq<char>>,
    pub path: Seq<char>,
    pub bounds: Seq<Seq<char>>,
}

impl DeepView for TraitRef {
    type V = SpecTraitRef;

    open spec fn deep_view(&self) -> SpecTraitRef {
        SpecTraitRef {
            generics: self.generics.deep_view(),
            path: self.path@,
            bounds: self.bounds.deep_view(),
        }
    }
}

/// One generated impl block: `impl<enum generics ++ trait generics> Trait for
/// Enum<enum generics> where ...` for a trait template, or the single
/// inherent `impl<enum generics> Enum<enum generics>` block.  The enum's
/// generics and bounds stand here exactly as they were captured.
#[derive(Debug, Clone, PartialEq, Eq)]
pub struct ImplDecl {
    pub enum_name: String,
    pub enum_generics: Vec<String>,
    pub enum_bounds: Vec<String>,
    pub trait_ref: Option<TraitRef>,
    pub items: Vec<ImplItem>,
}

pub struct SpecImplDecl {
    pub enum_name: Seq<char>,
    pub enum_generics: Seq<Seq<char>>,
    pub enum_bounds: Seq<Seq<char>>,
    pub trait_ref: Option<SpecTraitRef>,
    pub items: Seq<SpecImplItem>,
}

impl DeepView for ImplDecl {
    type V = SpecImplDecl;

    open spec fn deep_view(&self) -> SpecImplDecl {
        SpecImplDecl {
            enum_name: self.enum_name@,
            enum_generics: self.enum_generics.deep_view(),
            enum_bounds: self.enum_bounds.deep_view(),
            trait_ref: self.trait_ref.deep_view(),
            items: self.items.deep_view(),
        }
    }
}

// ------------------------------------------------------------------
// Signature rendering (for the diagnostic text)
// ------------------------------------------------------------------
/// The rendered form of one parameter: `name: ty`.
pub open spec fn spec_param_text(p: SpecField) -> Seq<char> {
    p.name + ": "@ + p.ty
}

/// The parameter names of a method description, in order: the arguments each
/// generated arm forwards.
pub open spec fn spec_param_names(params: Seq<SpecField>) -> Seq<Seq<char>> {
    params.map_values(|p: SpecField| p.name)
}

/// The rendered text of a method description's signature.  With `with_self`
/// the rendering inserts a `self` parameter ahead of the declared ones: the
/// corrected form the diagnostic suggests.
pub open spec fn spec_render_sig(sig: SpecMethodSig, with_self: bool) -> Seq<char> {
    let quals = if sig.quals.len() == 0 {
        Seq::<char>::empty()
    } else {
        spec_join(sig.quals, " "@) + " "@
    };
    let generics = if sig.generics.len() == 0 {
        Seq::<char>::empty()
    } else {
        "<"@ + spec_join(sig.generics, ", "@) + ">"@
    };
    let params = spec_join(sig.params.map_values(|p: SpecField| spec_param_text(p)), ", "@);
    let args = if with_self {
        if sig.params.len() == 0 {
            "self"@
        } else {
            "self, "@ + params
        }
    } else {
        params
    };
    let ret = match sig.ret {
        Some(t) => " -> "@ + t,
        None => Seq::<char>::empty(),
    };
    let bounds = if sig.bounds.len() == 0 {
        Seq::<char>::empty()
    } else {
        " where "@ + spec_join(sig.bounds, ", "@)
    };
    quals + "fn "@ + sig.name + generics + "("@ + args + ")"@ + ret + bounds
}

/// Renders the parameter list, one `name: ty` string per parameter.
fn render_params(params: &Vec<FieldDef>) -> (r: Vec<String>)
    ensures
        r.deep_view() == params.deep_view().map_values(|p: SpecField| spec_param_text(p)),
{
    let mut out: Vec<String> = Vec::new();
    let n = params.len();
    let mut i: usize = 0;
    while i < n
        invariant
            n == params.len(),
            0 <= i <= n,
            out.deep_view().len() == i as int,
            forall|j: int|
                0 <= j < i as int ==> out.deep_view()[j] == spec_param_text(
                    params.deep_view()[j],
                ),
        decreases n - i,
    {
        let ghost prev = out.deep_view();
        let mut t = clone_string(&params[i].name);
        t.append(": ");
        t.append(params[i].ty.as_str());
        out.push(t);
        proof {
            assert(out.deep_view() =~= prev.push(spec_param_text(params.deep_view()[i as int])));
        }
        i = i + 1;
    }
    proof {
        assert(out.deep_view() =~= params.deep_view().map_values(
            |p: SpecField| spec_param_text(p),
        ));
    }
    out
}

/// Renders a method description's signature as text.
#[verifier::rlimit(60)]
pub fn render_sig(sig: &MethodSig, with_self: bool) -> (r: String)
    ensures
        r@ == spec_render_sig(sig.deep_view(), with_self),
{
    let mut out = String::new();
    if sig.quals.len() > 0 {
        let q = join(&sig.quals, " ");
        out.append(q.as_str());
        out.append(" ");
    }
    out.append("fn ");
    out.append(sig.name.as_str());
    if sig.generics.len() > 0 {
        out.append("<");
        let g = join(&sig.generics, ", ");
        out.append(g.as_str());
        out.append(">");
    }
    out.append("(");
    if with_self {
        if sig.params.len() == 0 {
            out.append("self");
        } else {
            out.append("self, ");
        }
    }
    let rendered = render_params(&sig.params);
    let ps = join(&rendered, ", ");
    out.append(ps.as_str());
    out.append(")");
    match &sig.ret {
        Some(t) => {
            out.append(" -> ");
            out.append(t.as_str());
        },
        None => {},
    }
    if sig.bounds.len() > 0 {
        out.append(" where ");
        let b = join(&sig.bounds, ", ");
        out.append(b.as_str());
    }
    proof {
        assert(out@ =~= spec_render_sig(sig.deep_view(), with_self));
    }
    out
}

/// The diagnostic text for a receiverless method description: it quotes the
/// offending signature and the corrected signature with `self` inserted.
pub open spec fn spec_diag_message(sig: SpecMethodSig) -> Seq<char> {
    "cannot delegate a method without a self parameter: `"@ + spec_render_sig(sig, false)
        + "`; add a self parameter: `"@ + spec_render_sig(sig, true) + "`"@
}

/// `needle` occurs contiguously somewhere in `hay`.
pub open spec fn seq_contains<A>(hay: Seq<A>, needle: Seq<A>) -> bool {
    exists|k: int|
        0 <= k && k + needle.len() <= hay.len() && #[trigger] hay.subrange(k, k + needle.len())
            == needle
}

/// The diagnostic text contains both the offending signature and the
/// corrected one.
pub proof fn lemma_diag_contains_both(sig: SpecMethodSig)
    ensures
        seq_contains(spec_diag_message(sig), spec_render_sig(sig, false)),
        seq_contains(spec_diag_message(sig), spec_render_sig(sig, true)),
{
    let head = "cannot delegate a method without a self parameter: `"@;
    let mid = "`; add a self parameter: `"@;
    let tail = "`"@;
    let orig = spec_render_sig(sig, false);
    let corr = spec_render_sig(sig, true);
    let msg = spec_diag_message(sig);
    let k1: int = head.len() as int;
    assert(msg.subrange(k1, k1 + orig.len()) =~= orig);
    assert(seq_contains(msg, orig)) by {
        assert(0 <= k1 && k1 + orig.len() <= msg.len() && msg.subrange(k1, k1 + orig.len())
            == orig);
    }
    let k2: int = (head.len() + orig.len() + mid.len()) as int;
    assert(msg.subrange(k2, k2 + corr.len()) =~= corr);
    assert(seq_contains(msg, corr)) by {
        assert(0 <= k2 && k2 + corr.len() <= msg.len() && msg.subrange(k2, k2 + corr.len())
            == corr);
    }
}

// ------------------------------------------------------------------
// Per-item generation
// ------------------------------------------------------------------
/// What the generator emits for one delegate item, over the variant list
/// captured at the top of the invocation.  A method with a receiver becomes a
/// dispatching wrapper whose arm list is exactly that variant list; a method
/// without one becomes the diagnostic stub; associated constants and types
/// are re-emitted verbatim.
pub open spec fn spec_delegate_item(
    variants: Seq<Seq<char>>,
    marker: bool,
    item: SpecDelegateItem,
) -> SpecImplItem {
    match item {
        SpecDelegateItem::Method(sig) => {
            if sig.receiver is Missing {
                SpecImplItem::Diagnostic(
                    SpecDiagnosticStub {
                        sig: sig,
                        original: spec_render_sig(sig, false),
                        corrected: spec_render_sig(sig, true),
                        message: spec_diag_message(sig),
                    },
                )
            } else {
                SpecImplItem::Dispatch(
                    SpecDispatchMethod {
                        sig: sig,
                        arms: variants,
                        forwarded: spec_param_names(sig.params),
                        marker: marker,
                    },
                )
            }
        },
        SpecDelegateItem::Const(c) => SpecImplItem::Const(c),
        SpecDelegateItem::Type(t) => SpecImplItem::Type(t),
    }
}

/// Clones a method signature, preserving its deep view.
fn clone_sig(sig: &MethodSig) -> (r: MethodSig)
    ensures
        r.deep_view() == sig.deep_view(),
{
    let ret = match &sig.ret {
        Some(t) => Some(clone_string(t)),
        None => None,
    };
    let r = MethodSig {
        vis: clone_string(&sig.vis),
        quals: clone_strings(&sig.quals),
        name: clone_string(&sig.name),
        generics: clone_strings(&sig.generics),
        receiver: sig.receiver,
        params: crate::ast::clone_fields(&sig.params),
        ret,
        bounds: clone_strings(&sig.bounds),
    };
    r
}

/// The parameter names of a method description, in order.
fn param_names(params: &Vec<FieldDef>) -> (r: Vec<String>)
    ensures
        r.deep_view() == spec_param_names(params.deep_view()),
{
    let mut out: Vec<String> = Vec::new();
    let n = params.len();
    let mut i: usize = 0;
    while i < n
        invariant
            n == params.len(),
            0 <= i <= n,
            out.deep_view().len() == i as int,
            forall|j: int| 0 <= j < i as int ==> out.deep_view()[j] == params.deep_view()[j].name,
        decreases n - i,
    {
        let ghost prev = out.deep_view();
        out.push(clone_string(&params[i].name));
        proof {
            assert(out.deep_view() =~= prev.push(params.deep_view()[i as int].name));
        }
        i = i + 1;
    }
    proof {
        assert(out.deep_view() =~= spec_param_names(params.deep_view()));
    }
    out
}

/// Generates one impl item from one delegate item, over the captured variant
/// list.
pub fn delegate_item(variants: &Vec<String>, marker: bool, item: &DelegateItem) -> (r: ImplItem)
    ensures
        r.deep_view() == spec_delegate_item(variants.deep_view(), marker, item.deep_view()),
{
    match item {
        DelegateItem::Method(sig) => {
            match sig.receiver {
                Receiver::Missing => {
                    let original = render_sig(sig, false);
                    let corrected = render_sig(sig, true);
                    let mut message = String::from_str(
                        "cannot delegate a method without a self parameter: `",
                    );
                    message.append(original.as_str());
                    message.append("`; add a self parameter: `");
                    message.append(corrected.as_str());
                    message.append("`");
                    ImplItem::Diagnostic(
                        DiagnosticStub { sig: clone_sig(sig), original, corrected, message },
                    )
                },
                _ => {
                    let forwarded = param_names(&sig.params);
                    ImplItem::Dispatch(
                        DispatchMethod {
                            sig: clone_sig(sig),
                            arms: clone_strings(variants),
                            forwarded,
                            marker,
                        },
                    )
                },
            }
        },
        DelegateItem::Const(c) => ImplItem::Const(
            AssocConst {
                name: clone_string(&c.name),
                ty: clone_string(&c.ty),
                value: clone_string(&c.value),
            },
        ),
        DelegateItem::Type(t) => ImplItem::Type(
            AssocType { name: clone_string(&t.name), ty: clone_string(&t.ty) },
        ),
    }
}

/// Generates the items of one impl block, in template order.
fn delegate_items(variants: &Vec<String>, marker: bool, items: &Vec<DelegateItem>) -> (r: Vec<
    ImplItem,
>)
    ensures
        r.deep_view().len() == items.deep_view().len(),
        forall|j: int|
            0 <= j < items.deep_view().len() ==> r.deep_view()[j] == spec_delegate_item(
                variants.deep_view(),
                marker,
                items.deep_view()[j],
            ),
{
    let mut out: Vec<ImplItem> = Vec::new();
    let n = items.len();
    let mut i: usize = 0;
    while i < n
        invariant
            n == items.len(),
            0 <= i <= n,
            out.deep_view().len() == i as int,
            forall|j: int|
                0 <= j < i as int ==> out.deep_view()[j] == spec_delegate_item(
                    variants.deep_view(),
                    marker,
                    items.deep_view()[j],
                ),
        decreases n - i,
    {
        let ghost prev = out.deep_view();
        let it = delegate_item(variants, marker, &items[i]);
        out.push(it);
        proof {
            assert(out.deep_view() =~= prev.push(
                spec_delegate_item(variants.deep_view(), marker, items.deep_view()[i as int]),
            ));
        }
        i = i + 1;
    }
    out
}

// ------------------------------------------------------------------
// Impl-block generation
// ------------------------------------------------------------------
/// The items a trait or inherent template turns into, in template order.
pub open spec fn spec_delegate_items(
    variants: Seq<Seq<char>>,
    marker: bool,
    items: Seq<SpecDelegateItem>,
) -> Seq<SpecImplItem> {
    items.map_values(|it: SpecDelegateItem| spec_delegate_item(variants, marker, it))
}

/// The impl block a trait template turns into: the enum's generics and bounds
/// re-supplied unchanged, the trait's own generics and bounds kept separate.
pub open spec fn spec_trait_impl(
    enum_name: Seq<char>,
    enum_generics: Seq<Seq<char>>,
    enum_bounds: Seq<Seq<char>>,
    variants: Seq<Seq<char>>,
    marker: bool,
    tb: SpecTraitBlock,
) -> SpecImplDecl {
    SpecImplDecl {
        enum_name: enum_name,
        enum_generics: enum_generics,
        enum_bounds: enum_bounds,
        trait_ref: Some(
            SpecTraitRef { generics: tb.generics, path: tb.path, bounds: tb.bounds },
        ),
        items: spec_delegate_items(variants, marker, tb.items),
    }
}

/// The single inherent impl block aggregating all inherent items.
pub open spec fn spec_inherent_impl(
    enum_name: Seq<char>,
    enum_generics: Seq<Seq<char>>,
    enum_bounds: Seq<Seq<char>>,
    variants: Seq<Seq<char>>,
    marker: bool,
    items: Seq<SpecDelegateItem>,
) -> SpecImplDecl {
    SpecImplDecl {
        enum_name: enum_name,
        enum_generics: enum_generics,
        enum_bounds: enum_bounds,
        trait_ref: None,
        items: spec_delegate_items(variants, marker, items),
    }
}

/// Generates every delegation impl for the enum: one impl per trait template,
/// in order, then exactly one inherent impl holding all inherent items.  The
/// variant list is captured once and reused as the arm list of every wrapper;
/// the enum's generics and bounds are re-supplied unchanged to every header.
pub fn enum_delegate_impls(
    enum_name: &String,
    enum_generics: &Vec<String>,
    enum_bounds: &Vec<String>,
    variants: &Vec<String>,
    blocks: &DelegateBlocks,
) -> (r: Vec<ImplDecl>)
    ensures
        r.deep_view().len() == blocks.traits.deep_view().len() + 1,
        forall|i: int|
            0 <= i < blocks.traits.deep_view().len() ==> r.deep_view()[i] == spec_trait_impl(
                enum_name@,
                enum_generics.deep_view(),
                enum_bounds.deep_view(),
                variants.deep_view(),
                false,
                blocks.traits.deep_view()[i],
            ),
        r.deep_view()[blocks.traits.deep_view().len() as int] == spec_inherent_impl(
            enum_name@,
            enum_generics.deep_view(),
            enum_bounds.deep_view(),
            variants.deep_view(),
            false,
            blocks.inherent.deep_view(),
        ),
{
    delegate_impls_core(enum_name, enum_generics, enum_bounds, variants, false, blocks)
}

/// The shared body of the payload and marker delegate generators.
pub fn delegate_impls_core(
    enum_name: &String,
    enum_generics: &Vec<String>,
    enum_bounds: &Vec<String>,
    variants: &Vec<String>,
    marker: bool,
    blocks: &DelegateBlocks,
) -> (r: Vec<ImplDecl>)
    ensures
        r.deep_view().len() == blocks.traits.deep_view().len() + 1,
        forall|i: int|
            0 <= i < blocks.traits.deep_view().len() ==> r.deep_view()[i] == spec_trait_impl(
                enum_name@,
                enum_generics.deep_view(),
                enum_bounds.deep_view(),
                variants.deep_view(),
                marker,
                blocks.traits.deep_view()[i],
            ),
        r.deep_view()[blocks.traits.deep_view().len() as int] == spec_inherent_impl(
            enum_name@,
            enum_generics.deep_view(),
            enum_bounds.deep_view(),
            variants.deep_view(),
            marker,
            blocks.inherent.deep_view(),
        ),
{
    let mut out: Vec<ImplDecl> = Vec::new();
    let n = blocks.traits.len();
    let mut i: usize = 0;
    while i < n
        invariant
            n == blocks.traits.len(),
            0 <= i <= n,
            out.deep_view().len() == i as int,
            forall|j: int|
                0 <= j < i as int ==> out.deep_view()[j] == spec_trait_impl(
                    enum_name@,
                    enum_generics.deep_view(),
                    enum_bounds.deep_view(),
                    variants.deep_view(),
                    marker,
                    blocks.traits.deep_view()[j],
                ),
        decreases n - i,
    {
        let ghost prev = out.deep_view();
        let tb = &blocks.traits[i];
        let items = delegate_items(variants, marker, &tb.items);
        proof {
            assert(items.deep_view() =~= spec_delegate_items(
                variants.deep_view(),
                marker,
                blocks.traits.deep_view()[i as int].items,
            ));
        }
        let decl = ImplDecl {
            enum_name: clone_string(enum_name),
            enum_generics: clone_strings(enum_generics),
            enum_bounds: clone_strings(enum_bounds),
            trait_ref: Some(
                TraitRef {
                    generics: clone_strings(&tb.generics),
                    path: clone_string(&tb.path),
                    bounds: clone_strings(&tb.bounds),
                },
            ),
            items,
        };
        out.push(decl);
        proof {
            assert(out.deep_view() =~= prev.push(
                spec_trait_impl(
                    enum_name@,
                    enum_generics.deep_view(),
                    enum_bounds.deep_view(),
                    variants.deep_view(),
                    marker,
                    blocks.traits.deep_view()[i as int],
                ),
            ));
        }
        i = i + 1;
    }
    let items = delegate_items(variants, marker, &blocks.inherent);
    proof {
        assert(items.deep_view() =~= spec_delegate_items(
            variants.deep_view(),
            marker,
            blocks.inherent.deep_view(),
        ));
    }
    let ghost prev = out.deep_view();
    let decl = ImplDecl {
        enum_name: clone_string(enum_name),
        enum_generics: clone_strings(enum_generics),
        enum_bounds: clone_strings(enum_bounds),
        trait_ref: None,
        items,
    };
    out.push(decl);
    proof {
        assert(out.deep_view() =~= prev.push(
            spec_inherent_impl(
                enum_name@,
                enum_generics.deep_view(),
                enum_bounds.deep_view(),
                variants.deep_view(),
                marker,
                blocks.inherent.deep_view(),
            ),
        ));
    }
    out
}

// ------------------------------------------------------------------
// The meaning of a generated wrapper, and the dispatch laws
// ------------------------------------------------------------------
/// Evaluates the generated match of a dispatching wrapper on an enum value:
/// the match reaches the arm of the currently held variant and binds exactly
/// the held payload, on which the wrapped call is then made.
pub fn dispatch_target<'a, 'b, V>(m: &'a DispatchMethod, e: &'b EnumValue<V>) -> (r: (
    &'a String,
    &'b V,
))
    requires
        e.tag < m.arms@.len(),
    ensures
        r.0@ == m.arms.deep_view()[e.tag as int],
        r.1 == &e.payload,
{
    (&m.arms[e.tag], &e.payload)
}

/// Arm-completeness: the match generated for any dispatched method has
/// exactly one arm per declared variant — no more, no fewer — in declaration
/// order, whatever the receiver shape, and forwards exactly the declared
/// non-receiver arguments, in order.
pub proof fn lemma_arm_completeness(
    variants: Seq<Seq<char>>,
    marker: bool,
    sig: SpecMethodSig,
)
    requires
        !(sig.receiver is Missing),
    ensures
        spec_delegate_item(variants, marker, SpecDelegateItem::Method(sig))
            == SpecImplItem::Dispatch(
            SpecDispatchMethod {
                sig: sig,
                arms: variants,
                forwarded: spec_param_names(sig.params),
                marker: marker,
            },
        ),
        spec_param_names(sig.params).len() == sig.params.len(),
{
}

/// One variant list per invocation: every dispatching wrapper of every item
/// of a generated impl block reuses the arm list captured at the top of the
/// invocation — so adding or removing a variant touches only the enum
/// description, never the delegate templates.
pub proof fn lemma_shared_arm_list(
    variants: Seq<Seq<char>>,
    marker: bool,
    items: Seq<SpecDelegateItem>,
    i: int,
)
    requires
        0 <= i < items.len(),
    ensures
        forall|m: SpecDispatchMethod|
            spec_delegate_items(variants, marker, items)[i] == SpecImplItem::Dispatch(m)
                ==> m.arms == variants,
{
}

/// Dispatch equivalence: for every receiver shape and every variant, the
/// wrapper generated for a method reaches, on an enum value holding that
/// variant, the arm of exactly that variant, and the call it makes is the
/// method's own name with the declared arguments forwarded unchanged — the
/// same call a caller would make directly on the unwrapped payload.
pub proof fn lemma_dispatch_equivalence(
    variants: Seq<Seq<char>>,
    marker: bool,
    sig: SpecMethodSig,
    tag: int,
)
    requires
        !(sig.receiver is Missing),
        0 <= tag < variants.len(),
    ensures
        ({
            let item = spec_delegate_item(variants, marker, SpecDelegateItem::Method(sig));
            &&& item matches SpecImplItem::Dispatch(m)
            &&& m.arms[tag] == variants[tag]
            &&& m.sig.name == sig.name
            &&& m.sig.receiver == sig.receiver
            &&& m.forwarded == spec_param_names(sig.params)
        }),
{
}

} // verus!
