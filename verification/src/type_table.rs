//! The heterogeneous table generator: given ordered (slot identifier, slot
//! type) pairs it generates a record type holding exactly one value per slot,
//! with typed access keyed by the slot's marker type.
//!
//! The emitted declaration stands for: the record type, one field per slot in
//! declaration order, each field named by snake-casing the slot identifier;
//! the compile-time slot count `LENGTH`; one `MemberOf` impl per slot,
//! associating the marker type with exactly its own field; a `new` taking one
//! value per slot in order; borrowing and mutably borrowing iteration
//! yielding `Ref`/`Mut` tagged unions in slot order; and owning iteration
//! re-wrapping each slot's content into the enum arm of the same name, again
//! in slot order.  A lookup by a type not among the slots has no `MemberOf`
//! impl and fails to compile — the intended safety property.
use vstd::prelude::*;
use crate::ast::{
    clone_string, clone_strings, distinct_seqs, is_ident_chars, snake_case, snake_of,
    spec_names_of_pairs, SpecVariantTy, VariantTy,
};
use crate::extract_variants_into_enum::{
    extract_variants_into_enum, spec_extracted_enum_decl, ExtractedEnum,
};
use crate::extract_variants::spec_extract_variants;
use crate::ast::EnumSpec;

verus! {

/// One slot of a generated table: the identifier that keys it (the marker
/// type of the same name), the snake-cased field that stores it, and the
/// slot's type.
#[derive(Debug, Clone, PartialEq, Eq)]
pub struct TableSlot {
    pub key: String,
    pub field: String,
    pub ty: String,
}

pub struct SpecTableSlot {
    pub key: Seq<char>,
    pub field: Seq<char>,
    pub ty: Seq<char>,
}

impl DeepView for TableSlot {
    type V = SpecTableSlot;

    open spec fn deep_view(&self) -> SpecTableSlot {
        SpecTableSlot { key: self.key@, field: self.field@, ty: self.ty@ }
    }
}

/// A generated heterogeneous table declaration.
#[derive(Debug, Clone, PartialEq, Eq)]
pub struct TypeTableDecl {
    pub attrs: Vec<String>,
    pub vis: String,
    pub name: String,
    pub enum_name: String,
    pub slots: Vec<TableSlot>,
    pub length: usize,
}

pub struct SpecTypeTableDecl {
    pub attrs: Seq<Seq<char>>,
    pub vis: Seq<char>,
    pub name: Seq<char>,
    pub enum_name: Seq<char>,
    pub slots: Seq<SpecTableSlot>,
    pub length: int,
}

impl DeepView for TypeTableDecl {
    type V = SpecTypeTableDecl;

    open spec fn deep_view(&self) -> SpecTypeTableDecl {
        SpecTypeTableDecl {
            attrs: self.attrs.deep_view(),
            vis: self.vis@,
            name: self.name@,
            enum_name: self.enum_name@,
            slots: self.slots.deep_view(),
            length: self.length as int,
        }
    }
}

/// The slots of a table over the given pairs, in declaration order: slot `i`
/// is keyed by pair `i`'s identifier, stored in the field named by its
/// snake-cased form, and holds pair `i`'s type.
pub open spec fn spec_table_slots(pairs: Seq<SpecVariantTy>) -> Seq<SpecTableSlot> {
    pairs.map_values(
        |p: SpecVariantTy| SpecTableSlot { key: p.name, field: snake_of(p.name), ty: p.ty },
    )
}

/// Every slot identifier is a plain ASCII identifier (so a field name can be
/// synthesized from it).
pub open spec fn idents_ok(pairs: Seq<SpecVariantTy>) -> bool {
    forall|i: int| 0 <= i < pairs.len() ==> is_ident_chars(#[trigger] pairs[i].name)
}

/// Builds the slot list of a table, snake-casing each identifier.
pub fn table_slots(pairs: &Vec<VariantTy>) -> (r: Vec<TableSlot>)
    requires
        idents_ok(pairs.deep_view()),
    ensures
        r.deep_view() == spec_table_slots(pairs.deep_view()),
{
    let mut out: Vec<TableSlot> = Vec::new();
    let n = pairs.len();
    let mut i: usize = 0;
    while i < n
        invariant
            n == pairs.len(),
            idents_ok(pairs.deep_view()),
            0 <= i <= n,
            out.deep_view().len() == i as int,
            forall|j: int|
                0 <= j < i as int ==> out.deep_view()[j] == (SpecTableSlot {
                    key: pairs.deep_view()[j].name,
                    field: snake_of(pairs.deep_view()[j].name),
                    ty: pairs.deep_view()[j].ty,
                }),
        decreases n - i,
    {
        let ghost prev = out.deep_view();
        proof {
            assert(pairs.deep_view()[i as int].name == pairs@[i as int].name@);
            assert(is_ident_chars(pairs@[i as int].name@));
        }
        let s = TableSlot {
            key: clone_string(&pairs[i].name),
            field: snake_case(pairs[i].name.as_str()),
            ty: clone_string(&pairs[i].ty),
        };
        out.push(s);
        proof {
            assert(out.deep_view() =~= prev.push(
                SpecTableSlot {
                    key: pairs.deep_view()[i as int].name,
                    field: snake_of(pairs.deep_view()[i as int].name),
                    ty: pairs.deep_view()[i as int].ty,
                },
            ));
        }
        i = i + 1;
    }
    proof {
        assert(out.deep_view() =~= spec_table_slots(pairs.deep_view()));
    }
    out
}

/// Generates the heterogeneous table over an already-declared enum: one slot
/// per pair, in order, and `LENGTH` equal to the number of slots.
pub fn type_table(
    attrs: &Vec<String>,
    vis: &String,
    name: &String,
    enum_name: &String,
    pairs: &Vec<VariantTy>,
) -> (r: TypeTableDecl)
    requires
        idents_ok(pairs.deep_view()),
    ensures
        r.attrs.deep_view() == attrs.deep_view(),
        r.vis@ == vis@,
        r.name@ == name@,
        r.enum_name@ == enum_name@,
        r.slots.deep_view() == spec_table_slots(pairs.deep_view()),
        r.length as int == pairs.deep_view().len(),
{
    let slots = table_slots(pairs);
    let length = slots.len();
    proof {
        assert(slots@.len() == slots.deep_view().len());
        assert(slots.deep_view().len() == pairs.deep_view().len());
    }
    TypeTableDecl {
        attrs: clone_strings(attrs),
        vis: clone_string(vis),
        name: clone_string(name),
        enum_name: clone_string(enum_name),
        slots,
        length,
    }
}

/// The standalone entry point, with no enum alongside: the base name of the
/// table's `Ref`/`Mut` tagged unions is synthesized from the table's own
/// identifier.
pub fn type_table_standalone(
    attrs: &Vec<String>,
    vis: &String,
    name: &String,
    pairs: &Vec<VariantTy>,
) -> (r: TypeTableDecl)
    requires
        idents_ok(pairs.deep_view()),
    ensures
        r.attrs.deep_view() == attrs.deep_view(),
        r.vis@ == vis@,
        r.name@ == name@,
        r.enum_name@ == name@ + "Member"@,
        r.slots.deep_view() == spec_table_slots(pairs.deep_view()),
        r.length as int == pairs.deep_view().len(),
{
    let mut member = clone_string(name);
    member.append("Member");
    type_table(attrs, vis, name, &member, pairs)
}

/// Table bijection at the key level: with pairwise-distinct slot
/// identifiers, the marker type of slot `i` names slot `j` exactly when
/// `i == j` — every `get` by a declared key resolves to its own unique field.
pub proof fn lemma_table_lookup_unique(pairs: Seq<SpecVariantTy>, i: int, j: int)
    requires
        distinct_seqs(spec_names_of_pairs(pairs)),
        0 <= i < pairs.len(),
        0 <= j < pairs.len(),
    ensures
        (spec_table_slots(pairs)[i].key == spec_table_slots(pairs)[j].key) <==> i == j,
{
    assert(spec_names_of_pairs(pairs)[i] == pairs[i].name);
    assert(spec_names_of_pairs(pairs)[j] == pairs[j].name);
}

/// The ENUM_OUT entry point: declares the enum (each arm wrapping the
/// freshly extracted type of the same name) and keys the table by those
/// types, each slot holding its own variant's type.
pub fn type_table_with_enum(
    table_attrs: &Vec<String>,
    table_name: &String,
    shared: &Vec<String>,
    spec: &EnumSpec,
) -> (r: (TypeTableDecl, ExtractedEnum))
    requires
        forall|i: int|
            0 <= i < spec.variants.deep_view().len() ==> is_ident_chars(
                #[trigger] spec.variants.deep_view()[i].name,
            ),
    ensures
        r.0.attrs.deep_view() == table_attrs.deep_view(),
        r.0.vis@ == spec.vis@,
        r.0.name@ == table_name@,
        r.0.enum_name@ == spec.name@,
        r.0.slots.deep_view() == spec_table_slots(spec_self_pairs(spec.variants.deep_view())),
        r.0.length as int == spec.variants.deep_view().len(),
        r.1.types.deep_view() == spec_extract_variants(
            shared.deep_view(),
            spec.vis@,
            spec.variants.deep_view(),
        ),
        r.1.enum_decl.deep_view() == spec_extracted_enum_decl(spec.deep_view()),
{
    let pairs = self_pairs(&spec.variants);
    let table = type_table(table_attrs, &spec.vis, table_name, &spec.name, &pairs);
    let extracted = extract_variants_into_enum(shared, spec);
    (table, extracted)
}

/// The (identifier, identifier) pairs of a variant list: each slot holds its
/// own variant's standalone type.
pub open spec fn spec_self_pairs(vs: Seq<crate::ast::SpecVariant>) -> Seq<SpecVariantTy> {
    vs.map_values(|v: crate::ast::SpecVariant| SpecVariantTy { name: v.name, ty: v.name })
}

/// Builds the (identifier, identifier) pair list of a variant list.
pub fn self_pairs(vs: &Vec<crate::ast::VariantSpec>) -> (r: Vec<VariantTy>)
    ensures
        r.deep_view() == spec_self_pairs(vs.deep_view()),
{
    let mut out: Vec<VariantTy> = Vec::new();
    let n = vs.len();
    let mut i: usize = 0;
    while i < n
        invariant
            n == vs.len(),
            0 <= i <= n,
            out.deep_view().len() == i as int,
            forall|j: int|
                0 <= j < i as int ==> out.deep_view()[j] == (SpecVariantTy {
                    name: vs.deep_view()[j].name,
                    ty: vs.deep_view()[j].name,
                }),
        decreases n - i,
    {
        let ghost prev = out.deep_view();
        let p = VariantTy { name: clone_string(&vs[i].name), ty: clone_string(&vs[i].name) };
        out.push(p);
        proof {
            assert(out.deep_view() =~= prev.push(
                SpecVariantTy {
                    name: vs.deep_view()[i as int].name,
                    ty: vs.deep_view()[i as int].name,
                },
            ));
        }
        i = i + 1;
    }
    proof {
        assert(out.deep_view() =~= spec_self_pairs(vs.deep_view()));
    }
    out
}

} // verus!
