//! The uniform table generator: the same record shape as the heterogeneous
//! table, but every slot holds the table's single generic element type — one
//! value of type `V` per variant, a lookup table rather than a store of each
//! variant's own payload.
//!
//! The emitted declaration stands for the same items as the heterogeneous
//! flavor — the record type with one snake-cased field per slot in
//! declaration order, `LENGTH`, one `MemberOf` impl per slot keyed by the
//! marker type, `new` taking one value per slot, `Ref`/`Mut` iteration in
//! slot order — plus owning iteration that yields the slot values themselves,
//! in slot order.  The table's generic parameter and its bounds are carried
//! on the record type and re-supplied unchanged to every emitted impl.
use vstd::prelude::*;
use crate::ast::{clone_string, clone_strings, is_ident_chars, snake_case, snake_of, EnumSpec};
use crate::extract_variants::spec_extract_variants;
use crate::extract_variants_into_enum::{
    extract_variants_into_enum, spec_extracted_enum_decl, ExtractedEnum,
};
use crate::type_table::{SpecTableSlot, TableSlot};

verus! {

/// A generated uniform table declaration.
#[derive(Debug, Clone, PartialEq, Eq)]
pub struct ValueTableDecl {
    pub attrs: Vec<String>,
    pub vis: String,
    pub name: String,
    pub enum_name: String,
    pub gen: String,
    pub gen_bounds: Vec<String>,
    pub slots: Vec<TableSlot>,
    pub length: usize,
}

pub struct SpecValueTableDecl {
    pub attrs: Seq<Seq<char>>,
    pub vis: Seq<char>,
    pub name: Seq<char>,
    pub enum_name: Seq<char>,
    pub gen: Seq<char>,
    pub gen_bounds: Seq<Seq<char>>,
    pub slots: Seq<SpecTableSlot>,
    pub length: int,
}

impl DeepView for ValueTableDecl {
    type V = SpecValueTableDecl;

    open spec fn deep_view(&self) -> SpecValueTableDecl {
        SpecValueTableDecl {
            attrs: self.attrs.deep_view(),
            vis: self.vis@,
            name: self.name@,
            enum_name: self.enum_name@,
            gen: self.gen@,
            gen_bounds: self.gen_bounds.deep_view(),
            slots: self.slots.deep_view(),
            length: self.length as int,
        }
    }
}

/// The slots of a uniform table: slot `i` is keyed by variant `i`, stored in
/// the field named by its snake-cased form, and holds the table's one
/// generic element type.
pub open spec fn spec_value_slots(variants: Seq<Seq<char>>, gen: Seq<char>) -> Seq<
    SpecTableSlot,
> {
    variants.map_values(|v: Seq<char>| SpecTableSlot { key: v, field: snake_of(v), ty: gen })
}

/// Every variant identifier is a plain ASCII identifier.
pub open spec fn variant_idents_ok(variants: Seq<Seq<char>>) -> bool {
    forall|i: int| 0 <= i < variants.len() ==> is_ident_chars(#[trigger] variants[i])
}

/// Generates the uniform table over an already-declared enum: one slot per
/// variant, in order, every slot holding the generic element type, and
/// `LENGTH` equal to the number of slots.
pub fn type_value_table(
    attrs: &Vec<String>,
    vis: &String,
    name: &String,
    enum_name: &String,
    gen: &String,
    gen_bounds: &Vec<String>,
    variants: &Vec<String>,
) -> (r: ValueTableDecl)
    requires
        variant_idents_ok(variants.deep_view()),
    ensures
        r.attrs.deep_view() == attrs.deep_view(),
        r.vis@ == vis@,
        r.name@ == name@,
        r.enum_name@ == enum_name@,
        r.gen@ == gen@,
        r.gen_bounds.deep_view() == gen_bounds.deep_view(),
        r.slots.deep_view() == spec_value_slots(variants.deep_view(), gen@),
        r.length as int == variants.deep_view().len(),
{
    let mut slots: Vec<TableSlot> = Vec::new();
    let n = variants.len();
    let mut i: usize = 0;
    while i < n
        invariant
            n == variants.len(),
            variant_idents_ok(variants.deep_view()),
            0 <= i <= n,
            slots.deep_view().len() == i as int,
            forall|j: int|
                0 <= j < i as int ==> slots.deep_view()[j] == (SpecTableSlot {
                    key: variants.deep_view()[j],
                    field: snake_of(variants.deep_view()[j]),
                    ty: gen@,
                }),
        decreases n - i,
    {
        let ghost prev = slots.deep_view();
        proof {
            assert(variants.deep_view()[i as int] == variants@[i as int]@);
            assert(is_ident_chars(variants@[i as int]@));
        }
        let s = TableSlot {
            key: clone_string(&variants[i]),
            field: snake_case(variants[i].as_str()),
            ty: clone_string(gen),
        };
        slots.push(s);
        proof {
            assert(slots.deep_view() =~= prev.push(
                SpecTableSlot {
                    key: variants.deep_view()[i as int],
                    field: snake_of(variants.deep_view()[i as int]),
                    ty: gen@,
                },
            ));
        }
        i = i + 1;
    }
    proof {
        assert(slots.deep_view() =~= spec_value_slots(variants.deep_view(), gen@));
        assert(slots@.len() == slots.deep_view().len());
    }
    let length = slots.len();
    ValueTableDecl {
        attrs: clone_strings(attrs),
        vis: clone_string(vis),
        name: clone_string(name),
        enum_name: clone_string(enum_name),
        gen: clone_string(gen),
        gen_bounds: clone_strings(gen_bounds),
        slots,
        length,
    }
}

/// The ENUM_OUT entry point: declares the enum (each arm wrapping the freshly
/// extracted type of the same name) alongside the uniform table keyed by
/// those types.
pub fn type_value_table_with_enum(
    table_attrs: &Vec<String>,
    table_name: &String,
    gen: &String,
    gen_bounds: &Vec<String>,
    shared: &Vec<String>,
    spec: &EnumSpec,
) -> (r: (ValueTableDecl, ExtractedEnum))
    requires
        variant_idents_ok(crate::ast::variant_names(spec.variants.deep_view())),
    ensures
        r.0.attrs.deep_view() == table_attrs.deep_view(),
        r.0.vis@ == spec.vis@,
        r.0.name@ == table_name@,
        r.0.enum_name@ == spec.name@,
        r.0.gen@ == gen@,
        r.0.gen_bounds.deep_view() == gen_bounds.deep_view(),
        r.0.slots.deep_view() == spec_value_slots(
            crate::ast::variant_names(spec.variants.deep_view()),
            gen@,
        ),
        r.0.length as int == spec.variants.deep_view().len(),
        r.1.types.deep_view() == spec_extract_variants(
            shared.deep_view(),
            spec.vis@,
            spec.variants.deep_view(),
        ),
        r.1.enum_decl.deep_view() == spec_extracted_enum_decl(spec.deep_view()),
{
    let mut variants: Vec<String> = Vec::new();
    let n = spec.variants.len();
    let mut i: usize = 0;
    while i < n
        invariant
            n == spec.variants.len(),
            0 <= i <= n,
            variants.deep_view().len() == i as int,
            forall|j: int|
                0 <= j < i as int ==> variants.deep_view()[j] == spec.variants.deep_view()[j].name,
        decreases n - i,
    {
        let ghost prev = variants.deep_view();
        variants.push(clone_string(&spec.variants[i].name));
        proof {
            assert(variants.deep_view() =~= prev.push(spec.variants.deep_view()[i as int].name));
        }
        i = i + 1;
    }
    proof {
        assert(variants.deep_view() =~= crate::ast::variant_names(spec.variants.deep_view()));
    }
    let table = type_value_table(
        table_attrs,
        &spec.vis,
        table_name,
        &spec.name,
        gen,
        gen_bounds,
        &variants,
    );
    let extracted = extract_variants_into_enum(shared, spec);
    (table, extracted)
}

} // verus!
