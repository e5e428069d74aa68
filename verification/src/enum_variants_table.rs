//! The tag-derived table generator: a table keyed by the values of a
//! payload-less enum itself, holding one value of the table's generic element
//! type per variant.
//!
//! The emitted declaration stands for: the record type with one field per
//! variant, named by the variant identifier itself; `LENGTH`; `new` taking
//! one value per variant in order; `get`/`get_mut` keyed by an enum *value*
//! (not a marker type — the enum tag selects the slot at runtime); borrowing
//! iteration yielding (tag, value) entries in declaration order; and owning
//! iteration likewise.  The `TagTable` type below is the runtime model of an
//! instance of such a table: slot `i` belongs to the variant with declaration
//! index `i`.
use vstd::prelude::*;
use crate::ast::{clone_string, clone_strings, spec_unit_arms, unit_arms, EnumDecl, SpecEnumDecl};

verus! {

// ------------------------------------------------------------------
// Generation
// ------------------------------------------------------------------
/// A generated tag-keyed table declaration.
#[derive(Debug, Clone, PartialEq, Eq)]
pub struct TagTableDecl {
    pub attrs: Vec<String>,
    pub vis: String,
    pub name: String,
    pub gen: String,
    pub enum_name: String,
    pub keys: Vec<String>,
    pub length: usize,
}

pub struct SpecTagTableDecl {
    pub attrs: Seq<Seq<char>>,
    pub vis: Seq<char>,
    pub name: Seq<char>,
    pub gen: Seq<char>,
    pub enum_name: Seq<char>,
    pub keys: Seq<Seq<char>>,
    pub length: int,
}

impl DeepView for TagTableDecl {
    type V = SpecTagTableDecl;

    open spec fn deep_view(&self) -> SpecTagTableDecl {
        SpecTagTableDecl {
            attrs: self.attrs.deep_view(),
            vis: self.vis@,
            name: self.name@,
            gen: self.gen@,
            enum_name: self.enum_name@,
            keys: self.keys.deep_view(),
            length: self.length as int,
        }
    }
}

/// Generates the tag-keyed table over an already-declared payload-less enum:
/// one slot per variant, in declaration order, and `LENGTH` equal to the
/// number of variants.
pub fn enum_variants_table(
    attrs: &Vec<String>,
    vis: &String,
    name: &String,
    gen: &String,
    enum_name: &String,
    variants: &Vec<String>,
) -> (r: TagTableDecl)
    ensures
        r.attrs.deep_view() == attrs.deep_view(),
        r.vis@ == vis@,
        r.name@ == name@,
        r.gen@ == gen@,
        r.enum_name@ == enum_name@,
        r.keys.deep_view() == variants.deep_view(),
        r.length as int == variants.deep_view().len(),
{
    let keys = clone_strings(variants);
    proof {
        assert(keys@.len() == keys.deep_view().len());
        assert(keys.deep_view().len() == variants.deep_view().len());
    }
    let length = keys.len();
    TagTableDecl {
        attrs: clone_strings(attrs),
        vis: clone_string(vis),
        name: clone_string(name),
        gen: clone_string(gen),
        enum_name: clone_string(enum_name),
        keys,
        length,
    }
}

/// The ENUM_OUT entry point: declares the payload-less enum alongside the
/// table keyed by it.
pub fn enum_variants_table_with_enum(
    table_attrs: &Vec<String>,
    table_vis: &String,
    table_name: &String,
    gen: &String,
    enum_attrs: &Vec<String>,
    enum_vis: &String,
    enum_name: &String,
    variants: &Vec<String>,
) -> (r: (TagTableDecl, EnumDecl))
    ensures
        r.0.attrs.deep_view() == table_attrs.deep_view(),
        r.0.vis@ == table_vis@,
        r.0.name@ == table_name@,
        r.0.gen@ == gen@,
        r.0.enum_name@ == enum_name@,
        r.0.keys.deep_view() == variants.deep_view(),
        r.0.length as int == variants.deep_view().len(),
        r.1.deep_view() == (SpecEnumDecl {
            attrs: enum_attrs.deep_view(),
            vis: enum_vis@,
            name: enum_name@,
            generics: Seq::empty(),
            bounds: Seq::empty(),
            arms: spec_unit_arms(variants.deep_view()),
        }),
{
    let table = enum_variants_table(table_attrs, table_vis, table_name, gen, enum_name, variants);
    let empty_generics: Vec<String> = Vec::new();
    let empty_bounds: Vec<String> = Vec::new();
    proof {
        assert(empty_generics.deep_view() =~= Seq::<Seq<char>>::empty());
        assert(empty_bounds.deep_view() =~= Seq::<Seq<char>>::empty());
    }
    let decl = EnumDecl {
        attrs: clone_strings(enum_attrs),
        vis: clone_string(enum_vis),
        name: clone_string(enum_name),
        generics: empty_generics,
        bounds: empty_bounds,
        arms: unit_arms(variants),
    };
    (table, decl)
}

// ------------------------------------------------------------------
// Runtime model of a generated tag-keyed table instance
// ------------------------------------------------------------------
/// A fixed set of slots indexed by variant declaration order: slot `i` holds
/// the value for the variant whose declaration index is `i`.  This is the
/// runtime behaviour of a generated tag-keyed table; its view is the slot
/// sequence in declaration order.
pub struct TagTable<V> {
    slots: Vec<V>,
}

impl<V> View for TagTable<V> {
    type V = Seq<V>;

    closed spec fn view(&self) -> Seq<V> {
        self.slots@
    }
}

impl<V> TagTable<V> {
    /// Builds the table from one value per variant, in declaration order.
    pub fn new(slots: Vec<V>) -> (t: Self)
        ensures
            t@ == slots@,
    {
        TagTable { slots }
    }

    /// The slot count: one per variant.
    pub fn len(&self) -> (n: usize)
        ensures
            n == self@.len(),
    {
        self.slots.len()
    }

    /// The value of the variant with declaration index `tag`.
    pub fn get(&self, tag: usize) -> (r: &V)
        requires
            tag < self@.len(),
        ensures
            *r == self@[tag as int],
    {
        &self.slots[tag]
    }

    /// Exclusive access to the value of the variant with declaration index
    /// `tag`; no other slot is touched.
    pub fn get_mut(&mut self, tag: usize) -> (r: &mut V)
        requires
            tag < old(self)@.len(),
        ensures
            *r == old(self)@[tag as int],
            final(self)@ == old(self)@.update(tag as int, *final(r)),
    {
        &mut self.slots[tag]
    }

    /// Owning iteration: exactly the slot values, in declaration order.
    pub fn into_vec(self) -> (r: Vec<V>)
        ensures
            r@ == self@,
    {
        self.slots
    }
}

} // verus!
