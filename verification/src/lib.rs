//! A declarative toolkit for closed sum types.
//!
//! The crate describes an enum once — its variants, their payload types, the
//! traits and methods it should forward — and generates from that description
//! the standalone per-variant types, the two-way conversions between the enum
//! and each payload type, the dispatching `impl` blocks, and fixed-size
//! per-variant tables.  Generation is a pipeline of pure functions from
//! structured syntax descriptions to structured declarations; the runtime
//! pieces (`Transition`, the conversion and table models) carry contracts that
//! pin down the behaviour the generated code is specified to have.
use vstd::prelude::*;

pub mod ast;
pub mod delegated_enum;
pub mod enum_delegate_impls;
pub mod enum_variants_convert;
pub mod enum_variants_table;
pub mod extract_single_variant;
pub mod extract_variants;
pub mod extract_variants_into_enum;
pub mod newtype_table;
pub mod transition_result;
pub mod type_state_enum;
pub mod type_table;
pub mod type_value_table;
pub mod unit_enum_delegate_impls;
pub mod unit_enum_delegated;
pub mod unit_enum_variants_convert;

pub use transition_result::Transition;

verus! {

/// Owned extraction: the payload type of one variant can be recovered from an
/// enum value, when that variant is the one currently held.
pub trait FromEnum<Enum>: Sized {
    fn from_enum(t: Enum) -> Option<Self>;
}

/// Borrowed extraction: a shared reference to the payload of one variant,
/// when that variant is the one currently held.
pub trait FromEnumRef<Enum> {
    fn from_enum_ref(t: &Enum) -> Option<&Self>;
}

/// Mutable extraction: an exclusive reference to the payload of one variant,
/// when that variant is the one currently held.
pub trait FromEnumMut<Enum> {
    fn from_enum_mut(t: &mut Enum) -> Option<&mut Self>;
}

/// A borrow of the payload can be taken whenever owned extraction is defined
/// on borrows.
impl<Enum, Variant> FromEnumRef<Enum> for Variant where
    for<'a> &'a Variant: FromEnum<&'a Enum>,
{
    fn from_enum_ref(t: &Enum) -> Option<&Self> {
        <&Variant>::from_enum(t)
    }
}

/// An exclusive borrow of the payload can be taken whenever owned extraction
/// is defined on exclusive borrows.
impl<Enum, Variant> FromEnumMut<Enum> for Variant where
    for<'a> &'a mut Variant: FromEnum<&'a mut Enum>,
{
    fn from_enum_mut(t: &mut Enum) -> Option<&mut Self> {
        <&mut Variant>::from_enum(t)
    }
}

/// Every value is trivially extractable from itself.
impl<T> FromEnum<T> for T {
    fn from_enum(t: T) -> (r: Option<Self>)
        ensures
            r == Some(t),
    {
        Some(t)
    }
}

/// Type-indexed table access: a marker type that names one slot of a table
/// can produce a reference to exactly that slot.
pub trait MemberOf<Table> {
    type MemberType;

    fn get_in_table(table: &Table) -> &Self::MemberType;

    fn get_in_table_mut(table: &mut Table) -> &mut Self::MemberType;
}

} // verus!
