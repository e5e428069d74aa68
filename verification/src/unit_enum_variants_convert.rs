//! The conversion generator restricted to payload-less variants: every
//! variant's "value" is a zero-sized marker type instantiated on demand
//! rather than extracted from enum storage.
//!
//! Per variant the generator emits `From<Marker>` (total: the marker carries
//! no data, so wrapping just selects the arm) and `TryFrom<Enum>` for the
//! marker, whose error type is `()` — the unit enum is `Copy`, so nothing is
//! lost by not returning the original value — plus the owned `FromEnum` impl
//! with the same match.  Once per invocation it also emits the enum-level
//! probe methods `into_variant` (owned extraction through `FromEnum`) and
//! `is` (a variant test that borrows the value and leaves it intact).
use vstd::prelude::*;
use crate::ast::clone_string;

verus! {

/// The impls generated for one payload-less variant.
#[derive(Debug, Clone, PartialEq, Eq)]
pub struct UnitConvertImpls {
    pub enum_name: String,
    pub variant: String,
}

pub struct SpecUnitConvertImpls {
    pub enum_name: Seq<char>,
    pub variant: Seq<char>,
}

impl DeepView for UnitConvertImpls {
    type V = SpecUnitConvertImpls;

    open spec fn deep_view(&self) -> SpecUnitConvertImpls {
        SpecUnitConvertImpls { enum_name: self.enum_name@, variant: self.variant@ }
    }
}

/// The enum-level probe methods, generated once per invocation.
#[derive(Debug, Clone, PartialEq, Eq)]
pub struct UnitProbeImpls {
    pub enum_name: String,
}

pub struct SpecUnitProbeImpls {
    pub enum_name: Seq<char>,
}

impl DeepView for UnitProbeImpls {
    type V = SpecUnitProbeImpls;

    open spec fn deep_view(&self) -> SpecUnitProbeImpls {
        SpecUnitProbeImpls { enum_name: self.enum_name@ }
    }
}

/// Everything this generator emits: the probe methods and one conversion set
/// per variant, in declaration order.
#[derive(Debug, Clone, PartialEq, Eq)]
pub struct UnitConvertOut {
    pub probes: UnitProbeImpls,
    pub impls: Vec<UnitConvertImpls>,
}

/// Emits the probe methods and the per-variant conversion impls, in
/// declaration order.
pub fn unit_enum_variants_convert(enum_name: &String, variants: &Vec<String>) -> (r:
    UnitConvertOut)
    ensures
        r.probes.enum_name@ == enum_name@,
        r.impls.deep_view().len() == variants.deep_view().len(),
        forall|i: int|
            0 <= i < variants.deep_view().len() ==> r.impls.deep_view()[i]
                == (SpecUnitConvertImpls {
                enum_name: enum_name@,
                variant: variants.deep_view()[i],
            }),
{
    let mut impls: Vec<UnitConvertImpls> = Vec::new();
    let n = variants.len();
    let mut i: usize = 0;
    while i < n
        invariant
            n == variants.len(),
            0 <= i <= n,
            impls.deep_view().len() == i as int,
            forall|j: int|
                0 <= j < i as int ==> impls.deep_view()[j] == (SpecUnitConvertImpls {
                    enum_name: enum_name@,
                    variant: variants.deep_view()[j],
                }),
        decreases n - i,
    {
        let ghost prev = impls.deep_view();
        let c = UnitConvertImpls {
            enum_name: clone_string(enum_name),
            variant: clone_string(&variants[i]),
        };
        impls.push(c);
        proof {
            assert(impls.deep_view() =~= prev.push(
                SpecUnitConvertImpls {
                    enum_name: enum_name@,
                    variant: variants.deep_view()[i as int],
                },
            ));
        }
        i = i + 1;
    }
    UnitConvertOut { probes: UnitProbeImpls { enum_name: clone_string(enum_name) }, impls }
}

/// Models the generated `TryFrom` body for a payload-less variant: the held
/// arm's index decides, and the failure carries `()` — the unit enum is
/// `Copy`, so the caller keeps the original value anyway.
pub fn unit_try_unwrap(tag: usize, want: usize) -> (r: Result<(), ()>)
    ensures
        tag == want ==> r == Ok::<(), ()>(()),
        tag != want ==> r == Err::<(), ()>(()),
{
    if tag == want {
        Ok(())
    } else {
        Err(())
    }
}

} // verus!
