// The conversion scenarios: the `Num` enum written out exactly as the
// conversion generator describes its impls, the runtime model of those
// impls, and the generator's own output.
use declarative_type_state::{FromEnum, FromEnumMut, FromEnumRef};
use declarative_type_state::ast::VariantTy;
use declarative_type_state::enum_variants_convert::{
    enum_variants_convert, extract_mut, extract_ref, into_variant, is_variant, try_unwrap, wrap,
    ConvertImpls, EnumValue,
};

#[derive(Debug, PartialEq, Eq)]
pub enum Num {
    Int(i32),
    UInt(u32),
    Bool(bool),
}

impl From<i32> for Num {
    fn from(value: i32) -> Self {
        Num::Int(value)
    }
}

impl From<u32> for Num {
    fn from(value: u32) -> Self {
        Num::UInt(value)
    }
}

impl From<bool> for Num {
    fn from(value: bool) -> Self {
        Num::Bool(value)
    }
}

impl TryFrom<Num> for i32 {
    type Error = Num;

    fn try_from(value: Num) -> Result<Self, Num> {
        if let Num::Int(var) = value {
            Ok(var)
        } else {
            Err(value)
        }
    }
}

impl TryFrom<Num> for u32 {
    type Error = Num;

    fn try_from(value: Num) -> Result<Self, Num> {
        if let Num::UInt(var) = value {
            Ok(var)
        } else {
            Err(value)
        }
    }
}

impl TryFrom<Num> for bool {
    type Error = Num;

    fn try_from(value: Num) -> Result<Self, Num> {
        if let Num::Bool(var) = value {
            Ok(var)
        } else {
            Err(value)
        }
    }
}

impl FromEnum<Num> for i32 {
    fn from_enum(value: Num) -> Option<Self> {
        if let Num::Int(var) = value {
            Some(var)
        } else {
            None
        }
    }
}

impl<'a> FromEnum<&'a Num> for &'a i32 {
    fn from_enum(value: &'a Num) -> Option<Self> {
        if let Num::Int(var) = value {
            Some(var)
        } else {
            None
        }
    }
}

impl<'a> FromEnum<&'a mut Num> for &'a mut i32 {
    fn from_enum(value: &'a mut Num) -> Option<Self> {
        if let Num::Int(var) = value {
            Some(var)
        } else {
            None
        }
    }
}

#[test]
fn num_borrowed_extraction() {
    let n = Num::Int(4);
    assert_eq!(i32::from_enum_ref(&n), Some(&4));
    let b = Num::Bool(true);
    assert_eq!(i32::from_enum_ref(&b), None);

    let mut m = Num::Int(4);
    if let Some(inner) = i32::from_enum_mut(&mut m) {
        *inner = 11;
    }
    assert_eq!(m, Num::Int(11));
}

#[test]
fn num_wrap_and_round_trip() {
    assert_eq!(Num::from(5_i32), Num::Int(5));
    assert_eq!(i32::try_from(Num::from(5_i32)), Ok(5));
}

#[test]
fn num_failed_unwrap_returns_original() {
    // Unwrapping the wrong arm fails with the whole original value, not an
    // opaque error.
    assert_eq!(bool::try_from(Num::from(5_i32)), Err(Num::Int(5)));
    assert_eq!(u32::try_from(Num::Bool(true)), Err(Num::Bool(true)));
}

#[test]
fn num_from_enum_extraction() {
    assert_eq!(i32::from_enum(Num::Int(9)), Some(9));
    assert_eq!(i32::from_enum(Num::Bool(false)), None);
    // The reflexive extraction every type has.
    assert_eq!(<i32 as FromEnum<i32>>::from_enum(7), Some(7));
}

#[test]
fn model_round_trip_every_tag() {
    for tag in 0..5usize {
        let e = wrap(tag, 42_i64);
        assert_eq!(try_unwrap(e, tag), Ok(42));
    }
}

#[test]
fn model_failure_keeps_value() {
    let e = wrap(1, "payload".to_string());
    let back = try_unwrap(e, 2);
    assert_eq!(back, Err(EnumValue { tag: 1, payload: "payload".to_string() }));
}

#[test]
fn model_probes() {
    let e = wrap(3, 8_u8);
    assert!(is_variant(&e, 3));
    assert!(!is_variant(&e, 0));
    assert_eq!(extract_ref(&e, 3), Some(&8));
    assert_eq!(extract_ref(&e, 1), None);
    assert_eq!(into_variant(e, 0), None);
    let e2 = wrap(0, 9_u8);
    assert_eq!(into_variant(e2, 0), Some(9));
}

#[test]
fn model_mutable_extraction() {
    let mut e = wrap(2, 5_i32);
    assert!(extract_mut(&mut e, 0).is_none());
    assert_eq!(e, EnumValue { tag: 2, payload: 5 });
    if let Some(p) = extract_mut(&mut e, 2) {
        *p = 8;
    }
    assert_eq!(e, EnumValue { tag: 2, payload: 8 });
}

#[test]
fn convert_generation_threads_enum_header() {
    let pairs = vec![
        VariantTy { name: "Int".to_string(), ty: "i32".to_string() },
        VariantTy { name: "UInt".to_string(), ty: "u32".to_string() },
        VariantTy { name: "Bool".to_string(), ty: "bool".to_string() },
    ];
    let generics = vec!["'a".to_string(), "T".to_string()];
    let bounds = vec!["T: Clone".to_string()];
    let out: Vec<ConvertImpls> =
        enum_variants_convert(&"Num".to_string(), &generics, &bounds, &pairs);
    assert_eq!(out.len(), 3);
    for (c, p) in out.iter().zip(pairs.iter()) {
        assert_eq!(c.enum_name, "Num");
        assert_eq!(c.enum_generics, generics);
        assert_eq!(c.enum_bounds, bounds);
        assert_eq!(c.variant, p.name);
        assert_eq!(c.payload_ty, p.ty);
    }
}
