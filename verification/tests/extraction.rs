// The extractors and composers: per-shape type extraction, skip handling,
// attribute forwarding, identifier casing, and the composed enum outputs.
use declarative_type_state::ast::{
    snake_case, EnumSpec, FieldDef, Shape, VariantSpec, VariantTy,
};
use declarative_type_state::delegated_enum::delegated_enum;
use declarative_type_state::enum_delegate_impls::DelegateBlocks;
use declarative_type_state::extract_single_variant::extract_single_variant;
use declarative_type_state::extract_variants::extract_variants;
use declarative_type_state::extract_variants_into_enum::extract_variants_into_enum;

fn variant(name: &str, shape: Shape) -> VariantSpec {
    VariantSpec {
        attrs: Vec::new(),
        skip: false,
        name: name.to_string(),
        generics: Vec::new(),
        shape,
        bounds: Vec::new(),
    }
}

fn num_spec() -> EnumSpec {
    let mut int_variant = variant(
        "Int",
        Shape::Record(vec![FieldDef { name: "field".to_string(), ty: "i32".to_string() }]),
    );
    int_variant.attrs = vec!["derive(PartialEq)".to_string()];
    let uint_variant = variant(
        "UInt",
        Shape::Record(vec![
            FieldDef { name: "x".to_string(), ty: "i32".to_string() },
            FieldDef { name: "y".to_string(), ty: "i32".to_string() },
        ]),
    );
    let float_variant =
        variant("Float", Shape::Tuple(vec!["f32".to_string(), "i32".to_string()]));
    let mut bool_variant = variant("Bool", Shape::Tuple(vec!["bool".to_string()]));
    bool_variant.skip = true;
    let test_variant = variant("Test", Shape::Unit);
    EnumSpec {
        attrs: vec!["derive(Debug)".to_string()],
        vis: "pub".to_string(),
        name: "Num".to_string(),
        generics: Vec::new(),
        bounds: Vec::new(),
        variants: vec![int_variant, uint_variant, float_variant, bool_variant, test_variant],
    }
}

#[test]
fn tuple_variant_becomes_tuple_type() {
    let shared = vec!["derive(Debug, Clone)".to_string()];
    let v = variant("Float", Shape::Tuple(vec!["f32".to_string(), "i32".to_string()]));
    let decl = extract_single_variant(&shared, &"pub".to_string(), &v).expect("not skipped");
    assert_eq!(decl.name, "Float");
    assert_eq!(decl.vis, "pub");
    assert_eq!(decl.attrs, shared);
    assert!(matches!(&decl.shape, Shape::Tuple(tys)
        if tys == &vec!["f32".to_string(), "i32".to_string()]));
}

#[test]
fn record_variant_keeps_field_order_and_attrs() {
    let shared = vec!["derive(Debug, Clone)".to_string()];
    let mut v = variant(
        "Int",
        Shape::Record(vec![FieldDef { name: "field".to_string(), ty: "i32".to_string() }]),
    );
    v.attrs = vec!["derive(PartialEq)".to_string()];
    let decl = extract_single_variant(&shared, &"pub".to_string(), &v).expect("not skipped");
    // Shared attributes come first, the variant's own after.
    assert_eq!(
        decl.attrs,
        vec!["derive(Debug, Clone)".to_string(), "derive(PartialEq)".to_string()]
    );
    match &decl.shape {
        Shape::Record(fields) => {
            assert_eq!(fields.len(), 1);
            assert_eq!(fields[0].name, "field");
            assert_eq!(fields[0].ty, "i32");
        },
        _ => panic!("a record variant extracts to a record type"),
    }
}

#[test]
fn unit_variant_drops_generics_and_bounds() {
    let shared: Vec<String> = Vec::new();
    let mut v = variant("Test", Shape::Unit);
    v.generics = vec!["T".to_string()];
    v.bounds = vec!["T: Clone".to_string()];
    let decl = extract_single_variant(&shared, &"pub".to_string(), &v).expect("not skipped");
    assert!(decl.generics.is_empty());
    assert!(decl.bounds.is_empty());
    assert!(matches!(decl.shape, Shape::Unit));
}

#[test]
fn skipped_variant_emits_nothing() {
    let mut v = variant("Bool", Shape::Tuple(vec!["bool".to_string()]));
    v.skip = true;
    assert!(extract_single_variant(&Vec::new(), &"pub".to_string(), &v).is_none());
}

#[test]
fn extraction_preserves_order_and_skips() {
    let shared = vec!["derive(Debug, Clone)".to_string()];
    let decls = extract_variants(&shared, &num_spec());
    let names: Vec<&str> = decls.iter().map(|d| d.name.as_str()).collect();
    assert_eq!(names, vec!["Int", "UInt", "Float", "Test"]);
}

#[test]
fn snake_case_synthesizes_field_names() {
    assert_eq!(snake_case("DaysSeconds"), "days_seconds");
    assert_eq!(snake_case("Seconds"), "seconds");
    assert_eq!(snake_case("HTTPServer"), "h_t_t_p_server");
    assert_eq!(snake_case("a2B"), "a2_b");
    assert_eq!(snake_case("x"), "x");
    assert_eq!(snake_case("already_snake"), "already_snake");
    assert_eq!(snake_case(""), "");
}

#[test]
fn composed_enum_reaches_all_three_generators() {
    let pairs = vec![
        VariantTy { name: "Int".to_string(), ty: "State<i32>".to_string() },
        VariantTy { name: "UInt".to_string(), ty: "State<u32>".to_string() },
    ];
    let blocks = DelegateBlocks { traits: Vec::new(), inherent: Vec::new() };
    let out = delegated_enum(
        &vec!["derive(Clone, Debug)".to_string()],
        &String::new(),
        &"StateEnum".to_string(),
        &Vec::new(),
        &Vec::new(),
        &pairs,
        &blocks,
    );
    assert_eq!(out.enum_decl.name, "StateEnum");
    assert_eq!(out.enum_decl.arms.len(), 2);
    assert_eq!(out.enum_decl.arms[0].name, "Int");
    assert_eq!(out.enum_decl.arms[0].payload, Some("State<i32>".to_string()));
    assert_eq!(out.conversions.len(), 2);
    assert_eq!(out.conversions[1].payload_ty, "State<u32>");
    // No trait templates: only the one inherent impl.
    assert_eq!(out.impls.len(), 1);
    assert!(out.impls[0].trait_ref.is_none());
}

#[test]
fn extracting_composer_wraps_generic_variants() {
    let mut spec = num_spec();
    spec.variants[0].generics = vec!["'a".to_string(), "T".to_string()];
    let out = extract_variants_into_enum(&vec!["derive(Debug, Clone)".to_string()], &spec);
    // The skipped variant still gets its arm and conversion, only its type
    // declaration is suppressed.
    assert_eq!(out.types.len(), 4);
    assert_eq!(out.enum_decl.arms.len(), 5);
    assert_eq!(out.enum_decl.arms[0].name, "Int");
    assert_eq!(out.enum_decl.arms[0].payload, Some("Int<'a, T>".to_string()));
    assert_eq!(out.enum_decl.arms[3].payload, Some("Bool".to_string()));
    assert_eq!(out.conversions.len(), 5);
    assert_eq!(out.conversions[0].payload_ty, "Int<'a, T>");
}
