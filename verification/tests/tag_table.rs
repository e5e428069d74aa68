// The tag-keyed table: its generated declaration, the unit-enum composer, and
// the runtime slot model.
use declarative_type_state::enum_delegate_impls::DelegateBlocks;
use declarative_type_state::enum_variants_table::{
    enum_variants_table, enum_variants_table_with_enum, TagTable,
};
use declarative_type_state::unit_enum_delegated::unit_enum_delegated;

fn duration_variants() -> Vec<String> {
    vec![
        "Seconds".to_string(),
        "DaysSeconds".to_string(),
        "HoursMinutes".to_string(),
        "Infinite".to_string(),
    ]
}

#[test]
fn tag_table_declaration_keys_every_variant() {
    let table = enum_variants_table(
        &vec!["derive(Debug, Clone)".to_string()],
        &"pub".to_string(),
        &"DurationTable".to_string(),
        &"Val".to_string(),
        &"Duration".to_string(),
        &duration_variants(),
    );
    assert_eq!(table.length, 4);
    assert_eq!(table.keys, duration_variants());
    assert_eq!(table.gen, "Val");
    assert_eq!(table.enum_name, "Duration");
}

#[test]
fn tag_table_with_enum_declares_unit_arms() {
    let (table, decl) = enum_variants_table_with_enum(
        &Vec::new(),
        &"pub".to_string(),
        &"DurationTable".to_string(),
        &"Val".to_string(),
        &vec!["derive(Debug, Clone)".to_string()],
        &"pub".to_string(),
        &"Duration".to_string(),
        &duration_variants(),
    );
    assert_eq!(table.length, 4);
    assert_eq!(decl.name, "Duration");
    assert_eq!(decl.arms.len(), 4);
    for arm in decl.arms.iter() {
        assert!(arm.payload.is_none());
    }
    assert_eq!(decl.arms[1].name, "DaysSeconds");
}

#[test]
fn runtime_slots_resolve_by_tag() {
    let table = TagTable::new(vec![1_i64, 2, 3]);
    assert_eq!(table.len(), 3);
    assert_eq!(table.get(0), &1);
    assert_eq!(table.get(1), &2);
    assert_eq!(table.get(2), &3);
}

#[test]
fn runtime_get_mut_touches_one_slot() {
    let mut table = TagTable::new(vec![10_i64, 20, 30]);
    *table.get_mut(1) = 99;
    assert_eq!(table.get(0), &10);
    assert_eq!(table.get(1), &99);
    assert_eq!(table.get(2), &30);
}

#[test]
fn runtime_owning_iteration_keeps_slot_order() {
    let table = TagTable::new(vec![1_i64, 2, 3]);
    let out = table.into_vec();
    assert_eq!(out, vec![1, 2, 3]);
}

#[test]
fn unit_composition_declares_converts_and_delegates() {
    let variants = vec!["Int".to_string(), "UInt".to_string()];
    let blocks = DelegateBlocks { traits: Vec::new(), inherent: Vec::new() };
    let out = unit_enum_delegated(
        &vec!["derive(Copy, Clone, Debug)".to_string()],
        &String::new(),
        &"StateEnum".to_string(),
        &variants,
        &blocks,
    );
    assert_eq!(out.enum_decl.name, "StateEnum");
    assert_eq!(out.enum_decl.arms.len(), 2);
    assert!(out.enum_decl.arms[0].payload.is_none());
    assert_eq!(out.conversions.probes.enum_name, "StateEnum");
    assert_eq!(out.conversions.impls.len(), 2);
    assert_eq!(out.conversions.impls[1].variant, "UInt");
    assert_eq!(out.impls.len(), 1);
}
