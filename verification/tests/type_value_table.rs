// The uniform table: every slot holds the table's one generic element type,
// keyed by the variant's marker type.  The expansion below is written out
// exactly as the generator describes it for the `Duration` description, and
// the three-marker scenario checks slot order under iteration.
use declarative_type_state::MemberOf;
use declarative_type_state::ast::{EnumSpec, Shape, VariantSpec};
use declarative_type_state::type_value_table::{
    type_value_table, type_value_table_with_enum, ValueTableDecl,
};

#[allow(dead_code)]
#[derive(Debug, Clone)]
pub struct Seconds(pub f64);

#[allow(dead_code)]
#[derive(Debug, Clone)]
pub struct DaysSeconds(pub isize, pub f64);

#[allow(dead_code)]
#[derive(Debug, Clone)]
pub struct HoursMinutes {
    pub hours: i32,
    pub minutes: i64,
}

#[allow(dead_code)]
#[derive(Debug, Clone)]
pub struct Infinite;

#[derive(Debug, Clone)]
pub struct DurationTable<Val> {
    seconds: Val,
    days_seconds: Val,
    hours_minutes: Val,
    infinite: Val,
}

impl<Val> DurationTable<Val> {
    pub const LENGTH: usize = 4;

    pub fn new(seconds: Val, days_seconds: Val, hours_minutes: Val, infinite: Val) -> Self {
        Self { seconds, days_seconds, hours_minutes, infinite }
    }

    pub fn get<Member: MemberOf<Self>>(&self) -> &Member::MemberType {
        Member::get_in_table(self)
    }

    pub fn get_mut<Member: MemberOf<Self>>(&mut self) -> &mut Member::MemberType {
        Member::get_in_table_mut(self)
    }
}

impl<Val> MemberOf<DurationTable<Val>> for Seconds {
    type MemberType = Val;

    fn get_in_table(table: &DurationTable<Val>) -> &Val {
        &table.seconds
    }

    fn get_in_table_mut(table: &mut DurationTable<Val>) -> &mut Val {
        &mut table.seconds
    }
}

impl<Val> MemberOf<DurationTable<Val>> for DaysSeconds {
    type MemberType = Val;

    fn get_in_table(table: &DurationTable<Val>) -> &Val {
        &table.days_seconds
    }

    fn get_in_table_mut(table: &mut DurationTable<Val>) -> &mut Val {
        &mut table.days_seconds
    }
}

impl<Val> MemberOf<DurationTable<Val>> for HoursMinutes {
    type MemberType = Val;

    fn get_in_table(table: &DurationTable<Val>) -> &Val {
        &table.hours_minutes
    }

    fn get_in_table_mut(table: &mut DurationTable<Val>) -> &mut Val {
        &mut table.hours_minutes
    }
}

impl<Val> MemberOf<DurationTable<Val>> for Infinite {
    type MemberType = Val;

    fn get_in_table(table: &DurationTable<Val>) -> &Val {
        &table.infinite
    }

    fn get_in_table_mut(table: &mut DurationTable<Val>) -> &mut Val {
        &mut table.infinite
    }
}

#[test]
fn type_value_table_test() {
    let table = DurationTable::<i32>::new(5, 5, 3, 4);
    let seconds: &i32 = table.get::<Seconds>();
    let days_seconds: &i32 = table.get::<DaysSeconds>();
    let hours_minutes: &i32 = table.get::<HoursMinutes>();
    let infinite: &i32 = table.get::<Infinite>();

    assert_eq!(*seconds, 5);
    assert_eq!(*days_seconds, 5);
    assert_eq!(*hours_minutes, 3);
    assert_eq!(*infinite, 4);
}

#[test]
fn value_table_generation_is_uniform() {
    let variants = vec![
        "Seconds".to_string(),
        "DaysSeconds".to_string(),
        "HoursMinutes".to_string(),
        "Infinite".to_string(),
    ];
    let table: ValueTableDecl = type_value_table(
        &vec!["derive(Debug, Clone)".to_string()],
        &"pub".to_string(),
        &"DurationTable".to_string(),
        &"Duration".to_string(),
        &"Val".to_string(),
        &Vec::new(),
        &variants,
    );
    assert_eq!(table.length, 4);
    assert_eq!(table.gen, "Val");
    let fields: Vec<&str> = table.slots.iter().map(|s| s.field.as_str()).collect();
    assert_eq!(fields, vec!["seconds", "days_seconds", "hours_minutes", "infinite"]);
    for slot in table.slots.iter() {
        assert_eq!(slot.ty, "Val");
    }
}

#[test]
fn value_table_with_enum_extracts_and_keys() {
    let make = |name: &str, shape: Shape| VariantSpec {
        attrs: Vec::new(),
        skip: false,
        name: name.to_string(),
        generics: Vec::new(),
        shape,
        bounds: Vec::new(),
    };
    let spec = EnumSpec {
        attrs: Vec::new(),
        vis: "pub".to_string(),
        name: "Duration".to_string(),
        generics: Vec::new(),
        bounds: Vec::new(),
        variants: vec![
            make("Seconds", Shape::Tuple(vec!["f64".to_string()])),
            make("Infinite", Shape::Unit),
        ],
    };
    let (table, extracted) = type_value_table_with_enum(
        &Vec::new(),
        &"DurationTable".to_string(),
        &"Val".to_string(),
        &Vec::new(),
        &vec!["derive(Debug, Clone)".to_string()],
        &spec,
    );
    assert_eq!(table.length, 2);
    assert_eq!(table.slots[0].field, "seconds");
    assert_eq!(table.slots[1].ty, "Val");
    assert_eq!(extracted.types.len(), 2);
    assert_eq!(extracted.enum_decl.arms[0].payload, Some("Seconds".to_string()));
}

// The concrete three-marker scenario: slots 1, 2, 3, lookup by the second
// marker, and iteration in declared slot order.
pub struct Slot1;

pub struct Slot2;

pub struct Slot3;

pub struct TriTable {
    slot1: i64,
    slot2: i64,
    slot3: i64,
}

#[allow(dead_code)]
pub enum TriRef<'a> {
    Slot1(&'a i64),
    Slot2(&'a i64),
    Slot3(&'a i64),
}

impl TriTable {
    pub const LENGTH: usize = 3;

    pub fn new(slot1: i64, slot2: i64, slot3: i64) -> Self {
        Self { slot1, slot2, slot3 }
    }

    pub fn get<Member: MemberOf<Self>>(&self) -> &Member::MemberType {
        Member::get_in_table(self)
    }

    pub fn iter(&self) -> Vec<TriRef<'_>> {
        vec![TriRef::Slot1(&self.slot1), TriRef::Slot2(&self.slot2), TriRef::Slot3(&self.slot3)]
    }
}

impl MemberOf<TriTable> for Slot1 {
    type MemberType = i64;

    fn get_in_table(table: &TriTable) -> &i64 {
        &table.slot1
    }

    fn get_in_table_mut(table: &mut TriTable) -> &mut i64 {
        &mut table.slot1
    }
}

impl MemberOf<TriTable> for Slot2 {
    type MemberType = i64;

    fn get_in_table(table: &TriTable) -> &i64 {
        &table.slot2
    }

    fn get_in_table_mut(table: &mut TriTable) -> &mut i64 {
        &mut table.slot2
    }
}

impl MemberOf<TriTable> for Slot3 {
    type MemberType = i64;

    fn get_in_table(table: &TriTable) -> &i64 {
        &table.slot3
    }

    fn get_in_table_mut(table: &mut TriTable) -> &mut i64 {
        &mut table.slot3
    }
}

#[test]
fn three_slot_lookup_and_order() {
    let table = TriTable::new(1, 2, 3);
    assert_eq!(TriTable::LENGTH, 3);
    assert_eq!(table.get::<Slot2>(), &2);

    let entries = table.iter();
    assert_eq!(entries.len(), 3);
    assert!(matches!(entries[0], TriRef::Slot1(&1)));
    assert!(matches!(entries[1], TriRef::Slot2(&2)));
    assert!(matches!(entries[2], TriRef::Slot3(&3)));
}
