// The newtype table: the enum's arms hold the raw payload types, the table's
// slots store those raw types in snake-cased fields, and the generated
// newtypes serve as the marker keys.  The expansion below is written out
// exactly as the composer describes it for the `Duration` description.
use declarative_type_state::MemberOf;
use declarative_type_state::ast::{Shape, VariantTy};
use declarative_type_state::newtype_table::{newtype_table, NewtypeTableOut};

#[allow(dead_code)]
#[derive(Debug, Clone)]
pub struct Seconds(pub f64);

#[allow(dead_code)]
#[derive(Debug, Clone)]
pub struct Days(pub isize);

#[allow(dead_code)]
#[derive(Debug, Clone)]
pub struct Hours(pub isize);

#[allow(dead_code)]
#[derive(Debug, Clone)]
pub struct Infinite(pub ());

#[allow(dead_code)]
#[derive(Debug, Clone)]
pub enum Duration {
    Seconds(f64),
    Days(isize),
    Hours(isize),
    Infinite(()),
}

#[derive(Debug, Clone)]
pub struct DurationTable {
    seconds: f64,
    days: isize,
    hours: isize,
    infinite: (),
}

impl DurationTable {
    pub const LENGTH: usize = 4;

    pub fn new(seconds: f64, days: isize, hours: isize, infinite: ()) -> Self {
        Self { seconds, days, hours, infinite }
    }

    pub fn get<Member: MemberOf<Self>>(&self) -> &Member::MemberType {
        Member::get_in_table(self)
    }

    pub fn get_mut<Member: MemberOf<Self>>(&mut self) -> &mut Member::MemberType {
        Member::get_in_table_mut(self)
    }
}

impl MemberOf<DurationTable> for Seconds {
    type MemberType = f64;

    fn get_in_table(table: &DurationTable) -> &f64 {
        &table.seconds
    }

    fn get_in_table_mut(table: &mut DurationTable) -> &mut f64 {
        &mut table.seconds
    }
}

impl MemberOf<DurationTable> for Days {
    type MemberType = isize;

    fn get_in_table(table: &DurationTable) -> &isize {
        &table.days
    }

    fn get_in_table_mut(table: &mut DurationTable) -> &mut isize {
        &mut table.days
    }
}

impl MemberOf<DurationTable> for Hours {
    type MemberType = isize;

    fn get_in_table(table: &DurationTable) -> &isize {
        &table.hours
    }

    fn get_in_table_mut(table: &mut DurationTable) -> &mut isize {
        &mut table.hours
    }
}

impl MemberOf<DurationTable> for Infinite {
    type MemberType = ();

    fn get_in_table(table: &DurationTable) -> &() {
        &table.infinite
    }

    fn get_in_table_mut(table: &mut DurationTable) -> &mut () {
        &mut table.infinite
    }
}

#[test]
fn newtype_table_test() {
    let table = DurationTable::new(0.0, 4, 4, ());
    let seconds: &f64 = table.get::<Seconds>();
    let days: &isize = table.get::<Days>();
    let hours: &isize = table.get::<Hours>();
    let infinite: &() = table.get::<Infinite>();

    assert_eq!(*seconds, 0.0);
    assert_eq!(*days, 4);
    assert_eq!(*hours, 4);
    assert_eq!(infinite, &());
}

#[test]
fn newtype_table_composition() {
    let pairs = vec![
        VariantTy { name: "Seconds".to_string(), ty: "f64".to_string() },
        VariantTy { name: "Days".to_string(), ty: "isize".to_string() },
        VariantTy { name: "Hours".to_string(), ty: "isize".to_string() },
        VariantTy { name: "Infinite".to_string(), ty: "()".to_string() },
    ];
    let shared = vec!["derive(Debug, Clone)".to_string()];
    let out: NewtypeTableOut = newtype_table(
        &shared,
        &Vec::new(),
        &"pub".to_string(),
        &"Duration".to_string(),
        &pairs,
        &vec!["derive(Debug, Clone)".to_string()],
        &"DurationTable".to_string(),
    );

    // One newtype per pair, each a tuple type wrapping exactly the raw type.
    assert_eq!(out.types.len(), 4);
    assert_eq!(out.types[0].name, "Seconds");
    assert!(matches!(&out.types[0].shape, Shape::Tuple(tys) if tys == &vec!["f64".to_string()]));
    assert_eq!(out.types[3].name, "Infinite");
    assert_eq!(out.types[0].attrs, shared);

    // The enum arms hold the raw payload types.
    assert_eq!(out.enum_decl.name, "Duration");
    assert_eq!(out.enum_decl.arms.len(), 4);
    assert_eq!(out.enum_decl.arms[1].name, "Days");
    assert_eq!(out.enum_decl.arms[1].payload, Some("isize".to_string()));

    // The table stores the raw types in snake-cased fields.
    assert_eq!(out.table.length, 4);
    assert_eq!(out.table.slots[0].field, "seconds");
    assert_eq!(out.table.slots[0].ty, "f64");
    assert_eq!(out.table.slots[3].key, "Infinite");
}
