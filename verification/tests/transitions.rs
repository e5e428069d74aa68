// The transition result, the state envelope and the type-state composer.
use core::ops::ControlFlow;
use declarative_type_state::Transition;
use declarative_type_state::ast::{EnumSpec, Shape, VariantSpec};
use declarative_type_state::enum_delegate_impls::DelegateBlocks;
use declarative_type_state::enum_variants_convert::{try_unwrap, wrap};
use declarative_type_state::ast::Shape as AstShape;
use declarative_type_state::type_state_enum::{
    type_state_enum, type_state_enum_with_struct, Envelope,
};

#[test]
fn from_output_stays_unchanged() {
    let t: Transition<i32, String> = Transition::from_output(7);
    assert!(matches!(t, Transition::Unchanged(7)));
}

#[test]
fn from_residual_marks_the_change() {
    let t: Transition<i32, String> = Transition::from_residual("next".to_string());
    assert!(matches!(t, Transition::ChangedTo(s) if s == "next"));
}

#[test]
fn branch_loses_nothing() {
    let stay: Transition<i32, String> = Transition::Unchanged(7);
    assert!(matches!(stay.branch(), ControlFlow::Continue(7)));
    let go: Transition<i32, String> = Transition::ChangedTo("next".to_string());
    assert!(matches!(go.branch(), ControlFlow::Break(s) if s == "next"));
}

#[derive(Debug, Clone, PartialEq, Eq)]
pub struct Idle;

#[derive(Debug, Clone, PartialEq, Eq)]
pub struct Running {
    pub speed: u32,
}

#[test]
fn with_state_replaces_only_the_state_slot() {
    let env = Envelope { fields: (3_i32, "name".to_string()), state: Idle };
    let next = env.with_state(Running { speed: 9 });
    assert_eq!(next.fields, (3, "name".to_string()));
    assert_eq!(next.state, Running { speed: 9 });
}

#[test]
fn transition_to_changes_and_keeps_fields() {
    let env = Envelope { fields: 7_i32, state: Idle };
    match env.transition_to(Running { speed: 2 }) {
        Transition::ChangedTo(e2) => {
            assert_eq!(e2.fields, 7);
            assert_eq!(e2.state, Running { speed: 2 });
        },
        Transition::Unchanged(_) => panic!("transition_to always advances"),
    }
}

#[test]
fn unchanged_branch_returns_the_envelope_untouched() {
    let env = Envelope { fields: 7_i32, state: Idle };
    let t: Transition<Envelope<i32, Idle>, Envelope<i32, Running>> =
        Transition::Unchanged(env.clone());
    match t.branch() {
        ControlFlow::Continue(back) => assert_eq!(back, env),
        ControlFlow::Break(_) => panic!("an unchanged transition continues"),
    }
}

#[test]
fn changed_value_unwraps_to_the_new_envelope() {
    // The generated conversions wrap the advanced envelope into the owning
    // enum; unwrapping the same arm gives back exactly that envelope.
    let env = Envelope { fields: 7_i32, state: Idle };
    let advanced = match env.transition_to(Running { speed: 2 }) {
        Transition::ChangedTo(e2) => e2,
        Transition::Unchanged(_) => panic!("transition_to always advances"),
    };
    let wrapped = wrap(1, advanced.clone());
    assert_eq!(try_unwrap(wrapped, 1), Ok(advanced));
}

fn state_template() -> EnumSpec {
    let make = |name: &str| VariantSpec {
        attrs: Vec::new(),
        skip: false,
        name: name.to_string(),
        generics: Vec::new(),
        shape: Shape::Unit,
        bounds: Vec::new(),
    };
    EnumSpec {
        attrs: vec!["derive(Debug, Clone)".to_string()],
        vis: "pub".to_string(),
        name: "StateEnum".to_string(),
        generics: Vec::new(),
        bounds: Vec::new(),
        variants: vec![make("Int"), make("UInt"), make("Unit")],
    }
}

#[test]
fn type_state_composition_wraps_every_state() {
    let blocks = DelegateBlocks { traits: Vec::new(), inherent: Vec::new() };
    let out = type_state_enum(
        &"State".to_string(),
        &"state".to_string(),
        &vec!["derive(Clone, Debug)".to_string()],
        &state_template(),
        &blocks,
    );
    assert_eq!(out.types.len(), 3);
    assert_eq!(out.enum_decl.arms.len(), 3);
    assert_eq!(out.enum_decl.arms[0].name, "Int");
    assert_eq!(out.enum_decl.arms[0].payload, Some("State<Int>".to_string()));
    assert_eq!(out.enum_decl.arms[2].payload, Some("State<Unit>".to_string()));
    assert_eq!(out.conversions.len(), 3);
    assert_eq!(out.conversions[1].payload_ty, "State<UInt>");
    assert_eq!(out.impls.len(), 1);
    assert_eq!(out.transition.state_name, "State");
    assert_eq!(out.transition.state_field, "state");
}

#[test]
fn template_mode_declares_the_envelope() {
    let blocks = DelegateBlocks { traits: Vec::new(), inherent: Vec::new() };
    let fields = vec![declarative_type_state::ast::FieldDef {
        name: "ticks".to_string(),
        ty: "u64".to_string(),
    }];
    let (decl, out) = type_state_enum_with_struct(
        &vec!["derive(Clone, Debug)".to_string()],
        &"pub".to_string(),
        &"State".to_string(),
        &fields,
        &vec!["derive(Clone, Debug)".to_string()],
        &state_template(),
        &blocks,
    );
    assert_eq!(decl.name, "State");
    assert_eq!(decl.generics, vec!["T: ?Sized".to_string()]);
    match &decl.shape {
        AstShape::Record(fs) => {
            assert_eq!(fs.len(), 2);
            assert_eq!(fs[0].name, "ticks");
            assert_eq!(fs[1].name, "state");
            assert_eq!(fs[1].ty, "T");
        },
        _ => panic!("the envelope is a record type"),
    }
    assert_eq!(out.transition.state_field, "state");
    assert_eq!(out.enum_decl.arms[0].payload, Some("State<Int>".to_string()));
}
