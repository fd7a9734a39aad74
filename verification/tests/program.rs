use olympia_core::graph::NODE_LIMIT;
use olympia_core::{CallKind, CallTarget, Function, Program, Rvalue};
use petgraph::graph::NodeIndex;
use uuid::{Uuid, Variant, Version};

fn todo(address: u64, name: &str, identity: u128) -> CallTarget {
    CallTarget::Todo(Rvalue::new_u64(address), Some(name.to_string()), identity)
}

fn symbolic(name: &str, identity: u128) -> CallTarget {
    CallTarget::Symbolic(name.to_string(), identity)
}

fn node(program: &Program, position: usize) -> Option<&CallTarget> {
    program.call_graph().node_weight(NodeIndex::new(position))
}

#[test]
fn new_program_is_empty() {
    let program = Program::new();
    assert_eq!(program.call_graph().node_count(), 0);
    assert_eq!(program.call_graph().edge_count(), 0);
    assert!(program.symbol_table().is_empty());
}

#[test]
fn new_program_carries_a_random_uuid() {
    let uuid = Uuid::from_u128(Program::new().uuid());
    assert_eq!(uuid.get_version(), Some(Version::Random));
    assert_eq!(uuid.get_variant(), Variant::RFC4122);
}

#[test]
fn two_programs_have_two_identities() {
    assert_ne!(Program::new().uuid(), Program::new().uuid());
}

#[test]
fn uuid_is_stable_for_one_program() {
    let mut program = Program::new();
    let before = program.uuid();
    program.register(symbolic("puts", 1));
    assert_eq!(program.uuid(), before);
}

#[test]
fn identity_of_each_state() {
    assert_eq!(symbolic("puts", 5).identity(), Some(5));
    assert_eq!(todo(0x10, "main", 6).identity(), Some(6));
    assert_eq!(CallTarget::Concrete(Function {}).identity(), None);
}

#[test]
fn add_target_adds_a_node_and_no_symbol() {
    let mut program = Program::new();
    let position = program.add_target(symbolic("puts", 7));
    assert_eq!(position, 0);
    assert_eq!(program.call_graph().node_count(), 1);
    assert!(matches!(node(&program, 0), Some(CallTarget::Symbolic(name, 7)) if name == "puts"));
    assert!(program.symbol_table().is_empty());
    assert_eq!(program.resolve(7), None);
}

#[test]
fn add_target_then_insert_is_the_two_step_form() {
    let mut program = Program::new();
    let position = program.add_target(todo(0x400, "start", 9));
    program.symbol_table_mut().insert(9, position);
    assert_eq!(program.resolve(9), Some(0));
    assert_eq!(program.symbol_table().len(), 1);
}

#[test]
fn register_records_identity_with_position() {
    let mut program = Program::new();
    let first = program.register(todo(0x1000, "main", 11));
    let second = program.register(symbolic("puts", 12));
    assert_eq!((first, second), (0, 1));
    assert_eq!(program.call_graph().node_count(), 2);
    assert_eq!(program.symbol_table().len(), 2);
    assert_eq!(program.resolve(11), Some(0));
    assert_eq!(program.resolve(12), Some(1));
    assert!(matches!(
        node(&program, 0),
        Some(CallTarget::Todo(Rvalue::Constant { value: 0x1000, size: 64 }, Some(name), 11))
            if name == "main"
    ));
    assert!(matches!(node(&program, 1), Some(CallTarget::Symbolic(name, 12)) if name == "puts"));
}

#[test]
fn register_of_a_concrete_target_records_nothing() {
    let mut program = Program::new();
    let position = program.register(CallTarget::Concrete(Function {}));
    assert_eq!(position, 0);
    assert_eq!(program.call_graph().node_count(), 1);
    assert!(program.symbol_table().is_empty());
    assert!(matches!(node(&program, 0), Some(CallTarget::Concrete(_))));
}

#[test]
fn register_of_a_known_identity_records_the_new_position() {
    let mut program = Program::new();
    program.register(symbolic("old", 3));
    let position = program.register(symbolic("new", 3));
    assert_eq!(position, 1);
    assert_eq!(program.call_graph().node_count(), 2);
    assert_eq!(program.symbol_table().len(), 1);
    assert_eq!(program.resolve(3), Some(1));
}

#[test]
fn resolve_of_an_unknown_identity_is_none() {
    let mut program = Program::new();
    assert_eq!(program.resolve(1), None);
    program.register(symbolic("puts", 2));
    assert_eq!(program.resolve(1), None);
    assert_eq!(program.resolve(2), Some(0));
}

#[test]
fn every_entry_leads_to_the_target_with_its_key() {
    let mut program = Program::new();
    program.register(todo(0x10, "a", 100));
    program.register(CallTarget::Concrete(Function {}));
    program.register(symbolic("b", 200));
    program.register(todo(0x20, "c", 300));
    let with_identity = (0..4).filter(|p| node(&program, *p).unwrap().identity().is_some()).count();
    assert_eq!(program.symbol_table().len(), with_identity);
    assert_eq!(with_identity, 3);
    for (identity, position) in program.symbol_table() {
        assert_eq!(node(&program, *position).unwrap().identity(), Some(*identity));
    }
    for position in 0..4 {
        if let Some(identity) = node(&program, position).unwrap().identity() {
            assert_eq!(program.resolve(identity), Some(position));
        }
    }
}

#[test]
fn positions_stay_valid_when_another_node_is_removed() {
    let mut program = Program::new();
    program.register(symbolic("a", 1));
    program.register(symbolic("b", 2));
    program.register(symbolic("c", 3));
    program.call_graph_mut().remove_node(NodeIndex::new(1));
    assert!(matches!(node(&program, 0), Some(CallTarget::Symbolic(name, 1)) if name == "a"));
    assert!(node(&program, 1).is_none());
    assert!(matches!(node(&program, 2), Some(CallTarget::Symbolic(name, 3)) if name == "c"));
    assert_eq!(program.resolve(3), Some(2));
}

#[test]
fn register_takes_a_vacant_position_again() {
    let mut program = Program::new();
    program.register(symbolic("a", 1));
    program.register(symbolic("b", 2));
    program.register(symbolic("c", 3));
    program.call_graph_mut().remove_node(NodeIndex::new(1));
    program.symbol_table_mut().remove(&2);
    let position = program.register(symbolic("d", 4));
    assert_eq!(position, 1);
    assert_eq!(program.call_graph().node_count(), 3);
    assert_eq!(program.resolve(4), Some(1));
    assert!(matches!(node(&program, 2), Some(CallTarget::Symbolic(name, 3)) if name == "c"));
}

#[test]
fn edges_can_be_added_beside_the_symbol_table() {
    let mut program = Program::new();
    let main = program.register(todo(0x1000, "main", 1));
    let puts = program.register(symbolic("puts", 2));
    let edge = program.call_graph_mut().add_edge(
        NodeIndex::new(main),
        NodeIndex::new(puts),
        CallKind::Call,
    );
    program.call_graph_mut().add_edge(
        NodeIndex::new(main),
        NodeIndex::new(main),
        CallKind::Conditional,
    );
    assert_eq!(program.call_graph().edge_count(), 2);
    assert!(matches!(program.call_graph().edge_weight(edge), Some(CallKind::Call)));
    assert_eq!(program.call_graph().node_count(), 2);
    assert_eq!(program.resolve(1), Some(0));
    assert_eq!(program.resolve(2), Some(1));
}

#[test]
fn call_kinds_are_four() {
    let kinds = [
        CallKind::Unresolved,
        CallKind::Conditional,
        CallKind::Unconditional,
        CallKind::Call,
    ];
    let names: Vec<String> = kinds.iter().map(|k| format!("{:?}", k.clone())).collect();
    assert_eq!(names, vec!["Unresolved", "Conditional", "Unconditional", "Call"]);
}

#[test]
fn node_limit_is_the_largest_32_bit_number() {
    assert_eq!(NODE_LIMIT, u32::MAX as usize);
    assert_eq!(NodeIndex::<u32>::end().index(), NODE_LIMIT);
}
