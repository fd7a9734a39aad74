//! The program: a call graph and the table from an identity to the position
//! of the call target that carries it.

use crate::graph::{
    graph_add_node, graph_edges, graph_new, graph_nodes, has_room, has_vacancy, CallGraph,
    NODE_LIMIT,
};
use crate::identity::{fresh_identity, is_random_layout, Identity};
use crate::target::{CallKind, CallTarget};
use std::collections::HashMap;
use vstd::multiset::Multiset;
use vstd::prelude::*;
use vstd::relations::injective_on;
use vstd::set_lib::lemma_map_size;

verus! {

broadcast use vstd::std_specs::hash::group_hash_axioms;

/// The identity carried by what stands at a position of the graph: none
/// for a vacant position and for a target without identity.
pub open spec fn carried(node: Option<CallTarget>) -> Option<Identity> {
    match node {
        Some(target) => target@.identity(),
        None => None,
    }
}

/// One loaded binary: its call graph and its symbol table.
pub struct Program {
    uuid: Identity,
    call_graph: CallGraph,
    symbol_table: HashMap<Identity, usize>,
}

impl Program {
    /// The identity of the program.
    pub closed spec fn identity(&self) -> Identity {
        self.uuid
    }

    /// The positions of the call graph, in order: at each the target that
    /// stands there, or `None` where the position is vacant.
    pub closed spec fn nodes(&self) -> Seq<Option<CallTarget>> {
        graph_nodes(self.call_graph)
    }

    /// The edges of the call graph.
    pub closed spec fn edges(&self) -> Multiset<(nat, nat, CallKind)> {
        graph_edges(self.call_graph)
    }

    /// The symbol table: the position recorded for each registered identity.
    pub closed spec fn symbols(&self) -> Map<Identity, usize> {
        self.symbol_table@
    }

    /// Whether the symbol table's entry for `identity` leads to a target that
    /// carries this identity.
    pub open spec fn points_home(&self, identity: Identity) -> bool {
        let position = self.symbols()[identity];
        &&& position < self.nodes().len()
        &&& carried(self.nodes()[position as int]) == Some(identity)
    }

    /// The invariant of a program: every entry of the symbol table leads to a
    /// target of the graph that carries the entry's key as its identity.
    pub open spec fn wf(&self) -> bool {
        forall|identity: Identity| #[trigger]
            self.symbols().contains_key(identity) ==> self.points_home(identity)
    }

    /// Whether the identity of what stands at `position`, if it carries one,
    /// is a key of the symbol table.
    pub open spec fn registered_at(&self, position: int) -> bool {
        match carried(self.nodes()[position]) {
            Some(identity) => self.symbols().contains_key(identity),
            None => true,
        }
    }

    /// Whether the symbol table holds the identity of every target that
    /// carries one.
    pub open spec fn covered(&self) -> bool {
        forall|position: int|
            0 <= position < self.nodes().len() ==> #[trigger] self.registered_at(position)
    }

    /// Whether no two targets of the graph carry the same identity.
    pub open spec fn distinct(&self) -> bool {
        forall|i: int, j: int|
            #![trigger self.nodes()[i], self.nodes()[j]]
            0 <= i < j < self.nodes().len() && carried(self.nodes()[i]) is Some ==> carried(
                self.nodes()[i],
            ) != carried(self.nodes()[j])
    }

    /// The positions at which a target with an identity stands.
    pub open spec fn identified(&self) -> Set<int> {
        Set::new(|i: int| 0 <= i < self.nodes().len() && carried(self.nodes()[i]) is Some)
    }

    /// Whether the graph can take one more target.
    pub open spec fn has_room(&self) -> bool {
        has_room(self.nodes())
    }

    /// How the graph's positions stand after `target` was added at
    /// `position`: a vacant position was taken again, or, where none was
    /// vacant, the target stands after the last position.
    pub open spec fn placed(
        before: Seq<Option<CallTarget>>,
        after: Seq<Option<CallTarget>>,
        target: CallTarget,
        position: usize,
    ) -> bool {
        if has_vacancy(before) {
            &&& position < before.len()
            &&& before[position as int] is None
            &&& after == before.update(position as int, Some(target))
        } else {
            &&& position == before.len()
            &&& after == before.push(Some(target))
        }
    }

    /// A program without targets, edges or symbols, under an identity of its own.
    pub fn new() -> (program: Program)
        ensures
            program.wf(),
            program.covered(),
            program.nodes() == Seq::<Option<CallTarget>>::empty(),
            program.edges() == Multiset::<(nat, nat, CallKind)>::empty(),
            program.symbols() == Map::<Identity, usize>::empty(),
            is_random_layout(program.identity()),
    {
        Program { uuid: fresh_identity(), call_graph: graph_new(), symbol_table: HashMap::new() }
    }

    /// Adds `target` to the call graph and returns its position. The symbol
    /// table is left as it is: see [`Program::register`].
    pub fn add_target(&mut self, target: CallTarget) -> (position: usize)
        requires
            old(self).has_room(),
        ensures
            position < NODE_LIMIT,
            Self::placed(old(self).nodes(), final(self).nodes(), target, position),
            final(self).edges() == old(self).edges(),
            final(self).symbols() == old(self).symbols(),
            final(self).identity() == old(self).identity(),
            old(self).wf() ==> final(self).wf(),
            old(self).covered() && (target@.identity() matches Some(identity) ==> old(
                self,
            ).symbols().contains_key(identity)) ==> final(self).covered(),
    {
        let position = graph_add_node(&mut self.call_graph, target);
        proof {
            if old(self).covered() && (target@.identity() matches Some(identity) ==> old(
                self,
            ).symbols().contains_key(identity)) {
                assert forall|i: int| 0 <= i < self.nodes().len() implies #[trigger]
                    self.registered_at(i) by {
                    if i != position {
                        assert(old(self).registered_at(i));
                    }
                }
            }
        }
        position
    }

    /// Adds `target` to the call graph and, where it carries an identity,
    /// records the identity with the target's position in the symbol table,
    /// in one step. Returns the position.
    ///
    /// An identity that the table held already is recorded anew, with the
    /// position of `target`.
    pub fn register(&mut self, target: CallTarget) -> (position: usize)
        requires
            old(self).has_room(),
        ensures
            position < NODE_LIMIT,
            Self::placed(old(self).nodes(), final(self).nodes(), target, position),
            final(self).edges() == old(self).edges(),
            final(self).symbols() == match target@.identity() {
                Some(identity) => old(self).symbols().insert(identity, position),
                None => old(self).symbols(),
            },
            final(self).identity() == old(self).identity(),
            old(self).wf() ==> final(self).wf(),
            old(self).covered() ==> final(self).covered(),
    {
        let identity = target.identity();
        let position = graph_add_node(&mut self.call_graph, target);
        match identity {
            Some(identity) => {
                self.symbol_table.insert(identity, position);
            },
            None => {},
        }
        proof {
            let before = old(self).nodes();
            assert forall|i: int| 0 <= i < before.len() && before[i] is Some implies #[trigger]
                self.nodes()[i] == before[i] by {}
            if old(self).wf() {
                assert forall|key: Identity| #[trigger]
                    self.symbols().contains_key(key) implies self.points_home(key) by {
                    if identity != Some(key) {
                        assert(old(self).symbols().contains_key(key));
                        assert(old(self).points_home(key));
                    }
                }
            }
            if old(self).covered() {
                assert forall|i: int| 0 <= i < self.nodes().len() implies #[trigger]
                    self.registered_at(i) by {
                    if i != position {
                        assert(old(self).registered_at(i));
                    }
                }
            }
        }
        position
    }

    /// The position recorded for `identity`, or `None` for an identity that
    /// the symbol table does not hold.
    pub fn resolve(&self, identity: Identity) -> (position: Option<usize>)
        ensures
            position == if self.symbols().contains_key(identity) {
                Some(self.symbols()[identity])
            } else {
                None
            },
            self.wf() && position is Some ==> self.points_home(identity),
    {
        match self.symbol_table.get(&identity) {
            Some(position) => Some(*position),
            None => None,
        }
    }

    /// The identity of the program.
    pub fn uuid(&self) -> (identity: Identity)
        ensures
            identity == self.identity(),
    {
        self.uuid
    }

    /// The call graph.
    pub fn call_graph(&self) -> (graph: &CallGraph)
        ensures
            graph_nodes(*graph) == self.nodes(),
            graph_edges(*graph) == self.edges(),
    {
        &self.call_graph
    }

    /// The call graph, to be changed in place.
    pub fn call_graph_mut(&mut self) -> (graph: &mut CallGraph)
        ensures
            graph_nodes(*graph) == old(self).nodes(),
            graph_edges(*graph) == old(self).edges(),
            final(self).nodes() == graph_nodes(*final(graph)),
            final(self).edges() == graph_edges(*final(graph)),
            final(self).symbols() == old(self).symbols(),
            final(self).identity() == old(self).identity(),
    {
        &mut self.call_graph
    }

    /// The symbol table.
    pub fn symbol_table(&self) -> (table: &HashMap<Identity, usize>)
        ensures
            table@ == self.symbols(),
    {
        &self.symbol_table
    }

    /// The symbol table, to be changed in place.
    pub fn symbol_table_mut(&mut self) -> (table: &mut HashMap<Identity, usize>)
        ensures
            table@ == old(self).symbols(),
            final(self).symbols() == final(table)@,
            final(self).nodes() == old(self).nodes(),
            final(self).edges() == old(self).edges(),
            final(self).identity() == old(self).identity(),
    {
        &mut self.symbol_table
    }
}

/// The symbol table and the targets that carry an identity match one to
/// one: in a well-formed program that has registered every target and in
/// which no two targets carry the same identity, the table has as many
/// entries as the graph has targets with an identity, every entry leads to
/// the target that carries its key, and every such target is found under its
/// identity at its own position.
pub proof fn lemma_symbols_match_targets(program: Program)
    requires
        program.wf(),
        program.covered(),
        program.distinct(),
    ensures
        program.identified().finite(),
        program.symbols().dom().finite(),
        program.symbols().len() == program.identified().len(),
        forall|identity: Identity| #[trigger]
            program.symbols().contains_key(identity) ==> program.points_home(identity),
        forall|position: int| #[trigger]
            program.identified().contains(position) ==> program.symbols().contains_key(
                carried(program.nodes()[position])->0,
            ) && program.symbols()[carried(program.nodes()[position])->0] == position,
{
    let keys = program.symbols().dom();
    let position_of = |identity: Identity| program.symbols()[identity] as int;
    assert forall|position: int| #[trigger]
        program.identified().contains(position) implies program.symbols().contains_key(
        carried(program.nodes()[position])->0,
    ) && program.symbols()[carried(program.nodes()[position])->0] == position by {
        let identity = carried(program.nodes()[position])->0;
        assert(program.registered_at(position));
        assert(program.points_home(identity));
        let home = program.symbols()[identity] as int;
        if home < position {
            assert(carried(program.nodes()[home]) != carried(program.nodes()[position]));
        } else if position < home {
            assert(carried(program.nodes()[position]) != carried(program.nodes()[home]));
        }
    }
    assert(injective_on(position_of, keys)) by {
        assert forall|a: Identity, b: Identity|
            keys.contains(a) && keys.contains(b) && #[trigger] position_of(a)
                == #[trigger] position_of(b) implies a == b by {
            assert(program.points_home(a));
            assert(program.points_home(b));
        }
    }
    assert(keys.map(position_of) =~= program.identified()) by {
        assert forall|position: int| program.identified().contains(position) implies keys.map(
            position_of,
        ).contains(position) by {
            let identity = carried(program.nodes()[position])->0;
            assert(keys.contains(identity) && position_of(identity) == position);
        }
        assert forall|position: int|
            keys.map(position_of).contains(position) implies program.identified().contains(
            position,
        ) by {
            let identity = choose|identity: Identity|
                keys.contains(identity) && position == position_of(identity);
            assert(program.points_home(identity));
        }
    }
    lemma_map_size(keys, program.identified(), position_of);
}

} // verus!
