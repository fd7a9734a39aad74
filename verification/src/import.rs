//! The symbol importer: from the symbols of an ELF file to the targets of a
//! call graph.

use crate::error::LoadError;
use crate::graph::{has_vacancy, NODE_LIMIT};
use crate::identity::{fresh_identity, is_random_layout, Identity};
use crate::image::{symbol_views, ElfImage, Symbol};
use crate::object::{symbol_is_function, symbol_is_import, ElfView, SymbolView};
use crate::program::{carried, lemma_symbols_match_targets, Program};
use crate::target::{CallKind, CallTarget, CallTargetView, TargetShape};
use crate::value::{Rvalue, RvalueView};
use vstd::multiset::Multiset;
use vstd::prelude::*;
use vstd::set_lib::{lemma_int_range, set_int_range};

verus! {

/// The target that a symbol becomes under `identity`: none for a symbol that
/// is no function, a symbolic target for a function that is imported, and
/// for any other function a pending target at the symbol's address.
pub open spec fn symbol_target(symbol: SymbolView, identity: Identity) -> Option<
    CallTargetView,
> {
    if !symbol.entry.is_function() {
        None
    } else if symbol.entry.is_import() {
        Some(CallTargetView::Symbolic { name: symbol.name, identity })
    } else {
        Some(
            CallTargetView::Todo {
                value: RvalueView::address(symbol.entry.value),
                label: Some(symbol.name),
                identity,
            },
        )
    }
}

/// The target that a symbol becomes, without its identity.
pub open spec fn symbol_shape(symbol: SymbolView) -> Option<TargetShape> {
    match symbol_target(symbol, 0) {
        Some(target) => Some(target.shape()),
        None => None,
    }
}

/// The targets that the symbols of a table become, in the table's order and
/// without their identities.
pub open spec fn symbol_shapes(symbols: Seq<SymbolView>) -> Seq<TargetShape> {
    symbols.filter_map(|symbol: SymbolView| symbol_shape(symbol))
}

/// The name under which a file's entry point is shown: the name that the
/// file declares for itself as a shared object, and `name` where it
/// declares none.
pub open spec fn display_name(elf: ElfView, name: Seq<char>) -> Seq<char> {
    match elf.soname {
        Some(soname) => soname,
        None => name,
    }
}

/// The target that stands for a file's entry point, without its identity.
pub open spec fn entry_shape(elf: ElfView, name: Seq<char>) -> TargetShape {
    TargetShape::Todo {
        value: RvalueView::address(elf.entry),
        label: Some(display_name(elf, name)),
    }
}

/// The targets that the import of a file makes, in the order of their
/// positions and without their identities: the entry point first, then the
/// functions among the dynamic symbols, then those among the static ones.
pub open spec fn import_shapes(elf: ElfView, name: Seq<char>) -> Seq<TargetShape> {
    seq![entry_shape(elf, name)] + symbol_shapes(elf.dynsyms) + symbol_shapes(elf.syms)
}

/// What stands at a position of the graph, without its identity.
pub open spec fn shape_at(node: Option<CallTarget>) -> Option<TargetShape> {
    match node {
        Some(target) => Some(target@.shape()),
        None => None,
    }
}

/// Whether the graph of `program` holds exactly the targets `shapes`, in
/// this order from position 0 and with no position vacant.
pub open spec fn holds_shapes(program: Program, shapes: Seq<TargetShape>) -> bool {
    &&& program.nodes().len() == shapes.len()
    &&& forall|i: int|
        0 <= i < shapes.len() ==> shape_at(#[trigger] program.nodes()[i]) == Some(shapes[i])
}

/// Whether every identity that a target of `program` carries has the
/// layout of a random UUID, as every minted identity has.
pub open spec fn minted(program: Program) -> bool {
    forall|position: int|
        0 <= position < program.nodes().len() ==> match carried(
            #[trigger] program.nodes()[position],
        ) {
            Some(identity) => is_random_layout(identity),
            None => true,
        }
}

/// Whether `program` is what the import of `elf` under `name` makes: its
/// graph holds the file's targets and no edge, every target carries a
/// minted identity, and the symbol table holds the identity of every target
/// and leads from each to a target that carries it.
pub open spec fn imported(program: Program, elf: ElfView, name: Seq<char>) -> bool {
    &&& program.wf()
    &&& program.covered()
    &&& minted(program)
    &&& holds_shapes(program, import_shapes(elf, name))
    &&& program.edges() == Multiset::<(nat, nat, CallKind)>::empty()
}

/// The import of a table goes symbol by symbol: the first `count` symbols
/// make no more targets than the whole table, and one symbol more adds its
/// target, where it has one, after theirs.
pub proof fn lemma_symbol_shapes_prefix(symbols: Seq<SymbolView>, count: int)
    requires
        0 <= count <= symbols.len(),
    ensures
        symbol_shapes(symbols.take(count)).len() <= symbol_shapes(symbols).len(),
        count < symbols.len() ==> symbol_shapes(symbols.take(count + 1)) == match symbol_shape(
            symbols[count],
        ) {
            Some(shape) => symbol_shapes(symbols.take(count)).push(shape),
            None => symbol_shapes(symbols.take(count)),
        },
    decreases symbols.len() - count,
{
    if count == symbols.len() {
        assert(symbols.take(count) =~= symbols);
    } else {
        let longer = symbols.take(count + 1);
        assert(longer.drop_last() =~= symbols.take(count));
        assert(longer.last() == symbols[count]);
        lemma_symbol_shapes_prefix(symbols, count + 1);
    }
}

/// The call target that `symbol` becomes under `identity`, or `None` for a
/// symbol that is no function.
pub fn symbol_target_of(symbol: &Symbol, identity: Identity) -> (target: Option<CallTarget>)
    ensures
        match target {
            Some(target) => symbol_target(symbol@, identity) == Some(target@),
            None => symbol_target(symbol@, identity) is None,
        },
{
    if !symbol_is_function(&symbol.entry) {
        None
    } else if symbol_is_import(&symbol.entry) {
        Some(CallTarget::Symbolic(symbol.name.clone(), identity))
    } else {
        Some(
            CallTarget::Todo(
                Rvalue::new_u64(symbol.entry.value),
                Some(symbol.name.clone()),
                identity,
            ),
        )
    }
}

/// Adds the target that `symbol` becomes to `program`, under an identity
/// minted for it, and registers it. Returns the target's position, or
/// `None` for a symbol that is no function, which leaves the program as it
/// is.
pub fn add_symbol(program: &mut Program, symbol: &Symbol) -> (position: Option<usize>)
    requires
        symbol@.entry.is_function() ==> old(program).has_room(),
    ensures
        final(program).identity() == old(program).identity(),
        final(program).edges() == old(program).edges(),
        old(program).wf() ==> final(program).wf(),
        old(program).covered() ==> final(program).covered(),
        minted(*old(program)) ==> minted(*final(program)),
        match position {
            Some(position) => {
                &&& position < final(program).nodes().len()
                &&& final(program).nodes()[position as int] matches Some(target)
                &&& target@.identity() matches Some(identity)
                &&& is_random_layout(identity)
                &&& symbol_target(symbol@, identity) == Some(target@)
                &&& Program::placed(
                    old(program).nodes(),
                    final(program).nodes(),
                    target,
                    position,
                )
                &&& final(program).symbols() == old(program).symbols().insert(identity, position)
            },
            None => {
                &&& !symbol@.entry.is_function()
                &&& final(program).nodes() == old(program).nodes()
                &&& final(program).symbols() == old(program).symbols()
            },
        },
{
    let identity = fresh_identity();
    match symbol_target_of(symbol, identity) {
        Some(target) => Some(program.register(target)),
        None => None,
    }
}

/// Adds the targets that `symbols` become to `program`, in the order of
/// the symbols, each under an identity minted for it.
fn import_symbols(program: &mut Program, symbols: &Vec<Symbol>)
    requires
        !has_vacancy(old(program).nodes()),
        old(program).nodes().len() + symbol_shapes(symbol_views(symbols@)).len() <= NODE_LIMIT,
    ensures
        final(program).identity() == old(program).identity(),
        final(program).edges() == old(program).edges(),
        old(program).wf() ==> final(program).wf(),
        old(program).covered() ==> final(program).covered(),
        minted(*old(program)) ==> minted(*final(program)),
        !has_vacancy(final(program).nodes()),
        final(program).nodes().len() == old(program).nodes().len() + symbol_shapes(
            symbol_views(symbols@),
        ).len(),
        forall|i: int|
            0 <= i < old(program).nodes().len() ==> #[trigger] final(program).nodes()[i] == old(
                program,
            ).nodes()[i],
        forall|k: int|
            0 <= k < symbol_shapes(symbol_views(symbols@)).len() ==> shape_at(
                #[trigger] final(program).nodes()[old(program).nodes().len() + k],
            ) == Some(symbol_shapes(symbol_views(symbols@))[k]),
{
    let ghost views = symbol_views(symbols@);
    let ghost start = old(program).nodes().len();
    let mut index: usize = 0;
    while index < symbols.len()
        invariant
            index <= symbols.len(),
            views == symbol_views(symbols@),
            start == old(program).nodes().len(),
            start + symbol_shapes(views).len() <= NODE_LIMIT,
            program.identity() == old(program).identity(),
            program.edges() == old(program).edges(),
            old(program).wf() ==> program.wf(),
            old(program).covered() ==> program.covered(),
            minted(*old(program)) ==> minted(*program),
            !has_vacancy(program.nodes()),
            program.nodes().len() == start + symbol_shapes(views.take(index as int)).len(),
            forall|i: int|
                0 <= i < start ==> #[trigger] program.nodes()[i] == old(program).nodes()[i],
            forall|k: int|
                0 <= k < symbol_shapes(views.take(index as int)).len() ==> shape_at(
                    #[trigger] program.nodes()[start + k],
                ) == Some(symbol_shapes(views.take(index as int))[k]),
        decreases symbols.len() - index,
    {
        proof {
            lemma_symbol_shapes_prefix(views, index as int);
            lemma_symbol_shapes_prefix(views, index as int + 1);
        }
        let ghost before = program.nodes();
        let added = add_symbol(program, &symbols[index]);
        proof {
            assert(views[index as int] == symbols[index as int]@);
            match added {
                Some(position) => {
                    assert(!has_vacancy(program.nodes())) by {
                        if has_vacancy(program.nodes()) {
                            let vacant = choose|i: int|
                                0 <= i < program.nodes().len() && (
                                #[trigger] program.nodes()[i]) is None;
                            assert(before[vacant] is None);
                        }
                    }
                },
                None => {},
            }
        }
        index += 1;
    }
    proof {
        assert(views.take(index as int) =~= views);
    }
}

/// The number of targets that the import of `elf` makes: one for the entry
/// point and one for each function among the symbols.
pub open spec fn import_size(elf: ElfView) -> nat {
    1 + symbol_shapes(elf.dynsyms).len() + symbol_shapes(elf.syms).len()
}

/// The number of functions among `symbols`: the number of targets that
/// their import makes.
pub fn function_count(symbols: &Vec<Symbol>) -> (count: usize)
    ensures
        count == symbol_shapes(symbol_views(symbols@)).len(),
{
    let ghost views = symbol_views(symbols@);
    let mut count: usize = 0;
    let mut index: usize = 0;
    while index < symbols.len()
        invariant
            index <= symbols.len(),
            views == symbol_views(symbols@),
            count <= index,
            count == symbol_shapes(views.take(index as int)).len(),
        decreases symbols.len() - index,
    {
        proof {
            lemma_symbol_shapes_prefix(views, index as int);
            assert(views[index as int] == symbols[index as int]@);
        }
        if symbol_is_function(&symbols[index].entry) {
            count += 1;
        }
        index += 1;
    }
    proof {
        assert(views.take(index as int) =~= views);
    }
    count
}

/// Whether a call graph has a position for every target that the import of
/// `elf` makes.
pub fn fits_graph(elf: &ElfImage) -> (fits: bool)
    ensures
        fits == (import_size(elf@) <= NODE_LIMIT),
{
    let dynamic = function_count(&elf.dynsyms);
    let own = function_count(&elf.syms);
    dynamic < NODE_LIMIT && own < NODE_LIMIT - dynamic
}

/// Imports an ELF file: makes a program, adds a pending target for the
/// entry point, shown under the file's shared-object name or else under
/// `name`, and then a target for each function among the dynamic symbols
/// and among the static ones.
///
/// The graph must have a position for every target. Each target gets an
/// identity minted at random; whatever the identities are, the program is
/// well formed and every target is registered.
pub fn load_elf(elf: ElfImage, name: String) -> (result: Result<Program, LoadError>)
    requires
        import_size(elf@) <= NODE_LIMIT,
    ensures
        result matches Ok(program) && imported(program, elf@, name@),
{
    let ghost file = elf@;
    let ghost shapes = import_shapes(file, name@);
    let mut program = Program::new();
    let ElfImage { entry, soname, dynsyms, syms } = elf;
    let name = match soname {
        Some(soname) => soname,
        None => name,
    };
    let entry_identity = fresh_identity();
    program.register(CallTarget::Todo(Rvalue::new_u64(entry), Some(name), entry_identity));
    let ghost seeded = program.nodes();
    assert(!has_vacancy(seeded) && seeded.len() == 1 && shape_at(seeded[0]) == Some(shapes[0]));
    import_symbols(&mut program, &dynsyms);
    let ghost dynamic = program.nodes();
    import_symbols(&mut program, &syms);
    proof {
        assert forall|i: int| 0 <= i < shapes.len() implies shape_at(
            #[trigger] program.nodes()[i],
        ) == Some(shapes[i]) by {
            if i < dynamic.len() {
                assert(program.nodes()[i] == dynamic[i]);
                if i < 1 {
                    assert(dynamic[i] == seeded[i]);
                } else {
                    assert(dynamic[i] == dynamic[1 + (i - 1)]);
                }
            } else {
                assert(program.nodes()[i] == program.nodes()[dynamic.len() + (i - dynamic.len())]);
            }
        }
    }
    Ok(program)
}

/// The functions among the symbols of a table, in the table's order.
pub open spec fn functions(symbols: Seq<SymbolView>) -> Seq<SymbolView> {
    symbols.filter(|symbol: SymbolView| symbol.entry.is_function())
}

/// What becomes of a symbol depends on its class alone: a function that is
/// imported becomes a symbolic target under its name, never a pending one;
/// a function that the file defines becomes a pending target that carries
/// the symbol's address as a constant of 64 bits; a symbol that is no
/// function becomes no target.
pub proof fn lemma_symbol_classes(symbol: SymbolView, identity: Identity)
    ensures
        symbol.entry.is_function() && symbol.entry.is_import() ==> symbol_target(symbol, identity)
            == Some(CallTargetView::Symbolic { name: symbol.name, identity }),
        symbol.entry.is_function() && !symbol.entry.is_import() ==> symbol_target(
            symbol,
            identity,
        ) == Some(
            CallTargetView::Todo {
                value: RvalueView::Constant { value: symbol.entry.value, size: 64 },
                label: Some(symbol.name),
                identity,
            },
        ),
        !symbol.entry.is_function() ==> symbol_target(symbol, identity) is None,
        symbol_shape(symbol) == match symbol_target(symbol, identity) {
            Some(target) => Some(target.shape()),
            None => None,
        },
{
}

/// The import of a table makes one target for each function among its
/// symbols, in the order of the symbols, and none for any other symbol.
pub proof fn lemma_one_target_per_function(symbols: Seq<SymbolView>)
    ensures
        symbol_shapes(symbols).len() == functions(symbols).len(),
        forall|i: int|
            0 <= i < functions(symbols).len() ==> symbol_shape(#[trigger] functions(symbols)[i])
                == Some(symbol_shapes(symbols)[i]),
    decreases symbols.len(),
{
    reveal(Seq::filter);
    if symbols.len() > 0 {
        lemma_one_target_per_function(symbols.drop_last());
    }
}

/// The entry point comes first: in the import of a file, position 0 holds a
/// pending target at the file's entry address, as a constant of 64 bits,
/// and every later position holds the target of a symbol.
pub proof fn lemma_entry_point_first(program: Program, elf: ElfView, name: Seq<char>)
    requires
        imported(program, elf, name),
    ensures
        program.nodes().len() == import_size(elf),
        shape_at(program.nodes()[0]) == Some(
            TargetShape::Todo {
                value: RvalueView::Constant { value: elf.entry, size: 64 },
                label: Some(display_name(elf, name)),
            },
        ),
        forall|i: int|
            1 <= i < program.nodes().len() ==> shape_at(#[trigger] program.nodes()[i]) == Some(
                (symbol_shapes(elf.dynsyms) + symbol_shapes(elf.syms))[i - 1],
            ),
{
    let shapes = import_shapes(elf, name);
    assert forall|i: int| 1 <= i < program.nodes().len() implies shape_at(
        #[trigger] program.nodes()[i],
    ) == Some((symbol_shapes(elf.dynsyms) + symbol_shapes(elf.syms))[i - 1]) by {
        assert(shape_at(program.nodes()[i]) == Some(shapes[i]));
    }
    assert(shape_at(program.nodes()[0]) == Some(shapes[0]));
}

/// Two imports of one file under one name agree in all but the identities:
/// their graphs hold the same number of targets, the same target without
/// its identity at every position, and the same edges.
pub proof fn lemma_same_input_same_shape(
    first: Program,
    second: Program,
    elf: ElfView,
    name: Seq<char>,
)
    requires
        imported(first, elf, name),
        imported(second, elf, name),
    ensures
        first.nodes().len() == second.nodes().len(),
        forall|i: int|
            0 <= i < first.nodes().len() ==> shape_at(#[trigger] first.nodes()[i]) == shape_at(
                second.nodes()[i],
            ),
        first.edges() == second.edges(),
{
    let shapes = import_shapes(elf, name);
    assert forall|i: int| 0 <= i < first.nodes().len() implies shape_at(
        #[trigger] first.nodes()[i],
    ) == shape_at(second.nodes()[i]) by {
        assert(shape_at(first.nodes()[i]) == Some(shapes[i]));
        assert(shape_at(second.nodes()[i]) == Some(shapes[i]));
    }
}

/// Every target that an import makes carries an identity, and where the
/// identities minted for one import differ from each other, the symbol
/// table has exactly one entry for each target: as many entries as the
/// graph has targets, and under each target's identity its own position.
pub proof fn lemma_one_symbol_per_target(program: Program, elf: ElfView, name: Seq<char>)
    requires
        imported(program, elf, name),
        program.distinct(),
    ensures
        forall|position: int|
            0 <= position < program.nodes().len() ==> carried(
                #[trigger] program.nodes()[position],
            ) is Some,
        program.symbols().len() == program.nodes().len(),
        program.symbols().len() == import_size(elf),
        forall|position: int|
            0 <= position < program.nodes().len() ==> program.symbols().contains_key(
                carried(#[trigger] program.nodes()[position])->0,
            ) && program.symbols()[carried(program.nodes()[position])->0] == position,
{
    let shapes = import_shapes(elf, name);
    let symbols = symbol_shapes(elf.dynsyms) + symbol_shapes(elf.syms);
    assert forall|position: int| 0 <= position < program.nodes().len() implies carried(
        #[trigger] program.nodes()[position],
    ) is Some by {
        assert(shape_at(program.nodes()[position]) == Some(shapes[position]));
        if position >= 1 {
            assert(shapes[position] == symbols[position - 1]);
            if position - 1 < symbol_shapes(elf.dynsyms).len() {
                lemma_shapes_carry_identity(elf.dynsyms, position - 1);
            } else {
                lemma_shapes_carry_identity(
                    elf.syms,
                    position - 1 - symbol_shapes(elf.dynsyms).len(),
                );
            }
        }
    }
    lemma_symbols_match_targets(program);
    assert(program.identified() =~= set_int_range(0, program.nodes().len() as int));
    lemma_int_range(0, program.nodes().len() as int);
    assert forall|position: int|
        0 <= position < program.nodes().len() implies program.symbols().contains_key(
        carried(#[trigger] program.nodes()[position])->0,
    ) && program.symbols()[carried(program.nodes()[position])->0] == position by {
        assert(program.identified().contains(position));
    }
}

/// No symbol becomes a disassembled function: each target of a table's
/// import is symbolic or pending.
proof fn lemma_shapes_carry_identity(symbols: Seq<SymbolView>, index: int)
    requires
        0 <= index < symbol_shapes(symbols).len(),
    ensures
        !(symbol_shapes(symbols)[index] is Concrete),
    decreases symbols.len(),
{
    if symbols.len() > 0 {
        let rest = symbol_shapes(symbols.drop_last());
        if index < rest.len() {
            lemma_shapes_carry_identity(symbols.drop_last(), index);
        }
    }
}

} // verus!
