//! An ELF file as plain values: what the import reads, copied out of the
//! parser's tables.

use crate::object::{
    named, strtab_get_at, strtab_strings, symtab_entries, symtab_get, symtab_len, ElfTables,
    ElfView, SymbolEntry, SymbolView,
};
use goblin::elf::Symtab;
use goblin::strtab::Strtab;
use vstd::prelude::*;

verus! {

/// A symbol: an entry of a symbol table with its name.
#[derive(Clone, Debug)]
pub struct Symbol {
    /// The symbol's name. It is empty where the string table has no string
    /// for the entry.
    pub name: String,
    /// The entry as the file has it.
    pub entry: SymbolEntry,
}

impl View for Symbol {
    type V = SymbolView;

    open spec fn view(&self) -> SymbolView {
        SymbolView { name: self.name@, entry: self.entry }
    }
}

/// What an ELF file holds for the import.
#[derive(Clone, Debug)]
pub struct ElfImage {
    /// The address of the entry point.
    pub entry: u64,
    /// The name that the file declares for itself as a shared object.
    pub soname: Option<String>,
    /// The dynamic symbols: what the file imports and exports.
    pub dynsyms: Vec<Symbol>,
    /// The static symbols: what the file defines for itself.
    pub syms: Vec<Symbol>,
}

/// The views of a sequence of symbols.
pub open spec fn symbol_views(symbols: Seq<Symbol>) -> Seq<SymbolView> {
    symbols.map_values(|symbol: Symbol| symbol@)
}

impl View for ElfImage {
    type V = ElfView;

    open spec fn view(&self) -> ElfView {
        ElfView {
            entry: self.entry,
            soname: match self.soname {
                Some(name) => Some(name@),
                None => None,
            },
            dynsyms: symbol_views(self.dynsyms@),
            syms: symbol_views(self.syms@),
        }
    }
}

/// Reads a symbol table into a vector, each entry with the name that
/// `names` yields at the entry's name offset. An entry for which `names`
/// yields no string keeps its place, with an empty name.
pub fn read_symbols(table: &Symtab, names: &Strtab) -> (symbols: Vec<Symbol>)
    ensures
        symbol_views(symbols@) == named(symtab_entries(*table), strtab_strings(*names)),
{
    let len = symtab_len(table);
    let mut symbols: Vec<Symbol> = Vec::new();
    let mut index: usize = 0;
    while index < len
        invariant
            index <= len,
            len == symtab_entries(*table).len(),
            symbols.len() == index,
            forall|i: int|
                0 <= i < index ==> (#[trigger] symbols[i])@ == named(
                    symtab_entries(*table),
                    strtab_strings(*names),
                )[i],
        decreases len - index,
    {
        match symtab_get(table, index) {
            Some(entry) => {
                let name = match strtab_get_at(names, entry.name) {
                    Some(name) => name,
                    None => String::new(),
                };
                symbols.push(Symbol { name, entry });
            },
            None => {},
        }
        index += 1;
    }
    assert(symbol_views(symbols@) =~= named(symtab_entries(*table), strtab_strings(*names)));
    symbols
}

/// Reads what the parser found in an ELF file into plain values.
pub fn read_elf(tables: ElfTables<'_>) -> (image: ElfImage)
    ensures
        image@ == tables@,
{
    let dynsyms = read_symbols(&tables.dynsyms, &tables.dynstrtab);
    let syms = read_symbols(&tables.syms, &tables.strtab);
    ElfImage { entry: tables.entry, soname: tables.soname, dynsyms, syms }
}

} // verus!
