//! The object-file parser, `goblin`, with the contracts under which the
//! rest of the library uses it.
//!
//! Nothing in this file is proved. Each wrapper below states what the
//! parser's own source shows of one of its functions; the types say what
//! the library takes over from a parsed file.

use goblin::elf::Symtab;
use goblin::strtab::Strtab;
use goblin::Object;
use vstd::prelude::*;

verus! {

/// `goblin::elf::Symtab`: the symbol table of an ELF file, read entry by
/// entry from the file's bytes. Verus sees nothing inside a value of it.
#[verifier::external_type_specification]
#[verifier::external_body]
pub struct ExSymtab<'a>(Symtab<'a>);

/// `goblin::strtab::Strtab`: a table of strings that is indexed by byte
/// offsets. Verus sees nothing inside a value of it.
#[verifier::external_type_specification]
#[verifier::external_body]
pub struct ExStrtab<'a>(Strtab<'a>);

/// `goblin::error::Error`: why the parser gave up on a file. Verus sees
/// nothing inside a value of it.
#[verifier::external_type_specification]
#[verifier::external_body]
pub struct ExParseError(goblin::error::Error);

/// The symbol type of a function.
pub const TYPE_FUNCTION: u8 = 2;

/// The binding of a global symbol.
pub const BIND_GLOBAL: u8 = 1;

/// The binding of a weak symbol.
pub const BIND_WEAK: u8 = 2;

/// One entry of a symbol table, field by field as the file has it.
#[derive(Clone, Copy, Debug)]
pub struct SymbolEntry {
    /// The offset of the symbol's name in the string table.
    pub name: usize,
    /// The symbol's binding, in the high four bits, and type, in the low four.
    pub info: u8,
    /// The symbol's visibility.
    pub other: u8,
    /// The index of the section that the symbol belongs to.
    pub section: usize,
    /// The symbol's value: for a function its address.
    pub value: u64,
    /// The size of what the symbol names.
    pub size: u64,
}

impl SymbolEntry {
    /// Whether the entry has the type of a function.
    pub open spec fn is_function(&self) -> bool {
        (self.info & 0xf) == TYPE_FUNCTION
    }

    /// Whether the entry stands for a symbol that another module defines: its
    /// binding is global or weak and it has no value.
    pub open spec fn is_import(&self) -> bool {
        ((self.info >> 4) == BIND_GLOBAL || (self.info >> 4) == BIND_WEAK) && self.value == 0
    }
}

/// A symbol with its name.
pub struct SymbolView {
    pub name: Seq<char>,
    pub entry: SymbolEntry,
}

/// What an ELF file holds for the import.
pub struct ElfView {
    pub entry: u64,
    pub soname: Option<Seq<char>>,
    pub dynsyms: Seq<SymbolView>,
    pub syms: Seq<SymbolView>,
}

/// A parsed object file, by its format.
pub enum ObjectView {
    Elf(ElfView),
    Pe,
    Coff,
    Mach,
    Other,
}

/// The string that a string table yields at `offset`, and the empty string
/// where it yields none.
pub open spec fn name_at(strings: Map<nat, Seq<char>>, offset: usize) -> Seq<char> {
    if strings.contains_key(offset as nat) {
        strings[offset as nat]
    } else {
        Seq::empty()
    }
}

/// The entries of a symbol table, each with the name that the string table
/// yields at the entry's name offset.
pub open spec fn named(entries: Seq<SymbolEntry>, strings: Map<nat, Seq<char>>) -> Seq<
    SymbolView,
> {
    Seq::new(
        entries.len(),
        |i: int| SymbolView { name: name_at(strings, entries[i].name), entry: entries[i] },
    )
}

/// The entries of a symbol table, in the table's order.
pub uninterp spec fn symtab_entries(table: Symtab) -> Seq<SymbolEntry>;

/// The strings of a string table: for each byte offset at which the table
/// yields a string, that string.
pub uninterp spec fn strtab_strings(table: Strtab) -> Map<nat, Seq<char>>;

/// What the library takes over from a parsed ELF file. The tables are the
/// parser's own; [`crate::image::read_elf`] reads them into plain values.
pub struct ElfTables<'a> {
    /// The address of the entry point.
    pub entry: u64,
    /// The name that the file declares for itself as a shared object.
    pub soname: Option<String>,
    /// The dynamic symbols: what the file imports and exports.
    pub dynsyms: Symtab<'a>,
    /// The strings that name the dynamic symbols.
    pub dynstrtab: Strtab<'a>,
    /// The static symbols: what the file defines for itself.
    pub syms: Symtab<'a>,
    /// The strings that name the static symbols.
    pub strtab: Strtab<'a>,
}

/// A parsed object file, by its format.
pub enum ParsedObject<'a> {
    /// An ELF file.
    Elf(ElfTables<'a>),
    /// A PE file.
    Pe,
    /// A COFF file.
    Coff,
    /// A Mach-O file, of one architecture or of several.
    Mach,
    /// Anything else that the parser can tell.
    Other,
}

impl<'a> View for ElfTables<'a> {
    type V = ElfView;

    open spec fn view(&self) -> ElfView {
        ElfView {
            entry: self.entry,
            soname: match self.soname {
                Some(name) => Some(name@),
                None => None,
            },
            dynsyms: named(symtab_entries(self.dynsyms), strtab_strings(self.dynstrtab)),
            syms: named(symtab_entries(self.syms), strtab_strings(self.strtab)),
        }
    }
}

impl<'a> View for ParsedObject<'a> {
    type V = ObjectView;

    open spec fn view(&self) -> ObjectView {
        match self {
            ParsedObject::Elf(tables) => ObjectView::Elf(tables@),
            ParsedObject::Pe => ObjectView::Pe,
            ParsedObject::Coff => ObjectView::Coff,
            ParsedObject::Mach => ObjectView::Mach,
            ParsedObject::Other => ObjectView::Other,
        }
    }
}

/// What the parser makes of a file's bytes: the format and, for an ELF
/// file, the symbols with their names; `None` for bytes that it rejects.
pub uninterp spec fn parsed_object(bytes: Seq<u8>) -> Option<ObjectView>;

/// Parses the bytes of an object file.
///
/// Calls `goblin::Object::parse`, which tells the format from the first
/// sixteen bytes and parses the file accordingly. What it makes of the
/// bytes depends on them alone and is named by [`parsed_object`]. Of an ELF
/// file the entry point, the shared-object name and the four tables are
/// taken over as they are.
#[verifier::external_body]
pub(crate) fn parse_object(bytes: &[u8]) -> (result: Result<
    ParsedObject<'_>,
    goblin::error::Error,
>)
    ensures
        match result {
            Ok(object) => parsed_object(bytes@) == Some(object@),
            Err(_) => parsed_object(bytes@) is None,
        },
{
    Ok(match Object::parse(bytes)? {
        Object::Elf(elf) => ParsedObject::Elf(ElfTables {
            entry: elf.entry,
            soname: elf.soname.map(String::from),
            dynsyms: elf.dynsyms,
            dynstrtab: elf.dynstrtab,
            syms: elf.syms,
            strtab: elf.strtab,
        }),
        Object::PE(_) => ParsedObject::Pe,
        Object::COFF(_) => ParsedObject::Coff,
        Object::Mach(_) => ParsedObject::Mach,
        _ => ParsedObject::Other,
    })
}

/// The number of entries of a symbol table.
///
/// Calls `Symtab::len`.
#[verifier::external_body]
pub(crate) fn symtab_len(table: &Symtab) -> (len: usize)
    ensures
        len == symtab_entries(*table).len(),
{
    table.len()
}

/// The entry at `index` of a symbol table, or `None` past the table's end.
///
/// Calls `Symtab::get`, which reads the entry from the table's bytes, and
/// copies the entry's six fields.
#[verifier::external_body]
pub(crate) fn symtab_get(table: &Symtab, index: usize) -> (entry: Option<SymbolEntry>)
    ensures
        entry == if index < symtab_entries(*table).len() {
            Some(symtab_entries(*table)[index as int])
        } else {
            None
        },
{
    match table.get(index) {
        Some(sym) => Some(
            SymbolEntry {
                name: sym.st_name,
                info: sym.st_info,
                other: sym.st_other,
                section: sym.st_shndx,
                value: sym.st_value,
                size: sym.st_size,
            },
        ),
        None => None,
    }
}

/// The string that a string table yields at the byte offset `offset`, or
/// `None` where it yields none, as past the table's end.
///
/// Calls `Strtab::get_at`, which looks the offset up among the strings that
/// the table was parsed into, and copies the string.
#[verifier::external_body]
pub(crate) fn strtab_get_at(table: &Strtab, offset: usize) -> (name: Option<String>)
    ensures
        match name {
            Some(name) => strtab_strings(*table).contains_key(offset as nat) && strtab_strings(
                *table,
            )[offset as nat] == name@,
            None => !strtab_strings(*table).contains_key(offset as nat),
        },
{
    match table.get_at(offset) {
        Some(name) => Some(String::from(name)),
        None => None,
    }
}

/// Whether the parser counts a symbol as a function.
///
/// Calls `Sym::is_function` on a `goblin::elf::Sym` with the entry's fields:
/// it compares the low four bits of `info` with the type of a function.
#[verifier::external_body]
pub(crate) fn symbol_is_function(entry: &SymbolEntry) -> (function: bool)
    ensures
        function == entry.is_function(),
{
    goblin::elf::Sym {
        st_name: entry.name,
        st_info: entry.info,
        st_other: entry.other,
        st_shndx: entry.section,
        st_value: entry.value,
        st_size: entry.size,
    }.is_function()
}

/// Whether the parser counts a symbol as an import.
///
/// Calls `Sym::is_import` on a `goblin::elf::Sym` with the entry's fields:
/// it asks for a global or weak binding, in the high four bits of `info`,
/// and a value of zero.
#[verifier::external_body]
pub(crate) fn symbol_is_import(entry: &SymbolEntry) -> (import: bool)
    ensures
        import == entry.is_import(),
{
    goblin::elf::Sym {
        st_name: entry.name,
        st_info: entry.info,
        st_other: entry.other,
        st_shndx: entry.section,
        st_value: entry.value,
        st_size: entry.size,
    }.is_import()
}

} // verus!
