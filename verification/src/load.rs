//! Loading a program from the bytes of an object file.

use crate::error::LoadError;
use crate::graph::NODE_LIMIT;
use crate::image::read_elf;
use crate::import::{fits_graph, import_size, imported, load_elf};
use crate::object::{parse_object, parsed_object, ObjectView, ParsedObject};
use crate::program::Program;
use vstd::prelude::*;

verus! {

/// The name that stands in for a file whose name cannot be told.
pub open spec fn unnamed() -> Seq<char> {
    "encoding_error"@
}

/// The name under which a file is loaded: its base name, or the stand-in
/// where it has none.
pub open spec fn file_label(file_name: Option<String>) -> Seq<char> {
    match file_name {
        Some(name) => name@,
        None => unnamed(),
    }
}

/// What a load makes of a parsed object: the import of an ELF file whose
/// targets the call graph can hold, and `Unsupported` for an ELF file with
/// more targets than that and for every other format.
pub fn load_object(object: ParsedObject<'_>, file_name: Option<String>) -> (result: Result<
    Program,
    LoadError,
>)
    ensures
        match object@ {
            ObjectView::Elf(elf) => if import_size(elf) <= NODE_LIMIT {
                result matches Ok(program) && imported(program, elf, file_label(file_name))
            } else {
                result matches Err(LoadError::Unsupported)
            },
            _ => result matches Err(LoadError::Unsupported),
        },
{
    match object {
        ParsedObject::Elf(tables) => {
            let image = read_elf(tables);
            if fits_graph(&image) {
                let name = match file_name {
                    Some(name) => name,
                    None => "encoding_error".to_owned(),
                };
                load_elf(image, name)
            } else {
                Err(LoadError::Unsupported)
            }
        },
        ParsedObject::Pe => Err(LoadError::Unsupported),
        ParsedObject::Coff => Err(LoadError::Unsupported),
        ParsedObject::Mach => Err(LoadError::Unsupported),
        ParsedObject::Other => Err(LoadError::Unsupported),
    }
}

/// Loads the program of an object file from the file's bytes. `file_name`
/// is the file's base name, where it has one.
///
/// The parser decides what the bytes are. Bytes that it rejects give
/// `Format`, with the parser's own error; an ELF file gives its import, or
/// `Unsupported` where it has more targets than a call graph can hold; any
/// other format gives `Unsupported`. There is no partial result, and never
/// an `Io` error: reading the file is the caller's part.
pub fn load(buffer: &[u8], file_name: Option<String>) -> (result: Result<Program, LoadError>)
    ensures
        match parsed_object(buffer@) {
            None => result matches Err(LoadError::Format(_)),
            Some(ObjectView::Elf(elf)) => if import_size(elf) <= NODE_LIMIT {
                result matches Ok(program) && imported(program, elf, file_label(file_name))
            } else {
                result matches Err(LoadError::Unsupported)
            },
            Some(_) => result matches Err(LoadError::Unsupported),
        },
        parsed_object(buffer@) is Some ==> !(result matches Err(LoadError::Format(_))),
        !(result matches Err(LoadError::Io(_))),
{
    match parse_object(buffer) {
        Ok(object) => load_object(object, file_name),
        Err(error) => Err(LoadError::Format(error)),
    }
}

} // verus!
