//! The program model of a native executable's call structure: call targets in
//! their resolution states, the call graph that owns them, the table from an
//! identity to a graph position, and the import of an object file's symbols
//! into that graph.

pub mod error;
pub mod graph;
pub mod identity;
pub mod image;
pub mod import;
pub mod load;
pub mod object;
pub mod program;
pub mod target;
pub mod value;

pub use error::LoadError;
pub use identity::Identity;
pub use image::{ElfImage, Symbol};
pub use import::load_elf;
pub use load::load;
pub use object::SymbolEntry;
pub use program::Program;
pub use target::{CallKind, CallTarget};
pub use value::{Function, Rvalue};
