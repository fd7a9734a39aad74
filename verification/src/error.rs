//! Why a load fails.

use vstd::prelude::*;

verus! {

/// `std::io::Error`: why the platform could not read a file.
#[verifier::external_type_specification]
#[verifier::external_body]
pub struct ExIoError(std::io::Error);

/// Why a load failed. Every failure is final: the same input fails again.
#[derive(Debug)]
pub enum LoadError {
    /// The file has a format that is not handled: any but ELF.
    Unsupported,
    /// The file could not be read.
    Io(std::io::Error),
    /// The bytes could not be parsed as an object file.
    Format(goblin::error::Error),
}

impl LoadError {
    /// The message of the error, as a sequence of characters.
    pub open spec fn message_text(&self) -> Seq<char> {
        match self {
            LoadError::Unsupported => "Unsupported file type"@,
            LoadError::Io(_) => "Io Error"@,
            LoadError::Format(_) => "Goblin Error"@,
        }
    }

    /// The message to show for the error.
    pub fn message(&self) -> (message: String)
        ensures
            message@ == self.message_text(),
    {
        match self {
            LoadError::Unsupported => "Unsupported file type".to_owned(),
            LoadError::Io(_) => "Io Error".to_owned(),
            LoadError::Format(_) => "Goblin Error".to_owned(),
        }
    }
}

} // verus!
