//! The failures that the library decides.

use vstd::prelude::*;
use crate::text::copy_str;

verus! {

/// Kind of a failure. Failures of the file system, of parsing and of the
/// window system arise with the caller and have no kind here.
#[derive(Clone, Copy, Debug, PartialEq, Eq, Structural)]
pub enum ErrorKind {
    /// A cycle or a content file that was asked for does not exist.
    NotFound,
    /// An argument does not meet what the operation asks of it.
    InvalidInput,
}

/// A failed operation of the store.
#[derive(Clone, Copy, Debug, PartialEq, Eq, Structural)]
pub enum StoreError {
    /// The cycle to select is not in the index.
    SelectionNotFound,
    /// The folder to create a cycle in does not exist or is no folder.
    InvalidParentFolder,
    /// The folder to import holds no content file.
    CycleFileNotFound,
    /// The cycle to load or save is not in the index.
    CycleNotFound,
}

impl StoreError {
    /// The kind of this failure.
    pub open spec fn kind_of(self) -> ErrorKind {
        match self {
            StoreError::InvalidParentFolder => ErrorKind::InvalidInput,
            _ => ErrorKind::NotFound,
        }
    }

    /// The message shown for this failure.
    pub open spec fn message_text(self) -> Seq<char> {
        match self {
            StoreError::SelectionNotFound => "Selected Cycle does not exist."@,
            StoreError::InvalidParentFolder => "The selected parent folder is not valid."@,
            StoreError::CycleFileNotFound => "cycle_data.json was not found."@,
            StoreError::CycleNotFound => "Cycle was not found."@,
        }
    }

    /// The kind of this failure.
    pub fn kind(&self) -> (kind: ErrorKind)
        ensures
            kind == self.kind_of(),
    {
        match self {
            StoreError::InvalidParentFolder => ErrorKind::InvalidInput,
            _ => ErrorKind::NotFound,
        }
    }

    /// The message shown for this failure.
    pub fn message(&self) -> (message: String)
        ensures
            message@ == self.message_text(),
    {
        match self {
            StoreError::SelectionNotFound => copy_str("Selected Cycle does not exist."),
            StoreError::InvalidParentFolder => copy_str("The selected parent folder is not valid."),
            StoreError::CycleFileNotFound => copy_str("cycle_data.json was not found."),
            StoreError::CycleNotFound => copy_str("Cycle was not found."),
        }
    }
}

} // verus!
