//! The conditions that the session reports. None of them ends the program.

use vstd::prelude::*;

verus! {

/// A condition that the session or the store reports. After each of them the
/// session is as it was before.
#[derive(Clone, Copy, Debug, PartialEq, Eq, Structural)]
pub enum LoggrError {
    /// The store holds no record of the project.
    NotFound,
    /// The stored record of the project is malformed.
    ParseError,
    /// The store could not write or create a record.
    IOError,
    /// A blank project name was committed.
    EmptyInput,
    /// A project name was committed that the project list holds already.
    DuplicateName,
    /// The clock was toggled, or the entries were scrolled, with no project
    /// loaded.
    NoProjectLoaded,
}

impl LoggrError {
    /// The words of the status line for this condition.
    pub open spec fn status(self) -> Seq<char> {
        match self {
            LoggrError::NotFound => "No record of this project was found."@,
            LoggrError::ParseError => "The record of this project is malformed."@,
            LoggrError::IOError => "The record could not be written."@,
            LoggrError::EmptyInput => "A project name must not be empty."@,
            LoggrError::DuplicateName => "A project of this name exists already."@,
            LoggrError::NoProjectLoaded => "No project is loaded."@,
        }
    }

    /// The words of the status line for this condition.
    pub fn message(&self) -> (text: &'static str)
        ensures
            text@ == self.status(),
    {
        match self {
            LoggrError::NotFound => "No record of this project was found.",
            LoggrError::ParseError => "The record of this project is malformed.",
            LoggrError::IOError => "The record could not be written.",
            LoggrError::EmptyInput => "A project name must not be empty.",
            LoggrError::DuplicateName => "A project of this name exists already.",
            LoggrError::NoProjectLoaded => "No project is loaded.",
        }
    }
}

} // verus!
