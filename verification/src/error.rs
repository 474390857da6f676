//! The kinds of failure that an operation on a process can end in.

use vstd::prelude::*;

verus! {

/// Why a byte buffer that the platform filled is not text.
#[derive(Debug, Clone, Copy, PartialEq, Eq, Structural)]
pub struct DecodeError {
    /// Length of the longest prefix of the buffer that is well-formed UTF-8.
    pub valid_up_to: usize,
}

/// What went wrong in a search for a process or in an operation on one.
#[derive(Debug, Clone, Copy, PartialEq, Eq, Structural)]
pub enum NEXMemoryError {
    /// The list of all process identifiers could not be had.
    EnumProcessError,
    /// No process satisfied the predicate, or a held process did not give its path.
    ProcessNotFound,
    /// A read failed or moved another number of bytes than was asked for.
    UnableToReadMemory,
    /// A write failed or moved another number of bytes than was asked for.
    UnableToWriteMemory,
    /// The platform refused a snapshot of its process table.
    UnableToTakeSnapshot,
    /// A process could not be read.
    ProcessReadError,
    /// The process that was picked could not be opened.
    OpenProcessError,
    /// A failure from below this layer: bytes from the platform that are not text.
    Other(DecodeError),
}

impl NEXMemoryError {
    /// The sentence that describes the failure to a person.
    pub open spec fn message_text(self) -> Seq<char> {
        match self {
            NEXMemoryError::EnumProcessError => "Failed to enumerate processes"@,
            NEXMemoryError::ProcessNotFound => "The proccess was not found"@,
            NEXMemoryError::UnableToReadMemory => "Unable to read process memory"@,
            NEXMemoryError::UnableToWriteMemory => "Unable to write process memory"@,
            NEXMemoryError::UnableToTakeSnapshot => "Unable to take snapshot"@,
            NEXMemoryError::ProcessReadError => "Error while reading proccess"@,
            NEXMemoryError::OpenProcessError => "Error while opening process"@,
            NEXMemoryError::Other(_) => "Bytes from the platform are not valid UTF-8"@,
        }
    }

    /// Describes the failure in words.
    pub fn message(&self) -> (text: String)
        ensures
            text@ == self.message_text(),
    {
        match self {
            NEXMemoryError::EnumProcessError => "Failed to enumerate processes".to_owned(),
            NEXMemoryError::ProcessNotFound => "The proccess was not found".to_owned(),
            NEXMemoryError::UnableToReadMemory => "Unable to read process memory".to_owned(),
            NEXMemoryError::UnableToWriteMemory => "Unable to write process memory".to_owned(),
            NEXMemoryError::UnableToTakeSnapshot => "Unable to take snapshot".to_owned(),
            NEXMemoryError::ProcessReadError => "Error while reading proccess".to_owned(),
            NEXMemoryError::OpenProcessError => "Error while opening process".to_owned(),
            NEXMemoryError::Other(_) => "Bytes from the platform are not valid UTF-8".to_owned(),
        }
    }
}

} // verus!
