//! The ways in which an operation on the session can fail.

use vstd::prelude::*;

verus! {

/// Why an operation failed.
#[derive(Clone, Copy, Debug, PartialEq, Eq, Structural)]
pub enum ErrorKind {
    /// A guarded resource could not be had.
    LockFailure,
    /// The file that was asked for is not there.
    NotFound,
    /// The file is there and could not be read.
    ReadError,
    /// The file could not be written.
    WriteError,
    /// The value has no JSON form.
    SerializeError,
    /// The content is not the JSON of what was asked for.
    DeserializeError,
    /// The operation needs an open document and there is none.
    NoActiveDocument,
}

impl ErrorKind {
    /// The text that a caller is shown for this kind of failure.
    pub open spec fn spec_message(self) -> Seq<char> {
        match self {
            ErrorKind::LockFailure => "Failed to lock state"@,
            ErrorKind::NotFound => "File not found"@,
            ErrorKind::ReadError => "Failed to read file"@,
            ErrorKind::WriteError => "Failed to write file"@,
            ErrorKind::SerializeError => "Failed to serialize mind map"@,
            ErrorKind::DeserializeError => "Failed to deserialize mind map"@,
            ErrorKind::NoActiveDocument => "No active mind map"@,
        }
    }

    pub fn message(&self) -> (text: String)
        ensures
            text@ == self.spec_message(),
    {
        match self {
            ErrorKind::LockFailure => "Failed to lock state".to_owned(),
            ErrorKind::NotFound => "File not found".to_owned(),
            ErrorKind::ReadError => "Failed to read file".to_owned(),
            ErrorKind::WriteError => "Failed to write file".to_owned(),
            ErrorKind::SerializeError => "Failed to serialize mind map".to_owned(),
            ErrorKind::DeserializeError => "Failed to deserialize mind map".to_owned(),
            ErrorKind::NoActiveDocument => "No active mind map".to_owned(),
        }
    }
}

} // verus!
