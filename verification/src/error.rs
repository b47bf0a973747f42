//! Why no index can be made of an input.

use vstd::prelude::*;

verus! {

/// The input is not what it has to be. Either way no index is made.
#[derive(Debug, Clone, Copy, PartialEq, Eq)]
pub enum FormatError {
    /// The bytes are not an object file that can be read.
    Container,
    /// The debug information in the object file is malformed.
    DebugInfo,
}

impl FormatError {
    /// The text that `message` gives.
    pub open spec fn message_text(self) -> Seq<char> {
        match self {
            FormatError::Container => "not a readable object file"@,
            FormatError::DebugInfo => "malformed debug information"@,
        }
    }

    /// A sentence for the user.
    pub fn message(&self) -> (text: String)
        ensures
            text@ == self.message_text(),
    {
        match self {
            FormatError::Container => "not a readable object file".to_owned(),
            FormatError::DebugInfo => "malformed debug information".to_owned(),
        }
    }
}

} // verus!
