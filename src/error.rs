//! Failures that the library detects before any request is made.

use vstd::prelude::*;

verus! {

/// An input that the service would refuse, caught on the client side.
#[derive(Debug, Clone, Copy, PartialEq, Eq, Structural)]
pub enum CoggleError {
    /// Node text is longer than the service allows.
    TextTooLong,
    /// An organization name does not have the required shape.
    InvalidOrganizationName,
}

impl CoggleError {
    /// The human-readable text of the error.
    pub open spec fn message_spec(self) -> Seq<char> {
        match self {
            CoggleError::TextTooLong => "Error: the text is too long."@,
            CoggleError::InvalidOrganizationName => "Error: invalid organization name."@,
        }
    }

    /// The human-readable text of the error.
    pub fn message(&self) -> (r: String)
        ensures
            r@ == self.message_spec(),
    {
        match self {
            CoggleError::TextTooLong => "Error: the text is too long.".to_owned(),
            CoggleError::InvalidOrganizationName => "Error: invalid organization name.".to_owned(),
        }
    }
}

} // verus!
