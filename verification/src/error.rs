//! What can go wrong between building the request and reading the reply.

use vstd::prelude::*;

verus! {

/// A failed run. Each variant holds the account of the failure that the part
/// which met it gave.
#[derive(Debug, Clone)]
pub enum Failure {
    /// The request body could not be written as JSON.
    Serialization(String),
    /// The HTTP exchange did not complete: no connection, no answer in time,
    /// a broken stream.
    Transport(String),
    /// The reply's body could not be read as text.
    Decode(String),
}

impl Failure {
    /// The account that the failure holds.
    pub open spec fn detail(self) -> Seq<char> {
        match self {
            Failure::Serialization(text) => text@,
            Failure::Transport(text) => text@,
            Failure::Decode(text) => text@,
        }
    }

    /// The account that the failure holds.
    pub fn message(&self) -> (text: &str)
        ensures
            text@ == self.detail(),
    {
        match self {
            Failure::Serialization(text) => text.as_str(),
            Failure::Transport(text) => text.as_str(),
            Failure::Decode(text) => text.as_str(),
        }
    }
}

} // verus!
