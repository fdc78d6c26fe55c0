//! Errors reported by the resolution pipeline.

use vstd::prelude::*;

verus! {

/// An error of the resolution pipeline itself, as opposed to whatever the
/// invoked resolver returns.
#[derive(Debug, Clone, PartialEq)]
pub enum ResolveError {
    /// The matched command has no resolver bound: the command tree was
    /// assembled with a reachable command lacking one. A programming error
    /// in the tree, not a user input error.
    Config,
    /// A flag-shaped token (carried here as given, marker included) matches
    /// no declared flag name or alias of the matched command. The resolver
    /// is never invoked.
    UnrecognizedFlag(String),
}

impl ResolveError {
    /// Returns a short description of the error.
    pub fn message(&self) -> (text: String)
        ensures
            self is Config ==> text@ == "resolver not set"@,
            self matches ResolveError::UnrecognizedFlag(t) ==> text@ == "unrecognized flag: "@
                + t@,
    {
        match self {
            ResolveError::Config => "resolver not set".to_owned(),
            ResolveError::UnrecognizedFlag(t) => "unrecognized flag: ".to_owned().concat(
                t.as_str(),
            ),
        }
    }
}

} // verus!
