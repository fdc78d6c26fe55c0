//! Read-only projection of a command: its name and description only.

use vstd::prelude::*;

verus! {

/// The mathematical content of a command summary.
pub struct CommandSummaryV {
    pub name: Seq<char>,
    pub description: Option<Seq<char>>,
}

/// Lightweight read-only projection of a command declaration: the name and
/// description, with flags, children and resolver stripped.
#[derive(Debug, Clone, PartialEq)]
pub struct CommandSummary {
    pub name: String,
    pub description: Option<String>,
}

impl View for CommandSummary {
    type V = CommandSummaryV;

    open spec fn view(&self) -> CommandSummaryV {
        CommandSummaryV {
            name: self.name@,
            description: crate::flag::opt_text(self.description),
        }
    }
}

impl CommandSummary {
    /// Returns a new summary with the given name and description.
    pub fn new(name: &str, description: Option<String>) -> (summary: CommandSummary)
        ensures
            summary@.name == name@,
            summary@.description == crate::flag::opt_text(description),
    {
        CommandSummary { name: name.to_owned(), description }
    }

    /// Returns the name.
    pub fn name(&self) -> (name: &String)
        ensures
            name == self.name,
    {
        &self.name
    }

    /// Returns the description.
    pub fn description(&self) -> (description: &Option<String>)
        ensures
            description == self.description,
    {
        &self.description
    }
}

} // verus!
