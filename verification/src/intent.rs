//! The intent: the structured payload delivered to a resolver.

use vstd::prelude::*;
use crate::command_summary::CommandSummary;
use crate::command_summary::CommandSummaryV;
use crate::flag_summary::FlagSummary;
use crate::flag_summary::FlagSummaryV;

verus! {

/// The mathematical content of an intent.
pub struct IntentV {
    pub args: Seq<Seq<char>>,
    pub command: CommandSummaryV,
    pub supcommands: Seq<CommandSummaryV>,
    pub subcommands: Seq<CommandSummaryV>,
    pub flags: Seq<FlagSummaryV>,
}

/// The full payload delivered to a resolver for one invocation: the raw
/// argument vector, the matched command's summary, the summaries of its
/// ancestors (root first) and of its direct children, and one resolved flag
/// summary per flag declared on the matched command. Built once per
/// invocation and consumed by exactly one resolver call.
#[derive(Debug, Clone, PartialEq)]
pub struct Intent {
    pub args: Vec<String>,
    pub command: CommandSummary,
    pub supcommands: Vec<CommandSummary>,
    pub subcommands: Vec<CommandSummary>,
    pub flags: Vec<FlagSummary>,
}

impl View for Intent {
    type V = IntentV;

    open spec fn view(&self) -> IntentV {
        IntentV {
            args: self.args.deep_view(),
            command: self.command@,
            supcommands: self.supcommands@.map_values(|s: CommandSummary| s@),
            subcommands: self.subcommands@.map_values(|s: CommandSummary| s@),
            flags: self.flags@.map_values(|s: FlagSummary| s@),
        }
    }
}

impl Intent {
    /// Returns a new intent with the given parts.
    pub fn new(
        args: Vec<String>,
        command: CommandSummary,
        supcommands: Vec<CommandSummary>,
        subcommands: Vec<CommandSummary>,
        flags: Vec<FlagSummary>,
    ) -> (intent: Intent)
        ensures
            intent@ == (IntentV {
                args: args.deep_view(),
                command: command@,
                supcommands: supcommands@.map_values(|s: CommandSummary| s@),
                subcommands: subcommands@.map_values(|s: CommandSummary| s@),
                flags: flags@.map_values(|s: FlagSummary| s@),
            }),
    {
        Intent { args, command, supcommands, subcommands, flags }
    }

    /// Returns the raw argument vector.
    pub fn args(&self) -> (args: &Vec<String>)
        ensures
            args == self.args,
    {
        &self.args
    }

    /// Returns the matched command's summary.
    pub fn command(&self) -> (command: &CommandSummary)
        ensures
            command == self.command,
    {
        &self.command
    }

    /// Returns the summaries of the matched command's ancestors, root first.
    pub fn supcommands(&self) -> (supcommands: &Vec<CommandSummary>)
        ensures
            supcommands == self.supcommands,
    {
        &self.supcommands
    }

    /// Returns the summaries of the matched command's direct children.
    pub fn subcommands(&self) -> (subcommands: &Vec<CommandSummary>)
        ensures
            subcommands == self.subcommands,
    {
        &self.subcommands
    }

    /// Returns the resolved flag summaries, one per declared flag.
    pub fn flags(&self) -> (flags: &Vec<FlagSummary>)
        ensures
            flags == self.flags,
    {
        &self.flags
    }
}

} // verus!
