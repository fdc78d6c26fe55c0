//! Command declarations: immutable nodes of the command tree.

use vstd::prelude::*;
use crate::command_summary::CommandSummary;
use crate::command_summary::CommandSummaryV;
use crate::error::ResolveError;
use crate::flag::Flag;
use crate::flag::opt_text;
use crate::flag_resolver::build_flag_summaries;
use crate::flag_resolver::flag_summaries_v;
use crate::flag_resolver::scan_flags;
use crate::intent::Intent;
use crate::intent::IntentV;
use crate::matcher::ancestor_summaries;
use crate::matcher::build_command_positions;
use crate::matcher::build_subcommand_summaries;
use crate::matcher::build_supcommand_summaries;
use crate::matcher::child_summaries;
use crate::matcher::command_at;
use crate::matcher::command_at_position;
use crate::matcher::lemma_match_path_valid;
use crate::matcher::match_path;

verus! {

/// One node of the command tree: its name, an optional description, the
/// declared flags, the child command declarations, and an optional resolver.
/// The root node is the top-level application command. The resolver type `F`
/// is chosen by the user of the tree; the library never inspects resolvers,
/// it only invokes the matched one.
#[derive(Debug, PartialEq)]
pub struct Command<F> {
    pub name: String,
    pub description: Option<String>,
    pub flags: Vec<Flag>,
    pub commands: Vec<Command<F>>,
    pub resolver: Option<F>,
}

/// The mathematical content of a command's own summary.
pub open spec fn summary_of<F>(c: Command<F>) -> CommandSummaryV {
    CommandSummaryV { name: c.name@, description: opt_text(c.description) }
}

impl<F> Command<F> {
    /// Returns a new command with the given name and nothing else declared.
    pub fn new(name: &str) -> (command: Command<F>)
        ensures
            command.name@ == name@,
            command.description is None,
            command.flags@ == Seq::<Flag>::empty(),
            command.commands@ == Seq::<Command<F>>::empty(),
            command.resolver is None,
    {
        Command {
            name: name.to_owned(),
            description: None,
            flags: Vec::new(),
            commands: Vec::new(),
            resolver: None,
        }
    }

    /// Sets the description.
    pub fn with_description(self, val: &str) -> (command: Command<F>)
        ensures
            command.name == self.name,
            command.description matches Some(d) && d@ == val@,
            command.flags == self.flags,
            command.commands == self.commands,
            command.resolver == self.resolver,
    {
        Command { description: Some(val.to_owned()), ..self }
    }

    /// Sets the resolver.
    pub fn with_resolver(self, resolver: F) -> (command: Command<F>)
        ensures
            command.name == self.name,
            command.description == self.description,
            command.flags == self.flags,
            command.commands == self.commands,
            command.resolver == Some(resolver),
    {
        Command { resolver: Some(resolver), ..self }
    }

    /// Adds a flag.
    pub fn with_flag(self, flag: Flag) -> (command: Command<F>)
        ensures
            command.name == self.name,
            command.description == self.description,
            command.flags@ == self.flags@.push(flag),
            command.commands == self.commands,
            command.resolver == self.resolver,
    {
        let mut this = self;
        this.flags.push(flag);
        this
    }

    /// Adds a subcommand.
    pub fn with_subcommand(self, command: Command<F>) -> (result: Command<F>)
        ensures
            result.name == self.name,
            result.description == self.description,
            result.flags == self.flags,
            result.commands@ == self.commands@.push(command),
            result.resolver == self.resolver,
    {
        let mut this = self;
        this.commands.push(command);
        this
    }

    /// Returns the name.
    pub fn name(&self) -> (name: &String)
        ensures
            name == self.name,
    {
        &self.name
    }

    /// Returns the description.
    pub fn description(&self) -> (description: &Option<String>)
        ensures
            description == self.description,
    {
        &self.description
    }

    /// Returns the flags.
    pub fn flags(&self) -> (flags: &Vec<Flag>)
        ensures
            flags == self.flags,
    {
        &self.flags
    }

    /// Returns the subcommands.
    pub fn commands(&self) -> (commands: &Vec<Command<F>>)
        ensures
            commands == self.commands,
    {
        &self.commands
    }

    /// Builds the summary for this command: its name and description only.
    pub fn summarize(&self) -> (summary: CommandSummary)
        ensures
            summary@ == summary_of(*self),
    {
        CommandSummary::new(self.name.as_str(), self.description.clone())
    }
}

/// The innermost command of `c` matched by the argument tokens `argsv`.
pub open spec fn matched_command<F>(c: Command<F>, argsv: Seq<Seq<char>>) -> Command<F> {
    command_at(c, match_path(c, argsv, 0))
}

/// The outcome of the whole resolution pipeline for the tree `c` and the
/// argument tokens `argsv`, up to dispatch: the content of the intent owed
/// to the matched command's resolver, or the first unrecognized flag-shaped
/// token.
pub open spec fn spec_resolution<F>(c: Command<F>, argsv: Seq<Seq<char>>) -> Result<
    IntentV,
    Seq<char>,
> {
    let path = match_path(c, argsv, 0);
    let matched = command_at(c, path);
    match scan_flags(matched.flags@, argsv.skip(path.len() as int)) {
        Ok(bindings) => Ok(
            IntentV {
                args: argsv,
                command: summary_of(matched),
                supcommands: ancestor_summaries(c, path),
                subcommands: child_summaries(matched),
                flags: flag_summaries_v(matched.flags@, bindings),
            },
        ),
        Err(t) => Err(t),
    }
}

/// What building an intent for `c` and `argsv` returns: an intent with
/// exactly the content of `spec_resolution`, or the unrecognized-flag error
/// carrying the offending token.
pub open spec fn resolution_post<F>(
    c: Command<F>,
    argsv: Seq<Seq<char>>,
    result: Result<Intent, ResolveError>,
) -> bool {
    match spec_resolution(c, argsv) {
        Ok(content) => result matches Ok(intent) && intent@ == content,
        Err(t) => result matches Err(e) && e matches ResolveError::UnrecognizedFlag(u) && u@ == t,
    }
}

/// The matched command's resolver, if it has one, accepts every intent.
pub open spec fn resolver_callable<F: Fn(Intent) -> Option<usize>>(
    c: Command<F>,
    argsv: Seq<Seq<char>>,
) -> bool {
    match matched_command(c, argsv).resolver {
        Some(f) => forall|intent: Intent| call_requires(f, (intent,)),
        None => true,
    }
}

impl<F> Command<F> {
    /// Runs the resolution pipeline without dispatching: matches the command
    /// path, resolves the remaining tokens against the matched command's
    /// declared flags, and builds the intent, or reports the first
    /// unrecognized flag-shaped token. The tree is only read: resolving the
    /// same tree and arguments twice yields structurally equal intents.
    pub fn build_intent(&self, args: Vec<String>) -> (result: Result<Intent, ResolveError>)
        ensures
            resolution_post(*self, args.deep_view(), result),
    {
        let ghost argsv: Seq<Seq<char>> = args.deep_view();
        proof {
            lemma_match_path_valid(*self, argsv, 0);
        }
        let positions = build_command_positions(self, &args);
        let command = command_at_position(self, &positions);
        let supcommands = build_supcommand_summaries(self, &positions);
        let subcommands = build_subcommand_summaries(command);
        match build_flag_summaries(&command.flags, &args, positions.len()) {
            Ok(flags) => {
                let summary = command.summarize();
                Ok(Intent::new(args, summary, supcommands, subcommands, flags))
            },
            Err(e) => Err(e),
        }
    }
}

impl<F: Fn(Intent) -> Option<usize>> Command<F> {
    /// Resolves the argument vector against this command tree and invokes
    /// the matched command's resolver with the built intent; the resolver's
    /// return value is this call's result. Reports an unrecognized-flag
    /// error without invoking any resolver, and a configuration error when
    /// the matched command has no resolver bound.
    pub fn run(self, args: Vec<String>) -> (result: Result<Option<usize>, ResolveError>)
        requires
            resolver_callable(self, args.deep_view()),
        ensures
            match spec_resolution(self, args.deep_view()) {
                Ok(content) => match matched_command(self, args.deep_view()).resolver {
                    Some(f) => result matches Ok(code) && exists|intent: Intent|
                        intent@ == content && call_ensures(f, (intent,), code),
                    None => result == Err::<Option<usize>, ResolveError>(ResolveError::Config),
                },
                Err(t) => result matches Err(e) && e matches ResolveError::UnrecognizedFlag(u)
                    && u@ == t,
            },
    {
        let ghost argsv: Seq<Seq<char>> = args.deep_view();
        proof {
            lemma_match_path_valid(self, argsv, 0);
        }
        let positions = build_command_positions(&self, &args);
        let command = command_at_position(&self, &positions);
        let supcommands = build_supcommand_summaries(&self, &positions);
        let subcommands = build_subcommand_summaries(command);
        match build_flag_summaries(&command.flags, &args, positions.len()) {
            Ok(flags) => {
                match &command.resolver {
                    Some(resolver) => {
                        let summary = command.summarize();
                        let intent = Intent::new(args, summary, supcommands, subcommands, flags);
                        Ok(resolver(intent))
                    },
                    None => Err(ResolveError::Config),
                }
            },
            Err(e) => Err(e),
        }
    }

    /// Resolves the argument vector and invokes the matched command's
    /// resolver, for invocations known to resolve cleanly: every flag-shaped
    /// token names a declared flag, and the matched command has a resolver
    /// bound.
    pub fn perform(self, args: Vec<String>) -> (result: Option<usize>)
        requires
            spec_resolution(self, args.deep_view()) is Ok,
            matched_command(self, args.deep_view()).resolver is Some,
            resolver_callable(self, args.deep_view()),
        ensures
            exists|intent: Intent|
                intent@ == spec_resolution(self, args.deep_view())->Ok_0 && call_ensures(
                    matched_command(self, args.deep_view()).resolver->0,
                    (intent,),
                    result,
                ),
    {
        match self.run(args) {
            Ok(code) => code,
            Err(e) => {
                proof {
                    assert(false);
                }
                None
            },
        }
    }
}

} // verus!
