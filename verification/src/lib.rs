//! A command-line argument resolution library.
//!
//! Given a declared tree of commands, subcommands and flags, and a runtime
//! argument vector, the library determines which command was invoked,
//! associates the provided flag tokens with the declared flags, and builds a
//! structured intent that is handed to the matched command's resolver.

mod command;
mod command_summary;
mod error;
mod flag;
mod flag_resolver;
mod flag_summary;
mod intent;
mod laws;
mod matcher;
mod token;

pub use command::Command;
pub use command::matched_command;
pub use command::resolution_post;
pub use command::resolver_callable;
pub use command::spec_resolution;
pub use command::summary_of;
pub use command_summary::CommandSummary;
pub use command_summary::CommandSummaryV;
pub use error::ResolveError;
pub use flag::Flag;
pub use flag::opt_text;
pub use flag_resolver::build_flag_summaries;
pub use flag_resolver::find_flag;
pub use flag_resolver::find_flag_index;
pub use flag_resolver::flag_matches;
pub use flag_resolver::flag_summaries_v;
pub use flag_resolver::flag_summary_v;
pub use flag_resolver::lemma_find_flag;
pub use flag_resolver::scan_flags;
pub use flag_summary::FlagSummary;
pub use flag_summary::FlagSummaryV;
pub use intent::Intent;
pub use intent::IntentV;
pub use laws::lemma_chain_matches_descendant;
pub use laws::lemma_empty_args_matches_root;
pub use laws::lemma_find_child_of_unique_names;
pub use laws::lemma_named_chain_matches_descendant;
pub use laws::lemma_flag_summaries_complete;
pub use laws::lemma_resolution_deterministic;
pub use laws::lemma_scan_flags_dom;
pub use matcher::ancestor_summaries;
pub use matcher::build_command_positions;
pub use matcher::build_subcommand_summaries;
pub use matcher::build_supcommand_summaries;
pub use matcher::child_summaries;
pub use matcher::command_at;
pub use matcher::command_at_position;
pub use matcher::find_child;
pub use matcher::find_child_index;
pub use matcher::lemma_find_child;
pub use matcher::lemma_match_path_valid;
pub use matcher::lemma_path_prefix_step;
pub use matcher::lemma_path_take_all;
pub use matcher::match_path;
pub use matcher::path_valid;
pub use token::TokenKind;
pub use token::classify;
pub use token::classify_spec;
pub use token::flag_body;
pub use token::flag_body_spec;
pub use token::is_flag_shaped;
pub use token::is_long_flag;
pub use token::is_short_flag;
