//! Purely syntactic classification of raw argument tokens.
//!
//! A token beginning with the two-character marker `--` is a long flag, a
//! token beginning with the one-character marker `-` (and not `--`) is a
//! short flag or alias, and any other token is a subcommand-name candidate.
//! Classification never consults the declared flags; validating a flag token
//! against the declarations is the flag resolver's job.

use vstd::prelude::*;

verus! {

/// The syntactic shape of one raw argument token.
#[derive(Debug, Clone, Copy, PartialEq, Eq, Structural)]
pub enum TokenKind {
    /// Begins with the two-character long-flag marker `--`.
    LongFlag,
    /// Begins with the one-character short-flag marker `-`, but not `--`.
    ShortFlag,
    /// Any bare token: a subcommand-name candidate or positional argument.
    Bare,
}

/// A token shaped like a long flag: at least `--`.
pub open spec fn is_long_flag(t: Seq<char>) -> bool {
    t.len() >= 2 && t[0] == '-' && t[1] == '-'
}

/// A token shaped like a short flag: begins with `-` but not with `--`.
pub open spec fn is_short_flag(t: Seq<char>) -> bool {
    t.len() >= 1 && t[0] == '-' && !is_long_flag(t)
}

/// A token shaped like a flag of either form: begins with `-`.
pub open spec fn is_flag_shaped(t: Seq<char>) -> bool {
    t.len() >= 1 && t[0] == '-'
}

/// The classification of a token: every token has exactly one.
pub open spec fn classify_spec(t: Seq<char>) -> TokenKind {
    if is_long_flag(t) {
        TokenKind::LongFlag
    } else if is_short_flag(t) {
        TokenKind::ShortFlag
    } else {
        TokenKind::Bare
    }
}

/// The flag name carried by a flag-shaped token: the token with its
/// leading marker removed.
pub open spec fn flag_body_spec(t: Seq<char>) -> Seq<char> {
    if is_long_flag(t) {
        t.skip(2)
    } else {
        t.skip(1)
    }
}

/// Classifies one raw argument token by its shape alone.
pub fn classify(token: &str) -> (kind: TokenKind)
    ensures
        kind == classify_spec(token@),
{
    let n = token.unicode_len();
    if n >= 2 && token.get_char(0) == '-' && token.get_char(1) == '-' {
        TokenKind::LongFlag
    } else if n >= 1 && token.get_char(0) == '-' {
        TokenKind::ShortFlag
    } else {
        TokenKind::Bare
    }
}

/// Strips the leading flag marker from a flag-shaped token, leaving the
/// name or alias text to be resolved against the declared flags.
pub fn flag_body(token: &str) -> (body: String)
    requires
        is_flag_shaped(token@),
    ensures
        body@ == flag_body_spec(token@),
{
    let n = token.unicode_len();
    if n >= 2 && token.get_char(0) == '-' && token.get_char(1) == '-' {
        token.substring_char(2, n).to_owned()
    } else {
        token.substring_char(1, n).to_owned()
    }
}

} // verus!
