//! Laws of the resolution pipeline, stated and proved over the same spec
//! functions that the executable functions' contracts use.

use vstd::prelude::*;
use crate::command::Command;
use crate::command::matched_command;
use crate::command::resolution_post;
use crate::command::spec_resolution;
use crate::command::summary_of;
use crate::command_summary::CommandSummaryV;
use crate::error::ResolveError;
use crate::flag::Flag;
use crate::flag::opt_text;
use crate::flag_resolver::find_flag;
use crate::flag_resolver::flag_summaries_v;
use crate::flag_resolver::flag_summary_v;
use crate::flag_resolver::lemma_find_flag;
use crate::flag_resolver::scan_flags;
use crate::intent::Intent;
use crate::matcher::command_at;
use crate::matcher::find_child;
use crate::matcher::lemma_find_child;
use crate::matcher::match_path;
use crate::token::flag_body_spec;
use crate::token::is_flag_shaped;

verus! {

/// For an empty argument vector the matched path is empty: the root itself
/// is the matched command, it has no ancestors, resolution succeeds, the
/// intent's command summary is the root's own, and every declared flag of
/// the root is summarized as not provided.
pub proof fn lemma_empty_args_matches_root<F>(c: Command<F>, argsv: Seq<Seq<char>>)
    requires
        argsv.len() == 0,
    ensures
        match_path(c, argsv, 0) == Seq::<int>::empty(),
        matched_command(c, argsv) == c,
        spec_resolution(c, argsv) matches Ok(content) && content.command == summary_of(c)
            && content.supcommands == Seq::<CommandSummaryV>::empty() && content.flags
            == flag_summaries_v(c.flags@, Map::empty()),
{
    assert(match_path(c, argsv, 0) =~= Seq::<int>::empty());
    assert(command_at(c, Seq::<int>::empty()) == c);
    assert(argsv.skip(0) =~= argsv);
    assert(scan_flags(c.flags@, argsv) == Ok::<Map<int, Option<Seq<char>>>, Seq<char>>(
        Map::empty(),
    ));
    assert(match_path(c, argsv, 0).take(0) =~= Seq::<int>::empty());
    match spec_resolution(c, argsv) {
        Ok(content) => {
            assert(content.supcommands =~= Seq::<CommandSummaryV>::empty());
        },
        Err(_) => {},
    }
}

/// For an argument vector whose tokens, taken in order from `cursor` on,
/// exactly name a descending chain of subcommands given by the child
/// indices of `path`, matching consumes them all: the matched path is
/// exactly `path`.
proof fn lemma_match_path_of_chain<F>(c: Command<F>, argsv: Seq<Seq<char>>, cursor: int, path: Seq<
    int,
>)
    requires
        0 <= cursor,
        cursor + path.len() == argsv.len(),
        forall|k: int| 0 <= k < path.len() ==> !is_flag_shaped(#[trigger] argsv[cursor + k]),
        forall|k: int| 0 <= k < path.len() ==> find_child(
            #[trigger] command_at(c, path.take(k)).commands@,
            argsv[cursor + k],
        ) == Some(path[k]),
    ensures
        match_path(c, argsv, cursor) == path,
    decreases path.len(),
{
    if path.len() == 0 {
        assert(match_path(c, argsv, cursor) =~= path);
    } else {
        assert(path.take(0) =~= Seq::<int>::empty());
        assert(command_at(c, path.take(0)) == c);
        assert(find_child(c.commands@, argsv[cursor]) == Some(path[0]));
        let child = c.commands@[path[0]];
        assert forall|k: int| 0 <= k < path.skip(1).len() implies find_child(
            #[trigger] command_at(child, path.skip(1).take(k)).commands@,
            argsv[cursor + 1 + k],
        ) == Some(path.skip(1)[k]) by {
            assert(path.take(k + 1)[0] == path[0]);
            assert(path.take(k + 1).skip(1) =~= path.skip(1).take(k));
            assert(command_at(c, path.take(k + 1)) == command_at(child, path.skip(1).take(k)));
            assert(argsv[cursor + 1 + k] == argsv[cursor + (k + 1)]);
            assert(path.skip(1)[k] == path[k + 1]);
        }
        assert forall|k: int| 0 <= k < path.skip(1).len() implies !is_flag_shaped(
            #[trigger] argsv[cursor + 1 + k],
        ) by {
            assert(argsv[cursor + 1 + k] == argsv[cursor + (k + 1)]);
        }
        lemma_match_path_of_chain(child, argsv, cursor + 1, path.skip(1));
        assert(match_path(c, argsv, cursor) =~= seq![path[0]] + path.skip(1));
        assert(seq![path[0]] + path.skip(1) =~= path);
    }
}

/// For an argument vector that exactly names a path of nested subcommands —
/// token by token, each naming a child of the command the previous tokens
/// reached — the matched path is that path, and the innermost matched
/// command is the command it reaches.
pub proof fn lemma_chain_matches_descendant<F>(c: Command<F>, argsv: Seq<Seq<char>>, path: Seq<
    int,
>)
    requires
        path.len() == argsv.len(),
        forall|k: int| 0 <= k < path.len() ==> !is_flag_shaped(argsv[k]),
        forall|k: int| 0 <= k < path.len() ==> find_child(
            #[trigger] command_at(c, path.take(k)).commands@,
            argsv[k],
        ) == Some(path[k]),
    ensures
        match_path(c, argsv, 0) == path,
        matched_command(c, argsv) == command_at(c, path),
{
    assert forall|k: int| 0 <= k < path.len() implies !is_flag_shaped(
        #[trigger] argsv[0 + k],
    ) by {}
    assert forall|k: int| 0 <= k < path.len() implies find_child(
        #[trigger] command_at(c, path.take(k)).commands@,
        argsv[0 + k],
    ) == Some(path[k]) by {}
    lemma_match_path_of_chain(c, argsv, 0, path);
}

/// Among commands with pairwise distinct names — the invariant a
/// well-formed tree keeps for siblings — looking a name up finds exactly
/// the child bearing it.
pub proof fn lemma_find_child_of_unique_names<F>(
    commands: Seq<Command<F>>,
    name: Seq<char>,
    i: int,
)
    requires
        forall|a: int, b: int|
            0 <= a < b < commands.len() ==> (#[trigger] commands[a].name@) != (
            #[trigger] commands[b].name@),
        0 <= i < commands.len(),
        commands[i].name@ == name,
    ensures
        find_child(commands, name) == Some(i),
{
    lemma_find_child(commands, name);
    match find_child(commands, name) {
        Some(k) => {
            if k != i {
                assert(commands[k].name@ == commands[i].name@);
            }
        },
        None => {
            assert(commands[i].name@ != name);
        },
    }
}

/// For an argument vector whose tokens are bare and name, level by level, a
/// child of the command the previous tokens reached — with sibling names
/// unique at each level passed through — matching descends exactly that
/// chain: the matched path is `path` and the innermost matched command is
/// the descendant it reaches.
pub proof fn lemma_named_chain_matches_descendant<F>(c: Command<F>, argsv: Seq<Seq<char>>, path: Seq<
    int,
>)
    requires
        path.len() == argsv.len(),
        forall|k: int| 0 <= k < path.len() ==> !is_flag_shaped(argsv[k]),
        forall|k: int| 0 <= k < path.len() ==> 0 <= path[k] < (
        #[trigger] command_at(c, path.take(k)).commands@).len(),
        forall|k: int| 0 <= k < path.len() ==> (#[trigger] command_at(
            c,
            path.take(k),
        ).commands@)[path[k]].name@ == argsv[k],
        forall|k: int, a: int, b: int|
            0 <= k < path.len() && 0 <= a < b < command_at(c, path.take(k)).commands@.len() ==> (
            #[trigger] command_at(c, path.take(k)).commands@[a].name@) != (#[trigger] command_at(
                c,
                path.take(k),
            ).commands@[b].name@),
    ensures
        match_path(c, argsv, 0) == path,
        matched_command(c, argsv) == command_at(c, path),
{
    assert forall|k: int| 0 <= k < path.len() implies find_child(
        #[trigger] command_at(c, path.take(k)).commands@,
        argsv[k],
    ) == Some(path[k]) by {
        lemma_find_child_of_unique_names(command_at(c, path.take(k)).commands@, argsv[k], path[k]);
    }
    lemma_chain_matches_descendant(c, argsv, path);
}

/// The flag summary set owed for a scan outcome holds exactly one summary
/// per declared flag — none missing, none duplicated, in declaration order —
/// and a flag the scan did not bind is summarized as not provided, with the
/// declared default as its effective value.
pub proof fn lemma_flag_summaries_complete(
    flags: Seq<Flag>,
    bindings: Map<int, Option<Seq<char>>>,
)
    ensures
        flag_summaries_v(flags, bindings).len() == flags.len(),
        forall|i: int| 0 <= i < flags.len() ==> flag_summaries_v(flags, bindings)[i]
            == flag_summary_v(flags[i], bindings, i),
        forall|i: int| 0 <= i < flags.len() && !bindings.dom().contains(i) ==> !flag_summary_v(
            flags[i],
            bindings,
            i,
        ).provided && flag_summary_v(flags[i], bindings, i).value == opt_text(
            flags[i].default_value,
        ),
{
}

/// The scan binds declared flags only: every index bound by a successful
/// scan is the index of a declared flag.
pub proof fn lemma_scan_flags_dom(flags: Seq<Flag>, tokens: Seq<Seq<char>>)
    ensures
        scan_flags(flags, tokens) matches Ok(bindings) ==> forall|i: int|
            bindings.dom().contains(i) ==> 0 <= i < flags.len(),
    decreases tokens.len(),
{
    if tokens.len() == 0 {
    } else if is_flag_shaped(tokens[0]) {
        match find_flag(flags, flag_body_spec(tokens[0])) {
            Some(i) => {
                lemma_find_flag(flags, flag_body_spec(tokens[0]));
                if flags[i].accepts_value && tokens.len() >= 2 && !is_flag_shaped(tokens[1]) {
                    lemma_scan_flags_dom(flags, tokens.skip(2));
                } else {
                    lemma_scan_flags_dom(flags, tokens.skip(1));
                }
            },
            None => {},
        }
    } else {
        lemma_scan_flags_dom(flags, tokens.skip(1));
    }
}

/// Resolution is a pure function of the tree and the argument vector: two
/// outcomes both built for the same pair are structurally equal — equal
/// intent content, or errors carrying the same token.
pub proof fn lemma_resolution_deterministic<F>(
    c: Command<F>,
    argsv: Seq<Seq<char>>,
    first: Result<Intent, ResolveError>,
    second: Result<Intent, ResolveError>,
)
    requires
        resolution_post(c, argsv, first),
        resolution_post(c, argsv, second),
    ensures
        match (first, second) {
            (Ok(a), Ok(b)) => a@ == b@,
            (Err(a), Err(b)) => a matches ResolveError::UnrecognizedFlag(u) && b matches
                ResolveError::UnrecognizedFlag(w) && u@ == w@,
            _ => false,
        },
{
}

} // verus!
