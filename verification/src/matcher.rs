//! The command matcher: walks the command tree against the token stream,
//! consuming tokens that name child commands in order, and yields the path of
//! matched commands from the root to the innermost match.

use vstd::prelude::*;
use crate::command::Command;
use crate::command::summary_of;
use crate::command_summary::CommandSummary;
use crate::command_summary::CommandSummaryV;
use crate::token::classify;
use crate::token::is_flag_shaped;
use crate::token::TokenKind;

verus! {

/// The index of the first child of `commands` whose name is `name`, if any.
/// Sibling names are unique in a well-formed tree; on a malformed tree the
/// first declared child wins.
pub open spec fn find_child<F>(commands: Seq<Command<F>>, name: Seq<char>) -> Option<int>
    decreases commands.len(),
{
    if commands.len() == 0 {
        None
    } else if commands[0].name@ == name {
        Some(0)
    } else {
        match find_child(commands.skip(1), name) {
            Some(i) => Some(i + 1),
            None => None,
        }
    }
}

/// The matched path through the tree `c` for the tokens of `args` from
/// position `cursor` on: the sequence of child indices taken while the token
/// at the cursor is a bare token that names a child of the current command.
/// Matching stops at the first flag-shaped token, at the first bare token
/// naming no child, or when the input is exhausted.
pub open spec fn match_path<F>(c: Command<F>, args: Seq<Seq<char>>, cursor: int) -> Seq<int>
    decreases args.len() - cursor,
{
    if 0 <= cursor < args.len() && !is_flag_shaped(args[cursor]) {
        match find_child(c.commands@, args[cursor]) {
            Some(i) => seq![i] + match_path(c.commands@[i], args, cursor + 1),
            None => Seq::empty(),
        }
    } else {
        Seq::empty()
    }
}

/// Whether `path` is a sequence of in-range child indices descending from `c`.
pub open spec fn path_valid<F>(c: Command<F>, path: Seq<int>) -> bool
    decreases path.len(),
{
    path.len() == 0 || (0 <= path[0] < c.commands@.len() && path_valid(
        c.commands@[path[0]],
        path.skip(1),
    ))
}

/// The command reached from `c` by descending along the child indices of
/// `path`.
pub open spec fn command_at<F>(c: Command<F>, path: Seq<int>) -> Command<F>
    recommends
        path_valid(c, path),
    decreases path.len(),
{
    if path.len() == 0 {
        c
    } else {
        command_at(c.commands@[path[0]], path.skip(1))
    }
}

/// The summaries of the strict ancestors of the command at `path`: one per
/// matched level above the innermost command, root first.
pub open spec fn ancestor_summaries<F>(c: Command<F>, path: Seq<int>) -> Seq<CommandSummaryV> {
    Seq::new(path.len(), |k: int| summary_of(command_at(c, path.take(k))))
}

/// The summaries of the direct children of `c`, in declaration order.
pub open spec fn child_summaries<F>(c: Command<F>) -> Seq<CommandSummaryV> {
    c.commands@.map_values(|child: Command<F>| summary_of(child))
}

/// `find_child` returns the first index whose command has the given name,
/// and `None` exactly when no child has it.
pub proof fn lemma_find_child<F>(commands: Seq<Command<F>>, name: Seq<char>)
    ensures
        match find_child(commands, name) {
            Some(i) => 0 <= i < commands.len() && commands[i].name@ == name && (forall|k: int|
                0 <= k < i ==> commands[k].name@ != name),
            None => forall|k: int| 0 <= k < commands.len() ==> commands[k].name@ != name,
        },
    decreases commands.len(),
{
    if commands.len() != 0 && commands[0].name@ != name {
        lemma_find_child(commands.skip(1), name);
        match find_child(commands.skip(1), name) {
            Some(i) => {
                assert(commands[i + 1] == commands.skip(1)[i]);
                assert forall|k: int| 0 <= k < i + 1 implies commands[k].name@ != name by {
                    if k >= 1 {
                        assert(commands[k] == commands.skip(1)[k - 1]);
                    }
                }
            },
            None => {
                assert forall|k: int| 0 <= k < commands.len() implies commands[k].name@ != name by {
                    if k >= 1 {
                        assert(commands[k] == commands.skip(1)[k - 1]);
                    }
                }
            },
        }
    }
}

/// A matched path is a valid path through the tree.
pub proof fn lemma_match_path_valid<F>(c: Command<F>, args: Seq<Seq<char>>, cursor: int)
    ensures
        path_valid(c, match_path(c, args, cursor)),
    decreases args.len() - cursor,
{
    if 0 <= cursor < args.len() && !is_flag_shaped(args[cursor]) {
        match find_child(c.commands@, args[cursor]) {
            Some(i) => {
                lemma_find_child(c.commands@, args[cursor]);
                lemma_match_path_valid(c.commands@[i], args, cursor + 1);
                assert(match_path(c, args, cursor).skip(1) =~= match_path(
                    c.commands@[i],
                    args,
                    cursor + 1,
                ));
            },
            None => {},
        }
    }
}

/// Descending a valid path one step: the prefix one longer reaches the
/// indexed child of the command the shorter prefix reaches.
pub proof fn lemma_path_prefix_step<F>(c: Command<F>, path: Seq<int>, k: int)
    requires
        path_valid(c, path),
        0 <= k < path.len(),
    ensures
        path_valid(c, path.take(k)),
        0 <= path[k] < command_at(c, path.take(k)).commands@.len(),
        command_at(c, path.take(k + 1)) == command_at(c, path.take(k)).commands@[path[k]],
    decreases k,
{
    if k == 0 {
        assert(path.take(0) =~= Seq::<int>::empty());
        assert(command_at(c, path.take(0)) == c);
        assert(path.take(1)[0] == path[0]);
        assert(path.take(1).skip(1) =~= Seq::<int>::empty());
        assert(command_at(c, path.take(1)) == command_at(
            c.commands@[path[0]],
            path.take(1).skip(1),
        ));
        assert(command_at(c.commands@[path[0]], Seq::<int>::empty()) == c.commands@[path[0]]);
    } else {
        let child = c.commands@[path[0]];
        assert(path.skip(1).len() == path.len() - 1);
        lemma_path_prefix_step(child, path.skip(1), k - 1);
        assert(path.skip(1).take(k - 1) =~= path.take(k).skip(1));
        assert(path.skip(1).take(k) =~= path.take(k + 1).skip(1));
        assert(path.skip(1)[k - 1] == path[k]);
        assert(path.take(k)[0] == path[0]);
        assert(path.take(k + 1)[0] == path[0]);
        assert(command_at(c, path.take(k)) == command_at(child, path.take(k).skip(1)));
        assert(command_at(c, path.take(k + 1)) == command_at(child, path.take(k + 1).skip(1)));
    }
}

/// A valid path reaches the same command as its full-length prefix.
pub proof fn lemma_path_take_all<F>(c: Command<F>, path: Seq<int>)
    ensures
        command_at(c, path.take(path.len() as int)) == command_at(c, path),
        path_valid(c, path.take(path.len() as int)) == path_valid(c, path),
{
    assert(path.take(path.len() as int) =~= path);
}

/// Returns the index of the first child of `commands` named `name`, if any.
pub fn find_child_index<F>(commands: &Vec<Command<F>>, name: &String) -> (found: Option<usize>)
    ensures
        match found {
            Some(i) => i < commands@.len() && find_child(commands@, name@) == Some(i as int),
            None => find_child(commands@, name@) is None,
        },
{
    proof {
        lemma_find_child(commands@, name@);
    }
    let mut j: usize = 0;
    while j < commands.len()
        invariant
            j <= commands.len(),
            forall|k: int| 0 <= k < j ==> commands@[k].name@ != name@,
        decreases commands.len() - j,
    {
        if commands[j].name.eq(name) {
            proof {
                lemma_find_child(commands@, name@);
                match find_child(commands@, name@) {
                    Some(i) => {
                        if i < j {
                            assert(commands@[i].name@ != name@);
                        }
                        if i > j {
                            assert(commands@[j as int].name@ != name@);
                        }
                    },
                    None => {
                        assert(commands@[j as int].name@ == name@);
                    },
                }
            }
            return Some(j);
        }
        j += 1;
    }
    None
}

/// Walks the tree against the argument vector and returns the matched path:
/// the child indices descended, one per token consumed as a subcommand name.
/// The number of consumed tokens — the cursor at which flag resolution
/// begins — equals the length of the returned path.
pub fn build_command_positions<F>(root: &Command<F>, args: &Vec<String>) -> (positions: Vec<usize>)
    ensures
        positions@.map_values(|u: usize| u as int) == match_path(*root, args.deep_view(), 0),
        positions@.len() <= args@.len(),
{
    let ghost argsv: Seq<Seq<char>> = args.deep_view();
    let mut positions: Vec<usize> = Vec::new();
    let mut current: &Command<F> = root;
    let mut cursor: usize = 0;
    proof {
        assert(positions@.map_values(|u: usize| u as int) =~= Seq::<int>::empty());
        assert(Seq::<int>::empty() + match_path(*root, argsv, 0) =~= match_path(*root, argsv, 0));
    }
    loop
        invariant
            cursor == positions@.len() <= args@.len(),
            argsv == args.deep_view(),
            argsv.len() == args@.len(),
            forall|k: int| 0 <= k < args@.len() ==> argsv[k] == args@[k]@,
            match_path(*root, argsv, 0) == positions@.map_values(|u: usize| u as int)
                + match_path(*current, argsv, cursor as int),
        ensures
            positions@.map_values(|u: usize| u as int) == match_path(*root, argsv, 0),
            positions@.len() <= args@.len(),
        decreases args.len() - cursor,
    {
        if cursor >= args.len() {
            proof {
                assert(match_path(*current, argsv, cursor as int) =~= Seq::<int>::empty());
                assert(positions@.map_values(|u: usize| u as int) + Seq::<int>::empty()
                    =~= positions@.map_values(|u: usize| u as int));
            }
            break ;
        }
        let token = &args[cursor];
        if classify(token.as_str()) != TokenKind::Bare {
            proof {
                assert(is_flag_shaped(argsv[cursor as int]));
                assert(match_path(*current, argsv, cursor as int) =~= Seq::<int>::empty());
                assert(positions@.map_values(|u: usize| u as int) + Seq::<int>::empty()
                    =~= positions@.map_values(|u: usize| u as int));
            }
            break ;
        }
        match find_child_index(&current.commands, token) {
            Some(i) => {
                let ghost before = positions@.map_values(|u: usize| u as int);
                positions.push(i);
                current = &current.commands[i];
                cursor += 1;
                proof {
                    assert(positions@.map_values(|u: usize| u as int) =~= before + seq![i as int]);
                    assert(before + (seq![i as int] + match_path(*current, argsv, cursor as int))
                        =~= (before + seq![i as int]) + match_path(*current, argsv, cursor as int));
                }
            },
            None => {
                proof {
                    assert(match_path(*current, argsv, cursor as int) =~= Seq::<int>::empty());
                    assert(positions@.map_values(|u: usize| u as int) + Seq::<int>::empty()
                        =~= positions@.map_values(|u: usize| u as int));
                }
                break ;
            },
        }
    }
    positions
}

/// Returns the command reached from `root` by descending along `positions`.
pub fn command_at_position<'a, F>(root: &'a Command<F>, positions: &Vec<usize>) -> (found: &'a
    Command<F>)
    requires
        path_valid(*root, positions@.map_values(|u: usize| u as int)),
    ensures
        *found == command_at(*root, positions@.map_values(|u: usize| u as int)),
{
    let ghost path: Seq<int> = positions@.map_values(|u: usize| u as int);
    let mut current: &Command<F> = root;
    let mut k: usize = 0;
    proof {
        assert(path.take(0) =~= Seq::<int>::empty());
    }
    while k < positions.len()
        invariant
            k <= positions@.len(),
            path == positions@.map_values(|u: usize| u as int),
            path_valid(*root, path),
            *current == command_at(*root, path.take(k as int)),
        decreases positions.len() - k,
    {
        proof {
            lemma_path_prefix_step(*root, path, k as int);
        }
        current = &current.commands[positions[k]];
        k += 1;
    }
    proof {
        lemma_path_take_all(*root, path);
    }
    current
}

/// Builds the summaries of the strict ancestors of the matched command: one
/// summary per level above the innermost match, root first.
pub fn build_supcommand_summaries<F>(root: &Command<F>, positions: &Vec<usize>) -> (summaries: Vec<
    CommandSummary,
>)
    requires
        path_valid(*root, positions@.map_values(|u: usize| u as int)),
    ensures
        summaries@.map_values(|s: CommandSummary| s@) == ancestor_summaries(
            *root,
            positions@.map_values(|u: usize| u as int),
        ),
{
    let ghost path: Seq<int> = positions@.map_values(|u: usize| u as int);
    let mut summaries: Vec<CommandSummary> = Vec::new();
    let mut current: &Command<F> = root;
    let mut k: usize = 0;
    proof {
        assert(path.take(0) =~= Seq::<int>::empty());
    }
    while k < positions.len()
        invariant
            k <= positions@.len(),
            path == positions@.map_values(|u: usize| u as int),
            path_valid(*root, path),
            *current == command_at(*root, path.take(k as int)),
            summaries@.len() == k,
            forall|j: int| 0 <= j < k ==> summaries@[j]@ == summary_of(
                command_at(*root, path.take(j)),
            ),
        decreases positions.len() - k,
    {
        summaries.push(current.summarize());
        proof {
            lemma_path_prefix_step(*root, path, k as int);
        }
        current = &current.commands[positions[k]];
        k += 1;
    }
    proof {
        assert(summaries@.map_values(|s: CommandSummary| s@) =~= ancestor_summaries(*root, path));
    }
    summaries
}

/// Builds the summaries of the direct children of `command`, in declaration
/// order.
pub fn build_subcommand_summaries<F>(command: &Command<F>) -> (summaries: Vec<CommandSummary>)
    ensures
        summaries@.map_values(|s: CommandSummary| s@) == child_summaries(*command),
{
    let mut summaries: Vec<CommandSummary> = Vec::new();
    let mut k: usize = 0;
    while k < command.commands.len()
        invariant
            k <= command.commands@.len(),
            summaries@.len() == k,
            forall|j: int| 0 <= j < k ==> summaries@[j]@ == summary_of(command.commands@[j]),
        decreases command.commands.len() - k,
    {
        summaries.push(command.commands[k].summarize());
        k += 1;
    }
    proof {
        assert(summaries@.map_values(|s: CommandSummary| s@) =~= child_summaries(*command));
    }
    summaries
}

} // verus!
