//! The flag resolver: associates the tokens left after command matching with
//! the matched command's declared flags, falling back to declared defaults,
//! and reports which flags were actually provided.

use vstd::prelude::*;
use crate::error::ResolveError;
use crate::flag::Flag;
use crate::flag::opt_text;
use crate::flag_summary::FlagSummary;
use crate::flag_summary::FlagSummaryV;
use crate::token::classify;
use crate::token::flag_body;
use crate::token::flag_body_spec;
use crate::token::is_flag_shaped;
use crate::token::TokenKind;

verus! {

/// Whether the flag-name text `body` (a flag token with its marker removed)
/// names the declared flag `f`, by exact name or alias match.
pub open spec fn flag_matches(f: Flag, body: Seq<char>) -> bool {
    f.name@ == body || (f.alias matches Some(a) && a@ == body)
}

/// The index of the first declared flag matched by the flag-name text
/// `body`, if any.
pub open spec fn find_flag(flags: Seq<Flag>, body: Seq<char>) -> Option<int>
    decreases flags.len(),
{
    if flags.len() == 0 {
        None
    } else if flag_matches(flags[0], body) {
        Some(0)
    } else {
        match find_flag(flags.skip(1), body) {
            Some(i) => Some(i + 1),
            None => None,
        }
    }
}

/// The outcome of scanning `tokens` against the declared `flags`: either a
/// map from declared-flag index to the value consumed for it (`None` when
/// the flag was provided without a consumed value), or the first flag-shaped
/// token that matches no declared flag, as given, marker included.
///
/// A flag-shaped token is resolved by name or alias; if its declaration
/// accepts a value, the immediately following token is consumed as that
/// value when it exists and is not itself flag-shaped. Bare tokens are
/// positional arguments and are passed over. When a flag is provided more
/// than once, the later occurrence wins.
pub open spec fn scan_flags(flags: Seq<Flag>, tokens: Seq<Seq<char>>) -> Result<
    Map<int, Option<Seq<char>>>,
    Seq<char>,
>
    decreases tokens.len(),
{
    if tokens.len() == 0 {
        Ok(Map::empty())
    } else if is_flag_shaped(tokens[0]) {
        match find_flag(flags, flag_body_spec(tokens[0])) {
            Some(i) => {
                if flags[i].accepts_value && tokens.len() >= 2 && !is_flag_shaped(tokens[1]) {
                    match scan_flags(flags, tokens.skip(2)) {
                        Ok(rest) => Ok(
                            Map::empty().insert(i, Some(tokens[1])).union_prefer_right(rest),
                        ),
                        Err(t) => Err(t),
                    }
                } else {
                    match scan_flags(flags, tokens.skip(1)) {
                        Ok(rest) => Ok(Map::empty().insert(i, None).union_prefer_right(rest)),
                        Err(t) => Err(t),
                    }
                }
            },
            None => Err(tokens[0]),
        }
    } else {
        scan_flags(flags, tokens.skip(1))
    }
}

/// The summary owed to declared flag `i` under the scan outcome `bindings`:
/// the declaration's fields, `provided` exactly when the scan bound the
/// flag, and as effective value the consumed value if one was consumed, else
/// the declared default.
pub open spec fn flag_summary_v(f: Flag, bindings: Map<int, Option<Seq<char>>>, i: int) -> FlagSummaryV {
    FlagSummaryV {
        name: f.name@,
        alias: opt_text(f.alias),
        hint: opt_text(f.hint),
        value: if bindings.dom().contains(i) {
            match bindings[i] {
                Some(v) => Some(v),
                None => opt_text(f.default_value),
            }
        } else {
            opt_text(f.default_value)
        },
        default_value: opt_text(f.default_value),
        accepts_value: f.accepts_value,
        provided: bindings.dom().contains(i),
    }
}

/// The full set of flag summaries owed for `flags` under the scan outcome
/// `bindings`: exactly one per declared flag, in declaration order.
pub open spec fn flag_summaries_v(flags: Seq<Flag>, bindings: Map<int, Option<Seq<char>>>) -> Seq<
    FlagSummaryV,
> {
    Seq::new(flags.len(), |i: int| flag_summary_v(flags[i], bindings, i))
}

/// `find_flag` returns the first index whose flag matches the given text,
/// and `None` exactly when no declared flag matches it.
pub proof fn lemma_find_flag(flags: Seq<Flag>, body: Seq<char>)
    ensures
        match find_flag(flags, body) {
            Some(i) => 0 <= i < flags.len() && flag_matches(flags[i], body) && (forall|k: int|
                0 <= k < i ==> !flag_matches(flags[k], body)),
            None => forall|k: int| 0 <= k < flags.len() ==> !flag_matches(flags[k], body),
        },
    decreases flags.len(),
{
    if flags.len() != 0 && !flag_matches(flags[0], body) {
        lemma_find_flag(flags.skip(1), body);
        match find_flag(flags.skip(1), body) {
            Some(i) => {
                assert(flags[i + 1] == flags.skip(1)[i]);
                assert forall|k: int| 0 <= k < i + 1 implies !flag_matches(flags[k], body) by {
                    if k >= 1 {
                        assert(flags[k] == flags.skip(1)[k - 1]);
                    }
                }
            },
            None => {
                assert forall|k: int| 0 <= k < flags.len() implies !flag_matches(flags[k], body) by {
                    if k >= 1 {
                        assert(flags[k] == flags.skip(1)[k - 1]);
                    }
                }
            },
        }
    }
}

/// Returns the index of the first declared flag matched by the flag-name
/// text `body`, if any.
pub fn find_flag_index(flags: &Vec<Flag>, body: &String) -> (found: Option<usize>)
    ensures
        match found {
            Some(i) => i < flags@.len() && find_flag(flags@, body@) == Some(i as int),
            None => find_flag(flags@, body@) is None,
        },
{
    let mut j: usize = 0;
    while j < flags.len()
        invariant
            j <= flags.len(),
            forall|k: int| 0 <= k < j ==> !flag_matches(flags@[k], body@),
        decreases flags.len() - j,
    {
        let hit = if flags[j].name.eq(body) {
            true
        } else {
            match &flags[j].alias {
                Some(a) => a.eq(body),
                None => false,
            }
        };
        if hit {
            proof {
                lemma_find_flag(flags@, body@);
                match find_flag(flags@, body@) {
                    Some(i) => {
                        if i < j {
                            assert(!flag_matches(flags@[i], body@));
                        }
                        if i > j {
                            assert(!flag_matches(flags@[j as int], body@));
                        }
                    },
                    None => {
                        assert(flag_matches(flags@[j as int], body@));
                    },
                }
            }
            return Some(j);
        }
        j += 1;
    }
    proof {
        lemma_find_flag(flags@, body@);
        if let Some(i) = find_flag(flags@, body@) {
            assert(!flag_matches(flags@[i], body@));
        }
    }
    None
}

/// The map collected from the per-flag binding slots of the scanning loop.
spec fn bindings_of(slots: Seq<Option<Option<String>>>) -> Map<int, Option<Seq<char>>> {
    Map::new(
        |i: int| 0 <= i < slots.len() && slots[i] is Some,
        |i: int| opt_text(slots[i]->0),
    )
}

/// Resolves the tokens of `args` from position `start` on against the
/// declared `flags` and builds one summary per declared flag — the full set,
/// never just the provided ones — or reports the first flag-shaped token
/// matching no declared flag.
pub fn build_flag_summaries(flags: &Vec<Flag>, args: &Vec<String>, start: usize) -> (result:
    Result<Vec<FlagSummary>, ResolveError>)
    requires
        start <= args@.len(),
    ensures
        match scan_flags(flags@, args.deep_view().skip(start as int)) {
            Ok(bindings) => result matches Ok(summaries) && summaries@.map_values(
                |s: FlagSummary| s@,
            ) == flag_summaries_v(flags@, bindings),
            Err(t) => result matches Err(e) && e matches ResolveError::UnrecognizedFlag(u) && u@
                == t,
        },
{
    let ghost toks: Seq<Seq<char>> = args.deep_view();
    let mut slots: Vec<Option<Option<String>>> = Vec::new();
    let mut j: usize = 0;
    while j < flags.len()
        invariant
            j == slots@.len() <= flags@.len(),
            forall|i: int| 0 <= i < j ==> slots@[i] is None,
        decreases flags.len() - j,
    {
        slots.push(None);
        j += 1;
    }
    proof {
        assert(bindings_of(slots@) =~= Map::<int, Option<Seq<char>>>::empty());
        match scan_flags(flags@, toks.skip(start as int)) {
            Ok(rest) => {
                assert(bindings_of(slots@).union_prefer_right(rest) =~= rest);
            },
            Err(_) => {},
        }
    }
    let mut k: usize = start;
    loop
        invariant
            start <= k <= args@.len(),
            toks == args.deep_view(),
            toks.len() == args@.len(),
            forall|i: int| 0 <= i < args@.len() ==> toks[i] == args@[i]@,
            slots@.len() == flags@.len(),
            scan_flags(flags@, toks.skip(start as int)) == (match scan_flags(
                flags@,
                toks.skip(k as int),
            ) {
                Ok(rest) => Ok::<Map<int, Option<Seq<char>>>, Seq<char>>(
                    bindings_of(slots@).union_prefer_right(rest),
                ),
                Err(t) => Err(t),
            }),
        ensures
            scan_flags(flags@, toks.skip(start as int)) matches Ok(bindings) && bindings
                == bindings_of(slots@),
        decreases args.len() - k,
    {
        proof {
            assert(toks.skip(k as int).len() == toks.len() - k);
            if k < args@.len() {
                assert(toks.skip(k as int)[0] == toks[k as int]);
            }
            if k + 1 < args@.len() {
                assert(toks.skip(k as int)[1] == toks[k as int + 1]);
            }
        }
        if k >= args.len() {
            proof {
                assert(toks.skip(k as int) =~= Seq::<Seq<char>>::empty());
                assert(bindings_of(slots@).union_prefer_right(
                    Map::<int, Option<Seq<char>>>::empty(),
                ) =~= bindings_of(slots@));
            }
            break ;
        }
        let token = &args[k];
        if classify(token.as_str()) == TokenKind::Bare {
            proof {
                assert(toks.skip(k as int).skip(1) =~= toks.skip(k as int + 1));
            }
            k += 1;
        } else {
            let body = flag_body(token.as_str());
            match find_flag_index(flags, &body) {
                Some(i) => {
                    let consume_next = flags[i].accepts_value && k + 1 < args.len() && classify(
                        args[k + 1].as_str(),
                    ) == TokenKind::Bare;
                    let ghost old_slots = slots@;
                    let ghost old_k: int = k as int;
                    let ghost bound: Option<Seq<char>> = if consume_next {
                        Some(toks[old_k + 1])
                    } else {
                        None
                    };
                    if consume_next {
                        let value = args[k + 1].clone();
                        slots.set(i, Some(Some(value)));
                        proof {
                            assert(toks.skip(old_k).skip(2) =~= toks.skip(old_k + 2));
                        }
                        k += 2;
                    } else {
                        slots.set(i, Some(None));
                        proof {
                            assert(toks.skip(old_k).skip(1) =~= toks.skip(old_k + 1));
                        }
                        k += 1;
                    }
                    proof {
                        assert(bindings_of(slots@) =~= bindings_of(old_slots).union_prefer_right(
                            Map::empty().insert(i as int, bound),
                        ));
                        match scan_flags(flags@, toks.skip(k as int)) {
                            Ok(rest) => {
                                assert(bindings_of(old_slots).union_prefer_right(
                                    Map::empty().insert(i as int, bound).union_prefer_right(rest),
                                ) =~= bindings_of(old_slots).union_prefer_right(
                                    Map::empty().insert(i as int, bound),
                                ).union_prefer_right(rest));
                            },
                            Err(_) => {},
                        }
                    }
                },
                None => {
                    return Err(ResolveError::UnrecognizedFlag(token.clone()));
                },
            }
        }
    }
    let ghost bindings = bindings_of(slots@);
    let mut summaries: Vec<FlagSummary> = Vec::new();
    let mut i: usize = 0;
    while i < flags.len()
        invariant
            i <= flags@.len(),
            slots@.len() == flags@.len(),
            bindings == bindings_of(slots@),
            summaries@.len() == i,
            forall|j2: int| 0 <= j2 < i ==> summaries@[j2]@ == flag_summary_v(
                flags@[j2],
                bindings,
                j2,
            ),
        decreases flags.len() - i,
    {
        let flag = &flags[i];
        let provided = slots[i].is_some();
        let value: Option<String> = match &slots[i] {
            Some(Some(v)) => Some(v.clone()),
            Some(None) => clone_opt(&flag.default_value),
            None => clone_opt(&flag.default_value),
        };
        let summary = FlagSummary::with_name(
            flag.name.as_str(),
            clone_opt(&flag.alias),
            clone_opt(&flag.hint),
            value,
            clone_opt(&flag.default_value),
            flag.accepts_value,
            provided,
        );
        summaries.push(summary);
        i += 1;
    }
    proof {
        assert(summaries@.map_values(|s: FlagSummary| s@) =~= flag_summaries_v(flags@, bindings));
    }
    Ok(summaries)
}

/// Returns a copy of an optional string with the same content.
fn clone_opt(o: &Option<String>) -> (copy: Option<String>)
    ensures
        opt_text(copy) == opt_text(*o),
{
    match o {
        Some(s) => Some(s.clone()),
        None => None,
    }
}

} // verus!
