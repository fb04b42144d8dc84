//! Locates the IWAD from the command line or the working directory.
//!
//! Which files exist is for the caller to find out; these functions decide,
//! from the command line and the answers, which IWAD the engine loads or
//! what the user is told.

use vstd::prelude::*;

verus! {

/// The IWAD file names looked for in the working directory, in order.
pub open spec fn candidate_names() -> Seq<Seq<char>> {
    seq!["doom1.wad"@, "doom.wad"@, "freedoom1.wad"@, "freedoom2.wad"@]
}

/// `parts` joined with `separator` between each two neighbours.
pub open spec fn joined(parts: Seq<Seq<char>>, separator: Seq<char>) -> Seq<char>
    decreases parts.len(),
{
    if parts.len() == 0 {
        Seq::empty()
    } else if parts.len() == 1 {
        parts[0]
    } else {
        joined(parts.drop_last(), separator) + separator + parts.last()
    }
}

/// The message shown when no IWAD was given and none was found.
pub open spec fn missing_wad_text() -> Seq<char> {
    "no IWAD found: pass -iwad <path> or put one of "@ + joined(candidate_names(), ", "@)
        + " in the\ncurrent directory.\n\n  ./fetch-wad.sh               downloads freedoom1.wad (free, BSD-licensed)\n  https://freedoom.github.io   manual download"@
}

/// The message shown when the IWAD given on the command line is missing.
pub open spec fn not_found_text(path: Seq<char>) -> Seq<char> {
    "iwad not found: "@ + path
}

/// The argument that follows the first `-iwad` among `arguments`, if any.
pub open spec fn argument_after_flag(arguments: Seq<String>) -> Option<String>
    decreases arguments.len(),
{
    if arguments.len() == 0 {
        None
    } else if arguments[0]@ == "-iwad"@ {
        if arguments.len() > 1 {
            Some(arguments[1])
        } else {
            None
        }
    } else {
        argument_after_flag(arguments.drop_first())
    }
}

/// The first candidate, from index `from` on, that `present` reports to
/// exist; a candidate `present` says nothing of counts as absent.
pub open spec fn first_present_from(present: Seq<bool>, from: nat) -> Option<nat>
    decreases candidate_names().len() - from,
{
    if from >= candidate_names().len() || from >= present.len() {
        None
    } else if present[from as int] {
        Some(from)
    } else {
        first_present_from(present, from + 1)
    }
}

/// The IWAD search: the command-line IWAD if one was given (or the
/// message that it is missing), else the first candidate found in the
/// working directory (or the message that none was).
pub open spec fn located(argument: Option<Seq<char>>, argument_exists: bool, present: Seq<bool>) -> Result<Seq<char>, Seq<char>> {
    match argument {
        Some(path) => if argument_exists {
            Ok(path)
        } else {
            Err(not_found_text(path))
        },
        None => match first_present_from(present, 0) {
            Some(i) => Ok(candidate_names()[i as int]),
            None => Err(missing_wad_text()),
        },
    }
}

/// A `String` holding `s`.
fn owned(s: &str) -> (r: String)
    ensures
        r@ == s@,
{
    String::from_str(s)
}

/// The IWAD file names looked for in the working directory, in order.
pub fn candidate_wads() -> (names: Vec<String>)
    ensures
        names@.len() == candidate_names().len(),
        forall|i: int| 0 <= i < names@.len() ==> #[trigger] names@[i]@ == candidate_names()[i],
{
    let mut names: Vec<String> = Vec::new();
    names.push(owned("doom1.wad"));
    names.push(owned("doom.wad"));
    names.push(owned("freedoom1.wad"));
    names.push(owned("freedoom2.wad"));
    names
}

/// The candidate names joined by `", "`.
fn candidate_list() -> (list: String)
    ensures
        list@ == joined(candidate_names(), ", "@),
{
    let names = candidate_wads();
    let ghost parts = candidate_names();
    let mut list = String::new();
    let mut i: usize = 0;
    while i < names.len()
        invariant
            i <= names@.len(),
            names@.len() == parts.len(),
            forall|k: int| 0 <= k < names@.len() ==> #[trigger] names@[k]@ == parts[k],
            list@ == joined(parts.take(i as int), ", "@),
        decreases names.len() - i,
    {
        if i > 0 {
            list.append(", ");
        }
        list.append(names[i].as_str());
        proof {
            let next = parts.take(i + 1);
            assert(next.drop_last() =~= parts.take(i as int));
            if i == 0 {
                assert(joined(parts.take(0), ", "@) =~= Seq::empty());
                assert(list@ =~= next[0]);
            }
        }
        i = i + 1;
    }
    assert(parts.take(i as int) =~= parts);
    list
}

/// The message shown when no IWAD was given and none was found.
pub fn missing_wad_help() -> (help: String)
    ensures
        help@ == missing_wad_text(),
{
    let mut help = owned("no IWAD found: pass -iwad <path> or put one of ");
    let list = candidate_list();
    help.append(list.as_str());
    help.append(
        " in the\ncurrent directory.\n\n  ./fetch-wad.sh               downloads freedoom1.wad (free, BSD-licensed)\n  https://freedoom.github.io   manual download",
    );
    help
}

/// The argument that follows the first `-iwad` on the command line (the
/// whole argument vector, program name included).
pub fn iwad_argument(arguments: &Vec<String>) -> (path: Option<String>)
    ensures
        path == argument_after_flag(arguments@),
{
    let flag = owned("-iwad");
    let mut i: usize = 0;
    assert(arguments@.skip(0) =~= arguments@);
    while i < arguments.len()
        invariant
            i <= arguments@.len(),
            flag@ == "-iwad"@,
            argument_after_flag(arguments@) == argument_after_flag(arguments@.skip(i as int)),
        decreases arguments.len() - i,
    {
        proof {
            assert(arguments@.skip(i as int)[0] == arguments@[i as int]);
        }
        if arguments[i] == flag {
            if i + 1 < arguments.len() {
                assert(arguments@.skip(i as int)[1] == arguments@[i + 1]);
                return Some(arguments[i + 1].clone());
            } else {
                return None;
            }
        }
        assert(arguments@.skip(i as int).drop_first() =~= arguments@.skip(i + 1));
        i = i + 1;
    }
    assert(arguments@.skip(i as int) =~= Seq::<String>::empty());
    None
}

/// Picks the IWAD: the one given on the command line when it exists (an
/// error naming it when it does not), else the first candidate that
/// `present` reports found in the working directory (`present[i]` answers
/// for the `i`-th of `candidate_wads()`), else an error that tells how to
/// get one.
pub fn locate(argument: Option<String>, argument_exists: bool, present: &Vec<bool>) -> (found: Result<String, String>)
    ensures
        match (found, located(
            match argument {
                Some(p) => Some(p@),
                None => None,
            },
            argument_exists,
            present@,
        )) {
            (Ok(path), Ok(expected)) => path@ == expected,
            (Err(message), Err(expected)) => message@ == expected,
            _ => false,
        },
{
    match argument {
        Some(path) => {
            if argument_exists {
                Ok(path)
            } else {
                let mut message = owned("iwad not found: ");
                message.append(path.as_str());
                Err(message)
            }
        },
        None => {
            let mut names = candidate_wads();
            let mut i: usize = 0;
            while i < names.len()
                invariant
                    argument is None,
                    i <= names@.len(),
                    names@.len() == candidate_names().len(),
                    forall|k: int| 0 <= k < names@.len() ==> #[trigger] names@[k]@ == candidate_names()[k],
                    first_present_from(present@, 0) == first_present_from(present@, i as nat),
                decreases names.len() - i,
            {
                if i >= present.len() {
                    assert(first_present_from(present@, i as nat) is None);
                    return Err(missing_wad_help());
                }
                if present[i] {
                    assert(first_present_from(present@, i as nat) == Some(i as nat));
                    let name = names.remove(i);
                    return Ok(name);
                }
                assert(first_present_from(present@, i as nat) == first_present_from(present@, (i + 1) as nat));
                i = i + 1;
            }
            assert(first_present_from(present@, i as nat) is None);
            Err(missing_wad_help())
        },
    }
}

/// The IWAD given on the command line is the one loaded when it exists,
/// whatever the working directory holds.
pub proof fn lemma_existing_argument_wins(path: Seq<char>, present: Seq<bool>)
    ensures
        located(Some(path), true, present) == Ok::<Seq<char>, Seq<char>>(path),
{
}

/// A missing command-line IWAD is an error naming it, even when a
/// candidate is present in the working directory.
pub proof fn lemma_missing_argument_is_not_replaced(path: Seq<char>, present: Seq<bool>)
    ensures
        located(Some(path), false, present) == Err::<Seq<char>, Seq<char>>(not_found_text(path)),
{
}

/// Without an argument the candidates are tried in order: the one chosen
/// is present and every candidate before it is absent.
pub proof fn lemma_candidates_tried_in_order(present: Seq<bool>, from: nat, chosen: nat)
    requires
        first_present_from(present, from) == Some(chosen),
    ensures
        from <= chosen < candidate_names().len(),
        chosen < present.len(),
        present[chosen as int],
        forall|j: int| from <= j < chosen ==> !present[j],
    decreases candidate_names().len() - from,
{
    if from < candidate_names().len() && from < present.len() && !present[from as int] {
        lemma_candidates_tried_in_order(present, from + 1, chosen);
    }
}

/// The IWAD argument is the one right after the first `-iwad`, and there
/// is none when that flag is last.
pub proof fn lemma_argument_follows_first_flag(arguments: Seq<String>, i: int)
    requires
        0 <= i < arguments.len(),
        arguments[i]@ == "-iwad"@,
        forall|j: int| 0 <= j < i ==> arguments[j]@ != "-iwad"@,
    ensures
        argument_after_flag(arguments) == if i + 1 < arguments.len() {
            Some(arguments[i + 1])
        } else {
            None
        },
    decreases i,
{
    if i > 0 {
        let rest = arguments.drop_first();
        assert forall|j: int| 0 <= j < i - 1 implies rest[j]@ != "-iwad"@ by {
            assert(rest[j] == arguments[j + 1]);
        }
        lemma_argument_follows_first_flag(rest, i - 1);
    }
}

/// Without any `-iwad` on the command line there is no IWAD argument.
pub proof fn lemma_no_flag_no_argument(arguments: Seq<String>)
    requires
        forall|j: int| 0 <= j < arguments.len() ==> arguments[j]@ != "-iwad"@,
    ensures
        argument_after_flag(arguments) is None,
    decreases arguments.len(),
{
    if arguments.len() > 0 {
        let rest = arguments.drop_first();
        assert forall|j: int| 0 <= j < rest.len() implies rest[j]@ != "-iwad"@ by {
            assert(rest[j] == arguments[j + 1]);
        }
        lemma_no_flag_no_argument(rest);
    }
}

} // verus!
