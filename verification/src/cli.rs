//! Splitting a command line between this tool's own arguments and the
//! arguments meant for the executed binary.
//!
//! The first positional argument is the crate spec; everything after it
//! belongs to the binary that will be run, so that a flag like `--help`
//! after the spec reaches the child instead of being intercepted. A leading
//! `--bin` consumes the following argument as its value. Flag parsing proper
//! is left to ordinary command-line plumbing outside this library.

use vstd::prelude::*;

use crate::text::eq_str;

verus! {

/// The index of the first positional argument: scanning from `i`, a `--bin`
/// skips itself and its value, any other argument starting with `-` skips
/// itself, and the first remaining argument (including an empty one) is
/// positional. A `--bin` without a value leaves no positional argument.
pub open spec fn spec_pos_idx(args: Seq<String>, i: int) -> Option<int>
    decreases args.len() - i,
    when 0 <= i <= args.len()
{
    if i >= args.len() {
        None
    } else if args[i]@ == "--bin"@ {
        if i + 2 <= args.len() {
            spec_pos_idx(args, i + 2)
        } else {
            None
        }
    } else if args[i]@.len() == 0 || args[i]@[0] != '-' {
        Some(i)
    } else {
        spec_pos_idx(args, i + 1)
    }
}

/// Copy the arguments in `[from, to)`.
fn clone_range(args: &Vec<String>, from: usize, to: usize) -> (r: Vec<String>)
    requires
        from <= to <= args@.len(),
    ensures
        r@.len() == to - from,
        forall|k: int| 0 <= k < r@.len() ==> r@[k] == args@[from + k],
{
    let mut r: Vec<String> = Vec::new();
    let mut t = from;
    while t < to
        invariant
            from <= t <= to <= args@.len(),
            r@.len() == t - from,
            forall|k: int| 0 <= k < r@.len() ==> r@[k] == args@[from + k],
        decreases to - t,
    {
        r.push(args[t].clone());
        t += 1;
    }
    r
}

/// Split a raw argument list (the program name already removed) at the first
/// positional argument.
///
/// The first component holds everything up to and including the crate spec,
/// for the ordinary flag parser; the second holds everything after it,
/// passed verbatim to the executed binary. Without a positional argument the
/// whole list goes to the flag parser and nothing to the binary.
pub fn split_cli_args(args: &Vec<String>) -> (r: (Vec<String>, Vec<String>))
    ensures
        match spec_pos_idx(args@, 0) {
            Some(f) => r.0@ =~= args@.subrange(0, f + 1) && r.1@ =~= args@.subrange(
                f + 1,
                args@.len() as int,
            ),
            None => r.0@ =~= args@ && r.1@.len() == 0,
        },
{
    let mut i: usize = 0;
    let mut found: Option<usize> = None;
    while i < args.len()
        invariant
            i <= args@.len(),
            match found {
                None => spec_pos_idx(args@, 0) == spec_pos_idx(args@, i as int),
                Some(f) => spec_pos_idx(args@, 0) == Some(f as int) && f < args@.len() && i
                    == args@.len(),
            },
        decreases args@.len() - i,
    {
        let arg = &args[i];
        if eq_str(arg.as_str(), "--bin") {
            if args.len() - i >= 2 {
                i += 2;
            } else {
                i = args.len();
            }
        } else if arg.as_str().is_empty() || arg.as_str().get_char(0) != '-' {
            found = Some(i);
            i = args.len();
        } else {
            i += 1;
        }
    }
    match found {
        None => {
            let own = clone_range(args, 0, args.len());
            let rest: Vec<String> = Vec::new();
            proof {
                assert(own@ =~= args@);
            }
            (own, rest)
        },
        Some(f) => {
            let own = clone_range(args, 0, f + 1);
            let rest = clone_range(args, f + 1, args.len());
            proof {
                assert(own@ =~= args@.subrange(0, f + 1));
                assert(rest@ =~= args@.subrange(f + 1, args@.len() as int));
            }
            (own, rest)
        },
    }
}

} // verus!
