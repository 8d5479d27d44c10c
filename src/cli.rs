//! Tokens given on the command line.
use vstd::prelude::*;
use crate::text::{normalize, normalized};

verus! {

/// The tokens named on a command line, given the arguments with the program's
/// name first: each trimmed and lower-cased, in order. `None` when no token
/// is named, so that the caller asks for one.
pub fn cli_tokens(args: &Vec<String>) -> (r: Option<Vec<String>>)
    ensures
        args@.len() < 2 <==> r is None,
        r matches Some(v) ==> v@.len() == args@.len() - 1
            && forall|i: int| 0 <= i < v@.len() ==> (#[trigger] v@[i])@ == normalized(args@[i + 1]@),
{
    if args.len() < 2 {
        return None;
    }
    let mut v: Vec<String> = Vec::new();
    let mut i: usize = 1;
    while i < args.len()
        invariant
            1 <= i <= args@.len(),
            v@.len() == i - 1,
            forall|k: int| 0 <= k < v@.len() ==> (#[trigger] v@[k])@ == normalized(args@[k + 1]@),
        decreases args@.len() - i,
    {
        v.push(normalize(args[i].as_str()));
        i = i + 1;
    }
    Some(v)
}

} // verus!
