//! Closest-name suggestion by edit distance.
use vstd::prelude::*;

verus! {

/// The least of three numbers.
pub open spec fn min3(a: nat, b: nat, c: nat) -> nat {
    if a <= b && a <= c {
        a
    } else if b <= c {
        b
    } else {
        c
    }
}

/// The edit distance of two texts: the least number of single-character
/// insertions, deletions and substitutions that turn `a` into `b`.
pub open spec fn edit_distance(a: Seq<char>, b: Seq<char>) -> nat
    decreases a.len() + b.len(),
{
    if a.len() == 0 {
        b.len()
    } else if b.len() == 0 {
        a.len()
    } else {
        min3(
            edit_distance(a.drop_first(), b.drop_first()) + if a[0] == b[0] {
                0nat
            } else {
                1nat
            },
            edit_distance(a.drop_first(), b) + 1,
            edit_distance(a, b.drop_first()) + 1,
        )
    }
}

/// Relies on `strsim::levenshtein`: the number of character insertions,
/// deletions and substitutions that turn one text into the other, at the least.
#[verifier::external_body]
fn levenshtein(a: &str, b: &str) -> (r: usize)
    ensures
        r as nat == edit_distance(a@, b@),
{
    strsim::levenshtein(a, b)
}

/// The edit distance of two texts.
pub fn distance(a: &str, b: &str) -> (r: usize)
    ensures
        r as nat == edit_distance(a@, b@),
{
    levenshtein(a, b)
}

/// The name in `names` nearest to `input` by edit distance; among names at the
/// same distance, the one that comes first. `None` when `names` is empty.
pub fn find_closest_match<'a>(input: &'a str, crypto_names: &'a Vec<String>) -> (r: Option<&'a str>)
    ensures
        crypto_names@.len() == 0 <==> r is None,
        r is Some ==> exists|i: int|
            0 <= i < crypto_names@.len()
            && r->0@ == crypto_names@[i]@
            && (forall|j: int| 0 <= j < crypto_names@.len()
                ==> edit_distance(input@, crypto_names@[i]@) <= edit_distance(input@, crypto_names@[j]@))
            && (forall|j: int| 0 <= j < i
                ==> edit_distance(input@, crypto_names@[i]@) < edit_distance(input@, crypto_names@[j]@)),
{
    let n = crypto_names.len();
    if n == 0 {
        return None;
    }
    let mut best: usize = 0;
    let mut best_dist = levenshtein(input, crypto_names[0].as_str());
    let mut k: usize = 1;
    while k < n
        invariant
            n == crypto_names@.len(),
            1 <= k <= n,
            best < k,
            best_dist as nat == edit_distance(input@, crypto_names@[best as int]@),
            forall|j: int| 0 <= j < k
                ==> edit_distance(input@, crypto_names@[best as int]@) <= edit_distance(input@, crypto_names@[j]@),
            forall|j: int| 0 <= j < best
                ==> edit_distance(input@, crypto_names@[best as int]@) < edit_distance(input@, crypto_names@[j]@),
        decreases n - k,
    {
        let d = levenshtein(input, crypto_names[k].as_str());
        if d < best_dist {
            best = k;
            best_dist = d;
        }
        k = k + 1;
    }
    Some(crypto_names[best].as_str())
}

} // verus!
