//! Fuzzy lookup of a name in a list of candidates.
//!
//! A candidate matches when its edit distance to the input is below a
//! fixed threshold; among matching candidates the earliest one with the
//! least distance wins.

use vstd::prelude::*;

verus! {

/// A distance of this many edits or more is no match at all.
pub const MIN_DISTANCE: usize = 5;

/// The Levenshtein distance: the least number of character insertions,
/// deletions and substitutions that turn `a` into `b`.
pub open spec fn lev(a: Seq<char>, b: Seq<char>) -> nat
    decreases a.len() + b.len(),
{
    if a.len() == 0 {
        b.len()
    } else if b.len() == 0 {
        a.len()
    } else {
        let cost: nat = if a.last() == b.last() {
            0
        } else {
            1
        };
        let by_delete = lev(a.drop_last(), b) + 1;
        let by_insert = lev(a, b.drop_last()) + 1;
        let by_substitute = lev(a.drop_last(), b.drop_last()) + cost;
        if by_delete <= by_insert && by_delete <= by_substitute {
            by_delete
        } else if by_insert <= by_substitute {
            by_insert
        } else {
            by_substitute
        }
    }
}

/// Relies on strsim::levenshtein: the edit distance between the two
/// strings' character sequences, counting insertions, deletions and
/// substitutions.
#[verifier::external_body]
fn levenshtein_distance(a: &str, b: &str) -> (r: usize)
    ensures
        r as nat == lev(a@, b@),
{
    strsim::levenshtein(a, b)
}

/// The candidate closest to `input` in edit distance, provided it is
/// nearer than [`MIN_DISTANCE`]; among equally near candidates the
/// earliest in the list wins.
pub fn find_closest_match<'a>(input: &str, list: &'a [&str]) -> (r: Option<&'a str>)
    ensures
        match r {
            Some(s) => exists|j: int| {
                &&& 0 <= j < list@.len()
                &&& s == list@[j]
                &&& lev(input@, list@[j]@) < MIN_DISTANCE
                &&& forall|k: int| 0 <= k < list@.len() ==> #[trigger] lev(input@, list@[k]@)
                    >= lev(input@, list@[j]@)
                &&& forall|k: int| 0 <= k < j ==> #[trigger] lev(input@, list@[k]@) > lev(
                    input@,
                    list@[j]@,
                )
            },
            None => forall|k: int| 0 <= k < list@.len() ==> #[trigger] lev(input@, list@[k]@)
                >= MIN_DISTANCE,
        },
{
    let mut closest_idx: Option<usize> = None;
    let mut min_distance: usize = MIN_DISTANCE;
    let n = list.len();
    let mut j: usize = 0;
    while j < n
        invariant
            n == list@.len(),
            j <= n,
            match closest_idx {
                Some(bi) => {
                    &&& bi < j
                    &&& min_distance == lev(input@, list@[bi as int]@)
                    &&& min_distance < MIN_DISTANCE
                    &&& forall|k: int| 0 <= k < j ==> #[trigger] lev(input@, list@[k]@)
                        >= min_distance
                    &&& forall|k: int| 0 <= k < bi ==> #[trigger] lev(input@, list@[k]@)
                        > min_distance
                },
                None => {
                    &&& min_distance == MIN_DISTANCE
                    &&& forall|k: int| 0 <= k < j ==> #[trigger] lev(input@, list@[k]@)
                        >= MIN_DISTANCE
                },
            },
        decreases n - j,
    {
        let item = list[j];
        let distance = levenshtein_distance(input, item);
        if distance < min_distance {
            min_distance = distance;
            closest_idx = Some(j);
        }
        j += 1;
    }
    match closest_idx {
        Some(bi) => Some(list[bi]),
        None => None,
    }
}

} // verus!
