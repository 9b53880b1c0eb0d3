//! Drawing corpus indices: one correct index per round, never repeated within
//! a session, and three decoys distinct from it and from each other.
use vstd::prelude::*;
use rand::Rng;
use crate::error::QuizError;

verus! {

/// Relies on rand's `thread_rng().gen_range(low..high)`: a value drawn from
/// `low..high`, which panics on an empty range.
#[verifier::external_body]
pub(crate) fn draw_in_range(low: u64, high: u64) -> (r: u64)
    requires
        low < high,
    ensures
        low <= r < high,
{
    rand::thread_rng().gen_range(low..high)
}

/// `v` may be drawn from a corpus of `max` records when `exclude` is ruled
/// out: index 0 never is.
pub open spec fn eligible(max: u64, exclude: Seq<u64>, v: u64) -> bool {
    1 <= v < max && !exclude.contains(v)
}

/// Whether `v` occurs in `xs`.
fn contains_index(xs: &Vec<u64>, v: u64) -> (r: bool)
    ensures
        r == xs@.contains(v),
{
    let mut i: usize = 0;
    while i < xs.len()
        invariant
            i <= xs@.len(),
            forall|k: int| 0 <= k < i ==> xs@[k] != v,
        decreases xs@.len() - i,
    {
        if xs[i] == v {
            return true;
        }
        i = i + 1;
    }
    false
}

/// The indices that may be drawn from a corpus of `max` records, with
/// `exclude` ruled out, in increasing order.
pub fn eligible_indices(max: u64, exclude: &Vec<u64>) -> (r: Vec<u64>)
    ensures
        forall|v: u64| r@.contains(v) <==> eligible(max, exclude@, v),
        forall|a: int, b: int| 0 <= a < b < r@.len() ==> r@[a] < r@[b],
{
    let mut r: Vec<u64> = Vec::new();
    let mut v: u64 = 1;
    while v < max
        invariant
            1 <= v,
            v <= max || max == 0,
            forall|w: u64| #[trigger] r@.contains(w) <==> (eligible(max, exclude@, w) && w < v),
            forall|a: int, b: int| 0 <= a < b < r@.len() ==> r@[a] < r@[b],
            forall|a: int| 0 <= a < r@.len() ==> r@[a] < v,
        decreases max - v,
    {
        let ghost old_r = r@;
        if !contains_index(exclude, v) {
            r.push(v);
        }
        assert forall|w: u64| r@.contains(w) <==> (eligible(max, exclude@, w) && w < v + 1) by {
            if r@.contains(w) {
                let k = choose|k: int| 0 <= k < r@.len() && r@[k] == w;
                if k < old_r.len() {
                    assert(old_r[k] == w);
                    assert(old_r.contains(w));
                } else {
                    assert(r@ == old_r.push(v));
                    assert(w == v);
                }
            }
            if eligible(max, exclude@, w) && w < v + 1 {
                if w < v {
                    assert(old_r.contains(w));
                    let k = choose|k: int| 0 <= k < old_r.len() && old_r[k] == w;
                    assert(r@[k] == w);
                } else {
                    assert(r@[r@.len() - 1] == w);
                }
            }
        }
        v = v + 1;
    }
    r
}

/// Draws, uniformly, an index of a corpus of `max` records that is not in
/// `exclude`; index 0 is never drawn.
pub fn generate_random_number(max: u64, exclude: Vec<u64>) -> (r: Result<u64, QuizError>)
    ensures
        match r {
            Ok(v) => eligible(max, exclude@, v),
            Err(e) => e == QuizError::InsufficientCorpus && forall|v: u64|
                !eligible(max, exclude@, v),
        },
{
    let candidates = eligible_indices(max, &exclude);
    let n = candidates.len();
    if n == 0 {
        assert forall|v: u64| !eligible(max, exclude@, v) by {
            if eligible(max, exclude@, v) {
                assert(candidates@.contains(v));
            }
        }
        return Err(QuizError::InsufficientCorpus);
    }
    let k = draw_in_range(0, n as u64) as usize;
    let v = candidates[k];
    assert(candidates@.contains(v));
    Ok(v)
}

} // verus!
