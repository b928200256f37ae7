//! Chaining of track segments.
//!
//! Each segment is laid down at the frame where the previous one ended. The
//! frame type and its composition belong to the caller; a segment that
//! yields no mesh has no terminal frame and does not advance the chain.
use vstd::prelude::*;

verus! {

/// `exit` is where a segment entered at `entry` leaves: `entry` composed with
/// its terminal frame, or `entry` itself when the segment has none.
pub open spec fn links<F, C: Fn(F, F) -> F>(compose: C, entry: F, end: Option<F>, exit: F) -> bool {
    match end {
        None => exit == entry,
        Some(e) => compose.ensures((entry, e), exit),
    }
}

/// `frames` is the chain that starts at `start` and follows the terminal
/// frames `ends`: `frames[k]` is where segment `k` is entered and
/// `frames[ends.len()]` is where the last one leaves.
pub open spec fn is_chain<F, C: Fn(F, F) -> F>(
    compose: C,
    start: F,
    ends: Seq<Option<F>>,
    frames: Seq<F>,
) -> bool {
    &&& frames.len() == ends.len() + 1
    &&& frames[0] == start
    &&& forall|k: int|
        0 <= k < ends.len() ==> links(compose, #[trigger] frames[k], ends[k], frames[k + 1])
}

/// Composition is a function: the same two frames always compose to the
/// same frame.
pub open spec fn composes_functionally<F, C: Fn(F, F) -> F>(compose: C) -> bool {
    forall|a: F, b: F, x: F, y: F|
        compose.ensures((a, b), x) && compose.ensures((a, b), y) ==> x == y
}

/// Entry frames of a chain of segments with terminal frames `ends` (`None`
/// for a segment that yields no mesh), starting at `start`; the last element
/// is the frame where the chain ends.
pub fn chain_frames<F: Copy, C: Fn(F, F) -> F>(start: F, ends: &Vec<Option<F>>, compose: C) -> (r:
    Vec<F>)
    requires
        forall|a: F, b: F| compose.requires((a, b)),
    ensures
        is_chain(compose, start, ends@, r@),
{
    let mut r: Vec<F> = Vec::new();
    let mut prev = start;
    r.push(prev);
    let mut k: usize = 0;
    while k < ends.len()
        invariant
            forall|a: F, b: F| compose.requires((a, b)),
            k <= ends@.len(),
            r@.len() == k + 1,
            r@[0] == start,
            r@[k as int] == prev,
            forall|m: int|
                0 <= m < k ==> links(compose, #[trigger] r@[m], ends@[m], r@[m + 1]),
        decreases ends@.len() - k,
    {
        match ends[k] {
            Some(e) => {
                prev = compose(prev, e);
            },
            None => {},
        }
        let ghost before = r@;
        r.push(prev);
        proof {
            assert forall|m: int| 0 <= m < k + 1 implies links(
                compose,
                #[trigger] r@[m],
                ends@[m],
                r@[m + 1],
            ) by {
                if m < k {
                    assert(r@[m] == before[m] && r@[m + 1] == before[m + 1]);
                }
            }
        }
        k = k + 1;
    }
    r
}

proof fn lemma_prefix_agrees<F, C: Fn(F, F) -> F>(
    compose: C,
    start: F,
    ends: Seq<Option<F>>,
    a: Seq<F>,
    b: Seq<F>,
    k: int,
)
    requires
        is_chain(compose, start, ends, a),
        is_chain(compose, start, ends, b),
        composes_functionally(compose),
        0 <= k <= ends.len(),
    ensures
        a[k] == b[k],
    decreases k,
{
    if k > 0 {
        lemma_prefix_agrees(compose, start, ends, a, b, k - 1);
        assert(links(compose, a[k - 1], ends[k - 1], a[k]));
        assert(links(compose, b[k - 1], ends[k - 1], b[k]));
    }
}

/// Chaining is idempotent: with composition a function, the same start and
/// terminal frames always give the same chain.
pub proof fn lemma_chain_unique<F, C: Fn(F, F) -> F>(
    compose: C,
    start: F,
    ends: Seq<Option<F>>,
    a: Seq<F>,
    b: Seq<F>,
)
    requires
        is_chain(compose, start, ends, a),
        is_chain(compose, start, ends, b),
        composes_functionally(compose),
    ensures
        a == b,
{
    assert forall|k: int| 0 <= k < a.len() implies a[k] == b[k] by {
        lemma_prefix_agrees(compose, start, ends, a, b, k);
    }
    assert(a =~= b);
}

proof fn lemma_chains_agree<F, C: Fn(F, F) -> F>(
    compose: C,
    start: F,
    ends: Seq<Option<F>>,
    s: int,
    frames: Seq<F>,
    frames_without: Seq<F>,
    k: int,
)
    requires
        0 <= s < ends.len(),
        ends[s] is None,
        is_chain(compose, start, ends, frames),
        is_chain(compose, start, ends.remove(s), frames_without),
        composes_functionally(compose),
        0 <= k <= ends.len(),
    ensures
        k <= s ==> frames[k] == frames_without[k],
        k > s ==> frames[k] == frames_without[k - 1],
    decreases k,
{
    let rest = ends.remove(s);
    if k > 0 {
        lemma_chains_agree(compose, start, ends, s, frames, frames_without, k - 1);
        assert(links(compose, frames[k - 1], ends[k - 1], frames[k]));
        if k <= s {
            assert(rest[k - 1] == ends[k - 1]);
            assert(links(compose, frames_without[k - 1], rest[k - 1], frames_without[k]));
        } else if k > s + 1 {
            assert(rest[k - 2] == ends[k - 1]);
            assert(links(compose, frames_without[k - 2], rest[k - 2], frames_without[k - 1]));
        }
    }
}

/// A segment that yields no mesh drops out of the chain: with composition a
/// function, the chain of a segment list whose segment `s` is skipped
/// enters every other segment, and ends, where the chain of the list
/// without segment `s` does.
pub proof fn lemma_skipped_segment_drops_out<F, C: Fn(F, F) -> F>(
    compose: C,
    start: F,
    ends: Seq<Option<F>>,
    s: int,
    frames: Seq<F>,
    frames_without: Seq<F>,
)
    requires
        0 <= s < ends.len(),
        ends[s] is None,
        is_chain(compose, start, ends, frames),
        is_chain(compose, start, ends.remove(s), frames_without),
        composes_functionally(compose),
    ensures
        frames.last() == frames_without.last(),
        forall|k: int| 0 <= k < s ==> frames[k] == frames_without[k],
        forall|k: int| s < k < ends.len() ==> frames[k] == frames_without[k - 1],
{
    assert forall|k: int| 0 <= k < s implies frames[k] == frames_without[k] by {
        lemma_chains_agree(compose, start, ends, s, frames, frames_without, k);
    }
    assert forall|k: int| s < k < ends.len() implies frames[k] == frames_without[k - 1] by {
        lemma_chains_agree(compose, start, ends, s, frames, frames_without, k);
    }
    lemma_chains_agree(compose, start, ends, s, frames, frames_without, ends.len() as int);
}

} // verus!
