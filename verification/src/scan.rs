//! The leftmost-longest, non-overlapping match scan over a set of spans.
//!
//! Given which spans `(s, e)` of an input count as matches, the scan walks
//! the start positions from left to right; at the first start that has a
//! match it reports the longest one and goes on from its end. An empty match
//! at `s` lets the next match start at `s + 1` or later.

use vstd::prelude::*;
use crate::engine::Match;

verus! {

/// Every span `ok` admits lies inside an input of length `len`.
pub open spec fn span_bounded(ok: spec_fn(int, int) -> bool, len: int) -> bool {
    forall|s: int, e: int| #[trigger] ok(s, e) ==> 0 <= s <= e <= len
}

/// The longest span `ok` admits at start `s`.
pub open spec fn longest_span_end(ok: spec_fn(int, int) -> bool, s: int) -> int {
    choose|e: int| #[trigger] ok(s, e) && forall|e2: int| #[trigger] ok(s, e2) ==> e2 <= e
}

/// The leftmost-longest, non-overlapping matches among the spans `ok`
/// admits, for an input of length `len`, from start position `p` on.
pub open spec fn leftmost_longest(ok: spec_fn(int, int) -> bool, len: int, p: int) -> Seq<Match>
    decreases len + 1 - p,
{
    if p < 0 || p > len {
        Seq::empty()
    } else if exists|e: int| #[trigger] ok(p, e) {
        let e = longest_span_end(ok, p);
        let next = if p < e <= len {
            e
        } else {
            p + 1
        };
        seq![Match { start: p as usize, end: e as usize }] + leftmost_longest(ok, len, next)
    } else {
        leftmost_longest(ok, len, p + 1)
    }
}

/// A span that `ok` admits and that no other span at the same start
/// outlasts is the longest one.
pub proof fn lemma_longest_span_end_is(ok: spec_fn(int, int) -> bool, s: int, r: int)
    requires
        ok(s, r),
        forall|e: int| #[trigger] ok(s, e) ==> e <= r,
    ensures
        longest_span_end(ok, s) == r,
{
    let c = longest_span_end(ok, s);
    assert(ok(s, c) && forall|e2: int| #[trigger] ok(s, e2) ==> e2 <= c);
    assert(c <= r);
    assert(r <= c);
}

/// Start positions without a span are passed over.
pub proof fn lemma_scan_skip(ok: spec_fn(int, int) -> bool, len: int, p: int, q: int)
    requires
        span_bounded(ok, len),
        0 <= p <= q,
        forall|s: int, e: int| p <= s < q ==> !#[trigger] ok(s, e),
    ensures
        leftmost_longest(ok, len, p) == leftmost_longest(ok, len, q),
    decreases q - p,
{
    if p < q && p <= len {
        assert(!exists|e: int| #[trigger] ok(p, e));
        lemma_scan_skip(ok, len, p + 1, q);
    }
}

/// No span starts at `p` or later: the scan finds nothing.
pub proof fn lemma_scan_none(ok: spec_fn(int, int) -> bool, len: int, p: int)
    requires
        span_bounded(ok, len),
        0 <= p,
        forall|s: int, e: int| p <= s ==> !#[trigger] ok(s, e),
    ensures
        leftmost_longest(ok, len, p) == Seq::<Match>::empty(),
{
    if p <= len {
        lemma_scan_skip(ok, len, p, len + 1);
    }
}

/// The first match of the scan starts at the first start position with a
/// span; when there is none, no span starts at `p` or later.
pub proof fn lemma_scan_first(ok: spec_fn(int, int) -> bool, len: int, p: int)
    requires
        span_bounded(ok, len),
        0 <= p,
        len <= usize::MAX,
    ensures
        leftmost_longest(ok, len, p).len() == 0 ==> forall|s: int, e: int|
            p <= s ==> !#[trigger] ok(s, e),
        leftmost_longest(ok, len, p).len() > 0 ==> {
            let s0 = leftmost_longest(ok, len, p)[0].start as int;
            &&& p <= s0 <= len
            &&& exists|e: int| #[trigger] ok(s0, e)
            &&& forall|s: int, e: int| p <= s < s0 ==> !#[trigger] ok(s, e)
        },
    decreases len + 1 - p,
{
    if p <= len {
        if exists|e: int| #[trigger] ok(p, e) {
            let e = longest_span_end(ok, p);
            let next = if p < e <= len {
                e
            } else {
                p + 1
            };
            let m = Match { start: p as usize, end: e as usize };
            assert(leftmost_longest(ok, len, p) == seq![m] + leftmost_longest(ok, len, next));
            assert(leftmost_longest(ok, len, p)[0] == m);
        } else {
            lemma_scan_first(ok, len, p + 1);
        }
    }
}

} // verus!
