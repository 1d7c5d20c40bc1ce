//! The prefix drivers against the leftmost-longest scan: the matches they
//! report are the leftmost-longest, non-overlapping matches among the spans
//! the automaton accepts at the positions the prefix allows.

use vstd::prelude::*;
use crate::engine::{lemma_longest_end_range, Match, DFA_INITIAL, LDFA, NO_MATCH};
use crate::fwd::{
    lemma_fwd_prefix_matches_sound, lemma_lb_greedy_skip, lemma_lb_greedy_step, lemma_prefix_greedy_skip,
    begin_end, candidate_end, fwd_lb_prefix_matches, fwd_prefix_matches, lb_begin_resume, lb_greedy,
    literal_fast_path, prefix_greedy,
};
use crate::prefix::{lemma_literal_occurs_at, lemma_occurrences_nonempty, FwdPrefixSearch};
use crate::scan::{
    lemma_longest_span_end_is, lemma_scan_none, lemma_scan_skip, leftmost_longest,
    span_bounded,
};

verus! {

/// The spans the prefix driver reports as matches outside the literal fast
/// path. At the start of the input, when the state the first byte leads to
/// has a non-empty match, these are its non-empty matches. Anywhere else
/// (and at the start when there is no such match), they are the non-empty
/// spans that start at a prefix occurrence and that the automaton accepts,
/// reading the prefix from [`DFA_INITIAL`] and then on from there.
pub open spec fn prefix_span(d: &LDFA, prefix: &FwdPrefixSearch, input: Seq<u8>, s: int, e: int) -> bool {
    if s == 0 && 0 < begin_end(d, input) <= input.len() {
        &&& 0 < e
        &&& d.accepts(d.begin_state(input), input, 1, e)
    } else {
        let body = s + prefix.spec_len();
        &&& s < e
        &&& prefix.occurs_at(input, s)
        &&& d.accepts(d.run(DFA_INITIAL as int, input, s, body), input, body, e)
    }
}

/// The spans the prefix driver reports as matches: on the literal fast
/// path the prefix's occurrences, otherwise [`prefix_span`].
pub open spec fn fwd_match_span(
    d: &LDFA,
    fixed_length: Option<u32>,
    has_anchors: bool,
    prefix: &FwdPrefixSearch,
    input: Seq<u8>,
) -> spec_fn(int, int) -> bool {
    |s: int, e: int|
        if literal_fast_path(fixed_length, has_anchors, prefix) {
            prefix.occurs_at(input, s) && e == s + prefix.spec_len()
        } else {
            prefix_span(d, prefix, input, s, e)
        }
}

proof fn lemma_fwd_match_span_bounded(
    d: &LDFA,
    fixed_length: Option<u32>,
    has_anchors: bool,
    prefix: &FwdPrefixSearch,
    input: Seq<u8>,
)
    requires
        input.len() < NO_MATCH,
    ensures
        span_bounded(fwd_match_span(d, fixed_length, has_anchors, prefix, input), input.len() as int),
{
    let ok = fwd_match_span(d, fixed_length, has_anchors, prefix, input);
    assert forall|s: int, e: int| #[trigger] ok(s, e) implies 0 <= s <= e <= input.len() by {
        if !literal_fast_path(fixed_length, has_anchors, prefix) {
            assert(prefix_span(d, prefix, input, s, e));
        }
    }
}

/// The literal fast path's occurrences are the leftmost-longest scan over
/// the occurrence spans, from `q` on.
proof fn lemma_occurrences_scan(
    d: &LDFA,
    fixed_length: Option<u32>,
    has_anchors: bool,
    prefix: &FwdPrefixSearch,
    input: Seq<u8>,
    q: int,
)
    requires
        input.len() < NO_MATCH,
        literal_fast_path(fixed_length, has_anchors, prefix),
        0 <= q,
    ensures
        prefix.occurrences(input, q) == leftmost_longest(
            fwd_match_span(d, fixed_length, has_anchors, prefix, input),
            input.len() as int,
            q,
        ),
    decreases input.len() + 1 - q,
{
    let ok = fwd_match_span(d, fixed_length, has_anchors, prefix, input);
    let len = input.len() as int;
    let plen = prefix.spec_len();
    lemma_fwd_match_span_bounded(d, fixed_length, has_anchors, prefix, input);
    if q + plen > len {
        assert forall|s: int, e: int| q <= s implies !#[trigger] ok(s, e) by {}
        lemma_scan_none(ok, len, q);
    } else if prefix.occurs_at(input, q) {
        assert(ok(q, q + plen));
        lemma_longest_span_end_is(ok, q, q + plen);
        let next = if plen == 0 {
            q + 1
        } else {
            q + plen
        };
        lemma_occurrences_scan(d, fixed_length, has_anchors, prefix, input, next);
    } else {
        assert(!exists|e: int| #[trigger] ok(q, e));
        lemma_occurrences_scan(d, fixed_length, has_anchors, prefix, input, q + 1);
    }
}

/// Outside the fast path and past the start-of-input match, the
/// prefix-driven matches are the leftmost-longest scan over
/// [`prefix_span`], from `p` on.
proof fn lemma_prefix_greedy_scan(
    d: &LDFA,
    fixed_length: Option<u32>,
    has_anchors: bool,
    prefix: &FwdPrefixSearch,
    input: Seq<u8>,
    p: int,
)
    requires
        input.len() < NO_MATCH,
        !literal_fast_path(fixed_length, has_anchors, prefix),
        0 <= p,
        p >= 1 || !(0 < begin_end(d, input) <= input.len()),
    ensures
        prefix_greedy(d, prefix, input, p) == leftmost_longest(
            fwd_match_span(d, fixed_length, has_anchors, prefix, input),
            input.len() as int,
            p,
        ),
    decreases input.len() + 1 - p,
{
    let ok = fwd_match_span(d, fixed_length, has_anchors, prefix, input);
    let len = input.len() as int;
    let plen = prefix.spec_len();
    lemma_fwd_match_span_bounded(d, fixed_length, has_anchors, prefix, input);
    if p + plen > len {
        assert forall|s: int, e: int| p <= s implies !#[trigger] ok(s, e) by {
            assert(!prefix_span(d, prefix, input, s, e));
        }
        lemma_scan_none(ok, len, p);
    } else {
        let body = p + plen;
        let st = d.run(DFA_INITIAL as int, input, p, body);
        let c = candidate_end(d, prefix, input, p);
        lemma_longest_end_range(d, st, input, body);
        assert forall|e: int| #[trigger] ok(p, e) == (p < e && prefix.occurs_at(input, p) && d.accepts(
            st,
            input,
            body,
            e,
        )) by {
            assert(ok(p, e) == prefix_span(d, prefix, input, p, e));
        }
        if prefix.occurs_at(input, p) && p < c <= len {
            assert(ok(p, c));
            lemma_longest_span_end_is(ok, p, c);
            assert(leftmost_longest(ok, len, p) == seq![Match { start: p as usize, end: c as usize }]
                + leftmost_longest(ok, len, c));
            lemma_prefix_greedy_scan(d, fixed_length, has_anchors, prefix, input, c);
        } else {
            assert(!exists|e: int| #[trigger] ok(p, e));
            lemma_prefix_greedy_scan(d, fixed_length, has_anchors, prefix, input, p + 1);
        }
    }
}

/// The prefix driver reports exactly the leftmost-longest, non-overlapping
/// matches among the spans of [`fwd_match_span`].
pub proof fn lemma_fwd_prefix_matches_leftmost_longest(
    d: &LDFA,
    fixed_length: Option<u32>,
    has_anchors: bool,
    prefix: &FwdPrefixSearch,
    input: Seq<u8>,
)
    requires
        input.len() < NO_MATCH,
    ensures
        fwd_prefix_matches(d, fixed_length, has_anchors, prefix, input) == leftmost_longest(
            fwd_match_span(d, fixed_length, has_anchors, prefix, input),
            input.len() as int,
            0,
        ),
{
    let ok = fwd_match_span(d, fixed_length, has_anchors, prefix, input);
    let len = input.len() as int;
    if literal_fast_path(fixed_length, has_anchors, prefix) {
        lemma_occurrences_scan(d, fixed_length, has_anchors, prefix, input, 0);
    } else {
        let e0 = begin_end(d, input);
        if 0 < e0 <= len {
            let st = d.begin_state(input);
            assert(st != d.pruned as int);
            lemma_longest_end_range(d, st, input, 1);
            assert forall|e: int| #[trigger] ok(0, e) == (0 < e && d.accepts(st, input, 1, e)) by {
                assert(ok(0, e) == prefix_span(d, prefix, input, 0, e));
            }
            assert(ok(0, e0));
            lemma_longest_span_end_is(ok, 0, e0);
            assert(leftmost_longest(ok, len, 0) == seq![Match { start: 0, end: e0 as usize }]
                + leftmost_longest(ok, len, e0));
            lemma_prefix_greedy_scan(d, fixed_length, has_anchors, prefix, input, e0);
        } else {
            lemma_prefix_greedy_scan(d, fixed_length, has_anchors, prefix, input, 0);
        }
    }
}

/// The spans the lookbehind-prefix driver reports as matches: at the start
/// of the input, when the lookbehind holds there, the spans the automaton
/// accepts from [`DFA_INITIAL`] at 0; elsewhere, the spans it accepts from
/// [`DFA_INITIAL`] at `s`, when a prefix occurrence starts `lb_len` bytes
/// before `s`.
pub open spec fn lb_span(
    d: &LDFA,
    lb_len: int,
    begin_nullable: bool,
    prefix: &FwdPrefixSearch,
    input: Seq<u8>,
    s: int,
    e: int,
) -> bool {
    ||| s == 0 && begin_nullable && d.accepts(DFA_INITIAL as int, input, 0, e)
    ||| lb_len <= s && prefix.occurs_at(input, s - lb_len) && d.accepts(
        DFA_INITIAL as int,
        input,
        s,
        e,
    )
}

/// [`lb_span`] as a span predicate.
pub open spec fn lb_match_span(
    d: &LDFA,
    lb_len: int,
    begin_nullable: bool,
    prefix: &FwdPrefixSearch,
    input: Seq<u8>,
) -> spec_fn(int, int) -> bool {
    |s: int, e: int| lb_span(d, lb_len, begin_nullable, prefix, input, s, e)
}

proof fn lemma_lb_match_span_bounded(
    d: &LDFA,
    lb_len: int,
    begin_nullable: bool,
    prefix: &FwdPrefixSearch,
    input: Seq<u8>,
)
    requires
        1 <= lb_len,
    ensures
        span_bounded(lb_match_span(d, lb_len, begin_nullable, prefix, input), input.len() as int),
{
}

/// Searching for occurrences from `b`, the lookbehind-prefix matches are
/// the leftmost-longest scan over [`lb_span`] from `b + lb_len` on.
proof fn lemma_lb_greedy_scan(
    d: &LDFA,
    lb_len: int,
    begin_nullable: bool,
    prefix: &FwdPrefixSearch,
    input: Seq<u8>,
    b: int,
)
    requires
        input.len() < NO_MATCH,
        1 <= lb_len <= prefix.spec_len(),
        0 <= b,
    ensures
        lb_greedy(d, prefix, lb_len, input, b) == leftmost_longest(
            lb_match_span(d, lb_len, begin_nullable, prefix, input),
            input.len() as int,
            b + lb_len,
        ),
    decreases input.len() + 1 - b,
{
    let ok = lb_match_span(d, lb_len, begin_nullable, prefix, input);
    let len = input.len() as int;
    let plen = prefix.spec_len();
    let body = b + lb_len;
    lemma_lb_match_span_bounded(d, lb_len, begin_nullable, prefix, input);
    if b + plen > len {
        assert forall|s: int, e: int| body <= s implies !#[trigger] ok(s, e) by {}
        lemma_scan_none(ok, len, body);
    } else if prefix.occurs_at(input, b) {
        let e = d.longest_end(DFA_INITIAL as int, input, body);
        lemma_longest_end_range(d, DFA_INITIAL as int, input, body);
        assert forall|x: int| #[trigger] ok(body, x) == d.accepts(DFA_INITIAL as int, input, body, x) by {}
        if e != NO_MATCH as int {
            assert(ok(body, e));
            lemma_longest_span_end_is(ok, body, e);
            let next = if e > body {
                e - lb_len
            } else {
                b + 1
            };
            let m = Match { start: body as usize, end: e as usize };
            assert(leftmost_longest(ok, len, body) == seq![m] + leftmost_longest(ok, len, next + lb_len));
            lemma_lb_greedy_scan(d, lb_len, begin_nullable, prefix, input, next);
        } else {
            assert(!exists|x: int| #[trigger] ok(body, x));
            lemma_lb_greedy_scan(d, lb_len, begin_nullable, prefix, input, b + 1);
        }
    } else {
        assert(!exists|x: int| #[trigger] ok(body, x));
        lemma_lb_greedy_scan(d, lb_len, begin_nullable, prefix, input, b + 1);
    }
}

/// The lookbehind-prefix driver reports exactly the leftmost-longest,
/// non-overlapping matches among the spans of [`lb_span`].
pub proof fn lemma_fwd_lb_prefix_matches_leftmost_longest(
    d: &LDFA,
    lb_len: int,
    begin_nullable: bool,
    prefix: &FwdPrefixSearch,
    input: Seq<u8>,
)
    requires
        input.len() < NO_MATCH,
        1 <= lb_len <= prefix.spec_len(),
    ensures
        fwd_lb_prefix_matches(d, lb_len, begin_nullable, prefix, input) == leftmost_longest(
            lb_match_span(d, lb_len, begin_nullable, prefix, input),
            input.len() as int,
            0,
        ),
{
    let ok = lb_match_span(d, lb_len, begin_nullable, prefix, input);
    let len = input.len() as int;
    lemma_lb_match_span_bounded(d, lb_len, begin_nullable, prefix, input);
    let e0 = d.longest_end(DFA_INITIAL as int, input, 0);
    lemma_longest_end_range(d, DFA_INITIAL as int, input, 0);
    if begin_nullable && 0 <= e0 <= len {
        assert forall|x: int| #[trigger] ok(0, x) == d.accepts(DFA_INITIAL as int, input, 0, x) by {}
        assert(ok(0, e0));
        lemma_longest_span_end_is(ok, 0, e0);
        let nx = if 0 < e0 <= len {
            e0
        } else {
            1
        };
        let b0 = lb_begin_resume(e0, lb_len);
        let m = Match { start: 0, end: e0 as usize };
        assert(leftmost_longest(ok, len, 0) == seq![m] + leftmost_longest(ok, len, nx));
        assert forall|s: int, x: int| nx <= s < b0 + lb_len implies !#[trigger] ok(s, x) by {}
        lemma_scan_skip(ok, len, nx, b0 + lb_len);
        lemma_lb_greedy_scan(d, lb_len, begin_nullable, prefix, input, b0);
    } else {
        assert forall|s: int, x: int| 0 <= s < lb_len implies !#[trigger] ok(s, x) by {}
        lemma_scan_skip(ok, len, 0, lb_len);
        lemma_lb_greedy_scan(d, lb_len, begin_nullable, prefix, input, 0);
    }
}

/// On the literal fast path with a literal prefix, every reported match
/// spans exactly the literal's bytes, and there is a match whenever the
/// literal occurs in the input.
pub proof fn lemma_literal_fast_path_matches(
    d: &LDFA,
    fixed_length: Option<u32>,
    has_anchors: bool,
    prefix: &FwdPrefixSearch,
    lit: Seq<u8>,
    input: Seq<u8>,
)
    requires
        input.len() < NO_MATCH,
        literal_fast_path(fixed_length, has_anchors, prefix),
        prefix.sets@.len() == lit.len(),
        forall|t: int| 0 <= t < lit.len() ==> #[trigger] prefix.sets@[t]@ == seq![lit[t]],
    ensures
        forall|k: int|
            0 <= k < fwd_prefix_matches(d, fixed_length, has_anchors, prefix, input).len() ==> {
                let m = #[trigger] fwd_prefix_matches(d, fixed_length, has_anchors, prefix, input)[k];
                &&& m.end - m.start == lit.len()
                &&& input.subrange(m.start as int, m.end as int) == lit
            },
        (exists|q: int|
            0 <= q && q + lit.len() <= input.len() && #[trigger] input.subrange(q, q + lit.len()) == lit)
            ==> fwd_prefix_matches(d, fixed_length, has_anchors, prefix, input).len() > 0,
{
    let ms = fwd_prefix_matches(d, fixed_length, has_anchors, prefix, input);
    lemma_fwd_prefix_matches_sound(d, fixed_length, has_anchors, prefix, input);
    assert forall|k: int| 0 <= k < ms.len() implies {
        let m = #[trigger] ms[k];
        &&& m.end - m.start == lit.len()
        &&& input.subrange(m.start as int, m.end as int) == lit
    } by {
        lemma_literal_occurs_at(prefix, lit, input, ms[k].start as int);
    }
    if exists|q: int|
        0 <= q && q + lit.len() <= input.len() && #[trigger] input.subrange(q, q + lit.len()) == lit {
        let q = choose|q: int|
            0 <= q && q + lit.len() <= input.len() && #[trigger] input.subrange(q, q + lit.len()) == lit;
        lemma_literal_occurs_at(prefix, lit, input, q);
        lemma_occurrences_nonempty(prefix, input, 0, q);
    }
}

/// Outside the literal fast path, when the state that the first byte leads
/// to in the begin table is not the pruned one and accepts at some `e` from
/// position 1, the first match starts at 0 and ends at the last such
/// position.
pub proof fn lemma_fwd_prefix_start_match(
    d: &LDFA,
    fixed_length: Option<u32>,
    has_anchors: bool,
    prefix: &FwdPrefixSearch,
    input: Seq<u8>,
    e: int,
)
    requires
        0 < input.len() < NO_MATCH,
        !literal_fast_path(fixed_length, has_anchors, prefix),
        d.begin_table@[d.mt_lookup@[input[0] as int] as int] != d.pruned,
        d.accepts(d.begin_table@[d.mt_lookup@[input[0] as int] as int] as int, input, 1, e),
    ensures
        ({
            let ms = fwd_prefix_matches(d, fixed_length, has_anchors, prefix, input);
            let st = d.begin_table@[d.mt_lookup@[input[0] as int] as int] as int;
            &&& ms.len() > 0
            &&& ms[0].start == 0
            &&& e <= ms[0].end
            &&& d.accepts(st, input, 1, ms[0].end as int)
            &&& forall|e2: int| #[trigger] d.accepts(st, input, 1, e2) ==> e2 <= ms[0].end
        }),
{
    let st = d.begin_table@[d.mt_lookup@[input[0] as int] as int] as int;
    assert(d.begin_state(input) == st);
    lemma_longest_end_range(d, st, input, 1);
    let e0 = begin_end(d, input);
    assert(e0 == d.longest_end(st, input, 1));
    assert(1 <= e0 <= input.len());
    let ms = fwd_prefix_matches(d, fixed_length, has_anchors, prefix, input);
    assert(ms[0] == Match { start: 0, end: e0 as usize });
}

/// When the lookbehind holds at the start of the input and the automaton
/// accepts at some `e` from [`DFA_INITIAL`] at 0, the lookbehind-prefix
/// driver's first match starts at 0 and ends at the last such position.
pub proof fn lemma_fwd_lb_prefix_start_match(
    d: &LDFA,
    lb_len: int,
    prefix: &FwdPrefixSearch,
    input: Seq<u8>,
    e: int,
)
    requires
        input.len() < NO_MATCH,
        d.accepts(DFA_INITIAL as int, input, 0, e),
    ensures
        ({
            let ms = fwd_lb_prefix_matches(d, lb_len, true, prefix, input);
            &&& ms.len() > 0
            &&& ms[0].start == 0
            &&& e <= ms[0].end
            &&& d.accepts(DFA_INITIAL as int, input, 0, ms[0].end as int)
            &&& forall|e2: int| #[trigger] d.accepts(DFA_INITIAL as int, input, 0, e2) ==> e2 <= ms[0].end
        }),
{
    lemma_longest_end_range(d, DFA_INITIAL as int, input, 0);
    let e0 = d.longest_end(DFA_INITIAL as int, input, 0);
    let ms = fwd_lb_prefix_matches(d, lb_len, true, prefix, input);
    assert(ms[0] == Match { start: 0, end: e0 as usize });
}

/// Outside the literal fast path, when there is no match at the start of
/// the input, the prefix first occurs at `q`, and the automaton, reading the
/// prefix from [`DFA_INITIAL`] and going on from there, accepts at some
/// `e > q`, the first match starts at `q` and ends at the last such
/// position.
pub proof fn lemma_fwd_prefix_first_occurrence_match(
    d: &LDFA,
    fixed_length: Option<u32>,
    has_anchors: bool,
    prefix: &FwdPrefixSearch,
    input: Seq<u8>,
    q: int,
    e: int,
)
    requires
        0 < input.len() < NO_MATCH,
        !literal_fast_path(fixed_length, has_anchors, prefix),
        d.begin_table@[d.mt_lookup@[input[0] as int] as int] == d.pruned || forall|x: int|
            !#[trigger] d.accepts(d.begin_table@[d.mt_lookup@[input[0] as int] as int] as int, input, 1, x),
        prefix.occurs_at(input, q),
        forall|r: int| 0 <= r < q ==> !#[trigger] prefix.occurs_at(input, r),
        q < e,
        d.accepts(
            d.run(DFA_INITIAL as int, input, q, q + prefix.spec_len()),
            input,
            q + prefix.spec_len(),
            e,
        ),
    ensures
        ({
            let ms = fwd_prefix_matches(d, fixed_length, has_anchors, prefix, input);
            let st = d.run(DFA_INITIAL as int, input, q, q + prefix.spec_len());
            &&& ms.len() > 0
            &&& ms[0].start == q
            &&& e <= ms[0].end
            &&& d.accepts(st, input, q + prefix.spec_len(), ms[0].end as int)
            &&& forall|e2: int| #[trigger] d.accepts(st, input, q + prefix.spec_len(), e2) ==> e2 <= ms[0].end
        }),
{
    let st0 = d.begin_table@[d.mt_lookup@[input[0] as int] as int] as int;
    assert(d.begin_state(input) == st0);
    lemma_longest_end_range(d, st0, input, 1);
    assert(!(0 < begin_end(d, input) <= input.len()));
    let body = q + prefix.spec_len();
    let st = d.run(DFA_INITIAL as int, input, q, body);
    lemma_longest_end_range(d, st, input, body);
    let c = candidate_end(d, prefix, input, q);
    lemma_prefix_greedy_skip(d, prefix, input, 0, q);
    assert(prefix_greedy(d, prefix, input, q) == seq![Match { start: q as usize, end: c as usize }]
        + prefix_greedy(d, prefix, input, c));
}

/// When there is no match at the start of the input, the prefix first
/// occurs at `q`, and the automaton accepts from [`DFA_INITIAL`] at
/// `q + lb_len` (the body, past the lookbehind bytes) up to some `e`, the
/// lookbehind-prefix driver's first match starts at the body and ends at
/// the last such position.
pub proof fn lemma_fwd_lb_prefix_first_occurrence_match(
    d: &LDFA,
    lb_len: int,
    begin_nullable: bool,
    prefix: &FwdPrefixSearch,
    input: Seq<u8>,
    q: int,
    e: int,
)
    requires
        input.len() < NO_MATCH,
        1 <= lb_len <= prefix.spec_len(),
        !begin_nullable || forall|x: int| !#[trigger] d.accepts(DFA_INITIAL as int, input, 0, x),
        prefix.occurs_at(input, q),
        forall|r: int| 0 <= r < q ==> !#[trigger] prefix.occurs_at(input, r),
        d.accepts(DFA_INITIAL as int, input, q + lb_len, e),
    ensures
        ({
            let ms = fwd_lb_prefix_matches(d, lb_len, begin_nullable, prefix, input);
            &&& ms.len() > 0
            &&& ms[0].start == q + lb_len
            &&& e <= ms[0].end
            &&& d.accepts(DFA_INITIAL as int, input, q + lb_len, ms[0].end as int)
            &&& forall|e2: int| #[trigger] d.accepts(DFA_INITIAL as int, input, q + lb_len, e2) ==> e2
                <= ms[0].end
        }),
{
    lemma_longest_end_range(d, DFA_INITIAL as int, input, 0);
    lemma_longest_end_range(d, DFA_INITIAL as int, input, q + lb_len);
    lemma_lb_greedy_skip(d, prefix, lb_len, input, 0, q);
    lemma_lb_greedy_step(d, prefix, lb_len, input, q);
}

} // verus!
