//! Forward match drivers accelerated by a prefix search: candidate match
//! starts come from [`FwdPrefixSearch::find_fwd`], and the automaton decides
//! whether, and how far, a match extends from each of them.

use vstd::prelude::*;
use crate::engine::{
    lemma_longest_end_is, lemma_longest_end_range, lemma_run_dead, lemma_run_range, Match, DFA_DEAD,
    DFA_INITIAL, LDFA, NO_MATCH,
};
use crate::prefix::FwdPrefixSearch;
use crate::fwd_scan::{
    fwd_match_span, lb_match_span, lemma_fwd_lb_prefix_matches_leftmost_longest,
    lemma_fwd_prefix_matches_leftmost_longest,
};
use crate::scan::leftmost_longest;

verus! {

/// The automaton never accepts from the dead state.
pub proof fn lemma_dead_no_match(d: &LDFA, input: Seq<u8>, pos: int)
    requires
        d.wf(),
        0 <= pos,
        input.len() < NO_MATCH,
    ensures
        d.longest_end(DFA_DEAD as int, input, pos) == NO_MATCH as int,
{
    assert forall|e: int| !#[trigger] d.accepts(DFA_DEAD as int, input, pos, e) by {
        if pos <= e <= input.len() {
            lemma_run_dead(d, DFA_DEAD as int, input, pos, pos, e);
        }
    }
    lemma_longest_end_is(d, DFA_DEAD as int, input, pos, NO_MATCH as int);
}

/// End of the match attempted at a prefix occurrence `p`: the automaton
/// reads the prefix from [`DFA_INITIAL`], then scans on for its last
/// accepting position.
pub open spec fn candidate_end(d: &LDFA, prefix: &FwdPrefixSearch, input: Seq<u8>, p: int) -> int {
    let body = p + prefix.spec_len();
    d.longest_end(d.run(DFA_INITIAL as int, input, p, body), input, body)
}

/// Matches starting at prefix occurrences, from position `p` on: at an
/// occurrence the automaton's last accepting position gives a non-empty
/// match, which resumes the search at its end; otherwise the search goes on
/// one byte further. (These are the leftmost-longest matches of
/// [`crate::fwd_scan::prefix_span`]; see
/// [`crate::fwd_scan::lemma_fwd_prefix_matches_leftmost_longest`].)
pub open spec fn prefix_greedy(d: &LDFA, prefix: &FwdPrefixSearch, input: Seq<u8>, p: int) -> Seq<
    Match,
>
    decreases input.len() + 1 - p,
{
    if p < 0 || p + prefix.spec_len() > input.len() {
        Seq::empty()
    } else {
        let e = candidate_end(d, prefix, input, p);
        if prefix.occurs_at(input, p) && p < e <= input.len() {
            seq![Match { start: p as usize, end: e as usize }] + prefix_greedy(d, prefix, input, e)
        } else {
            prefix_greedy(d, prefix, input, p + 1)
        }
    }
}

/// End of the match attempted at the start of `input` from the state its
/// first byte leads to ([`NO_MATCH`] when that state is the pruned one).
pub open spec fn begin_end(d: &LDFA, input: Seq<u8>) -> int {
    let st = d.begin_state(input);
    if st == d.pruned as int {
        NO_MATCH as int
    } else {
        d.longest_end(st, input, 1)
    }
}

/// The prefix is a literal of exactly the pattern's fixed length and the
/// pattern has no anchors, so the matches are the literal's occurrences.
pub open spec fn literal_fast_path(
    fixed_length: Option<u32>,
    has_anchors: bool,
    prefix: &FwdPrefixSearch,
) -> bool {
    &&& fixed_length == Some(prefix.spec_len() as u32)
    &&& !has_anchors
    &&& prefix.spec_is_literal()
}

/// All matches the prefix driver reports: the literal's occurrences on the
/// fast path; otherwise a match at the start of the input, if any, followed
/// by the prefix-driven matches after it.
pub open spec fn fwd_prefix_matches(
    d: &LDFA,
    fixed_length: Option<u32>,
    has_anchors: bool,
    prefix: &FwdPrefixSearch,
    input: Seq<u8>,
) -> Seq<Match> {
    if literal_fast_path(fixed_length, has_anchors, prefix) {
        prefix.occurrences(input, 0)
    } else {
        let e0 = begin_end(d, input);
        if 0 < e0 <= input.len() {
            seq![Match { start: 0, end: e0 as usize }] + prefix_greedy(d, prefix, input, e0)
        } else {
            prefix_greedy(d, prefix, input, 0)
        }
    }
}

/// Positions without a prefix occurrence contribute nothing.
pub proof fn lemma_prefix_greedy_skip(d: &LDFA, prefix: &FwdPrefixSearch, input: Seq<u8>, q: int, c: int)
    requires
        0 <= q <= c,
        forall|r: int| q <= r < c ==> !#[trigger] prefix.occurs_at(input, r),
        c + prefix.spec_len() <= input.len(),
    ensures
        prefix_greedy(d, prefix, input, q) == prefix_greedy(d, prefix, input, c),
    decreases c - q,
{
    if q < c {
        assert(!prefix.occurs_at(input, q));
        lemma_prefix_greedy_skip(d, prefix, input, q + 1, c);
    }
}

/// No prefix occurrence from `q` on: no match.
pub proof fn lemma_prefix_greedy_none(d: &LDFA, prefix: &FwdPrefixSearch, input: Seq<u8>, q: int)
    requires
        0 <= q,
        forall|r: int| q <= r ==> !#[trigger] prefix.occurs_at(input, r),
    ensures
        prefix_greedy(d, prefix, input, q) == Seq::<Match>::empty(),
    decreases input.len() + 1 - q,
{
    if q + prefix.spec_len() <= input.len() {
        assert(!prefix.occurs_at(input, q));
        lemma_prefix_greedy_none(d, prefix, input, q + 1);
    }
}

/// The prefix-accelerated forward driver. With `IS_MATCH` it only reports
/// whether a match exists and leaves `matches` alone; otherwise it appends
/// every match to `matches` and returns `false`.
pub fn fwd_prefix_impl<const IS_MATCH: bool>(
    fwd: &LDFA,
    fixed_length: Option<u32>,
    has_anchors: bool,
    fwd_prefix: &FwdPrefixSearch,
    input: &[u8],
    matches: &mut Vec<Match>,
) -> (r: bool)
    requires
        fwd.wf(),
        input@.len() < NO_MATCH,
        input@.len() > 0 || literal_fast_path(fixed_length, has_anchors, fwd_prefix),
    ensures
        IS_MATCH ==> r == (fwd_prefix_matches(fwd, fixed_length, has_anchors, fwd_prefix, input@).len()
            > 0) && final(matches)@ == old(matches)@,
        !IS_MATCH ==> !r && final(matches)@ == old(matches)@ + fwd_prefix_matches(
            fwd,
            fixed_length,
            has_anchors,
            fwd_prefix,
            input@,
        ),
{
    let ghost total = fwd_prefix_matches(fwd, fixed_length, has_anchors, fwd_prefix, input@);
    let prefix_len = fwd_prefix.len();
    let n = input.len();

    let fixed_match = match fixed_length {
        Some(f) => f == prefix_len as u32,
        None => false,
    };
    if fixed_match && !has_anchors {
        if IS_MATCH {
            if fwd_prefix.is_literal() {
                let found = fwd_prefix.find_fwd(input, 0);
                proof {
                    match found {
                        Some(c) => {
                            fwd_prefix.lemma_occurrences_skip(input@, 0, c as int);
                        },
                        None => {
                            fwd_prefix.lemma_occurrences_none(input@, 0);
                        },
                    }
                }
                return found.is_some();
            }
        } else if fwd_prefix.find_all_literal(input, matches) {
            return false;
        }
    }
    proof {
        assert(!literal_fast_path(fixed_length, has_anchors, fwd_prefix));
    }
    let ghost old_matches = matches@;
    let mut search_start: usize = 0;
    let ghost mut found: Seq<Match> = Seq::empty();

    {
        let mt = fwd.mt_lookup[input[0] as usize];
        let state = fwd.begin_table[mt as usize];
        if state != fwd.pruned {
            let max_end = fwd.scan_fwd_from(state, 1, input);
            proof {
                lemma_longest_end_range(fwd, state as int, input@, 1);
            }
            if max_end != NO_MATCH && max_end > 0 {
                if IS_MATCH {
                    return true;
                }
                matches.push(Match { start: 0, end: max_end });
                search_start = max_end;
                proof {
                    found = seq![Match { start: 0, end: max_end }];
                }
            }
        }
    }
    assert(found + prefix_greedy(fwd, fwd_prefix, input@, search_start as int) == total);

    loop
        invariant
            fwd.wf(),
            n == input@.len(),
            n < NO_MATCH,
            prefix_len == fwd_prefix.spec_len(),
            search_start <= n + 1,
            total == fwd_prefix_matches(fwd, fixed_length, has_anchors, fwd_prefix, input@),
            found + prefix_greedy(fwd, fwd_prefix, input@, search_start as int) == total,
            IS_MATCH ==> found == Seq::<Match>::empty() && matches@ == old(matches)@,
            !IS_MATCH ==> matches@ == old(matches)@ + found,
        decreases n + 1 - search_start,
    {
        match fwd_prefix.find_fwd(input, search_start) {
            None => {
                proof {
                    lemma_prefix_greedy_none(fwd, fwd_prefix, input@, search_start as int);
                    assert(found + Seq::<Match>::empty() =~= found);
                }
                return false;
            },
            Some(candidate) => {
                proof {
                    lemma_prefix_greedy_skip(fwd, fwd_prefix, input@, search_start as int, candidate as int);
                }
                let body = candidate + prefix_len;
                let state = fwd.walk_input(candidate, prefix_len, input);
                proof {
                    lemma_run_range(fwd, DFA_INITIAL as int, input@, candidate as int, body as int);
                    lemma_longest_end_range(fwd, state as int, input@, body as int);
                    if state == DFA_DEAD {
                        lemma_dead_no_match(fwd, input@, body as int);
                    }
                }
                if state != 0 {
                    let max_end = fwd.scan_fwd_from(state, body, input);
                    if max_end != NO_MATCH && max_end > candidate {
                        if IS_MATCH {
                            return true;
                        }
                        let ghost before = matches@;
                        matches.push(Match { start: candidate, end: max_end });
                        proof {
                            let m = Match { start: candidate, end: max_end };
                            assert(prefix_greedy(fwd, fwd_prefix, input@, candidate as int) == seq![m]
                                + prefix_greedy(fwd, fwd_prefix, input@, max_end as int));
                            assert(found + seq![m] + prefix_greedy(fwd, fwd_prefix, input@, max_end as int)
                                =~= found + prefix_greedy(fwd, fwd_prefix, input@, candidate as int));
                            found = found + seq![m];
                            assert(matches@ =~= old(matches)@ + found);
                        }
                        search_start = max_end;
                        continue;
                    }
                }
                search_start = candidate + 1;
            },
        }
    }
}

/// Matches driven by a prefix whose first `lb_len` bytes are a lookbehind,
/// searching for occurrences from position `p` on. At an occurrence the
/// body starts `lb_len` bytes in; a non-empty match resumes the search
/// `lb_len` bytes before its end, so that the next body can start right at
/// its end, while an empty match or a failed occurrence resumes it one byte
/// after the occurrence.
pub open spec fn lb_greedy(
    d: &LDFA,
    prefix: &FwdPrefixSearch,
    lb_len: int,
    input: Seq<u8>,
    p: int,
) -> Seq<Match>
    decreases input.len() + 1 - p,
{
    if lb_len < 1 || lb_len > prefix.spec_len() || p < 0 || p + prefix.spec_len() > input.len() {
        Seq::empty()
    } else if prefix.occurs_at(input, p) {
        let body = p + lb_len;
        let e = d.longest_end(DFA_INITIAL as int, input, body);
        if body <= e <= input.len() {
            let next = if e > body {
                e - lb_len
            } else {
                p + 1
            };
            seq![Match { start: body as usize, end: e as usize }] + lb_greedy(
                d,
                prefix,
                lb_len,
                input,
                next,
            )
        } else {
            lb_greedy(d, prefix, lb_len, input, p + 1)
        }
    } else {
        lb_greedy(d, prefix, lb_len, input, p + 1)
    }
}

/// Where the occurrence search resumes after the match `[0, e)` at the
/// start of the input: `lb_len` bytes before its end, or at 0.
pub open spec fn lb_begin_resume(e: int, lb_len: int) -> int {
    if e >= lb_len {
        e - lb_len
    } else {
        0
    }
}

/// All matches the lookbehind-prefix driver reports: when the lookbehind
/// holds at the start of the input, the longest match from position 0,
/// followed by the prefix-driven matches, whose bodies start at its end or
/// later (an occurrence starts its body `lb_len` bytes in, so an empty match
/// at 0 is never reported twice).
pub open spec fn fwd_lb_prefix_matches(
    d: &LDFA,
    lb_len: int,
    begin_nullable: bool,
    prefix: &FwdPrefixSearch,
    input: Seq<u8>,
) -> Seq<Match> {
    let e0 = d.longest_end(DFA_INITIAL as int, input, 0);
    if begin_nullable && 0 <= e0 <= input.len() {
        seq![Match { start: 0, end: e0 as usize }] + lb_greedy(
            d,
            prefix,
            lb_len,
            input,
            lb_begin_resume(e0, lb_len),
        )
    } else {
        lb_greedy(d, prefix, lb_len, input, 0)
    }
}

/// Positions without a prefix occurrence contribute nothing.
pub proof fn lemma_lb_greedy_skip(
    d: &LDFA,
    prefix: &FwdPrefixSearch,
    lb_len: int,
    input: Seq<u8>,
    q: int,
    c: int,
)
    requires
        1 <= lb_len <= prefix.spec_len(),
        0 <= q <= c,
        forall|r: int| q <= r < c ==> !#[trigger] prefix.occurs_at(input, r),
        c + prefix.spec_len() <= input.len(),
    ensures
        lb_greedy(d, prefix, lb_len, input, q) == lb_greedy(d, prefix, lb_len, input, c),
    decreases c - q,
{
    if q < c {
        assert(!prefix.occurs_at(input, q));
        lemma_lb_greedy_skip(d, prefix, lb_len, input, q + 1, c);
    }
}

/// No prefix occurrence from `q` on: no match.
pub proof fn lemma_lb_greedy_none(d: &LDFA, prefix: &FwdPrefixSearch, lb_len: int, input: Seq<u8>, q: int)
    requires
        0 <= q,
        forall|r: int| q <= r ==> !#[trigger] prefix.occurs_at(input, r),
    ensures
        lb_greedy(d, prefix, lb_len, input, q) == Seq::<Match>::empty(),
    decreases input.len() + 1 - q,
{
    if 1 <= lb_len <= prefix.spec_len() && q + prefix.spec_len() <= input.len() {
        assert(!prefix.occurs_at(input, q));
        lemma_lb_greedy_none(d, prefix, lb_len, input, q + 1);
    }
}

/// One step of [`lb_greedy`] at a prefix occurrence `c`.
pub proof fn lemma_lb_greedy_step(d: &LDFA, prefix: &FwdPrefixSearch, lb_len: int, input: Seq<u8>, c: int)
    requires
        1 <= lb_len <= prefix.spec_len(),
        prefix.occurs_at(input, c),
    ensures
        ({
            let body = c + lb_len;
            let e = d.longest_end(DFA_INITIAL as int, input, body);
            if body <= e <= input.len() {
                lb_greedy(d, prefix, lb_len, input, c) == seq![
                    Match { start: body as usize, end: e as usize },
                ] + lb_greedy(
                    d,
                    prefix,
                    lb_len,
                    input,
                    if e > body {
                        e - lb_len
                    } else {
                        c + 1
                    },
                )
            } else {
                lb_greedy(d, prefix, lb_len, input, c) == lb_greedy(d, prefix, lb_len, input, c + 1)
            }
        }),
{
}

/// The forward driver for patterns that start with a lookbehind of
/// `lb_len` bytes covered by the prefix. With `IS_MATCH` it only reports
/// whether a match exists and leaves `matches` alone; otherwise it appends
/// every match to `matches` and returns `false`.
#[verifier::rlimit(30)]
pub fn fwd_lb_prefix_impl<const IS_MATCH: bool>(
    fwd: &LDFA,
    lb_len: usize,
    fwd_lb_begin_nullable: bool,
    fwd_prefix: &FwdPrefixSearch,
    input: &[u8],
    matches: &mut Vec<Match>,
) -> (r: bool)
    requires
        fwd.wf(),
        input@.len() < NO_MATCH,
        1 <= lb_len <= fwd_prefix.spec_len(),
    ensures
        IS_MATCH ==> r == (fwd_lb_prefix_matches(
            fwd,
            lb_len as int,
            fwd_lb_begin_nullable,
            fwd_prefix,
            input@,
        ).len() > 0) && final(matches)@ == old(matches)@,
        !IS_MATCH ==> !r && final(matches)@ == old(matches)@ + fwd_lb_prefix_matches(
            fwd,
            lb_len as int,
            fwd_lb_begin_nullable,
            fwd_prefix,
            input@,
        ),
{
    let ghost total = fwd_lb_prefix_matches(
        fwd,
        lb_len as int,
        fwd_lb_begin_nullable,
        fwd_prefix,
        input@,
    );
    let n = input.len();
    let prefix_len = fwd_prefix.len();
    let mut search_start: usize = 0;
    let ghost mut found: Seq<Match> = Seq::empty();

    if fwd_lb_begin_nullable {
        let max_end = fwd.scan_fwd_slow(0, input);
        proof {
            lemma_longest_end_range(fwd, DFA_INITIAL as int, input@, 0);
        }
        if max_end != NO_MATCH {
            if IS_MATCH {
                return true;
            }
            matches.push(Match { start: 0, end: max_end });
            search_start = if max_end >= lb_len {
                max_end - lb_len
            } else {
                0
            };
            proof {
                found = seq![Match { start: 0, end: max_end }];
            }
        }
    }
    assert(found + lb_greedy(fwd, fwd_prefix, lb_len as int, input@, search_start as int) == total);

    loop
        invariant
            fwd.wf(),
            n == input@.len(),
            n < NO_MATCH,
            prefix_len == fwd_prefix.spec_len(),
            1 <= lb_len <= prefix_len,
            search_start <= n + 1,
            total == fwd_lb_prefix_matches(
                fwd,
                lb_len as int,
                fwd_lb_begin_nullable,
                fwd_prefix,
                input@,
            ),
            found + lb_greedy(fwd, fwd_prefix, lb_len as int, input@, search_start as int) == total,
            IS_MATCH ==> found == Seq::<Match>::empty() && matches@ == old(matches)@,
            !IS_MATCH ==> matches@ == old(matches)@ + found,
        decreases n + 1 - search_start,
    {
        match fwd_prefix.find_fwd(input, search_start) {
            None => {
                proof {
                    lemma_lb_greedy_none(fwd, fwd_prefix, lb_len as int, input@, search_start as int);
                    assert(found + Seq::<Match>::empty() =~= found);
                }
                return false;
            },
            Some(candidate) => {
                proof {
                    lemma_lb_greedy_skip(
                        fwd,
                        fwd_prefix,
                        lb_len as int,
                        input@,
                        search_start as int,
                        candidate as int,
                    );
                }
                let body_start = candidate + lb_len;
                let max_end = fwd.scan_fwd_from(DFA_INITIAL, body_start, input);
                proof {
                    lemma_longest_end_range(fwd, DFA_INITIAL as int, input@, body_start as int);
                    lemma_lb_greedy_step(fwd, fwd_prefix, lb_len as int, input@, candidate as int);
                }
                if max_end != NO_MATCH {
                    if IS_MATCH {
                        return true;
                    }
                    matches.push(Match { start: body_start, end: max_end });
                    let next = if max_end > body_start {
                        max_end - lb_len
                    } else {
                        candidate + 1
                    };
                    proof {
                        let m = Match { start: body_start, end: max_end };
                        assert(found + seq![m] + lb_greedy(fwd, fwd_prefix, lb_len as int, input@, next as int)
                            =~= found + lb_greedy(fwd, fwd_prefix, lb_len as int, input@, candidate as int));
                        found = found + seq![m];
                        assert(matches@ =~= old(matches)@ + found);
                    }
                    search_start = next;
                } else {
                    search_start = candidate + 1;
                }
            },
        }
    }
}

/// Matches lie inside an input of length `len`, in order, without
/// overlapping.
pub open spec fn well_ordered(ms: Seq<Match>, len: int) -> bool {
    &&& forall|k: int| 0 <= k < ms.len() ==> #[trigger] ms[k].start <= ms[k].end <= len
    &&& forall|k: int| 0 < k < ms.len() ==> ms[k - 1].end <= #[trigger] ms[k].start
}

/// Every match starts at `p` or later.
pub open spec fn starts_from(ms: Seq<Match>, p: int) -> bool {
    forall|k: int| 0 <= k < ms.len() ==> p <= #[trigger] ms[k].start
}

/// Prepending a match that ends before the rest starts keeps a list ordered.
pub proof fn lemma_cons_ordered(m: Match, rest: Seq<Match>, len: int)
    requires
        m.start <= m.end <= len,
        well_ordered(rest, len),
        starts_from(rest, m.end as int),
    ensures
        well_ordered(seq![m] + rest, len),
        starts_from(seq![m] + rest, m.start as int),
{
    let ms = seq![m] + rest;
    assert forall|k: int| 0 <= k < ms.len() implies #[trigger] ms[k].start <= ms[k].end <= len by {
        if k > 0 {
            assert(ms[k] == rest[k - 1]);
        }
    }
    assert forall|k: int| 0 < k < ms.len() implies ms[k - 1].end <= #[trigger] ms[k].start by {
        assert(ms[k] == rest[k - 1]);
        if k > 1 {
            assert(ms[k - 1] == rest[k - 2]);
        }
    }
    assert forall|k: int| 0 <= k < ms.len() implies m.start <= #[trigger] ms[k].start by {
        if k > 0 {
            assert(ms[k] == rest[k - 1]);
        }
    }
}

/// Prefix-driven matches are ordered, non-overlapping, non-empty, and each
/// starts at a prefix occurrence and ends at the automaton's last accepting
/// position from there.
pub proof fn lemma_prefix_greedy_sound(d: &LDFA, prefix: &FwdPrefixSearch, input: Seq<u8>, p: int)
    requires
        input.len() < NO_MATCH,
    ensures
        well_ordered(prefix_greedy(d, prefix, input, p), input.len() as int),
        starts_from(prefix_greedy(d, prefix, input, p), p),
        forall|k: int|
            0 <= k < prefix_greedy(d, prefix, input, p).len() ==> {
                let m = #[trigger] prefix_greedy(d, prefix, input, p)[k];
                &&& m.start < m.end
                &&& prefix.occurs_at(input, m.start as int)
                &&& m.end == candidate_end(d, prefix, input, m.start as int)
            },
    decreases input.len() + 1 - p,
{
    let ms = prefix_greedy(d, prefix, input, p);
    if p < 0 || p + prefix.spec_len() > input.len() {
    } else {
        let e = candidate_end(d, prefix, input, p);
        if prefix.occurs_at(input, p) && p < e <= input.len() {
            lemma_prefix_greedy_sound(d, prefix, input, e);
            let m = Match { start: p as usize, end: e as usize };
            let rest = prefix_greedy(d, prefix, input, e);
            assert(m.start == p && m.end == e);
            assert(ms == seq![m] + rest);
            assert(ms[0] == m);
            lemma_cons_ordered(m, rest, input.len() as int);
            assert forall|k: int| 0 <= k < ms.len() implies {
                let mk = #[trigger] ms[k];
                &&& mk.start < mk.end
                &&& prefix.occurs_at(input, mk.start as int)
                &&& mk.end == candidate_end(d, prefix, input, mk.start as int)
            } by {
                if k > 0 {
                    assert(ms[k] == rest[k - 1]);
                }
            }
        } else {
            lemma_prefix_greedy_sound(d, prefix, input, p + 1);
        }
    }
}

/// Literal occurrences are ordered, non-overlapping, and each is an
/// occurrence of the prefix spanning the prefix's length.
pub proof fn lemma_occurrences_sound(prefix: &FwdPrefixSearch, input: Seq<u8>, q: int)
    requires
        input.len() < NO_MATCH,
    ensures
        well_ordered(prefix.occurrences(input, q), input.len() as int),
        starts_from(prefix.occurrences(input, q), q),
        forall|k: int|
            0 <= k < prefix.occurrences(input, q).len() ==> {
                let m = #[trigger] prefix.occurrences(input, q)[k];
                &&& prefix.occurs_at(input, m.start as int)
                &&& m.end == m.start + prefix.spec_len()
            },
    decreases input.len() + 1 - q,
{
    let ms = prefix.occurrences(input, q);
    if q < 0 || q + prefix.spec_len() > input.len() {
    } else if prefix.occurs_at(input, q) {
        let next = if prefix.spec_len() == 0 {
            q + 1
        } else {
            q + prefix.spec_len()
        };
        lemma_occurrences_sound(prefix, input, next);
        let m = Match { start: q as usize, end: (q + prefix.spec_len()) as usize };
        let rest = prefix.occurrences(input, next);
        assert(m.start == q && m.end == q + prefix.spec_len());
        assert(ms == seq![m] + rest);
        assert(ms[0] == m);
        lemma_cons_ordered(m, rest, input.len() as int);
        assert forall|k: int| 0 <= k < ms.len() implies {
            let mk = #[trigger] ms[k];
            &&& prefix.occurs_at(input, mk.start as int)
            &&& mk.end == mk.start + prefix.spec_len()
        } by {
            if k > 0 {
                assert(ms[k] == rest[k - 1]);
            }
        }
    } else {
        lemma_occurrences_sound(prefix, input, q + 1);
    }
}

/// Lookbehind-prefix matches are ordered, non-overlapping, each starts
/// `lb_len` bytes into a prefix occurrence, and each ends at the automaton's
/// last accepting position from its start.
pub proof fn lemma_lb_greedy_sound(
    d: &LDFA,
    prefix: &FwdPrefixSearch,
    lb_len: int,
    input: Seq<u8>,
    p: int,
)
    requires
        input.len() < NO_MATCH,
    ensures
        well_ordered(lb_greedy(d, prefix, lb_len, input, p), input.len() as int),
        starts_from(lb_greedy(d, prefix, lb_len, input, p), p + lb_len),
        forall|k: int|
            0 <= k < lb_greedy(d, prefix, lb_len, input, p).len() ==> {
                let m = #[trigger] lb_greedy(d, prefix, lb_len, input, p)[k];
                &&& prefix.occurs_at(input, m.start - lb_len)
                &&& m.end == d.longest_end(DFA_INITIAL as int, input, m.start as int)
            },
    decreases input.len() + 1 - p,
{
    let ms = lb_greedy(d, prefix, lb_len, input, p);
    if lb_len < 1 || lb_len > prefix.spec_len() || p < 0 || p + prefix.spec_len() > input.len() {
    } else if prefix.occurs_at(input, p) {
        let body = p + lb_len;
        let e = d.longest_end(DFA_INITIAL as int, input, body);
        if body <= e <= input.len() {
            let next = if e > body {
                e - lb_len
            } else {
                p + 1
            };
            lemma_lb_greedy_sound(d, prefix, lb_len, input, next);
            let m = Match { start: body as usize, end: e as usize };
            let rest = lb_greedy(d, prefix, lb_len, input, next);
            assert(m.start == body && m.end == e);
            assert(ms == seq![m] + rest);
            assert(ms[0] == m);
            lemma_cons_ordered(m, rest, input.len() as int);
            assert forall|k: int| 0 <= k < ms.len() implies {
                let mk = #[trigger] ms[k];
                &&& prefix.occurs_at(input, mk.start - lb_len)
                &&& mk.end == d.longest_end(DFA_INITIAL as int, input, mk.start as int)
            } by {
                if k > 0 {
                    assert(ms[k] == rest[k - 1]);
                }
            }
        } else {
            lemma_lb_greedy_sound(d, prefix, lb_len, input, p + 1);
        }
    } else {
        lemma_lb_greedy_sound(d, prefix, lb_len, input, p + 1);
    }
}

/// Everything the prefix driver reports lies inside the input, in order,
/// without overlapping.
pub proof fn lemma_fwd_prefix_matches_ordered(
    d: &LDFA,
    fixed_length: Option<u32>,
    has_anchors: bool,
    prefix: &FwdPrefixSearch,
    input: Seq<u8>,
)
    requires
        input.len() < NO_MATCH,
    ensures
        well_ordered(
            fwd_prefix_matches(d, fixed_length, has_anchors, prefix, input),
            input.len() as int,
        ),
{
    if literal_fast_path(fixed_length, has_anchors, prefix) {
        lemma_occurrences_sound(prefix, input, 0);
    } else {
        let e0 = begin_end(d, input);
        if 0 < e0 <= input.len() {
            lemma_prefix_greedy_sound(d, prefix, input, e0);
            lemma_cons_ordered(
                Match { start: 0, end: e0 as usize },
                prefix_greedy(d, prefix, input, e0),
                input.len() as int,
            );
        } else {
            lemma_prefix_greedy_sound(d, prefix, input, 0);
        }
    }
}

/// Every match the prefix driver reports is explained: on the literal fast
/// path it is an occurrence of the prefix; otherwise it is either the match
/// at the start of the input, ending where [`begin_end`] says, or it starts
/// at a prefix occurrence and ends at the automaton's last accepting
/// position from there.
pub proof fn lemma_fwd_prefix_matches_sound(
    d: &LDFA,
    fixed_length: Option<u32>,
    has_anchors: bool,
    prefix: &FwdPrefixSearch,
    input: Seq<u8>,
)
    requires
        input.len() < NO_MATCH,
    ensures
        forall|k: int|
            0 <= k < fwd_prefix_matches(d, fixed_length, has_anchors, prefix, input).len() ==> {
                let m = #[trigger] fwd_prefix_matches(d, fixed_length, has_anchors, prefix, input)[k];
                if literal_fast_path(fixed_length, has_anchors, prefix) {
                    prefix.occurs_at(input, m.start as int) && m.end == m.start + prefix.spec_len()
                } else {
                    ||| m.start == 0 && m.end == begin_end(d, input)
                    ||| prefix.occurs_at(input, m.start as int) && m.end == candidate_end(
                        d,
                        prefix,
                        input,
                        m.start as int,
                    )
                }
            },
{
    let ms = fwd_prefix_matches(d, fixed_length, has_anchors, prefix, input);
    if literal_fast_path(fixed_length, has_anchors, prefix) {
        lemma_occurrences_sound(prefix, input, 0);
    } else {
        let e0 = begin_end(d, input);
        if 0 < e0 <= input.len() {
            let rest = prefix_greedy(d, prefix, input, e0);
            lemma_prefix_greedy_sound(d, prefix, input, e0);
            assert forall|k: int| 0 <= k < ms.len() implies {
                let m = #[trigger] ms[k];
                ||| m.start == 0 && m.end == begin_end(d, input)
                ||| prefix.occurs_at(input, m.start as int) && m.end == candidate_end(
                    d,
                    prefix,
                    input,
                    m.start as int,
                )
            } by {
                if k > 0 {
                    assert(ms[k] == rest[k - 1]);
                }
            }
        } else {
            lemma_prefix_greedy_sound(d, prefix, input, 0);
        }
    }
}

/// Everything the lookbehind-prefix driver reports lies inside the input,
/// in order, without overlapping, and ends at the automaton's last
/// accepting position from its start.
pub proof fn lemma_fwd_lb_prefix_matches_ordered(
    d: &LDFA,
    lb_len: int,
    begin_nullable: bool,
    prefix: &FwdPrefixSearch,
    input: Seq<u8>,
)
    requires
        input.len() < NO_MATCH,
    ensures
        well_ordered(
            fwd_lb_prefix_matches(d, lb_len, begin_nullable, prefix, input),
            input.len() as int,
        ),
        forall|k: int|
            0 <= k < fwd_lb_prefix_matches(d, lb_len, begin_nullable, prefix, input).len() ==> {
                let m = #[trigger] fwd_lb_prefix_matches(d, lb_len, begin_nullable, prefix, input)[k];
                m.end == d.longest_end(DFA_INITIAL as int, input, m.start as int)
            },
{
    let ms = fwd_lb_prefix_matches(d, lb_len, begin_nullable, prefix, input);
    let e0 = d.longest_end(DFA_INITIAL as int, input, 0);
    if begin_nullable && 0 <= e0 <= input.len() {
        let rest = lb_greedy(d, prefix, lb_len, input, lb_begin_resume(e0, lb_len));
        lemma_lb_greedy_sound(d, prefix, lb_len, input, lb_begin_resume(e0, lb_len));
        let m = Match { start: 0, end: e0 as usize };
        assert(m.end == e0);
        assert(ms == seq![m] + rest);
        assert(ms[0] == m);
        assert(starts_from(rest, e0));
        lemma_cons_ordered(m, rest, input.len() as int);
        assert forall|k: int| 0 <= k < ms.len() implies {
            let mk = #[trigger] ms[k];
            mk.end == d.longest_end(DFA_INITIAL as int, input, mk.start as int)
        } by {
            if k > 0 {
                assert(ms[k] == rest[k - 1]);
            }
        }
    } else {
        lemma_lb_greedy_sound(d, prefix, lb_len, input, 0);
    }
}

/// A compiled pattern: its forward automaton and the facts the drivers
/// consult.
pub struct Regex {
    pub fwd: LDFA,
    /// Length every match has, when the pattern fixes one.
    pub fixed_length: Option<u32>,
    pub has_anchors: bool,
    /// Length of the lookbehind a lookbehind prefix starts with.
    pub lb_check_bytes: u32,
    /// The lookbehind holds at the start of the input.
    pub fwd_lb_begin_nullable: bool,
}

impl Regex {
    /// Every match, found through the prefix.
    pub fn find_all_fwd_prefix(&self, fwd_prefix: &FwdPrefixSearch, input: &[u8]) -> (r: Vec<Match>)
        requires
            self.fwd.wf(),
            input@.len() < NO_MATCH,
            input@.len() > 0 || literal_fast_path(self.fixed_length, self.has_anchors, fwd_prefix),
        ensures
            r@ == fwd_prefix_matches(
                &self.fwd,
                self.fixed_length,
                self.has_anchors,
                fwd_prefix,
                input@,
            ),
            r@ == leftmost_longest(
                fwd_match_span(&self.fwd, self.fixed_length, self.has_anchors, fwd_prefix, input@),
                input@.len() as int,
                0,
            ),
    {
        proof {
            lemma_fwd_prefix_matches_leftmost_longest(
                &self.fwd,
                self.fixed_length,
                self.has_anchors,
                fwd_prefix,
                input@,
            );
        }
        let mut matches: Vec<Match> = Vec::new();
        fwd_prefix_impl::<false>(
            &self.fwd,
            self.fixed_length,
            self.has_anchors,
            fwd_prefix,
            input,
            &mut matches,
        );
        proof {
            assert(matches@ =~= Seq::<Match>::empty() + fwd_prefix_matches(
                &self.fwd,
                self.fixed_length,
                self.has_anchors,
                fwd_prefix,
                input@,
            ));
        }
        matches
    }

    /// Whether there is a match, found through the prefix.
    pub fn is_match_fwd_prefix(&self, fwd_prefix: &FwdPrefixSearch, input: &[u8]) -> (r: bool)
        requires
            self.fwd.wf(),
            input@.len() < NO_MATCH,
            input@.len() > 0 || literal_fast_path(self.fixed_length, self.has_anchors, fwd_prefix),
        ensures
            r == (fwd_prefix_matches(
                &self.fwd,
                self.fixed_length,
                self.has_anchors,
                fwd_prefix,
                input@,
            ).len() > 0),
            r == (leftmost_longest(
                fwd_match_span(&self.fwd, self.fixed_length, self.has_anchors, fwd_prefix, input@),
                input@.len() as int,
                0,
            ).len() > 0),
    {
        proof {
            lemma_fwd_prefix_matches_leftmost_longest(
                &self.fwd,
                self.fixed_length,
                self.has_anchors,
                fwd_prefix,
                input@,
            );
        }
        let mut matches: Vec<Match> = Vec::new();
        fwd_prefix_impl::<true>(
            &self.fwd,
            self.fixed_length,
            self.has_anchors,
            fwd_prefix,
            input,
            &mut matches,
        )
    }

    /// Whether there is a match, found through the lookbehind prefix.
    pub fn is_match_fwd_lb_prefix(&self, fwd_prefix: &FwdPrefixSearch, input: &[u8]) -> (r: bool)
        requires
            self.fwd.wf(),
            input@.len() < NO_MATCH,
            1 <= self.lb_check_bytes <= fwd_prefix.spec_len(),
        ensures
            r == (fwd_lb_prefix_matches(
                &self.fwd,
                self.lb_check_bytes as int,
                self.fwd_lb_begin_nullable,
                fwd_prefix,
                input@,
            ).len() > 0),
            r == (leftmost_longest(
                lb_match_span(
                    &self.fwd,
                    self.lb_check_bytes as int,
                    self.fwd_lb_begin_nullable,
                    fwd_prefix,
                    input@,
                ),
                input@.len() as int,
                0,
            ).len() > 0),
    {
        proof {
            lemma_fwd_lb_prefix_matches_leftmost_longest(
                &self.fwd,
                self.lb_check_bytes as int,
                self.fwd_lb_begin_nullable,
                fwd_prefix,
                input@,
            );
        }
        let mut matches: Vec<Match> = Vec::new();
        fwd_lb_prefix_impl::<true>(
            &self.fwd,
            self.lb_check_bytes as usize,
            self.fwd_lb_begin_nullable,
            fwd_prefix,
            input,
            &mut matches,
        )
    }

    /// Every match, found through the lookbehind prefix.
    pub fn find_all_fwd_lb_prefix(&self, fwd_prefix: &FwdPrefixSearch, input: &[u8]) -> (r: Vec<
        Match,
    >)
        requires
            self.fwd.wf(),
            input@.len() < NO_MATCH,
            1 <= self.lb_check_bytes <= fwd_prefix.spec_len(),
        ensures
            r@ == fwd_lb_prefix_matches(
                &self.fwd,
                self.lb_check_bytes as int,
                self.fwd_lb_begin_nullable,
                fwd_prefix,
                input@,
            ),
            r@ == leftmost_longest(
                lb_match_span(
                    &self.fwd,
                    self.lb_check_bytes as int,
                    self.fwd_lb_begin_nullable,
                    fwd_prefix,
                    input@,
                ),
                input@.len() as int,
                0,
            ),
    {
        proof {
            lemma_fwd_lb_prefix_matches_leftmost_longest(
                &self.fwd,
                self.lb_check_bytes as int,
                self.fwd_lb_begin_nullable,
                fwd_prefix,
                input@,
            );
        }
        let mut matches: Vec<Match> = Vec::new();
        fwd_lb_prefix_impl::<false>(
            &self.fwd,
            self.lb_check_bytes as usize,
            self.fwd_lb_begin_nullable,
            fwd_prefix,
            input,
            &mut matches,
        );
        proof {
            assert(matches@ =~= Seq::<Match>::empty() + fwd_lb_prefix_matches(
                &self.fwd,
                self.lb_check_bytes as int,
                self.fwd_lb_begin_nullable,
                fwd_prefix,
                input@,
            ));
        }
        matches
    }
}

} // verus!
