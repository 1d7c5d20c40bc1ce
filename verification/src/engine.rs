//! The forward automaton the match drivers run: a deterministic automaton
//! over byte classes ("minterms"), with per-state acceptance in the middle
//! and at the end of the input.

use vstd::prelude::*;

verus! {

/// A match: the span `input[start..end]`.
#[derive(Clone, Copy, PartialEq, Eq, Structural, Debug)]
pub struct Match {
    pub start: usize,
    pub end: usize,
}

/// Returned by the scans when no accepting position exists.
pub const NO_MATCH: usize = usize::MAX;

/// The dead state: it never accepts and never leaves.
pub const DFA_DEAD: u32 = 0;

/// The state a match attempt starts in, away from the start of the input.
pub const DFA_INITIAL: u32 = 1;

/// A complete transition table over minterms.
pub struct LDFA {
    /// Minterm of each byte value.
    pub mt_lookup: Vec<u8>,
    /// Number of minterms.
    pub num_mt: usize,
    /// Number of states; state `s` has its transitions at `delta[s * num_mt ..]`.
    pub num_states: usize,
    pub delta: Vec<u32>,
    /// State after the first byte of the input, by the byte's minterm.
    pub begin_table: Vec<u32>,
    /// A [`Self::begin_table`] entry from which no match is attempted.
    pub pruned: u32,
    /// Acceptance of each state before a byte of the input.
    pub null_center: Vec<bool>,
    /// Acceptance of each state at the end of the input.
    pub null_end: Vec<bool>,
}

impl LDFA {
    /// The table is complete and consistent.
    pub open spec fn wf(&self) -> bool {
        &&& self.mt_lookup@.len() == 256
        &&& 1 <= self.num_mt
        &&& 2 <= self.num_states <= 0x1_0000_0000
        &&& self.delta@.len() == self.num_states * self.num_mt
        &&& self.begin_table@.len() == self.num_mt
        &&& self.null_center@.len() == self.num_states
        &&& self.null_end@.len() == self.num_states
        &&& forall|x: int| 0 <= x < 256 ==> #[trigger] self.mt_lookup@[x] < self.num_mt
        &&& forall|t: int| 0 <= t < self.delta@.len() ==> #[trigger] self.delta@[t] < self.num_states
        &&& forall|m: int| 0 <= m < self.num_mt ==> #[trigger] self.delta@[m] == DFA_DEAD
        &&& forall|m: int| 0 <= m < self.num_mt ==> #[trigger] self.begin_table@[m] < self.num_states
        &&& !self.null_center@[DFA_DEAD as int]
        &&& !self.null_end@[DFA_DEAD as int]
    }

    /// Minterm of byte `x`.
    pub open spec fn mt(&self, x: u8) -> int {
        self.mt_lookup@[x as int] as int
    }

    /// Successor of state `s` on byte `x`.
    pub open spec fn step(&self, s: int, x: u8) -> int {
        self.delta@[s * self.num_mt + self.mt(x)] as int
    }

    /// State reached from `s` by reading `input[from..to]`.
    pub open spec fn run(&self, s: int, input: Seq<u8>, from: int, to: int) -> int
        decreases to - from,
    {
        if to <= from {
            s
        } else {
            self.step(self.run(s, input, from, to - 1), input[to - 1])
        }
    }

    /// State `s` accepts at position `pos` of an input of length `len`.
    pub open spec fn nullable_at(&self, s: int, pos: int, len: int) -> bool {
        if pos == len {
            self.null_end@[s]
        } else {
            self.null_center@[s]
        }
    }

    /// Starting in `s` at `pos`, the automaton accepts at `e`.
    pub open spec fn accepts(&self, s: int, input: Seq<u8>, pos: int, e: int) -> bool {
        &&& pos <= e <= input.len()
        &&& self.nullable_at(self.run(s, input, pos, e), e, input.len() as int)
    }

    /// The last position at which the automaton, started in `s` at `pos`,
    /// accepts; [`NO_MATCH`] if there is none.
    pub open spec fn longest_end(&self, s: int, input: Seq<u8>, pos: int) -> int {
        if exists|e: int| self.accepts(s, input, pos, e) {
            choose|e: int|
                self.accepts(s, input, pos, e) && forall|e2: int|
                    #[trigger] self.accepts(s, input, pos, e2) ==> e2 <= e
        } else {
            NO_MATCH as int
        }
    }

    /// The state after the first byte of `input` at the start of the input.
    pub open spec fn begin_state(&self, input: Seq<u8>) -> int {
        self.begin_table@[self.mt(input[0])] as int
    }
}

/// The dead state stays dead.
pub proof fn lemma_run_dead(d: &LDFA, s: int, input: Seq<u8>, pos: int, i: int, e: int)
    requires
        d.wf(),
        pos <= i <= e <= input.len(),
        0 <= pos,
        d.run(s, input, pos, i) == DFA_DEAD as int,
    ensures
        d.run(s, input, pos, e) == DFA_DEAD as int,
    decreases e - i,
{
    if e > i {
        lemma_run_dead(d, s, input, pos, i, e - 1);
        let m = d.mt(input[e - 1]);
        assert(0 <= m < d.num_mt);
        assert(d.delta@[0 * d.num_mt + m] == DFA_DEAD);
    }
}

/// Index arithmetic of the transition table.
pub proof fn lemma_delta_index(s: int, m: int, num_states: int, num_mt: int)
    requires
        0 <= s < num_states,
        0 <= m < num_mt,
    ensures
        0 <= s * num_mt + m < num_states * num_mt,
{
    assert(0 <= s * num_mt + m < num_states * num_mt) by (nonlinear_arith)
        requires
            0 <= s < num_states,
            0 <= m < num_mt,
    ;
}

/// Every state the automaton reaches is a state of the table.
pub proof fn lemma_run_range(d: &LDFA, s: int, input: Seq<u8>, from: int, to: int)
    requires
        d.wf(),
        0 <= s < d.num_states,
        0 <= from,
        to <= input.len(),
    ensures
        0 <= d.run(s, input, from, to) < d.num_states,
    decreases to - from,
{
    if to > from {
        lemma_run_range(d, s, input, from, to - 1);
        let prev = d.run(s, input, from, to - 1);
        let m = d.mt(input[to - 1]);
        lemma_delta_index(prev, m, d.num_states as int, d.num_mt as int);
    }
}

/// [`LDFA::longest_end`] is the last accepting position, when one exists.
pub proof fn lemma_longest_end_is(d: &LDFA, s: int, input: Seq<u8>, pos: int, r: int)
    requires
        r == NO_MATCH as int ==> forall|e: int| !#[trigger] d.accepts(s, input, pos, e),
        r != NO_MATCH as int ==> d.accepts(s, input, pos, r) && forall|e: int|
            #[trigger] d.accepts(s, input, pos, e) ==> e <= r,
        input.len() < NO_MATCH,
    ensures
        d.longest_end(s, input, pos) == r,
{
    if r != NO_MATCH as int {
        let c = choose|e: int|
            d.accepts(s, input, pos, e) && forall|e2: int| #[trigger] d.accepts(s, input, pos, e2) ==> e2 <= e;
        assert(d.accepts(s, input, pos, c));
        assert(c <= r && r <= c);
    }
}

/// [`LDFA::longest_end`] is [`NO_MATCH`] or an accepting position at or
/// after `pos`.
pub proof fn lemma_longest_end_range(d: &LDFA, s: int, input: Seq<u8>, pos: int)
    requires
        input.len() < NO_MATCH,
    ensures
        d.longest_end(s, input, pos) == NO_MATCH as int || {
            let e = d.longest_end(s, input, pos);
            &&& pos <= e <= input.len()
            &&& d.accepts(s, input, pos, e)
            &&& forall|e2: int| #[trigger] d.accepts(s, input, pos, e2) ==> e2 <= e
        },
        d.longest_end(s, input, pos) == NO_MATCH as int ==> forall|e: int|
            !#[trigger] d.accepts(s, input, pos, e),
{
    if exists|e: int| d.accepts(s, input, pos, e) {
        let w = choose|e: int| d.accepts(s, input, pos, e);
        if !exists|e: int|
            d.accepts(s, input, pos, e) && forall|e2: int| #[trigger] d.accepts(s, input, pos, e2) ==> e2 <= e {
            // the accepting positions lie in pos..=len, so a last one exists
            lemma_last_accept(d, s, input, pos, w, input.len() as int);
        }
    }
}

/// Some accepting position at or below `hi` is the last one at or below `hi`.
proof fn lemma_last_accept(d: &LDFA, s: int, input: Seq<u8>, pos: int, w: int, hi: int)
    requires
        d.accepts(s, input, pos, w),
        w <= hi,
        forall|e: int| #[trigger] d.accepts(s, input, pos, e) ==> e <= hi,
    ensures
        exists|e: int|
            d.accepts(s, input, pos, e) && forall|e2: int| #[trigger] d.accepts(s, input, pos, e2) ==> e2 <= e,
    decreases hi - w,
{
    if !d.accepts(s, input, pos, hi) {
        lemma_last_accept(d, s, input, pos, w, hi - 1);
    }
}

impl LDFA {
    /// Builds an automaton from its parts; `None` unless the parts form a
    /// complete, consistent table.
    #[verifier::loop_isolation(false)]
    pub fn new(
        mt_lookup: Vec<u8>,
        num_mt: usize,
        num_states: usize,
        delta: Vec<u32>,
        begin_table: Vec<u32>,
        pruned: u32,
        null_center: Vec<bool>,
        null_end: Vec<bool>,
    ) -> (r: Option<LDFA>)
        ensures
            r is Some <==> (LDFA {
                mt_lookup,
                num_mt,
                num_states,
                delta,
                begin_table,
                pruned,
                null_center,
                null_end,
            }).wf(),
            r matches Some(d) ==> d == (LDFA {
                mt_lookup,
                num_mt,
                num_states,
                delta,
                begin_table,
                pruned,
                null_center,
                null_end,
            }),
    {
        let d = LDFA {
            mt_lookup,
            num_mt,
            num_states,
            delta,
            begin_table,
            pruned,
            null_center,
            null_end,
        };
        let cells_len = d.delta.len();
        if d.mt_lookup.len() != 256 || num_mt < 1 || num_states < 2 || num_states as u64
            > 0x1_0000_0000u64 || d.begin_table.len() != num_mt || d.null_center.len()
            != num_states || d.null_end.len() != num_states {
            return None;
        }
        match num_states.checked_mul(num_mt) {
            None => {
                return None;
            },
            Some(cells) => {
                if cells_len != cells {
                    return None;
                }
            },
        }
        if d.null_center[0] || d.null_end[0] {
            return None;
        }
        let mut x: usize = 0;
        while x < 256
            invariant
                d.mt_lookup@.len() == 256,
                0 <= x <= 256,
                forall|y: int| 0 <= y < x ==> #[trigger] d.mt_lookup@[y] < d.num_mt,
            decreases 256 - x,
        {
            if d.mt_lookup[x] as usize >= d.num_mt {
                return None;
            }
            x = x + 1;
        }
        let mut t: usize = 0;
        while t < cells_len
            invariant
                cells_len == d.delta@.len(),
                0 <= t <= d.delta@.len(),
                forall|u: int| 0 <= u < t ==> #[trigger] d.delta@[u] < d.num_states,
            decreases d.delta@.len() - t,
        {
            if d.delta[t] as usize >= d.num_states {
                return None;
            }
            t = t + 1;
        }
        let mut m: usize = 0;
        while m < num_mt
            invariant
                num_mt == d.num_mt,
                num_states == d.num_states,
                0 <= m <= num_mt,
                d.delta@.len() == num_states * num_mt,
                d.begin_table@.len() == num_mt,
                num_states >= 2,
                forall|q: int| 0 <= q < m ==> #[trigger] d.delta@[q] == DFA_DEAD,
                forall|q: int| 0 <= q < m ==> #[trigger] d.begin_table@[q] < d.num_states,
            decreases num_mt - m,
        {
            proof {
                lemma_delta_index(0, m as int, num_states as int, num_mt as int);
            }
            if d.delta[m] != DFA_DEAD || d.begin_table[m] as usize >= num_states {
                return None;
            }
            m = m + 1;
        }
        Some(d)
    }

    /// Successor of state `s` on byte `x`.
    fn step_exec(&self, s: u32, x: u8) -> (r: u32)
        requires
            self.wf(),
            s < self.num_states,
        ensures
            r == self.step(s as int, x),
            r < self.num_states,
    {
        let m = self.mt_lookup[x as usize] as usize;
        let _cells = self.delta.len();
        proof {
            lemma_delta_index(s as int, m as int, self.num_states as int, self.num_mt as int);
        }
        self.delta[s as usize * self.num_mt + m]
    }

    /// Whether state `s` accepts at `pos` of an input of length `len`.
    fn nullable_exec(&self, s: u32, pos: usize, len: usize) -> (r: bool)
        requires
            self.wf(),
            s < self.num_states,
        ensures
            r == self.nullable_at(s as int, pos as int, len as int),
    {
        if pos == len {
            self.null_end[s as usize]
        } else {
            self.null_center[s as usize]
        }
    }
    /// The last position at which the automaton, started in `state` at
    /// `pos`, accepts; [`NO_MATCH`] if there is none.
    pub fn scan_fwd_from(&self, state: u32, pos: usize, input: &[u8]) -> (r: usize)
        requires
            self.wf(),
            state < self.num_states,
            pos <= input@.len(),
            input@.len() < NO_MATCH,
        ensures
            r == self.longest_end(state as int, input@, pos as int),
    {
        let len = input.len();
        let mut s = state;
        let mut max_end: usize = if self.nullable_exec(s, pos, len) {
            pos
        } else {
            NO_MATCH
        };
        let mut i = pos;
        while i < len
            invariant
                self.wf(),
                pos <= i <= len,
                len == input@.len(),
                len < NO_MATCH,
                state < self.num_states,
                s < self.num_states,
                s == self.run(state as int, input@, pos as int, i as int),
                max_end == NO_MATCH ==> forall|e: int|
                    pos <= e <= i ==> !#[trigger] self.accepts(state as int, input@, pos as int, e),
                max_end != NO_MATCH ==> {
                    &&& pos <= max_end <= i
                    &&& self.accepts(state as int, input@, pos as int, max_end as int)
                    &&& forall|e: int|
                        max_end < e <= i ==> !#[trigger] self.accepts(state as int, input@, pos as int, e)
                },
            decreases len - i,
        {
            s = self.step_exec(s, input[i]);
            i = i + 1;
            if s == DFA_DEAD {
                proof {
                    assert forall|e: int| i <= e <= len implies !#[trigger] self.accepts(state as int, input@, pos as int, e) by {
                        lemma_run_dead(self, state as int, input@, pos as int, i as int, e);
                    }
                    lemma_longest_end_is(self, state as int, input@, pos as int, max_end as int);
                }
                return max_end;
            }
            if self.nullable_exec(s, i, len) {
                max_end = i;
            }
        }
        proof {
            lemma_longest_end_is(self, state as int, input@, pos as int, max_end as int);
        }
        max_end
    }

    /// [`Self::scan_fwd_from`] from [`DFA_INITIAL`].
    pub fn scan_fwd_slow(&self, pos: usize, input: &[u8]) -> (r: usize)
        requires
            self.wf(),
            pos <= input@.len(),
            input@.len() < NO_MATCH,
        ensures
            r == self.longest_end(DFA_INITIAL as int, input@, pos as int),
    {
        self.scan_fwd_from(DFA_INITIAL, pos, input)
    }

    /// The state reached from [`DFA_INITIAL`] by reading
    /// `input[start..start + len]` ([`DFA_DEAD`] once it dies).
    pub fn walk_input(&self, start: usize, len: usize, input: &[u8]) -> (r: u32)
        requires
            self.wf(),
            start + len <= input@.len(),
        ensures
            r == self.run(DFA_INITIAL as int, input@, start as int, start + len),
    {
        let _n = input.len();
        let end = start + len;
        let mut s = DFA_INITIAL;
        let mut i = start;
        while i < end
            invariant
                self.wf(),
                start <= i <= end,
                end == start + len,
                end <= input@.len(),
                s < self.num_states,
                s == self.run(DFA_INITIAL as int, input@, start as int, i as int),
            decreases end - i,
        {
            s = self.step_exec(s, input[i]);
            i = i + 1;
            if s == DFA_DEAD {
                proof {
                    lemma_run_dead(self, DFA_INITIAL as int, input@, start as int, i as int, end as int);
                }
                return DFA_DEAD;
            }
        }
        s
    }
}

} // verus!
