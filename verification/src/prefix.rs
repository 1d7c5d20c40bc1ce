//! Forward prefix search: the byte sets every match must start with, used to
//! find the positions worth running the automaton from.

use vstd::prelude::*;
use crate::engine::Match;

verus! {

/// `sets@[t]` holds the bytes allowed at offset `t` of the prefix.
pub struct FwdPrefixSearch {
    pub sets: Vec<Vec<u8>>,
}

/// Membership of `x` in the byte list `set`.
fn set_contains(set: &Vec<u8>, x: u8) -> (r: bool)
    ensures
        r == set@.contains(x),
{
    let mut k: usize = 0;
    while k < set.len()
        invariant
            0 <= k <= set@.len(),
            forall|q: int| 0 <= q < k ==> set@[q] != x,
        decreases set@.len() - k,
    {
        if set[k] == x {
            return true;
        }
        k = k + 1;
    }
    false
}

impl FwdPrefixSearch {
    /// Number of bytes in the prefix.
    pub open spec fn spec_len(&self) -> int {
        self.sets@.len() as int
    }

    /// The prefix matches `input` at position `q`.
    pub open spec fn occurs_at(&self, input: Seq<u8>, q: int) -> bool {
        &&& 0 <= q
        &&& q + self.spec_len() <= input.len()
        &&& forall|t: int|
            0 <= t < self.spec_len() ==> #[trigger] self.sets@[t]@.contains(input[q + t])
    }

    /// Every offset allows exactly one byte listed once.
    pub open spec fn spec_is_literal(&self) -> bool {
        forall|t: int| 0 <= t < self.spec_len() ==> #[trigger] self.sets@[t]@.len() == 1
    }

    /// Leftmost non-overlapping occurrences of the prefix from `q` on, each
    /// reported as a match of the prefix's length (an empty prefix occurs at
    /// every position).
    pub open spec fn occurrences(&self, input: Seq<u8>, q: int) -> Seq<Match>
        decreases input.len() + 1 - q,
    {
        if q < 0 || q + self.spec_len() > input.len() {
            Seq::empty()
        } else if self.occurs_at(input, q) {
            let next = if self.spec_len() == 0 {
                q + 1
            } else {
                q + self.spec_len()
            };
            seq![Match { start: q as usize, end: (q + self.spec_len()) as usize }]
                + self.occurrences(input, next)
        } else {
            self.occurrences(input, q + 1)
        }
    }

    /// The literal prefix `bytes`.
    pub fn literal(bytes: &[u8]) -> (r: FwdPrefixSearch)
        ensures
            r.spec_len() == bytes@.len(),
            r.spec_is_literal(),
            forall|t: int| 0 <= t < bytes@.len() ==> #[trigger] r.sets@[t]@ == seq![bytes@[t]],
    {
        let mut sets: Vec<Vec<u8>> = Vec::new();
        let mut k: usize = 0;
        while k < bytes.len()
            invariant
                0 <= k <= bytes@.len(),
                sets@.len() == k,
                forall|t: int| 0 <= t < k ==> #[trigger] sets@[t]@ == seq![bytes@[t]],
            decreases bytes@.len() - k,
        {
            let mut one: Vec<u8> = Vec::new();
            one.push(bytes[k]);
            proof {
                assert(one@ =~= seq![bytes@[k as int]]);
            }
            sets.push(one);
            k = k + 1;
        }
        FwdPrefixSearch { sets }
    }

    /// Number of bytes in the prefix.
    pub fn len(&self) -> (n: usize)
        ensures
            n == self.spec_len(),
    {
        self.sets.len()
    }

    /// Whether every offset allows exactly one byte.
    pub fn is_literal(&self) -> (r: bool)
        ensures
            r == self.spec_is_literal(),
    {
        let mut t: usize = 0;
        while t < self.sets.len()
            invariant
                0 <= t <= self.sets@.len(),
                forall|q: int| 0 <= q < t ==> #[trigger] self.sets@[q]@.len() == 1,
            decreases self.sets@.len() - t,
        {
            if self.sets[t].len() != 1 {
                return false;
            }
            t = t + 1;
        }
        true
    }

    /// Whether the prefix matches `input` at `q`.
    fn occurs_at_exec(&self, input: &[u8], q: usize) -> (r: bool)
        requires
            q + self.spec_len() <= input@.len(),
        ensures
            r == self.occurs_at(input@, q as int),
    {
        let n = self.sets.len();
        let input_len = input.len();
        let mut t: usize = 0;
        while t < n
            invariant
                n == self.spec_len(),
                input_len == input@.len(),
                q + n <= input@.len(),
                0 <= t <= n,
                forall|u: int| 0 <= u < t ==> #[trigger] self.sets@[u]@.contains(input@[q + u]),
            decreases n - t,
        {
            if !set_contains(&self.sets[t], input[q + t]) {
                return false;
            }
            t = t + 1;
        }
        true
    }

    /// The first position at or after `start` where the prefix occurs.
    pub fn find_fwd(&self, input: &[u8], start: usize) -> (r: Option<usize>)
        ensures
            r matches Some(c) ==> {
                &&& start <= c
                &&& self.occurs_at(input@, c as int)
                &&& forall|q: int| start <= q < c ==> !#[trigger] self.occurs_at(input@, q)
            },
            r is None ==> forall|q: int| start <= q ==> !#[trigger] self.occurs_at(input@, q),
    {
        let n = input.len();
        let plen = self.sets.len();
        if plen > n || start > n - plen {
            return None;
        }
        let last = n - plen;
        let mut q = start;
        while q <= last
            invariant
                n == input@.len(),
                plen == self.spec_len(),
                last == n - plen,
                start <= q,
                forall|u: int| start <= u < q ==> !#[trigger] self.occurs_at(input@, u),
            decreases last + 1 - q,
        {
            if self.occurs_at_exec(input, q) {
                return Some(q);
            }
            if q == last {
                return None;
            }
            q = q + 1;
        }
        None
    }
    /// Positions where the prefix does not occur contribute nothing.
    pub proof fn lemma_occurrences_skip(&self, input: Seq<u8>, q: int, c: int)
        requires
            0 <= q <= c,
            forall|r: int| q <= r < c ==> !#[trigger] self.occurs_at(input, r),
            c + self.spec_len() <= input.len(),
        ensures
            self.occurrences(input, q) == self.occurrences(input, c),
        decreases c - q,
    {
        if q < c {
            assert(!self.occurs_at(input, q));
            self.lemma_occurrences_skip(input, q + 1, c);
        }
    }

    /// No occurrence from `q` on: nothing is reported.
    pub proof fn lemma_occurrences_none(&self, input: Seq<u8>, q: int)
        requires
            0 <= q,
            forall|r: int| q <= r ==> !#[trigger] self.occurs_at(input, r),
        ensures
            self.occurrences(input, q) == Seq::<Match>::empty(),
        decreases input.len() + 1 - q,
    {
        if q + self.spec_len() <= input.len() {
            assert(!self.occurs_at(input, q));
            self.lemma_occurrences_none(input, q + 1);
        }
    }

    /// Appends the leftmost non-overlapping occurrences of a literal prefix
    /// to `matches` and returns `true`; returns `false` and leaves `matches`
    /// alone when the prefix is not literal.
    pub fn find_all_literal(&self, input: &[u8], matches: &mut Vec<Match>) -> (r: bool)
        requires
            input@.len() < usize::MAX,
        ensures
            r == self.spec_is_literal(),
            r ==> final(matches)@ == old(matches)@ + self.occurrences(input@, 0),
            !r ==> final(matches)@ == old(matches)@,
    {
        if !self.is_literal() {
            return false;
        }
        let n = input.len();
        let plen = self.sets.len();
        let step = if plen == 0 {
            1
        } else {
            plen
        };
        let mut q: usize = 0;
        while q <= n
            invariant
                n == input@.len(),
                n < usize::MAX,
                plen == self.spec_len(),
                step == if plen == 0 { 1 } else { plen },
                self.spec_is_literal(),
                matches@ + self.occurrences(input@, q as int) == old(matches)@ + self.occurrences(
                    input@,
                    0,
                ),
            decreases n + 1 - q,
        {
            match self.find_fwd(input, q) {
                None => {
                    proof {
                        self.lemma_occurrences_none(input@, q as int);
                        assert(matches@ + Seq::<Match>::empty() =~= matches@);
                    }
                    return true;
                },
                Some(c) => {
                    proof {
                        self.lemma_occurrences_skip(input@, q as int, c as int);
                    }
                    let ghost before = matches@;
                    matches.push(Match { start: c, end: c + plen });
                    proof {
                        let m = Match { start: c, end: (c + plen) as usize };
                        let next = if plen == 0 { c + 1 } else { c + plen };
                        assert(self.occurrences(input@, c as int) == seq![m] + self.occurrences(input@, next as int));
                        assert(matches@ + self.occurrences(input@, next as int) =~= before + self.occurrences(input@, c as int));
                    }
                    q = c + step;
                },
            }
        }
        proof {
            assert(self.occurrences(input@, q as int) == Seq::<Match>::empty());
            assert(matches@ + Seq::<Match>::empty() =~= matches@);
        }
        true
    }
}

/// A literal prefix occurs at `q` exactly when the input holds the
/// literal's bytes from `q` on.
pub proof fn lemma_literal_occurs_at(prefix: &FwdPrefixSearch, lit: Seq<u8>, input: Seq<u8>, q: int)
    requires
        prefix.sets@.len() == lit.len(),
        forall|t: int| 0 <= t < lit.len() ==> #[trigger] prefix.sets@[t]@ == seq![lit[t]],
    ensures
        prefix.occurs_at(input, q) <==> (0 <= q && q + lit.len() <= input.len() && input.subrange(
            q,
            q + lit.len(),
        ) == lit),
{
    if prefix.occurs_at(input, q) {
        assert forall|t: int| 0 <= t < lit.len() implies #[trigger] input.subrange(q, q + lit.len())[t]
            == lit[t] by {
            assert(prefix.sets@[t]@.contains(input[q + t]));
            assert(seq![lit[t]].contains(input[q + t]));
            assert(seq![lit[t]][0] == lit[t]);
        }
        assert(input.subrange(q, q + lit.len()) =~= lit);
    }
    if 0 <= q && q + lit.len() <= input.len() && input.subrange(q, q + lit.len()) == lit {
        assert forall|t: int| 0 <= t < prefix.spec_len() implies #[trigger] prefix.sets@[t]@.contains(
            input[q + t],
        ) by {
            assert(input.subrange(q, q + lit.len())[t] == input[q + t]);
            assert(seq![lit[t]][0] == lit[t]);
        }
    }
}

/// The occurrence list from `p` is non-empty when the prefix occurs at `p`
/// or later.
pub proof fn lemma_occurrences_nonempty(prefix: &FwdPrefixSearch, input: Seq<u8>, p: int, q: int)
    requires
        0 <= p <= q,
        prefix.occurs_at(input, q),
    ensures
        prefix.occurrences(input, p).len() > 0,
    decreases q - p,
{
    if !prefix.occurs_at(input, p) {
        lemma_occurrences_nonempty(prefix, input, p + 1, q);
    }
}

} // verus!
