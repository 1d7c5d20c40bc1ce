//! The regex node arena.
//!
//! Nodes are stored in creation order and every node only refers to nodes
//! created before it, so a node id is also a well-founded measure for the
//! denotation [`lang`], the set of spans `[i, j)` of an input that a node
//! matches.

use vstd::prelude::*;

verus! {

/// Index of a node in a [`RegexBuilder`] arena.
#[derive(Clone, Copy, PartialEq, Eq, Structural, Debug, Hash)]
pub struct NodeId(pub u32);

/// Largest number of nodes an arena may hold (ids are `u32`).
pub const MAX_NODES: u32 = 0xffff_ffff;

impl NodeId {
    pub open spec fn idx(self) -> int {
        self.0 as int
    }

    pub open spec fn spec_missing() -> NodeId {
        NodeId(0)
    }

    pub open spec fn spec_bot() -> NodeId {
        NodeId(1)
    }

    pub open spec fn spec_eps() -> NodeId {
        NodeId(2)
    }

    pub open spec fn spec_top() -> NodeId {
        NodeId(3)
    }

    pub open spec fn spec_ts() -> NodeId {
        NodeId(4)
    }

    /// The "not built yet" marker; the node stored under it matches nothing.
    #[verifier::when_used_as_spec(spec_missing)]
    pub fn missing() -> (r: NodeId)
        ensures
            r == Self::spec_missing(),
    {
        NodeId(0)
    }

    /// The empty language.
    #[verifier::when_used_as_spec(spec_bot)]
    pub fn bot() -> (r: NodeId)
        ensures
            r == Self::spec_bot(),
    {
        NodeId(1)
    }

    /// The empty string.
    #[verifier::when_used_as_spec(spec_eps)]
    pub fn eps() -> (r: NodeId)
        ensures
            r == Self::spec_eps(),
    {
        NodeId(2)
    }

    /// Any single byte.
    #[verifier::when_used_as_spec(spec_top)]
    pub fn top() -> (r: NodeId)
        ensures
            r == Self::spec_top(),
    {
        NodeId(3)
    }

    /// Any byte string (`_*`).
    #[verifier::when_used_as_spec(spec_ts)]
    pub fn ts() -> (r: NodeId)
        ensures
            r == Self::spec_ts(),
    {
        NodeId(4)
    }
}

/// One node of the regex algebra over bytes.
#[derive(Clone, Copy, PartialEq, Eq, Structural, Debug)]
pub enum Node {
    /// Placeholder stored under [`NodeId::missing`].
    Missing,
    /// Matches nothing.
    Bot,
    /// Matches the empty span.
    Eps,
    /// Matches one byte `b` with `lo <= b <= hi`.
    Range(u8, u8),
    Concat(NodeId, NodeId),
    Union(NodeId, NodeId),
    Inter(NodeId, NodeId),
    /// Every span that the operand does not match.
    Compl(NodeId),
    Star(NodeId),
    /// Empty span at `i` where some span ending at `i` matches the operand.
    Lookbehind(NodeId),
    /// Empty span at `i` where no span ending at `i` matches the operand.
    NegLookbehind(NodeId),
    /// Empty span at `i` where some span starting at `i` matches the operand.
    Lookahead(NodeId),
    /// Empty span at `i` where no span starting at `i` matches the operand.
    NegLookahead(NodeId),
}

/// Every node id that `node` refers to is below `bound`.
pub open spec fn children_below(node: Node, bound: int) -> bool {
    match node {
        Node::Concat(a, b) => a.idx() < bound && b.idx() < bound,
        Node::Union(a, b) => a.idx() < bound && b.idx() < bound,
        Node::Inter(a, b) => a.idx() < bound && b.idx() < bound,
        Node::Compl(a) => a.idx() < bound,
        Node::Star(a) => a.idx() < bound,
        Node::Lookbehind(a) => a.idx() < bound,
        Node::NegLookbehind(a) => a.idx() < bound,
        Node::Lookahead(a) => a.idx() < bound,
        Node::NegLookahead(a) => a.idx() < bound,
        _ => true,
    }
}

/// A span `[i, j)` of an input of length `len`.
pub open spec fn in_bounds(p: (int, int), len: int) -> bool {
    0 <= p.0 <= p.1 <= len
}

/// Spans that split into a chain of consecutive pieces from `m`
/// (the empty chain gives the empty span).
pub open spec fn star_spans(m: Set<(int, int)>, len: int) -> Set<(int, int)> {
    Set::new(
        |p: (int, int)|
            in_bounds(p, len) && exists|s: Seq<int>|
                #![trigger s.len(), s[0]]
                s.len() >= 1 && s[0] == p.0 && s[s.len() - 1] == p.1 && forall|t: int|
                    0 <= t < s.len() - 1 ==> #[trigger] chain_step(m, s, t),
    )
}

/// Step `t` of the chain `s` is a piece from `m`.
pub open spec fn chain_step(m: Set<(int, int)>, s: Seq<int>, t: int) -> bool {
    m.contains((s[t], s[t + 1]))
}

/// Spans made of a span of `ma` followed by a span of `mb`.
pub open spec fn concat_set(ma: Set<(int, int)>, mb: Set<(int, int)>, len: int) -> Set<(int, int)> {
    Set::new(
        |p: (int, int)|
            in_bounds(p, len) && exists|k: int|
                #![trigger ma.contains((p.0, k)), mb.contains((k, p.1))]
                ma.contains((p.0, k)) && mb.contains((k, p.1)),
    )
}

/// The spans `(i, j)` of `input` matched by node `id` of the arena `nodes`.
pub open spec fn lang(nodes: Seq<Node>, id: int, input: Seq<u8>) -> Set<(int, int)>
    decreases id,
{
    let len = input.len() as int;
    if 0 <= id < nodes.len() {
        match nodes[id] {
            Node::Missing => Set::empty(),
            Node::Bot => Set::empty(),
            Node::Eps => Set::new(|p: (int, int)| in_bounds(p, len) && p.0 == p.1),
            Node::Range(lo, hi) => Set::new(
                |p: (int, int)|
                    in_bounds(p, len) && p.1 == p.0 + 1 && lo <= input[p.0] && input[p.0] <= hi,
            ),
            Node::Concat(a, b) => if a.idx() < id && b.idx() < id {
                concat_set(lang(nodes, a.idx(), input), lang(nodes, b.idx(), input), len)
            } else {
                Set::empty()
            },
            Node::Union(a, b) => if a.idx() < id && b.idx() < id {
                let ma = lang(nodes, a.idx(), input);
                let mb = lang(nodes, b.idx(), input);
                Set::new(|p: (int, int)| ma.contains(p) || mb.contains(p))
            } else {
                Set::empty()
            },
            Node::Inter(a, b) => if a.idx() < id && b.idx() < id {
                let ma = lang(nodes, a.idx(), input);
                let mb = lang(nodes, b.idx(), input);
                Set::new(|p: (int, int)| ma.contains(p) && mb.contains(p))
            } else {
                Set::empty()
            },
            Node::Compl(a) => if a.idx() < id {
                let ma = lang(nodes, a.idx(), input);
                Set::new(|p: (int, int)| in_bounds(p, len) && !ma.contains(p))
            } else {
                Set::empty()
            },
            Node::Star(a) => if a.idx() < id {
                star_spans(lang(nodes, a.idx(), input), len)
            } else {
                Set::empty()
            },
            Node::Lookbehind(a) => if a.idx() < id {
                let ma = lang(nodes, a.idx(), input);
                Set::new(
                    |p: (int, int)|
                        in_bounds(p, len) && p.0 == p.1 && exists|k: int|
                            #[trigger] ma.contains((k, p.0)),
                )
            } else {
                Set::empty()
            },
            Node::NegLookbehind(a) => if a.idx() < id {
                let ma = lang(nodes, a.idx(), input);
                Set::new(
                    |p: (int, int)|
                        in_bounds(p, len) && p.0 == p.1 && !exists|k: int|
                            #[trigger] ma.contains((k, p.0)),
                )
            } else {
                Set::empty()
            },
            Node::Lookahead(a) => if a.idx() < id {
                let ma = lang(nodes, a.idx(), input);
                Set::new(
                    |p: (int, int)|
                        in_bounds(p, len) && p.0 == p.1 && exists|k: int|
                            #[trigger] ma.contains((p.0, k)),
                )
            } else {
                Set::empty()
            },
            Node::NegLookahead(a) => if a.idx() < id {
                let ma = lang(nodes, a.idx(), input);
                Set::new(
                    |p: (int, int)|
                        in_bounds(p, len) && p.0 == p.1 && !exists|k: int|
                            #[trigger] ma.contains((p.0, k)),
                )
            } else {
                Set::empty()
            },
        }
    } else {
        Set::empty()
    }
}

/// `n2` keeps every node of `n1` under the same id.
pub open spec fn extends(n2: Seq<Node>, n1: Seq<Node>) -> bool {
    n1.len() <= n2.len() && forall|t: int| 0 <= t < n1.len() ==> #[trigger] n2[t] == n1[t]
}

/// Adding nodes never changes what an existing node matches.
pub proof fn lemma_lang_extend(n1: Seq<Node>, n2: Seq<Node>, id: int, input: Seq<u8>)
    requires
        extends(n2, n1),
        id < n1.len(),
    ensures
        lang(n1, id, input) == lang(n2, id, input),
    decreases id,
{
    if 0 <= id {
        assert(n2[id] == n1[id]);
        match n1[id] {
            Node::Concat(a, b) => {
                if a.idx() < id && b.idx() < id {
                    lemma_lang_extend(n1, n2, a.idx(), input);
                    lemma_lang_extend(n1, n2, b.idx(), input);
                }
            },
            Node::Union(a, b) => {
                if a.idx() < id && b.idx() < id {
                    lemma_lang_extend(n1, n2, a.idx(), input);
                    lemma_lang_extend(n1, n2, b.idx(), input);
                }
            },
            Node::Inter(a, b) => {
                if a.idx() < id && b.idx() < id {
                    lemma_lang_extend(n1, n2, a.idx(), input);
                    lemma_lang_extend(n1, n2, b.idx(), input);
                }
            },
            Node::Compl(a) => {
                if a.idx() < id {
                    lemma_lang_extend(n1, n2, a.idx(), input);
                }
            },
            Node::Star(a) => {
                if a.idx() < id {
                    lemma_lang_extend(n1, n2, a.idx(), input);
                }
            },
            Node::Lookbehind(a) => {
                if a.idx() < id {
                    lemma_lang_extend(n1, n2, a.idx(), input);
                }
            },
            Node::NegLookbehind(a) => {
                if a.idx() < id {
                    lemma_lang_extend(n1, n2, a.idx(), input);
                }
            },
            Node::Lookahead(a) => {
                if a.idx() < id {
                    lemma_lang_extend(n1, n2, a.idx(), input);
                }
            },
            Node::NegLookahead(a) => {
                if a.idx() < id {
                    lemma_lang_extend(n1, n2, a.idx(), input);
                }
            },
            _ => {},
        }
    }
}

/// Quantified form of [`lemma_lang_extend`].
pub proof fn lemma_extend_all(n1: Seq<Node>, n2: Seq<Node>)
    requires
        extends(n2, n1),
    ensures
        forall|id: int, input: Seq<u8>|
            id < n1.len() ==> #[trigger] lang(n2, id, input) == lang(n1, id, input),
{
    assert forall|id: int, input: Seq<u8>| id < n1.len() implies #[trigger] lang(
        n2,
        id,
        input,
    ) == lang(n1, id, input) by {
        lemma_lang_extend(n1, n2, id, input);
    }
}

/// Spans matched by the right-nested concatenation of `ids`
/// (the empty span for an empty list).
pub open spec fn concat_lang(nodes: Seq<Node>, ids: Seq<NodeId>, input: Seq<u8>) -> Set<(int, int)>
    decreases ids.len(),
{
    let len = input.len() as int;
    if ids.len() == 0 {
        Set::new(|p: (int, int)| in_bounds(p, len) && p.0 == p.1)
    } else if ids.len() == 1 {
        lang(nodes, ids[0].idx(), input)
    } else {
        concat_set(lang(nodes, ids[0].idx(), input), concat_lang(nodes, ids.drop_first(), input), len)
    }
}

/// Spans matched by at least one of `ids`.
pub open spec fn union_lang(nodes: Seq<Node>, ids: Seq<NodeId>, input: Seq<u8>) -> Set<(int, int)> {
    Set::new(
        |p: (int, int)|
            exists|t: int| 0 <= t < ids.len() && #[trigger] lang(nodes, ids[t].idx(), input).contains(p),
    )
}

/// In-bounds spans matched by every one of `ids`.
pub open spec fn inter_lang(nodes: Seq<Node>, ids: Seq<NodeId>, input: Seq<u8>) -> Set<(int, int)> {
    Set::new(
        |p: (int, int)|
            in_bounds(p, input.len() as int) && forall|t: int|
                0 <= t < ids.len() ==> #[trigger] lang(nodes, ids[t].idx(), input).contains(p),
    )
}

/// The nodes every arena starts with, under their fixed ids.
pub open spec fn base_nodes() -> Seq<Node> {
    seq![Node::Missing, Node::Bot, Node::Eps, Node::Range(0, 255), Node::Star(NodeId(3))]
}

/// Well-formed arena: the base nodes come first, children precede their
/// parents, and every index fits a node id.
pub open spec fn wf_nodes(nodes: Seq<Node>) -> bool {
    &&& base_nodes().len() <= nodes.len() <= MAX_NODES
    &&& forall|t: int| 0 <= t < base_nodes().len() ==> #[trigger] nodes[t] == base_nodes()[t]
    &&& forall|t: int| 0 <= t < nodes.len() ==> children_below(#[trigger] nodes[t], t)
}

/// `id` names a node of `nodes`.
pub open spec fn valid_id(nodes: Seq<Node>, id: NodeId) -> bool {
    id.idx() < nodes.len()
}

/// Every span a node matches lies inside the input.
pub proof fn lemma_lang_in_bounds(nodes: Seq<Node>, id: int, input: Seq<u8>)
    ensures
        forall|p: (int, int)| #[trigger] lang(nodes, id, input).contains(p) ==> in_bounds(
            p,
            input.len() as int,
        ),
    decreases id,
{
    let len = input.len() as int;
    if 0 <= id < nodes.len() {
        match nodes[id] {
            Node::Union(a, b) => {
                if a.idx() < id && b.idx() < id {
                    lemma_lang_in_bounds(nodes, a.idx(), input);
                    lemma_lang_in_bounds(nodes, b.idx(), input);
                }
                assert forall|p: (int, int)| #[trigger] lang(nodes, id, input).contains(p) implies in_bounds(p, len) by {
                    if a.idx() < id && b.idx() < id {
                        assert(lang(nodes, a.idx(), input).contains(p) || lang(nodes, b.idx(), input).contains(p));
                    }
                }
            },
            Node::Inter(a, b) => {
                if a.idx() < id && b.idx() < id {
                    lemma_lang_in_bounds(nodes, a.idx(), input);
                }
                assert forall|p: (int, int)| #[trigger] lang(nodes, id, input).contains(p) implies in_bounds(p, len) by {
                    if a.idx() < id && b.idx() < id {
                        assert(lang(nodes, a.idx(), input).contains(p));
                    }
                }
            },
            Node::Star(a) => {
                assert forall|p: (int, int)| #[trigger] lang(nodes, id, input).contains(p) implies in_bounds(p, len) by {
                    if a.idx() < id {
                        assert(star_spans(lang(nodes, a.idx(), input), len).contains(p));
                    }
                }
            },
            _ => {
                assert forall|p: (int, int)| #[trigger] lang(nodes, id, input).contains(p) implies in_bounds(p, len) by {
                }
            },
        }
    }
}

/// A repetition is empty, or a non-empty first piece followed by a
/// repetition (pieces are spans, so they never go backwards).
pub proof fn lemma_star_unfold(m: Set<(int, int)>, len: int, i: int, j: int)
    requires
        forall|p: (int, int)| #[trigger] m.contains(p) ==> in_bounds(p, len),
    ensures
        star_spans(m, len).contains((i, j)) <==> in_bounds((i, j), len) && (i == j || exists|k: int|
            i < k <= j && #[trigger] m.contains((i, k)) && star_spans(m, len).contains((k, j))),
{
    let st = star_spans(m, len);
    if in_bounds((i, j), len) && i != j && exists|k: int|
        i < k <= j && #[trigger] m.contains((i, k)) && st.contains((k, j)) {
        let k = choose|k: int| i < k <= j && #[trigger] m.contains((i, k)) && st.contains((k, j));
        let s = choose|s: Seq<int>|
            #![trigger s.len(), s[0]]
            s.len() >= 1 && s[0] == k && s[s.len() - 1] == j && forall|t: int|
                0 <= t < s.len() - 1 ==> #[trigger] chain_step(m, s, t);
        let s2 = seq![i] + s;
        assert forall|t: int| 0 <= t < s2.len() - 1 implies #[trigger] chain_step(m, s2, t) by {
            if t > 0 {
                assert(chain_step(m, s, t - 1));
                assert(s2[t] == s[t - 1]);
                assert(s2[t + 1] == s[t]);
            } else {
                assert(s2[1] == s[0]);
            }
        }
        assert(s2[s2.len() - 1] == s[s.len() - 1]);
        assert(s2.len() >= 1 && s2[0] == i);
    }
    if in_bounds((i, j), len) && i == j {
        let s = seq![i];
        assert(s.len() >= 1 && s[0] == i && s[s.len() - 1] == j);
        assert(forall|t: int| 0 <= t < s.len() - 1 ==> #[trigger] chain_step(m, s, t));
    }
    if st.contains((i, j)) && i != j {
        let s = choose|s: Seq<int>|
            #![trigger s.len(), s[0]]
            s.len() >= 1 && s[0] == i && s[s.len() - 1] == j && forall|t: int|
                0 <= t < s.len() - 1 ==> #[trigger] chain_step(m, s, t);
        lemma_star_first_step(m, len, s, j);
    }
}

/// A chain from `s[0]` to `j != s[0]` has a first step that moves forward,
/// and everything before it stays at `s[0]`.
proof fn lemma_star_first_step(m: Set<(int, int)>, len: int, s: Seq<int>, j: int)
    requires
        forall|p: (int, int)| #[trigger] m.contains(p) ==> in_bounds(p, len),
        s.len() >= 1,
        s[s.len() - 1] == j,
        s[0] != j,
        forall|t: int| 0 <= t < s.len() - 1 ==> #[trigger] chain_step(m, s, t),
    ensures
        exists|k: int|
            s[0] < k <= j && #[trigger] m.contains((s[0], k)) && star_spans(m, len).contains((k, j)),
    decreases s.len(),
{
    assert(s.len() >= 2);
    assert(chain_step(m, s, 0));
    if s[1] != s[0] {
        let rest = s.drop_first();
        assert forall|t: int| 0 <= t < rest.len() - 1 implies #[trigger] chain_step(m, rest, t) by {
            assert(chain_step(m, s, t + 1));
            assert(rest[t] == s[t + 1]);
            assert(rest[t + 1] == s[t + 2]);
        }
        assert(rest[rest.len() - 1] == j);
        assert(rest.len() >= 1 && rest[0] == s[1]);
        lemma_chain_monotone(m, len, rest);
        assert(in_bounds((s[1], j), len));
        assert(star_spans(m, len).contains((s[1], j)));
    } else {
        let rest = s.drop_first();
        assert forall|t: int| 0 <= t < rest.len() - 1 implies #[trigger] chain_step(m, rest, t) by {
            assert(chain_step(m, s, t + 1));
            assert(rest[t] == s[t + 1]);
            assert(rest[t + 1] == s[t + 2]);
        }
        assert(rest[rest.len() - 1] == j);
        lemma_star_first_step(m, len, rest, j);
    }
}

/// A chain of spans only moves forward and stays in bounds.
proof fn lemma_chain_monotone(m: Set<(int, int)>, len: int, s: Seq<int>)
    requires
        forall|p: (int, int)| #[trigger] m.contains(p) ==> in_bounds(p, len),
        s.len() >= 1,
        0 <= s[0] <= len,
        forall|t: int| 0 <= t < s.len() - 1 ==> #[trigger] chain_step(m, s, t),
    ensures
        s[0] <= s[s.len() - 1] <= len,
    decreases s.len(),
{
    if s.len() > 1 {
        let rest = s.drop_first();
        assert(chain_step(m, s, 0));
        assert forall|t: int| 0 <= t < rest.len() - 1 implies #[trigger] chain_step(m, rest, t) by {
            assert(chain_step(m, s, t + 1));
            assert(rest[t] == s[t + 1]);
            assert(rest[t + 1] == s[t + 2]);
        }
        lemma_chain_monotone(m, len, rest);
        assert(rest[rest.len() - 1] == s[s.len() - 1]);
    }
}

/// Every in-bounds span splits into single bytes, so it is in the
/// repetition of any set holding all one-byte spans.
pub proof fn lemma_star_all(m: Set<(int, int)>, len: int)
    requires
        forall|k: int| 0 <= k < len ==> #[trigger] m.contains((k, k + 1)),
    ensures
        forall|p: (int, int)| #[trigger] star_spans(m, len).contains(p) <==> in_bounds(p, len),
{
    assert forall|p: (int, int)| in_bounds(p, len) implies #[trigger] star_spans(m, len).contains(
        p,
    ) by {
        let s = Seq::new((p.1 - p.0 + 1) as nat, |t: int| p.0 + t);
        assert forall|t: int| 0 <= t < s.len() - 1 implies #[trigger] chain_step(m, s, t) by {
            assert(s[t] == p.0 + t);
            assert(s[t + 1] == p.0 + t + 1);
            assert(m.contains((p.0 + t, p.0 + t + 1)));
        }
        assert(s[s.len() - 1] == p.1);
        assert(s.len() >= 1 && s[0] == p.0);
    }
}

/// `_*` (the base node under [`NodeId::ts`]) matches every in-bounds span.
pub proof fn lemma_ts_all(nodes: Seq<Node>, input: Seq<u8>)
    requires
        wf_nodes(nodes),
    ensures
        forall|p: (int, int)| #[trigger] lang(nodes, 4, input).contains(p) <==> in_bounds(
            p,
            input.len() as int,
        ),
{
    let len = input.len() as int;
    assert(nodes[4] == base_nodes()[4]);
    assert(nodes[3] == base_nodes()[3]);
    let top = lang(nodes, 3, input);
    assert(lang(nodes, 4, input) == star_spans(top, len));
    assert forall|k: int| 0 <= k < len implies #[trigger] top.contains((k, k + 1)) by {}
    lemma_star_all(top, len);
}

/// Byte `x` lies in the range of `node` (false for a node that is not a range).
pub open spec fn byte_in(node: Node, x: u8) -> bool {
    match node {
        Node::Range(lo, hi) => lo <= x && x <= hi,
        _ => false,
    }
}

/// Every node of `ids` is a byte range.
pub open spec fn all_ranges(nodes: Seq<Node>, ids: Seq<NodeId>) -> bool {
    forall|t: int|
        0 <= t < ids.len() ==> valid_id(nodes, #[trigger] ids[t]) && nodes[ids[t].idx()] is Range
}

/// The concatenation of byte ranges matches exactly the spans of their
/// length whose bytes lie in the ranges, position by position.
pub proof fn lemma_concat_ranges(nodes: Seq<Node>, ids: Seq<NodeId>, input: Seq<u8>)
    requires
        all_ranges(nodes, ids),
    ensures
        forall|p: (int, int)| #[trigger] concat_lang(nodes, ids, input).contains(p) <==> {
            &&& in_bounds(p, input.len() as int)
            &&& p.1 - p.0 == ids.len()
            &&& forall|t: int| 0 <= t < ids.len() ==> byte_in(nodes[ids[t].idx()], #[trigger] input[p.0 + t])
        },
    decreases ids.len(),
{
    let len = input.len() as int;
    if ids.len() == 0 {
    } else if ids.len() == 1 {
        assert forall|p: (int, int)| #[trigger] concat_lang(nodes, ids, input).contains(p) <==> {
            &&& in_bounds(p, len)
            &&& p.1 - p.0 == ids.len()
            &&& forall|t: int| 0 <= t < ids.len() ==> byte_in(nodes[ids[t].idx()], #[trigger] input[p.0 + t])
        } by {
            assert(valid_id(nodes, ids[0]));
            if in_bounds(p, len) && p.1 - p.0 == 1 && byte_in(nodes[ids[0].idx()], input[p.0 + 0]) {
                assert(input[p.0 + 0] == input[p.0]);
            }
            if concat_lang(nodes, ids, input).contains(p) {
                assert forall|t: int| 0 <= t < ids.len() implies byte_in(nodes[ids[t].idx()], #[trigger] input[p.0 + t]) by {
                    assert(t == 0);
                }
            }
        }
    } else {
        let rest = ids.drop_first();
        assert(all_ranges(nodes, rest)) by {
            assert forall|t: int| 0 <= t < rest.len() implies valid_id(nodes, #[trigger] rest[t]) && nodes[rest[t].idx()] is Range by {
                assert(rest[t] == ids[t + 1]);
            }
        }
        lemma_concat_ranges(nodes, rest, input);
        assert(valid_id(nodes, ids[0]));
        let head = lang(nodes, ids[0].idx(), input);
        let tail = concat_lang(nodes, rest, input);
        assert forall|p: (int, int)| #[trigger] concat_lang(nodes, ids, input).contains(p) <==> {
            &&& in_bounds(p, len)
            &&& p.1 - p.0 == ids.len()
            &&& forall|t: int| 0 <= t < ids.len() ==> byte_in(nodes[ids[t].idx()], #[trigger] input[p.0 + t])
        } by {
            if concat_lang(nodes, ids, input).contains(p) {
                let k = choose|k: int| head.contains((p.0, k)) && tail.contains((k, p.1));
                assert(k == p.0 + 1);
                assert forall|t: int| 0 <= t < ids.len() implies byte_in(nodes[ids[t].idx()], #[trigger] input[p.0 + t]) by {
                    if t == 0 {
                        assert(input[p.0 + 0] == input[p.0]);
                    } else {
                        assert(rest[t - 1] == ids[t]);
                        assert(input[k + (t - 1)] == input[p.0 + t]);
                    }
                }
            }
            if in_bounds(p, len) && p.1 - p.0 == ids.len() && (forall|t: int| 0 <= t < ids.len() ==> byte_in(nodes[ids[t].idx()], #[trigger] input[p.0 + t])) {
                let k = p.0 + 1;
                assert(byte_in(nodes[ids[0].idx()], input[p.0 + 0]));
                assert(input[p.0 + 0] == input[p.0]);
                assert(head.contains((p.0, k)));
                assert forall|t: int| 0 <= t < rest.len() implies byte_in(nodes[rest[t].idx()], #[trigger] input[k + t]) by {
                    assert(rest[t] == ids[t + 1]);
                    assert(byte_in(nodes[ids[t + 1].idx()], input[p.0 + (t + 1)]));
                    assert(input[k + t] == input[p.0 + (t + 1)]);
                }
                assert(tail.contains((k, p.1)));
            }
        }
    }
}

/// An arena of regex nodes; a [`NodeId`] is an index into it.
pub struct RegexBuilder {
    nodes: Vec<Node>,
}

impl View for RegexBuilder {
    type V = Seq<Node>;

    closed spec fn view(&self) -> Seq<Node> {
        self.nodes@
    }
}

impl RegexBuilder {
    /// An arena holding only the base nodes.
    pub fn new() -> (b: RegexBuilder)
        ensures
            b@ == base_nodes(),
            wf_nodes(b@),
    {
        let mut nodes: Vec<Node> = Vec::new();
        nodes.push(Node::Missing);
        nodes.push(Node::Bot);
        nodes.push(Node::Eps);
        nodes.push(Node::Range(0, 255));
        nodes.push(Node::Star(NodeId(3)));
        let b = RegexBuilder { nodes };
        assert(b@ =~= base_nodes());
        b
    }

    /// Number of nodes in the arena.
    pub fn len(&self) -> (n: usize)
        ensures
            n == self@.len(),
    {
        self.nodes.len()
    }

    /// The node stored under `id`.
    pub fn get_kind(&self, id: NodeId) -> (node: Node)
        requires
            valid_id(self@, id),
        ensures
            node == self@[id.idx()],
    {
        self.nodes[id.0 as usize]
    }

    /// Whether node `id` matches the span `input[i..j]`.
    pub fn matches_span(&self, id: NodeId, input: &[u8], i: usize, j: usize) -> (r: bool)
        requires
            wf_nodes(self@),
            valid_id(self@, id),
            input@.len() < usize::MAX,
        ensures
            r == lang(self@, id.idx(), input@).contains((i as int, j as int)),
        decreases id.0, 0nat,
    {
        let n = input.len();
        proof {
            lemma_lang_in_bounds(self@, id.idx(), input@);
            assert(children_below(self@[id.idx()], id.idx()));
        }
        if i > j || j > n {
            return false;
        }
        let ghost len = n as int;
        match self.nodes[id.0 as usize] {
            Node::Missing => false,
            Node::Bot => false,
            Node::Eps => i == j,
            Node::Range(lo, hi) => j - i == 1 && lo <= input[i] && input[i] <= hi,
            Node::Concat(a, b) => {
                let ghost ma = lang(self@, a.idx(), input@);
                let ghost mb = lang(self@, b.idx(), input@);
                proof {
                    lemma_lang_in_bounds(self@, a.idx(), input@);
                    lemma_lang_in_bounds(self@, b.idx(), input@);
                    assert(lang(self@, id.idx(), input@) == concat_set(ma, mb, n as int));
                }
                let mut k = i;
                loop
                    invariant
                        wf_nodes(self@),
                        valid_id(self@, a),
                        valid_id(self@, b),
                        a.0 < id.0,
                        b.0 < id.0,
                        i <= k <= j <= n,
                        n == input@.len(),
                        ma == lang(self@, a.idx(), input@),
                        mb == lang(self@, b.idx(), input@),
                        forall|q: int| i <= q < k ==> !(#[trigger] ma.contains((i as int, q)) && mb.contains((q, j as int))),
                        forall|p: (int, int)| #[trigger] ma.contains(p) ==> in_bounds(p, n as int),
                        forall|p: (int, int)| #[trigger] mb.contains(p) ==> in_bounds(p, n as int),
                        n < usize::MAX,
                        lang(self@, id.idx(), input@) == concat_set(ma, mb, n as int),
                    decreases j - k,
                {
                    if self.matches_span(a, input, i, k) && self.matches_span(b, input, k, j) {
                        return true;
                    }
                    if k == j {
                        return false;
                    }
                    k = k + 1;
                }
            },
            Node::Union(a, b) => self.matches_span(a, input, i, j) || self.matches_span(b, input, i, j),
            Node::Inter(a, b) => self.matches_span(a, input, i, j) && self.matches_span(b, input, i, j),
            Node::Compl(a) => !self.matches_span(a, input, i, j),
            Node::Star(a) => {
                let ghost ma = lang(self@, a.idx(), input@);
                let ghost st = star_spans(ma, len);
                proof {
                    lemma_lang_in_bounds(self@, a.idx(), input@);
                }
                // reach@[t] tells whether the repetition matches input[j - t..j]
                let mut reach: Vec<bool> = Vec::new();
                let mut t: usize = 0;
                while t <= j - i
                    invariant
                        wf_nodes(self@),
                        valid_id(self@, a),
                        a.0 < id.0,
                        i <= j <= n,
                        n == input@.len(),
                        len == n,
                        ma == lang(self@, a.idx(), input@),
                        st == star_spans(ma, len),
                        n < usize::MAX,
                        forall|p: (int, int)| #[trigger] ma.contains(p) ==> in_bounds(p, len),
                        reach@.len() == t,
                        t <= j - i + 1,
                        forall|u: int| 0 <= u < t ==> #[trigger] reach@[u] == st.contains((j - u, j as int)),
                    decreases j - i + 1 - t,
                {
                    let k = j - t;
                    let mut ok = t == 0;
                    let mut u: usize = 0;
                    while u < t && !ok
                        invariant
                            wf_nodes(self@),
                            valid_id(self@, a),
                            a.0 < id.0,
                            i <= j <= n,
                            n == input@.len(),
                            k == j - t,
                            reach@.len() == t,
                            t <= j - i,
                            0 <= u <= t,
                            ma == lang(self@, a.idx(), input@),
                            n < usize::MAX,
                            forall|v: int| 0 <= v < t ==> #[trigger] reach@[v] == st.contains((j - v, j as int)),
                            ok ==> t == 0 || exists|q: int| k < q <= j && #[trigger] ma.contains((k as int, q)) && st.contains((q, j as int)),
                            !ok ==> t != 0 && forall|v: int| 0 <= v < u ==> !(#[trigger] ma.contains((k as int, j - v)) && st.contains((j - v, j as int))),
                        decreases t - u,
                    {
                        let q = j - u;
                        if reach[u] && self.matches_span(a, input, k, q) {
                            ok = true;
                        }
                        u = u + 1;
                    }
                    proof {
                        lemma_star_unfold(ma, len, k as int, j as int);
                        if !ok {
                            assert forall|q: int| k < q <= j implies !(#[trigger] ma.contains((k as int, q)) && st.contains((q, j as int))) by {
                                let v = j - q;
                                assert(0 <= v < u);
                                assert(j - v == q);
                            }
                        }
                    }
                    reach.push(ok);
                    t = t + 1;
                }
                proof {
                    assert(reach@[(j - i) as int] == st.contains((i as int, j as int)));
                    assert(lang(self@, id.idx(), input@) == st);
                }
                reach[j - i]
            },
            Node::Lookbehind(a) => {
                let e = self.exists_ending_at(a, input, i);
                proof {
                    let ma = lang(self@, a.idx(), input@);
                    if e {
                        let k = choose|k: int| #[trigger] ma.contains((k, i as int));
                        assert(ma.contains((k, (i as int, j as int).0)));
                    }
                    if exists|k: int| #[trigger] ma.contains((k, (i as int, j as int).0)) {
                        let k = choose|k: int| #[trigger] ma.contains((k, (i as int, j as int).0));
                        assert(ma.contains((k, i as int)));
                    }
                }
                i == j && e
            },
            Node::NegLookbehind(a) => {
                let e = self.exists_ending_at(a, input, i);
                proof {
                    let ma = lang(self@, a.idx(), input@);
                    if e {
                        let k = choose|k: int| #[trigger] ma.contains((k, i as int));
                        assert(ma.contains((k, (i as int, j as int).0)));
                    }
                    if exists|k: int| #[trigger] ma.contains((k, (i as int, j as int).0)) {
                        let k = choose|k: int| #[trigger] ma.contains((k, (i as int, j as int).0));
                        assert(ma.contains((k, i as int)));
                    }
                }
                i == j && !e
            },
            Node::Lookahead(a) => {
                let e = self.exists_starting_at(a, input, i);
                proof {
                    let ma = lang(self@, a.idx(), input@);
                    if e {
                        let k = choose|k: int| #[trigger] ma.contains((i as int, k));
                        assert(ma.contains(((i as int, j as int).0, k)));
                    }
                    if exists|k: int| #[trigger] ma.contains(((i as int, j as int).0, k)) {
                        let k = choose|k: int| #[trigger] ma.contains(((i as int, j as int).0, k));
                        assert(ma.contains((i as int, k)));
                    }
                }
                i == j && e
            },
            Node::NegLookahead(a) => {
                let e = self.exists_starting_at(a, input, i);
                proof {
                    let ma = lang(self@, a.idx(), input@);
                    if e {
                        let k = choose|k: int| #[trigger] ma.contains((i as int, k));
                        assert(ma.contains(((i as int, j as int).0, k)));
                    }
                    if exists|k: int| #[trigger] ma.contains(((i as int, j as int).0, k)) {
                        let k = choose|k: int| #[trigger] ma.contains(((i as int, j as int).0, k));
                        assert(ma.contains((i as int, k)));
                    }
                }
                i == j && !e
            },
        }
    }

    /// Whether node `a` matches some span ending at `i`.
    fn exists_ending_at(&self, a: NodeId, input: &[u8], i: usize) -> (r: bool)
        requires
            input@.len() < usize::MAX,
            wf_nodes(self@),
            valid_id(self@, a),
            i <= input@.len(),
        ensures
            r == exists|k: int| #[trigger] lang(self@, a.idx(), input@).contains((k, i as int)),
        decreases a.0, 1nat,
    {
        proof {
            lemma_lang_in_bounds(self@, a.idx(), input@);
        }
        let mut k: usize = 0;
        loop
            invariant
                wf_nodes(self@),
                valid_id(self@, a),
                i <= input@.len(),
                input@.len() < usize::MAX,
                0 <= k <= i,
                forall|q: int| 0 <= q < k ==> !#[trigger] lang(self@, a.idx(), input@).contains((q, i as int)),
                forall|p: (int, int)| #[trigger] lang(self@, a.idx(), input@).contains(p) ==> in_bounds(p, input@.len() as int),
            decreases i - k,
        {
            if self.matches_span(a, input, k, i) {
                return true;
            }
            if k == i {
                return false;
            }
            k = k + 1;
        }
    }

    /// Whether node `a` matches some span starting at `i`.
    fn exists_starting_at(&self, a: NodeId, input: &[u8], i: usize) -> (r: bool)
        requires
            input@.len() < usize::MAX,
            wf_nodes(self@),
            valid_id(self@, a),
            i <= input@.len(),
        ensures
            r == exists|k: int| #[trigger] lang(self@, a.idx(), input@).contains((i as int, k)),
        decreases a.0, 1nat,
    {
        proof {
            lemma_lang_in_bounds(self@, a.idx(), input@);
        }
        let n = input.len();
        let mut k: usize = i;
        loop
            invariant
                wf_nodes(self@),
                valid_id(self@, a),
                n == input@.len(),
                n < usize::MAX,
                i <= k <= n,
                forall|q: int| i <= q < k ==> !#[trigger] lang(self@, a.idx(), input@).contains((i as int, q)),
                forall|p: (int, int)| #[trigger] lang(self@, a.idx(), input@).contains(p) ==> in_bounds(p, input@.len() as int),
            decreases n - k,
        {
            if self.matches_span(a, input, i, k) {
                return true;
            }
            if k == n {
                return false;
            }
            k = k + 1;
        }
    }

    /// Appends `node` and returns its id.
    fn push_node(&mut self, node: Node) -> (r: NodeId)
        requires
            wf_nodes(old(self)@),
            old(self)@.len() < MAX_NODES,
            children_below(node, old(self)@.len() as int),
        ensures
            final(self)@ == old(self)@.push(node),
            r.idx() == old(self)@.len(),
            wf_nodes(final(self)@),
    {
        let r = NodeId(self.nodes.len() as u32);
        self.nodes.push(node);
        assert forall|t: int| 0 <= t < self@.len() implies children_below(#[trigger] self@[t], t) by {
            if t < old(self)@.len() {
                assert(self@[t] == old(self)@[t]);
            }
        }
        r
    }

    /// A node matching one byte in `lo..=hi`.
    pub fn mk_range_u8(&mut self, lo: u8, hi: u8) -> (r: NodeId)
        requires
            wf_nodes(old(self)@),
            old(self)@.len() < MAX_NODES,
        ensures
            final(self)@ == old(self)@.push(Node::Range(lo, hi)),
            r.idx() == old(self)@.len(),
            wf_nodes(final(self)@),
    {
        self.push_node(Node::Range(lo, hi))
    }

    /// A node matching the single byte `x`.
    pub fn mk_u8(&mut self, x: u8) -> (r: NodeId)
        requires
            wf_nodes(old(self)@),
            old(self)@.len() < MAX_NODES,
        ensures
            final(self)@ == old(self)@.push(Node::Range(x, x)),
            r.idx() == old(self)@.len(),
            wf_nodes(final(self)@),
    {
        self.push_node(Node::Range(x, x))
    }

    /// `a` followed by `b`.
    pub fn mk_concat(&mut self, a: NodeId, b: NodeId) -> (r: NodeId)
        requires
            wf_nodes(old(self)@),
            old(self)@.len() < MAX_NODES,
            valid_id(old(self)@, a),
            valid_id(old(self)@, b),
        ensures
            final(self)@ == old(self)@.push(Node::Concat(a, b)),
            r.idx() == old(self)@.len(),
            wf_nodes(final(self)@),
    {
        self.push_node(Node::Concat(a, b))
    }

    /// `a` or `b`.
    pub fn mk_union(&mut self, a: NodeId, b: NodeId) -> (r: NodeId)
        requires
            wf_nodes(old(self)@),
            old(self)@.len() < MAX_NODES,
            valid_id(old(self)@, a),
            valid_id(old(self)@, b),
        ensures
            final(self)@ == old(self)@.push(Node::Union(a, b)),
            r.idx() == old(self)@.len(),
            wf_nodes(final(self)@),
    {
        self.push_node(Node::Union(a, b))
    }

    /// `a` and `b`.
    pub fn mk_inter(&mut self, a: NodeId, b: NodeId) -> (r: NodeId)
        requires
            wf_nodes(old(self)@),
            old(self)@.len() < MAX_NODES,
            valid_id(old(self)@, a),
            valid_id(old(self)@, b),
        ensures
            final(self)@ == old(self)@.push(Node::Inter(a, b)),
            r.idx() == old(self)@.len(),
            wf_nodes(final(self)@),
    {
        self.push_node(Node::Inter(a, b))
    }

    /// Everything `a` does not match.
    pub fn mk_compl(&mut self, a: NodeId) -> (r: NodeId)
        requires
            wf_nodes(old(self)@),
            old(self)@.len() < MAX_NODES,
            valid_id(old(self)@, a),
        ensures
            final(self)@ == old(self)@.push(Node::Compl(a)),
            r.idx() == old(self)@.len(),
            wf_nodes(final(self)@),
    {
        self.push_node(Node::Compl(a))
    }

    /// Zero or more repetitions of `a`.
    pub fn mk_star(&mut self, a: NodeId) -> (r: NodeId)
        requires
            wf_nodes(old(self)@),
            old(self)@.len() < MAX_NODES,
            valid_id(old(self)@, a),
        ensures
            final(self)@ == old(self)@.push(Node::Star(a)),
            r.idx() == old(self)@.len(),
            wf_nodes(final(self)@),
    {
        self.push_node(Node::Star(a))
    }

    /// `(?<=a)`.
    pub fn mk_lookbehind(&mut self, a: NodeId) -> (r: NodeId)
        requires
            wf_nodes(old(self)@),
            old(self)@.len() < MAX_NODES,
            valid_id(old(self)@, a),
        ensures
            final(self)@ == old(self)@.push(Node::Lookbehind(a)),
            r.idx() == old(self)@.len(),
            wf_nodes(final(self)@),
    {
        self.push_node(Node::Lookbehind(a))
    }

    /// `(?<!a)`.
    pub fn mk_neg_lookbehind(&mut self, a: NodeId) -> (r: NodeId)
        requires
            wf_nodes(old(self)@),
            old(self)@.len() < MAX_NODES,
            valid_id(old(self)@, a),
        ensures
            final(self)@ == old(self)@.push(Node::NegLookbehind(a)),
            r.idx() == old(self)@.len(),
            wf_nodes(final(self)@),
    {
        self.push_node(Node::NegLookbehind(a))
    }

    /// `(?=a)`.
    pub fn mk_lookahead(&mut self, a: NodeId) -> (r: NodeId)
        requires
            wf_nodes(old(self)@),
            old(self)@.len() < MAX_NODES,
            valid_id(old(self)@, a),
        ensures
            final(self)@ == old(self)@.push(Node::Lookahead(a)),
            r.idx() == old(self)@.len(),
            wf_nodes(final(self)@),
    {
        self.push_node(Node::Lookahead(a))
    }

    /// `(?!a)`.
    pub fn mk_neg_lookahead(&mut self, a: NodeId) -> (r: NodeId)
        requires
            wf_nodes(old(self)@),
            old(self)@.len() < MAX_NODES,
            valid_id(old(self)@, a),
        ensures
            final(self)@ == old(self)@.push(Node::NegLookahead(a)),
            r.idx() == old(self)@.len(),
            wf_nodes(final(self)@),
    {
        self.push_node(Node::NegLookahead(a))
    }
    /// Right-nested concatenation of `ids` (the empty string for no ids).
    pub fn mk_concats(&mut self, ids: &[NodeId]) -> (r: NodeId)
        requires
            wf_nodes(old(self)@),
            old(self)@.len() + ids@.len() < MAX_NODES,
            forall|t: int| 0 <= t < ids@.len() ==> valid_id(old(self)@, #[trigger] ids@[t]),
        ensures
            wf_nodes(final(self)@),
            extends(final(self)@, old(self)@),
            final(self)@.len() <= old(self)@.len() + ids@.len(),
            valid_id(final(self)@, r),
            forall|input: Seq<u8>|
                #[trigger] lang(final(self)@, r.idx(), input) == concat_lang(old(self)@, ids@, input),
            ids@.len() > 1 ==> r.idx() >= old(self)@.len(),
    {
        let n = ids.len();
        if n == 0 {
            assert forall|input: Seq<u8>| #[trigger] lang(self@, 2, input) == concat_lang(
                old(self)@,
                ids@,
                input,
            ) by {
                assert(self@[2] == Node::Eps);
                assert(lang(self@, 2, input) =~= concat_lang(old(self)@, ids@, input));
            }
            return NodeId::eps();
        }
        let mut acc = ids[n - 1];
        let mut t = n - 1;
        assert forall|input: Seq<u8>| #[trigger] lang(self@, acc.idx(), input) == concat_lang(
            old(self)@,
            ids@.subrange(t as int, n as int),
            input,
        ) by {
            assert(ids@.subrange(t as int, n as int)[0] == acc);
        }
        while t > 0
            invariant
                0 <= t < n == ids@.len(),
                wf_nodes(self@),
                extends(self@, old(self)@),
                self@.len() + t <= old(self)@.len() + n - 1,
                old(self)@.len() + n < MAX_NODES,
                forall|q: int| 0 <= q < n ==> valid_id(old(self)@, #[trigger] ids@[q]),
                valid_id(self@, acc),
                forall|input: Seq<u8>|
                    #[trigger] lang(self@, acc.idx(), input) == concat_lang(
                        old(self)@,
                        ids@.subrange(t as int, n as int),
                        input,
                    ),
            t < n - 1 ==> acc.idx() >= old(self)@.len(),
            decreases t,
        {
            let ghost prev = self@;
            t = t - 1;
            let head = ids[t];
            let next = self.mk_concat(head, acc);
            proof {
                lemma_extend_all(prev, self@);
                lemma_extend_all(old(self)@, prev);
                let rest = ids@.subrange(t as int, n as int);
                assert(rest.drop_first() =~= ids@.subrange(t + 1, n as int));
                assert(rest[0] == head);
                assert forall|input: Seq<u8>| #[trigger] lang(self@, next.idx(), input)
                    == concat_lang(old(self)@, rest, input) by {
                    assert(self@[next.idx()] == Node::Concat(head, acc));
                    assert(lang(self@, head.idx(), input) == lang(old(self)@, head.idx(), input));
                    assert(lang(self@, acc.idx(), input) == lang(prev, acc.idx(), input));
                }
            }
            acc = next;
        }
        assert(ids@.subrange(0, n as int) =~= ids@);
        acc
    }

    /// Union of `ids`, folded from the right (nothing for no ids).
    pub fn mk_unions(&mut self, ids: &[NodeId]) -> (r: NodeId)
        requires
            wf_nodes(old(self)@),
            old(self)@.len() + ids@.len() < MAX_NODES,
            forall|t: int| 0 <= t < ids@.len() ==> valid_id(old(self)@, #[trigger] ids@[t]),
        ensures
            wf_nodes(final(self)@),
            extends(final(self)@, old(self)@),
            final(self)@.len() <= old(self)@.len() + ids@.len(),
            valid_id(final(self)@, r),
            forall|input: Seq<u8>|
                #[trigger] lang(final(self)@, r.idx(), input) == union_lang(old(self)@, ids@, input),
            ids@.len() > 1 ==> r.idx() >= old(self)@.len(),
    {
        let n = ids.len();
        if n == 0 {
            assert forall|input: Seq<u8>| #[trigger] lang(self@, 1, input) == union_lang(
                old(self)@,
                ids@,
                input,
            ) by {
                assert(self@[1] == Node::Bot);
                assert(lang(self@, 1, input) =~= union_lang(old(self)@, ids@, input));
            }
            return NodeId::bot();
        }
        let mut acc = ids[n - 1];
        let mut t = n - 1;
        assert forall|input: Seq<u8>| #[trigger] lang(self@, acc.idx(), input) == union_lang(
            old(self)@,
            ids@.subrange(t as int, n as int),
            input,
        ) by {
            let sub = ids@.subrange(t as int, n as int);
            assert(sub[0] == acc);
            assert(lang(self@, acc.idx(), input) =~= union_lang(old(self)@, sub, input));
        }
        while t > 0
            invariant
                0 <= t < n == ids@.len(),
                wf_nodes(self@),
                extends(self@, old(self)@),
                self@.len() + t <= old(self)@.len() + n - 1,
                old(self)@.len() + n < MAX_NODES,
                forall|q: int| 0 <= q < n ==> valid_id(old(self)@, #[trigger] ids@[q]),
                valid_id(self@, acc),
                forall|input: Seq<u8>|
                    #[trigger] lang(self@, acc.idx(), input) == union_lang(
                        old(self)@,
                        ids@.subrange(t as int, n as int),
                        input,
                    ),
            t < n - 1 ==> acc.idx() >= old(self)@.len(),
            decreases t,
        {
            let ghost prev = self@;
            t = t - 1;
            let head = ids[t];
            let next = self.mk_union(head, acc);
            proof {
                lemma_extend_all(prev, self@);
                lemma_extend_all(old(self)@, prev);
                let rest = ids@.subrange(t as int, n as int);
                let tail = ids@.subrange(t + 1, n as int);
                assert forall|input: Seq<u8>| #[trigger] lang(self@, next.idx(), input)
                    == union_lang(old(self)@, rest, input) by {
                    assert(self@[next.idx()] == Node::Union(head, acc));
                    assert(lang(self@, head.idx(), input) == lang(old(self)@, head.idx(), input));
                    assert(lang(self@, acc.idx(), input) == lang(prev, acc.idx(), input));
                    assert(lang(prev, acc.idx(), input) == union_lang(old(self)@, tail, input));
                    assert forall|p: (int, int)| #[trigger] lang(self@, next.idx(), input).contains(p)
                        == union_lang(old(self)@, rest, input).contains(p) by {
                        if union_lang(old(self)@, rest, input).contains(p) {
                            let w = choose|w: int| 0 <= w < rest.len() && #[trigger] lang(old(self)@, rest[w].idx(), input).contains(p);
                            if w > 0 {
                                assert(tail[w - 1] == rest[w]);
                            }
                        }
                        if union_lang(old(self)@, tail, input).contains(p) {
                            let w = choose|w: int| 0 <= w < tail.len() && #[trigger] lang(old(self)@, tail[w].idx(), input).contains(p);
                            assert(rest[w + 1] == tail[w]);
                        }
                        assert(rest[0] == head);
                    }
                    assert(lang(self@, next.idx(), input) =~= union_lang(old(self)@, rest, input));
                }
            }
            acc = next;
        }
        assert(ids@.subrange(0, n as int) =~= ids@);
        acc
    }

    /// Intersection of `ids`, folded from the right (`_*` for no ids).
    pub fn mk_inters(&mut self, ids: &[NodeId]) -> (r: NodeId)
        requires
            wf_nodes(old(self)@),
            old(self)@.len() + ids@.len() < MAX_NODES,
            forall|t: int| 0 <= t < ids@.len() ==> valid_id(old(self)@, #[trigger] ids@[t]),
        ensures
            wf_nodes(final(self)@),
            extends(final(self)@, old(self)@),
            final(self)@.len() <= old(self)@.len() + ids@.len(),
            valid_id(final(self)@, r),
            forall|input: Seq<u8>|
                #[trigger] lang(final(self)@, r.idx(), input) == inter_lang(old(self)@, ids@, input),
            ids@.len() > 1 ==> r.idx() >= old(self)@.len(),
    {
        let n = ids.len();
        if n == 0 {
            assert forall|input: Seq<u8>| #[trigger] lang(self@, 4, input) == inter_lang(
                old(self)@,
                ids@,
                input,
            ) by {
                lemma_ts_all(self@, input);
                assert(lang(self@, 4, input) =~= inter_lang(old(self)@, ids@, input));
            }
            return NodeId::ts();
        }
        let mut acc = ids[n - 1];
        let mut t = n - 1;
        assert forall|input: Seq<u8>| #[trigger] lang(self@, acc.idx(), input) == inter_lang(
            old(self)@,
            ids@.subrange(t as int, n as int),
            input,
        ) by {
            let sub = ids@.subrange(t as int, n as int);
            assert(sub[0] == acc);
            lemma_lang_in_bounds(self@, acc.idx(), input);
            assert(lang(self@, acc.idx(), input) =~= inter_lang(old(self)@, sub, input));
        }
        while t > 0
            invariant
                0 <= t < n == ids@.len(),
                wf_nodes(self@),
                extends(self@, old(self)@),
                self@.len() + t <= old(self)@.len() + n - 1,
                old(self)@.len() + n < MAX_NODES,
                forall|q: int| 0 <= q < n ==> valid_id(old(self)@, #[trigger] ids@[q]),
                valid_id(self@, acc),
                forall|input: Seq<u8>|
                    #[trigger] lang(self@, acc.idx(), input) == inter_lang(
                        old(self)@,
                        ids@.subrange(t as int, n as int),
                        input,
                    ),
            t < n - 1 ==> acc.idx() >= old(self)@.len(),
            decreases t,
        {
            let ghost prev = self@;
            t = t - 1;
            let head = ids[t];
            let next = self.mk_inter(head, acc);
            proof {
                lemma_extend_all(prev, self@);
                lemma_extend_all(old(self)@, prev);
                let rest = ids@.subrange(t as int, n as int);
                let tail = ids@.subrange(t + 1, n as int);
                assert forall|input: Seq<u8>| #[trigger] lang(self@, next.idx(), input)
                    == inter_lang(old(self)@, rest, input) by {
                    assert(self@[next.idx()] == Node::Inter(head, acc));
                    assert(lang(self@, head.idx(), input) == lang(old(self)@, head.idx(), input));
                    assert(lang(self@, acc.idx(), input) == lang(prev, acc.idx(), input));
                    assert(lang(prev, acc.idx(), input) == inter_lang(old(self)@, tail, input));
                    lemma_lang_in_bounds(old(self)@, head.idx(), input);
                    assert forall|p: (int, int)| #[trigger] lang(self@, next.idx(), input).contains(p)
                        == inter_lang(old(self)@, rest, input).contains(p) by {
                        assert(rest[0] == head);
                        if inter_lang(old(self)@, rest, input).contains(p) {
                            assert forall|w: int| 0 <= w < tail.len() implies #[trigger] lang(old(self)@, tail[w].idx(), input).contains(p) by {
                                assert(rest[w + 1] == tail[w]);
                            }
                        }
                        if lang(self@, next.idx(), input).contains(p) {
                            assert forall|w: int| 0 <= w < rest.len() implies #[trigger] lang(old(self)@, rest[w].idx(), input).contains(p) by {
                                if w > 0 {
                                    assert(tail[w - 1] == rest[w]);
                                }
                            }
                        }
                    }
                    assert(lang(self@, next.idx(), input) =~= inter_lang(old(self)@, rest, input));
                }
            }
            acc = next;
        }
        assert(ids@.subrange(0, n as int) =~= ids@);
        acc
    }
}


} // verus!
