//! Unicode character classes (`\w`, `\d`, `\s`, `\b` and their negations)
//! built as nodes over UTF-8 bytes, and the cache that builds each class at
//! most once.

use vstd::prelude::*;
use crate::classes::{
    lemma_digit_rows_ascii, lemma_space_rows_ascii, lemma_word_rows_ascii,
    build_digit_class, build_digit_class_full, build_space_class, build_space_class_full,
    build_word_class, build_word_class_full, class_at,
};
use crate::tables::{digit_rows, space_rows, word_rows};
use crate::node::{
    byte_in, concat_lang, concat_set, extends, in_bounds, lang, lemma_concat_ranges,
    lemma_extend_all, lemma_lang_in_bounds, lemma_ts_all, valid_id, wf_nodes, Node, NodeId,
    RegexBuilder, MAX_NODES,
};

verus! {

/// `x` is a UTF-8 continuation byte.
pub open spec fn is_cont(x: u8) -> bool {
    0x80 <= x && x <= 0xbf
}

/// The span `p` of `input` is one UTF-8-shaped codepoint: an ASCII byte,
/// or a lead byte `C0..=DF`, `E0..=EF` or `F0..=F7` followed by one, two or
/// three continuation bytes.
pub open spec fn utf8_char_at(input: Seq<u8>, p: (int, int)) -> bool {
    let (i, j) = p;
    &&& 0 <= i
    &&& j <= input.len()
    &&& {
        ||| j == i + 1 && input[i] <= 0x7f
        ||| j == i + 2 && 0xc0 <= input[i] <= 0xdf && is_cont(input[i + 1])
        ||| j == i + 3 && 0xe0 <= input[i] <= 0xef && is_cont(input[i + 1]) && is_cont(
            input[i + 2],
        )
        ||| j == i + 4 && 0xf0 <= input[i] <= 0xf7 && is_cont(input[i + 1]) && is_cont(
            input[i + 2],
        ) && is_cont(input[i + 3])
    }
}

/// A span is one UTF-8 codepoint exactly when vstd's UTF-8 decoder, reading
/// the input from the span's start, finds a leading byte and the
/// continuation bytes it calls for, and the span is that long.
pub proof fn lemma_utf8_char_at_first_codepoint(input: Seq<u8>, i: int, j: int)
    ensures
        utf8_char_at(input, (i, j)) <==> {
            let rest = input.subrange(i, input.len() as int);
            &&& 0 <= i < input.len()
            &&& vstd::utf8::valid_leading_and_continuation_bytes_first_codepoint(rest)
            &&& j == i + vstd::utf8::length_of_first_codepoint(rest)
        },
{
    if 0 <= i < input.len() {
        let rest = input.subrange(i, input.len() as int);
        assert forall|t: int| 0 <= t < rest.len() implies #[trigger] rest[t] == input[i + t] by {}
        if rest.len() > 0 {
            assert(rest[0] == input[i]);
        }
        if rest.len() > 1 {
            assert(rest[1] == input[i + 1]);
        }
        if rest.len() > 2 {
            assert(rest[2] == input[i + 2]);
        }
        if rest.len() > 3 {
            assert(rest[3] == input[i + 3]);
        }
    }
}

/// Node matching any single UTF-8 codepoint.
pub fn utf8_char(b: &mut RegexBuilder) -> (r: NodeId)
    requires
        wf_nodes(old(b)@),
        old(b)@.len() + 20 <= MAX_NODES,
    ensures
        wf_nodes(final(b)@),
        extends(final(b)@, old(b)@),
        final(b)@.len() <= old(b)@.len() + 20,
        valid_id(final(b)@, r),
        forall|input: Seq<u8>, p: (int, int)|
            #[trigger] lang(final(b)@, r.idx(), input).contains(p) <==> utf8_char_at(input, p),
        forall|input: Seq<u8>, i: int, j: int|
            #[trigger] lang(final(b)@, r.idx(), input).contains((i, j)) <==> {
                let rest = input.subrange(i, input.len() as int);
                &&& 0 <= i < input.len()
                &&& vstd::utf8::valid_leading_and_continuation_bytes_first_codepoint(rest)
                &&& j == i + vstd::utf8::length_of_first_codepoint(rest)
            },
{
    let ascii = b.mk_range_u8(0, 127);
    let cont = b.mk_range_u8(0x80, 0xBF);
    let c2 = b.mk_range_u8(0xC0, 0xDF);
    let c2s = b.mk_concat(c2, cont);
    let e0 = b.mk_range_u8(0xE0, 0xEF);
    let ghost n5 = b@;
    let e0_parts = [e0, cont, cont];
    let e0s = b.mk_concats(&e0_parts);
    let ghost n6 = b@;
    let f0 = b.mk_range_u8(0xF0, 0xF7);
    let ghost n7 = b@;
    let f0_parts = [f0, cont, cont, cont];
    let f0s = b.mk_concats(&f0_parts);
    let ghost n8 = b@;
    let alts = [ascii, c2s, e0s, f0s];
    let r = b.mk_unions(&alts);
    proof {
        lemma_extend_all(n5, n7);
        lemma_extend_all(n6, n7);
        lemma_extend_all(n7, n8);
        lemma_extend_all(n5, n8);
        lemma_extend_all(n8, b@);
        assert(n5[ascii.idx()] == Node::Range(0, 127));
        assert(n5[cont.idx()] == Node::Range(0x80, 0xbf));
        assert(n5[c2.idx()] == Node::Range(0xc0, 0xdf));
        assert(n5[c2s.idx()] == Node::Concat(c2, cont));
        assert(n5[e0.idx()] == Node::Range(0xe0, 0xef));
        assert(n7[f0.idx()] == Node::Range(0xf0, 0xf7));
        assert(n5.len() < n7.len());
        assert forall|input: Seq<u8>, p: (int, int)| #[trigger] lang(b@, r.idx(), input).contains(p)
            <==> utf8_char_at(input, p) by {
            lemma_concat_ranges(n5, e0_parts@, input);
            lemma_concat_ranges(n7, f0_parts@, input);
            assert(alts@[0] == ascii);
            assert(alts@[1] == c2s);
            assert(alts@[2] == e0s);
            assert(alts@[3] == f0s);
            let la = lang(n8, ascii.idx(), input);
            let lc = lang(n8, c2s.idx(), input);
            let le = lang(n8, e0s.idx(), input);
            let lf = lang(n8, f0s.idx(), input);
            assert(la == lang(n5, ascii.idx(), input));
            assert(lc == lang(n5, c2s.idx(), input));
            assert(lf == concat_lang(n7, f0_parts@, input));
            assert(le == lang(n7, e0s.idx(), input));
            assert(le == concat_lang(n5, e0_parts@, input));
            assert(lc == concat_set(lang(n5, c2.idx(), input), lang(n5, cont.idx(), input), input.len() as int));
            if utf8_char_at(input, p) {
                let (i, j) = p;
                if j == i + 1 {
                    assert(la.contains(p));
                } else if j == i + 2 {
                    assert(lang(n5, c2.idx(), input).contains((i, i + 1)));
                    assert(lang(n5, cont.idx(), input).contains((i + 1, j)));
                    assert(lc.contains(p));
                } else if j == i + 3 {
                    assert(input[i + 0] == input[i]);
                    assert(le.contains(p));
                } else {
                    assert(input[i + 0] == input[i]);
                    assert(lf.contains(p));
                }
                assert(la.contains(p) || lc.contains(p) || le.contains(p) || lf.contains(p));
            }
            if lang(b@, r.idx(), input).contains(p) {
                let (i, j) = p;
                if lc.contains(p) {
                    let k = choose|k: int| lang(n5, c2.idx(), input).contains((i, k)) && lang(n5, cont.idx(), input).contains((k, j));
                    assert(k == i + 1);
                } else if le.contains(p) {
                    assert(byte_in(n5[e0_parts@[0].idx()], input[i + 0]));
                    assert(byte_in(n5[e0_parts@[1].idx()], input[i + 1]));
                    assert(byte_in(n5[e0_parts@[2].idx()], input[i + 2]));
                } else if lf.contains(p) {
                    assert(byte_in(n7[f0_parts@[0].idx()], input[i + 0]));
                    assert(byte_in(n7[f0_parts@[1].idx()], input[i + 1]));
                    assert(byte_in(n7[f0_parts@[2].idx()], input[i + 2]));
                    assert(byte_in(n7[f0_parts@[3].idx()], input[i + 3]));
                }
            }
        }
    }
    proof {
        assert forall|input: Seq<u8>, i: int, j: int|
            #[trigger] lang(b@, r.idx(), input).contains((i, j)) <==> {
                let rest = input.subrange(i, input.len() as int);
                &&& 0 <= i < input.len()
                &&& vstd::utf8::valid_leading_and_continuation_bytes_first_codepoint(rest)
                &&& j == i + vstd::utf8::length_of_first_codepoint(rest)
            } by {
            lemma_utf8_char_at_first_codepoint(input, i, j);
        }
    }
    r
}

/// Complement of `positive` restricted to the UTF-8 codepoint universe.
pub fn neg_class(b: &mut RegexBuilder, positive: NodeId) -> (r: NodeId)
    requires
        wf_nodes(old(b)@),
        valid_id(old(b)@, positive),
        old(b)@.len() + 24 <= MAX_NODES,
    ensures
        wf_nodes(final(b)@),
        extends(final(b)@, old(b)@),
        final(b)@.len() <= old(b)@.len() + 24,
        valid_id(final(b)@, r),
        r != NodeId::spec_missing(),
        forall|input: Seq<u8>, p: (int, int)|
            #[trigger] lang(final(b)@, r.idx(), input).contains(p) <==> utf8_char_at(input, p)
                && !lang(old(b)@, positive.idx(), input).contains(p),
        forall|input: Seq<u8>, i: int|
            0 <= i < input.len() && input[i] <= 0x7f ==> (#[trigger] lang(
                final(b)@,
                r.idx(),
                input,
            ).contains((i, i + 1)) <==> !lang(old(b)@, positive.idx(), input).contains((i, i + 1))),
{
    let ghost n0 = b@;
    let neg = b.mk_compl(positive);
    let ghost n1 = b@;
    let uc = utf8_char(b);
    let ghost n2 = b@;
    let parts = [neg, uc];
    let r = b.mk_inters(&parts);
    proof {
        lemma_extend_all(n0, n1);
        lemma_extend_all(n1, n2);
        lemma_extend_all(n2, b@);
        assert forall|input: Seq<u8>, p: (int, int)| #[trigger] lang(b@, r.idx(), input).contains(p)
            <==> utf8_char_at(input, p) && !lang(n0, positive.idx(), input).contains(p) by {
            assert(parts@[0] == neg);
            assert(parts@[1] == uc);
            assert(n1[neg.idx()] == Node::Compl(positive));
            assert(lang(n2, neg.idx(), input) == lang(n1, neg.idx(), input));
            assert(lang(n1, positive.idx(), input) == lang(n0, positive.idx(), input));
            if lang(b@, r.idx(), input).contains(p) {
                assert(lang(n2, neg.idx(), input).contains(p));
                assert(lang(n2, uc.idx(), input).contains(p));
            }
            if utf8_char_at(input, p) && !lang(n0, positive.idx(), input).contains(p) {
                assert(lang(n2, uc.idx(), input).contains(p));
                assert(lang(n2, neg.idx(), input).contains(p));
                assert forall|t: int| 0 <= t < parts@.len() implies #[trigger] lang(n2, parts@[t].idx(), input).contains(p) by {
                }
            }
        }
    }
    proof {
        assert forall|input: Seq<u8>, i: int|
            0 <= i < input.len() && input[i] <= 0x7f implies (#[trigger] lang(b@, r.idx(), input).contains(
            (i, i + 1),
        ) <==> !lang(n0, positive.idx(), input).contains((i, i + 1))) by {
            assert(utf8_char_at(input, (i, i + 1)));
        }
    }
    r
}

/// Nodes one `ensure_*` call may add to an arena.
pub const CACHE_NODES: u32 = 10000;

/// `neg` matches exactly the UTF-8 codepoints that `pos` does not match.
pub open spec fn complement_of(nodes: Seq<Node>, neg: NodeId, pos: NodeId) -> bool {
    forall|input: Seq<u8>, p: (int, int)|
        #[trigger] lang(nodes, neg.idx(), input).contains(p) <==> utf8_char_at(input, p) && !lang(
            nodes,
            pos.idx(),
            input,
        ).contains(p)
}

/// A class and its negation are built together, and the negation is the
/// complement of the class among UTF-8 codepoints.
pub open spec fn pair_inv(nodes: Seq<Node>, pos: NodeId, neg: NodeId) -> bool {
    &&& (pos == NodeId::spec_missing()) == (neg == NodeId::spec_missing())
    &&& pos != NodeId::spec_missing() ==> {
        &&& valid_id(nodes, pos)
        &&& valid_id(nodes, neg)
        &&& complement_of(nodes, neg, pos)
    }
}

/// Some span ending at `i` is matched by `w`.
pub open spec fn word_before(nodes: Seq<Node>, w: NodeId, input: Seq<u8>, i: int) -> bool {
    exists|k: int| #[trigger] lang(nodes, w.idx(), input).contains((k, i))
}

/// Some span starting at `i` is matched by `w`.
pub open spec fn word_after(nodes: Seq<Node>, w: NodeId, input: Seq<u8>, i: int) -> bool {
    exists|k: int| #[trigger] lang(nodes, w.idx(), input).contains((i, k))
}

/// `p` is an empty span at a position where `w` matches on exactly one side
/// (`\b`).
pub open spec fn boundary_at(nodes: Seq<Node>, w: NodeId, input: Seq<u8>, p: (int, int)) -> bool {
    &&& in_bounds(p, input.len() as int)
    &&& p.0 == p.1
    &&& word_before(nodes, w, input, p.0) != word_after(nodes, w, input, p.0)
}

/// `p` is an empty span at a position where `w` matches on both sides or on
/// neither (`\B`).
pub open spec fn non_boundary_at(nodes: Seq<Node>, w: NodeId, input: Seq<u8>, p: (int, int)) -> bool {
    &&& in_bounds(p, input.len() as int)
    &&& p.0 == p.1
    &&& word_before(nodes, w, input, p.0) == word_after(nodes, w, input, p.0)
}

/// The boundary pair is built together, only once the word class exists,
/// and matches `\b` and `\B` with respect to it.
pub open spec fn boundary_inv(nodes: Seq<Node>, w: NodeId, wb: NodeId, non_wb: NodeId) -> bool {
    &&& (wb == NodeId::spec_missing()) == (non_wb == NodeId::spec_missing())
    &&& wb != NodeId::spec_missing() ==> {
        &&& w != NodeId::spec_missing()
        &&& valid_id(nodes, w)
        &&& valid_id(nodes, wb)
        &&& valid_id(nodes, non_wb)
        &&& forall|input: Seq<u8>, p: (int, int)|
            #[trigger] lang(nodes, wb.idx(), input).contains(p) <==> boundary_at(nodes, w, input, p)
        &&& forall|input: Seq<u8>, p: (int, int)|
            #[trigger] lang(nodes, non_wb.idx(), input).contains(p) <==> non_boundary_at(
                nodes,
                w,
                input,
                p,
            )
    }
}

/// Adding nodes keeps a class pair valid.
pub proof fn lemma_pair_extend(n1: Seq<Node>, n2: Seq<Node>, pos: NodeId, neg: NodeId)
    requires
        pair_inv(n1, pos, neg),
        extends(n2, n1),
    ensures
        pair_inv(n2, pos, neg),
{
    lemma_extend_all(n1, n2);
}

/// Adding nodes keeps the boundary pair valid.
pub proof fn lemma_boundary_extend(n1: Seq<Node>, n2: Seq<Node>, w: NodeId, wb: NodeId, non_wb: NodeId)
    requires
        boundary_inv(n1, w, wb, non_wb),
        extends(n2, n1),
    ensures
        boundary_inv(n2, w, wb, non_wb),
{
    lemma_extend_all(n1, n2);
    if wb != NodeId::spec_missing() {
        assert forall|input: Seq<u8>, i: int| word_before(n1, w, input, i) == word_before(n2, w, input, i)
            && word_after(n1, w, input, i) == word_after(n2, w, input, i) by {
            assert(lang(n1, w.idx(), input) == lang(n2, w.idx(), input));
        }
        assert forall|input: Seq<u8>, p: (int, int)| #[trigger] lang(n2, wb.idx(), input).contains(p)
            <==> boundary_at(n2, w, input, p) by {
            assert(lang(n1, wb.idx(), input) == lang(n2, wb.idx(), input));
        }
        assert forall|input: Seq<u8>, p: (int, int)| #[trigger] lang(n2, non_wb.idx(), input).contains(p)
            <==> non_boundary_at(n2, w, input, p) by {
            assert(lang(n1, non_wb.idx(), input) == lang(n2, non_wb.idx(), input));
        }
    }
}

/// `p` is one byte from `[a-zA-Z0-9_]`.
pub open spec fn ascii_word_at(input: Seq<u8>, p: (int, int)) -> bool {
    &&& in_bounds(p, input.len() as int)
    &&& p.1 == p.0 + 1
    &&& {
        let x = input[p.0];
        ||| 0x61 <= x <= 0x7a
        ||| 0x41 <= x <= 0x5a
        ||| 0x30 <= x <= 0x39
        ||| x == 0x5f
    }
}

/// Concatenating two sets of empty spans intersects them.
pub proof fn lemma_concat_empty_spans(ma: Set<(int, int)>, mb: Set<(int, int)>, len: int)
    requires
        forall|p: (int, int)| #[trigger] ma.contains(p) ==> p.0 == p.1,
        forall|p: (int, int)| #[trigger] mb.contains(p) ==> p.0 == p.1,
    ensures
        forall|p: (int, int)| #[trigger] concat_set(ma, mb, len).contains(p) <==> in_bounds(p, len)
            && p.0 == p.1 && ma.contains(p) && mb.contains(p),
{
    assert forall|p: (int, int)| #[trigger] concat_set(ma, mb, len).contains(p) <==> in_bounds(p, len)
        && p.0 == p.1 && ma.contains(p) && mb.contains(p) by {
        if concat_set(ma, mb, len).contains(p) {
            let k = choose|k: int| ma.contains((p.0, k)) && mb.contains((k, p.1));
            assert(ma.contains((p.0, k)));
            assert(mb.contains((k, p.1)));
        }
        if in_bounds(p, len) && p.0 == p.1 && ma.contains(p) && mb.contains(p) {
            assert(ma.contains((p.0, p.0)) && mb.contains((p.0, p.1)));
        }
    }
}

/// A class and its negation never match the same span, and every UTF-8
/// codepoint is matched by one of them.
pub proof fn lemma_pair_partition(nodes: Seq<Node>, pos: NodeId, neg: NodeId, input: Seq<u8>, p: (int, int))
    requires
        pair_inv(nodes, pos, neg),
        pos != NodeId::spec_missing(),
    ensures
        !(lang(nodes, pos.idx(), input).contains(p) && lang(nodes, neg.idx(), input).contains(p)),
        utf8_char_at(input, p) ==> lang(nodes, pos.idx(), input).contains(p) || lang(
            nodes,
            neg.idx(),
            input,
        ).contains(p),
{
}

/// Negating a class twice gives back the class within the codepoints, and
/// a class never shares a span with its negation.
pub proof fn lemma_complement_twice(nodes: Seq<Node>, pos: NodeId, neg: NodeId, neg_neg: NodeId)
    requires
        complement_of(nodes, neg, pos),
        complement_of(nodes, neg_neg, neg),
    ensures
        forall|input: Seq<u8>, p: (int, int)|
            #[trigger] lang(nodes, neg_neg.idx(), input).contains(p) <==> lang(
                nodes,
                pos.idx(),
                input,
            ).contains(p) && utf8_char_at(input, p),
        forall|input: Seq<u8>, p: (int, int)|
            !(#[trigger] lang(nodes, neg.idx(), input).contains(p) && lang(
                nodes,
                pos.idx(),
                input,
            ).contains(p)),
{
    assert forall|input: Seq<u8>, p: (int, int)|
        #[trigger] lang(nodes, neg_neg.idx(), input).contains(p) <==> lang(
            nodes,
            pos.idx(),
            input,
        ).contains(p) && utf8_char_at(input, p) by {
        assert(lang(nodes, neg.idx(), input).contains(p) <==> utf8_char_at(input, p) && !lang(
            nodes,
            pos.idx(),
            input,
        ).contains(p));
    }
}

/// At every position of the input exactly one of `\b` and `\B` matches the
/// empty span, and neither matches a non-empty span.
pub proof fn lemma_boundary_partition(
    nodes: Seq<Node>,
    w: NodeId,
    wb: NodeId,
    non_wb: NodeId,
    input: Seq<u8>,
    i: int,
    j: int,
)
    requires
        boundary_inv(nodes, w, wb, non_wb),
        wb != NodeId::spec_missing(),
    ensures
        0 <= i <= input.len() ==> lang(nodes, wb.idx(), input).contains((i, i)) != lang(
            nodes,
            non_wb.idx(),
            input,
        ).contains((i, i)),
        i != j ==> !lang(nodes, wb.idx(), input).contains((i, j)) && !lang(
            nodes,
            non_wb.idx(),
            input,
        ).contains((i, j)),
{
    assert(lang(nodes, wb.idx(), input).contains((i, i)) == boundary_at(nodes, w, input, (i, i)));
    assert(lang(nodes, non_wb.idx(), input).contains((i, i)) == non_boundary_at(nodes, w, input, (i, i)));
    assert(lang(nodes, wb.idx(), input).contains((i, j)) == boundary_at(nodes, w, input, (i, j)));
    assert(lang(nodes, non_wb.idx(), input).contains((i, j)) == non_boundary_at(nodes, w, input, (i, j)));
}

/// The nodes [`UnicodeClassCache::ensure_wb`] builds over the word class `w`:
/// `(?<=w)`, `(?<!w)`, `(?=w_*)`, `(?!w)`, the two halves of `\b` and of
/// `\B`, and their unions `wb` and `non_wb`, each after the nodes it uses.
pub open spec fn wb_shape(
    nf: Seq<Node>,
    w: NodeId,
    lb_w: NodeId,
    lb_nw: NodeId,
    la_w: NodeId,
    la_nw: NodeId,
    wb_a: NodeId,
    wb_b: NodeId,
    wb: NodeId,
    nwb_a: NodeId,
    nwb_b: NodeId,
    non_wb: NodeId,
) -> bool {
    &&& w.idx() < lb_w.idx() < lb_nw.idx() < la_w.idx() < la_nw.idx() < wb_a.idx() < wb_b.idx()
        < wb.idx() < nwb_a.idx() < nwb_b.idx() < non_wb.idx()
    &&& la_w.idx() - 1 > lb_nw.idx()
    &&& nf[la_w.idx() - 1] == Node::Concat(w, NodeId::spec_ts())
    &&& nf[lb_w.idx()] == Node::Lookbehind(w)
    &&& nf[lb_nw.idx()] == Node::NegLookbehind(w)
    &&& nf[la_w.idx()] == Node::Lookahead(NodeId((la_w.idx() - 1) as u32))
    &&& nf[la_nw.idx()] == Node::NegLookahead(w)
    &&& nf[wb_a.idx()] == Node::Concat(lb_w, la_nw)
    &&& nf[wb_b.idx()] == Node::Concat(lb_nw, la_w)
    &&& nf[wb.idx()] == Node::Union(wb_a, wb_b)
    &&& nf[nwb_a.idx()] == Node::Concat(lb_w, la_w)
    &&& nf[nwb_b.idx()] == Node::Concat(lb_nw, la_nw)
    &&& nf[non_wb.idx()] == Node::Union(nwb_a, nwb_b)
}

/// Lazily built Unicode class nodes; a field holds [`NodeId::missing`]
/// until its class has been built.
#[derive(Clone, Debug)]
pub struct UnicodeClassCache {
    pub word: NodeId,
    pub non_word: NodeId,
    pub digit: NodeId,
    pub non_digit: NodeId,
    pub space: NodeId,
    pub non_space: NodeId,
    pub wb: NodeId,
    pub non_wb: NodeId,
}

impl Default for UnicodeClassCache {
    fn default() -> (r: Self)
        ensures
            r.is_empty(),
    {
        UnicodeClassCache {
            word: NodeId::missing(),
            non_word: NodeId::missing(),
            digit: NodeId::missing(),
            non_digit: NodeId::missing(),
            space: NodeId::missing(),
            non_space: NodeId::missing(),
            wb: NodeId::missing(),
            non_wb: NodeId::missing(),
        }
    }
}

impl UnicodeClassCache {
    /// No class has been built yet.
    pub open spec fn is_empty(&self) -> bool {
        &&& self.word == NodeId::spec_missing()
        &&& self.non_word == NodeId::spec_missing()
        &&& self.digit == NodeId::spec_missing()
        &&& self.non_digit == NodeId::spec_missing()
        &&& self.space == NodeId::spec_missing()
        &&& self.non_space == NodeId::spec_missing()
        &&& self.wb == NodeId::spec_missing()
        &&& self.non_wb == NodeId::spec_missing()
    }

    /// Every built field names a node of `nodes` with the meaning its pair
    /// calls for.
    pub open spec fn inv(&self, nodes: Seq<Node>) -> bool {
        &&& pair_inv(nodes, self.word, self.non_word)
        &&& pair_inv(nodes, self.digit, self.non_digit)
        &&& pair_inv(nodes, self.space, self.non_space)
        &&& boundary_inv(nodes, self.word, self.wb, self.non_wb)
    }
}

/// An empty cache is valid in every arena.
pub proof fn lemma_empty_inv(c: UnicodeClassCache, nodes: Seq<Node>)
    requires
        c.is_empty(),
    ensures
        c.inv(nodes),
{
}

/// Adding nodes keeps a cache valid.
pub proof fn lemma_inv_extend(c: UnicodeClassCache, n1: Seq<Node>, n2: Seq<Node>)
    requires
        c.inv(n1),
        extends(n2, n1),
    ensures
        c.inv(n2),
{
    lemma_pair_extend(n1, n2, c.word, c.non_word);
    lemma_pair_extend(n1, n2, c.digit, c.non_digit);
    lemma_pair_extend(n1, n2, c.space, c.non_space);
    lemma_boundary_extend(n1, n2, c.word, c.wb, c.non_wb);
}

impl UnicodeClassCache {
    /// Builds `\w` (Basic Multilingual Plane) and `\W` unless `\w` is already built.
    pub fn ensure_word(&mut self, b: &mut RegexBuilder)
        requires
            old(self).inv(old(b)@),
            wf_nodes(old(b)@),
            old(self).word == NodeId::spec_missing() ==> old(b)@.len() + CACHE_NODES <= MAX_NODES,
        ensures
            wf_nodes(final(b)@),
            extends(final(b)@, old(b)@),
            final(b)@.len() <= old(b)@.len() + CACHE_NODES,
            final(self).inv(final(b)@),
            old(self).word != NodeId::spec_missing() ==> *final(self) == *old(self) && final(b)@
                == old(b)@,
            old(self).word == NodeId::spec_missing() ==> {
                &&& final(self).word != NodeId::spec_missing()
                &&& *final(self) == (UnicodeClassCache {
                    word: final(self).word,
                    non_word: final(self).non_word,
                    ..*old(self)
                })
                &&& forall|input: Seq<u8>, p: (int, int)|
                    #[trigger] lang(final(b)@, final(self).word.idx(), input).contains(p)
                        <==> class_at(word_rows(), 3, input, p)
                &&& forall|input: Seq<u8>, i: int|
                    0 <= i < input.len() && input[i] <= 0x7f ==> (#[trigger] lang(
                        final(b)@,
                        final(self).word.idx(),
                        input,
                    ).contains((i, i + 1)) <==> (0x30 <= input[i] <= 0x39 || 0x41 <= input[i] <= 0x5a || input[i] == 0x5f || 0x61 <= input[i] <= 0x7a))
                &&& forall|input: Seq<u8>, i: int|
                    0 <= i < input.len() && input[i] <= 0x7f ==> (#[trigger] lang(
                        final(b)@,
                        final(self).non_word.idx(),
                        input,
                    ).contains((i, i + 1)) <==> !(0x30 <= input[i] <= 0x39 || 0x41 <= input[i] <= 0x5a || input[i] == 0x5f || 0x61 <= input[i] <= 0x7a))
            },
    {
        if self.word == NodeId::missing() {
            let ghost c0 = *self;
            let ghost n0 = b@;
            let pos = build_word_class(b);
            let ghost n1 = b@;
            let neg = neg_class(b, pos);
            self.word = pos;
            self.non_word = neg;
            proof {
                c0.lemma_set_pair_word(n0, n1, b@, pos, neg);
                lemma_extend_all(n1, b@);
                assert(*self == (UnicodeClassCache { word: pos, non_word: neg, ..c0 }));
                assert forall|input: Seq<u8>, i: int|
                    0 <= i < input.len() && input[i] <= 0x7f implies (#[trigger] lang(
                        b@,
                        pos.idx(),
                        input,
                    ).contains((i, i + 1)) <==> (0x30 <= input[i] <= 0x39 || 0x41 <= input[i] <= 0x5a || input[i] == 0x5f || 0x61 <= input[i] <= 0x7a)) by {
                    lemma_word_rows_ascii(input, i, 3);
                }
                assert forall|input: Seq<u8>, i: int|
                    0 <= i < input.len() && input[i] <= 0x7f implies (#[trigger] lang(
                        b@,
                        neg.idx(),
                        input,
                    ).contains((i, i + 1)) <==> !(0x30 <= input[i] <= 0x39 || 0x41 <= input[i] <= 0x5a || input[i] == 0x5f || 0x61 <= input[i] <= 0x7a)) by {
                    lemma_word_rows_ascii(input, i, 3);
                    assert(utf8_char_at(input, (i, i + 1)));
                    assert(lang(b@, pos.idx(), input).contains((i, i + 1)) <==> (0x30 <= input[i] <= 0x39 || 0x41 <= input[i] <= 0x5a || input[i] == 0x5f || 0x61 <= input[i] <= 0x7a));
                }
            }
        }
    }

    /// Builds `\w` (all of Unicode) and `\W` unless `\w` is already built.
    pub fn ensure_word_full(&mut self, b: &mut RegexBuilder)
        requires
            old(self).inv(old(b)@),
            wf_nodes(old(b)@),
            old(self).word == NodeId::spec_missing() ==> old(b)@.len() + CACHE_NODES <= MAX_NODES,
        ensures
            wf_nodes(final(b)@),
            extends(final(b)@, old(b)@),
            final(b)@.len() <= old(b)@.len() + CACHE_NODES,
            final(self).inv(final(b)@),
            old(self).word != NodeId::spec_missing() ==> *final(self) == *old(self) && final(b)@
                == old(b)@,
            old(self).word == NodeId::spec_missing() ==> {
                &&& final(self).word != NodeId::spec_missing()
                &&& *final(self) == (UnicodeClassCache {
                    word: final(self).word,
                    non_word: final(self).non_word,
                    ..*old(self)
                })
                &&& forall|input: Seq<u8>, p: (int, int)|
                    #[trigger] lang(final(b)@, final(self).word.idx(), input).contains(p)
                        <==> class_at(word_rows(), 4, input, p)
                &&& forall|input: Seq<u8>, i: int|
                    0 <= i < input.len() && input[i] <= 0x7f ==> (#[trigger] lang(
                        final(b)@,
                        final(self).word.idx(),
                        input,
                    ).contains((i, i + 1)) <==> (0x30 <= input[i] <= 0x39 || 0x41 <= input[i] <= 0x5a || input[i] == 0x5f || 0x61 <= input[i] <= 0x7a))
                &&& forall|input: Seq<u8>, i: int|
                    0 <= i < input.len() && input[i] <= 0x7f ==> (#[trigger] lang(
                        final(b)@,
                        final(self).non_word.idx(),
                        input,
                    ).contains((i, i + 1)) <==> !(0x30 <= input[i] <= 0x39 || 0x41 <= input[i] <= 0x5a || input[i] == 0x5f || 0x61 <= input[i] <= 0x7a))
            },
    {
        if self.word == NodeId::missing() {
            let ghost c0 = *self;
            let ghost n0 = b@;
            let pos = build_word_class_full(b);
            let ghost n1 = b@;
            let neg = neg_class(b, pos);
            self.word = pos;
            self.non_word = neg;
            proof {
                c0.lemma_set_pair_word(n0, n1, b@, pos, neg);
                lemma_extend_all(n1, b@);
                assert(*self == (UnicodeClassCache { word: pos, non_word: neg, ..c0 }));
                assert forall|input: Seq<u8>, i: int|
                    0 <= i < input.len() && input[i] <= 0x7f implies (#[trigger] lang(
                        b@,
                        pos.idx(),
                        input,
                    ).contains((i, i + 1)) <==> (0x30 <= input[i] <= 0x39 || 0x41 <= input[i] <= 0x5a || input[i] == 0x5f || 0x61 <= input[i] <= 0x7a)) by {
                    lemma_word_rows_ascii(input, i, 4);
                }
                assert forall|input: Seq<u8>, i: int|
                    0 <= i < input.len() && input[i] <= 0x7f implies (#[trigger] lang(
                        b@,
                        neg.idx(),
                        input,
                    ).contains((i, i + 1)) <==> !(0x30 <= input[i] <= 0x39 || 0x41 <= input[i] <= 0x5a || input[i] == 0x5f || 0x61 <= input[i] <= 0x7a)) by {
                    lemma_word_rows_ascii(input, i, 4);
                    assert(utf8_char_at(input, (i, i + 1)));
                    assert(lang(b@, pos.idx(), input).contains((i, i + 1)) <==> (0x30 <= input[i] <= 0x39 || 0x41 <= input[i] <= 0x5a || input[i] == 0x5f || 0x61 <= input[i] <= 0x7a));
                }
            }
        }
    }

    /// Builds `\d` (Basic Multilingual Plane) and `\D` unless `\d` is already built.
    pub fn ensure_digit(&mut self, b: &mut RegexBuilder)
        requires
            old(self).inv(old(b)@),
            wf_nodes(old(b)@),
            old(self).digit == NodeId::spec_missing() ==> old(b)@.len() + CACHE_NODES <= MAX_NODES,
        ensures
            wf_nodes(final(b)@),
            extends(final(b)@, old(b)@),
            final(b)@.len() <= old(b)@.len() + CACHE_NODES,
            final(self).inv(final(b)@),
            old(self).digit != NodeId::spec_missing() ==> *final(self) == *old(self) && final(b)@
                == old(b)@,
            old(self).digit == NodeId::spec_missing() ==> {
                &&& final(self).digit != NodeId::spec_missing()
                &&& *final(self) == (UnicodeClassCache {
                    digit: final(self).digit,
                    non_digit: final(self).non_digit,
                    ..*old(self)
                })
                &&& forall|input: Seq<u8>, p: (int, int)|
                    #[trigger] lang(final(b)@, final(self).digit.idx(), input).contains(p)
                        <==> class_at(digit_rows(), 3, input, p)
                &&& forall|input: Seq<u8>, i: int|
                    0 <= i < input.len() && input[i] <= 0x7f ==> (#[trigger] lang(
                        final(b)@,
                        final(self).digit.idx(),
                        input,
                    ).contains((i, i + 1)) <==> 0x30 <= input[i] <= 0x39)
                &&& forall|input: Seq<u8>, i: int|
                    0 <= i < input.len() && input[i] <= 0x7f ==> (#[trigger] lang(
                        final(b)@,
                        final(self).non_digit.idx(),
                        input,
                    ).contains((i, i + 1)) <==> !(0x30 <= input[i] <= 0x39))
            },
    {
        if self.digit == NodeId::missing() {
            let ghost c0 = *self;
            let ghost n0 = b@;
            let pos = build_digit_class(b);
            let ghost n1 = b@;
            let neg = neg_class(b, pos);
            self.digit = pos;
            self.non_digit = neg;
            proof {
                c0.lemma_set_pair_digit(n0, n1, b@, pos, neg);
                lemma_extend_all(n1, b@);
                assert(*self == (UnicodeClassCache { digit: pos, non_digit: neg, ..c0 }));
                assert forall|input: Seq<u8>, i: int|
                    0 <= i < input.len() && input[i] <= 0x7f implies (#[trigger] lang(
                        b@,
                        pos.idx(),
                        input,
                    ).contains((i, i + 1)) <==> 0x30 <= input[i] <= 0x39) by {
                    lemma_digit_rows_ascii(input, i, 3);
                }
                assert forall|input: Seq<u8>, i: int|
                    0 <= i < input.len() && input[i] <= 0x7f implies (#[trigger] lang(
                        b@,
                        neg.idx(),
                        input,
                    ).contains((i, i + 1)) <==> !(0x30 <= input[i] <= 0x39)) by {
                    lemma_digit_rows_ascii(input, i, 3);
                    assert(utf8_char_at(input, (i, i + 1)));
                    assert(lang(b@, pos.idx(), input).contains((i, i + 1)) <==> 0x30 <= input[i] <= 0x39);
                }
            }
        }
    }

    /// Builds `\d` (all of Unicode) and `\D` unless `\d` is already built.
    pub fn ensure_digit_full(&mut self, b: &mut RegexBuilder)
        requires
            old(self).inv(old(b)@),
            wf_nodes(old(b)@),
            old(self).digit == NodeId::spec_missing() ==> old(b)@.len() + CACHE_NODES <= MAX_NODES,
        ensures
            wf_nodes(final(b)@),
            extends(final(b)@, old(b)@),
            final(b)@.len() <= old(b)@.len() + CACHE_NODES,
            final(self).inv(final(b)@),
            old(self).digit != NodeId::spec_missing() ==> *final(self) == *old(self) && final(b)@
                == old(b)@,
            old(self).digit == NodeId::spec_missing() ==> {
                &&& final(self).digit != NodeId::spec_missing()
                &&& *final(self) == (UnicodeClassCache {
                    digit: final(self).digit,
                    non_digit: final(self).non_digit,
                    ..*old(self)
                })
                &&& forall|input: Seq<u8>, p: (int, int)|
                    #[trigger] lang(final(b)@, final(self).digit.idx(), input).contains(p)
                        <==> class_at(digit_rows(), 4, input, p)
                &&& forall|input: Seq<u8>, i: int|
                    0 <= i < input.len() && input[i] <= 0x7f ==> (#[trigger] lang(
                        final(b)@,
                        final(self).digit.idx(),
                        input,
                    ).contains((i, i + 1)) <==> 0x30 <= input[i] <= 0x39)
                &&& forall|input: Seq<u8>, i: int|
                    0 <= i < input.len() && input[i] <= 0x7f ==> (#[trigger] lang(
                        final(b)@,
                        final(self).non_digit.idx(),
                        input,
                    ).contains((i, i + 1)) <==> !(0x30 <= input[i] <= 0x39))
            },
    {
        if self.digit == NodeId::missing() {
            let ghost c0 = *self;
            let ghost n0 = b@;
            let pos = build_digit_class_full(b);
            let ghost n1 = b@;
            let neg = neg_class(b, pos);
            self.digit = pos;
            self.non_digit = neg;
            proof {
                c0.lemma_set_pair_digit(n0, n1, b@, pos, neg);
                lemma_extend_all(n1, b@);
                assert(*self == (UnicodeClassCache { digit: pos, non_digit: neg, ..c0 }));
                assert forall|input: Seq<u8>, i: int|
                    0 <= i < input.len() && input[i] <= 0x7f implies (#[trigger] lang(
                        b@,
                        pos.idx(),
                        input,
                    ).contains((i, i + 1)) <==> 0x30 <= input[i] <= 0x39) by {
                    lemma_digit_rows_ascii(input, i, 4);
                }
                assert forall|input: Seq<u8>, i: int|
                    0 <= i < input.len() && input[i] <= 0x7f implies (#[trigger] lang(
                        b@,
                        neg.idx(),
                        input,
                    ).contains((i, i + 1)) <==> !(0x30 <= input[i] <= 0x39)) by {
                    lemma_digit_rows_ascii(input, i, 4);
                    assert(utf8_char_at(input, (i, i + 1)));
                    assert(lang(b@, pos.idx(), input).contains((i, i + 1)) <==> 0x30 <= input[i] <= 0x39);
                }
            }
        }
    }

    /// Builds `\s` (Basic Multilingual Plane) and `\S` unless `\s` is already built.
    pub fn ensure_space(&mut self, b: &mut RegexBuilder)
        requires
            old(self).inv(old(b)@),
            wf_nodes(old(b)@),
            old(self).space == NodeId::spec_missing() ==> old(b)@.len() + CACHE_NODES <= MAX_NODES,
        ensures
            wf_nodes(final(b)@),
            extends(final(b)@, old(b)@),
            final(b)@.len() <= old(b)@.len() + CACHE_NODES,
            final(self).inv(final(b)@),
            old(self).space != NodeId::spec_missing() ==> *final(self) == *old(self) && final(b)@
                == old(b)@,
            old(self).space == NodeId::spec_missing() ==> {
                &&& final(self).space != NodeId::spec_missing()
                &&& *final(self) == (UnicodeClassCache {
                    space: final(self).space,
                    non_space: final(self).non_space,
                    ..*old(self)
                })
                &&& forall|input: Seq<u8>, p: (int, int)|
                    #[trigger] lang(final(b)@, final(self).space.idx(), input).contains(p)
                        <==> class_at(space_rows(), 3, input, p)
                &&& forall|input: Seq<u8>, i: int|
                    0 <= i < input.len() && input[i] <= 0x7f ==> (#[trigger] lang(
                        final(b)@,
                        final(self).space.idx(),
                        input,
                    ).contains((i, i + 1)) <==> (0x09 <= input[i] <= 0x0d || input[i] == 0x20))
                &&& forall|input: Seq<u8>, i: int|
                    0 <= i < input.len() && input[i] <= 0x7f ==> (#[trigger] lang(
                        final(b)@,
                        final(self).non_space.idx(),
                        input,
                    ).contains((i, i + 1)) <==> !(0x09 <= input[i] <= 0x0d || input[i] == 0x20))
            },
    {
        if self.space == NodeId::missing() {
            let ghost c0 = *self;
            let ghost n0 = b@;
            let pos = build_space_class(b);
            let ghost n1 = b@;
            let neg = neg_class(b, pos);
            self.space = pos;
            self.non_space = neg;
            proof {
                c0.lemma_set_pair_space(n0, n1, b@, pos, neg);
                lemma_extend_all(n1, b@);
                assert(*self == (UnicodeClassCache { space: pos, non_space: neg, ..c0 }));
                assert forall|input: Seq<u8>, i: int|
                    0 <= i < input.len() && input[i] <= 0x7f implies (#[trigger] lang(
                        b@,
                        pos.idx(),
                        input,
                    ).contains((i, i + 1)) <==> (0x09 <= input[i] <= 0x0d || input[i] == 0x20)) by {
                    lemma_space_rows_ascii(input, i, 3);
                }
                assert forall|input: Seq<u8>, i: int|
                    0 <= i < input.len() && input[i] <= 0x7f implies (#[trigger] lang(
                        b@,
                        neg.idx(),
                        input,
                    ).contains((i, i + 1)) <==> !(0x09 <= input[i] <= 0x0d || input[i] == 0x20)) by {
                    lemma_space_rows_ascii(input, i, 3);
                    assert(utf8_char_at(input, (i, i + 1)));
                    assert(lang(b@, pos.idx(), input).contains((i, i + 1)) <==> (0x09 <= input[i] <= 0x0d || input[i] == 0x20));
                }
            }
        }
    }

    /// Builds `\s` (all of Unicode) and `\S` unless `\s` is already built.
    pub fn ensure_space_full(&mut self, b: &mut RegexBuilder)
        requires
            old(self).inv(old(b)@),
            wf_nodes(old(b)@),
            old(self).space == NodeId::spec_missing() ==> old(b)@.len() + CACHE_NODES <= MAX_NODES,
        ensures
            wf_nodes(final(b)@),
            extends(final(b)@, old(b)@),
            final(b)@.len() <= old(b)@.len() + CACHE_NODES,
            final(self).inv(final(b)@),
            old(self).space != NodeId::spec_missing() ==> *final(self) == *old(self) && final(b)@
                == old(b)@,
            old(self).space == NodeId::spec_missing() ==> {
                &&& final(self).space != NodeId::spec_missing()
                &&& *final(self) == (UnicodeClassCache {
                    space: final(self).space,
                    non_space: final(self).non_space,
                    ..*old(self)
                })
                &&& forall|input: Seq<u8>, p: (int, int)|
                    #[trigger] lang(final(b)@, final(self).space.idx(), input).contains(p)
                        <==> class_at(space_rows(), 4, input, p)
                &&& forall|input: Seq<u8>, i: int|
                    0 <= i < input.len() && input[i] <= 0x7f ==> (#[trigger] lang(
                        final(b)@,
                        final(self).space.idx(),
                        input,
                    ).contains((i, i + 1)) <==> (0x09 <= input[i] <= 0x0d || input[i] == 0x20))
                &&& forall|input: Seq<u8>, i: int|
                    0 <= i < input.len() && input[i] <= 0x7f ==> (#[trigger] lang(
                        final(b)@,
                        final(self).non_space.idx(),
                        input,
                    ).contains((i, i + 1)) <==> !(0x09 <= input[i] <= 0x0d || input[i] == 0x20))
            },
    {
        if self.space == NodeId::missing() {
            let ghost c0 = *self;
            let ghost n0 = b@;
            let pos = build_space_class_full(b);
            let ghost n1 = b@;
            let neg = neg_class(b, pos);
            self.space = pos;
            self.non_space = neg;
            proof {
                c0.lemma_set_pair_space(n0, n1, b@, pos, neg);
                lemma_extend_all(n1, b@);
                assert(*self == (UnicodeClassCache { space: pos, non_space: neg, ..c0 }));
                assert forall|input: Seq<u8>, i: int|
                    0 <= i < input.len() && input[i] <= 0x7f implies (#[trigger] lang(
                        b@,
                        pos.idx(),
                        input,
                    ).contains((i, i + 1)) <==> (0x09 <= input[i] <= 0x0d || input[i] == 0x20)) by {
                    lemma_space_rows_ascii(input, i, 4);
                }
                assert forall|input: Seq<u8>, i: int|
                    0 <= i < input.len() && input[i] <= 0x7f implies (#[trigger] lang(
                        b@,
                        neg.idx(),
                        input,
                    ).contains((i, i + 1)) <==> !(0x09 <= input[i] <= 0x0d || input[i] == 0x20)) by {
                    lemma_space_rows_ascii(input, i, 4);
                    assert(utf8_char_at(input, (i, i + 1)));
                    assert(lang(b@, pos.idx(), input).contains((i, i + 1)) <==> (0x09 <= input[i] <= 0x0d || input[i] == 0x20));
                }
            }
        }
    }

    /// Builds `[a-zA-Z0-9_]` as `\w`, and `\W`, unless `\w` is already built.
    pub fn ensure_word_ascii(&mut self, b: &mut RegexBuilder)
        requires
            old(self).inv(old(b)@),
            wf_nodes(old(b)@),
            old(self).word == NodeId::spec_missing() ==> old(b)@.len() + CACHE_NODES <= MAX_NODES,
        ensures
            wf_nodes(final(b)@),
            extends(final(b)@, old(b)@),
            final(b)@.len() <= old(b)@.len() + CACHE_NODES,
            final(self).inv(final(b)@),
            old(self).word != NodeId::spec_missing() ==> *final(self) == *old(self) && final(b)@
                == old(b)@,
            old(self).word == NodeId::spec_missing() ==> {
                &&& final(self).word != NodeId::spec_missing()
                &&& *final(self) == (UnicodeClassCache {
                    word: final(self).word,
                    non_word: final(self).non_word,
                    ..*old(self)
                })
                &&& forall|input: Seq<u8>, p: (int, int)|
                    #[trigger] lang(final(b)@, final(self).word.idx(), input).contains(p)
                        <==> ascii_word_at(input, p)
                &&& forall|input: Seq<u8>, i: int|
                    0 <= i < input.len() && input[i] <= 0x7f ==> (#[trigger] lang(
                        final(b)@,
                        final(self).word.idx(),
                        input,
                    ).contains((i, i + 1)) <==> (0x30 <= input[i] <= 0x39 || 0x41 <= input[i] <= 0x5a || input[i] == 0x5f || 0x61 <= input[i] <= 0x7a))
                &&& forall|input: Seq<u8>, i: int|
                    0 <= i < input.len() && input[i] <= 0x7f ==> (#[trigger] lang(
                        final(b)@,
                        final(self).non_word.idx(),
                        input,
                    ).contains((i, i + 1)) <==> !(0x30 <= input[i] <= 0x39 || 0x41 <= input[i] <= 0x5a || input[i] == 0x5f || 0x61 <= input[i] <= 0x7a))
            },
    {
        if self.word != NodeId::missing() {
            return;
        }
        let ghost c0 = *self;
        let ghost n0 = b@;
        let az = b.mk_range_u8(0x61, 0x7a);
        let big = b.mk_range_u8(0x41, 0x5a);
        let dig = b.mk_range_u8(0x30, 0x39);
        let us = b.mk_u8(0x5f);
        let ghost n4 = b@;
        let alts = [az, big, dig, us];
        let pos = b.mk_unions(&alts);
        let ghost n1 = b@;
        let neg = neg_class(b, pos);
        self.word = pos;
        self.non_word = neg;
        proof {
            assert(extends(n4, n0));
            assert forall|input: Seq<u8>, p: (int, int)| #[trigger] lang(n1, pos.idx(), input).contains(p)
                <==> ascii_word_at(input, p) by {
                assert(alts@[0] == az);
                assert(alts@[1] == big);
                assert(alts@[2] == dig);
                assert(alts@[3] == us);
                assert(n4[az.idx()] == Node::Range(0x61, 0x7a));
                assert(n4[big.idx()] == Node::Range(0x41, 0x5a));
                assert(n4[dig.idx()] == Node::Range(0x30, 0x39));
                assert(n4[us.idx()] == Node::Range(0x5f, 0x5f));
                if ascii_word_at(input, p) {
                    let x = input[p.0];
                    if 0x61 <= x <= 0x7a {
                        assert(lang(n4, alts@[0].idx(), input).contains(p));
                    } else if 0x41 <= x <= 0x5a {
                        assert(lang(n4, alts@[1].idx(), input).contains(p));
                    } else if 0x30 <= x <= 0x39 {
                        assert(lang(n4, alts@[2].idx(), input).contains(p));
                    } else {
                        assert(lang(n4, alts@[3].idx(), input).contains(p));
                    }
                }
            }
            c0.lemma_set_pair_word(n0, n1, b@, pos, neg);
            lemma_extend_all(n1, b@);
            assert(*self == (UnicodeClassCache { word: pos, non_word: neg, ..c0 }));
            assert forall|input: Seq<u8>, i: int|
                0 <= i < input.len() && input[i] <= 0x7f implies (#[trigger] lang(
                    b@,
                    pos.idx(),
                    input,
                ).contains((i, i + 1)) <==> (0x30 <= input[i] <= 0x39 || 0x41 <= input[i] <= 0x5a || input[i] == 0x5f || 0x61 <= input[i] <= 0x7a)) by {
                
            }
            assert forall|input: Seq<u8>, i: int|
                0 <= i < input.len() && input[i] <= 0x7f implies (#[trigger] lang(
                    b@,
                    neg.idx(),
                    input,
                ).contains((i, i + 1)) <==> !(0x30 <= input[i] <= 0x39 || 0x41 <= input[i] <= 0x5a || input[i] == 0x5f || 0x61 <= input[i] <= 0x7a)) by {
                
                assert(utf8_char_at(input, (i, i + 1)));
                assert(lang(b@, pos.idx(), input).contains((i, i + 1)) <==> (0x30 <= input[i] <= 0x39 || 0x41 <= input[i] <= 0x5a || input[i] == 0x5f || 0x61 <= input[i] <= 0x7a));
            }
        }
    }

    // \b  = (?<=\w)(?!\w) | (?<!\w)(?=\w)
    // \B  = (?<=\w)(?=\w)  | (?<!\w)(?!\w)
    /// Builds `\b` and `\B` from the word class unless they are already
    /// built; to build them, the word class must be built first.
    pub fn ensure_wb(&mut self, b: &mut RegexBuilder)
        requires
            old(self).inv(old(b)@),
            old(self).wb == NodeId::spec_missing() ==> old(self).word != NodeId::spec_missing(),
            wf_nodes(old(b)@),
            old(self).wb == NodeId::spec_missing() ==> old(b)@.len() + CACHE_NODES <= MAX_NODES,
        ensures
            wf_nodes(final(b)@),
            extends(final(b)@, old(b)@),
            final(b)@.len() <= old(b)@.len() + CACHE_NODES,
            final(self).inv(final(b)@),
            old(self).wb != NodeId::spec_missing() ==> *final(self) == *old(self) && final(b)@
                == old(b)@,
            old(self).wb == NodeId::spec_missing() ==> {
                &&& final(self).wb != NodeId::spec_missing()
                &&& *final(self) == (UnicodeClassCache {
                    wb: final(self).wb,
                    non_wb: final(self).non_wb,
                    ..*old(self)
                })
                &&& forall|input: Seq<u8>, p: (int, int)|
                    #[trigger] lang(final(b)@, final(self).wb.idx(), input).contains(p)
                        <==> boundary_at(final(b)@, final(self).word, input, p)
                &&& forall|input: Seq<u8>, p: (int, int)|
                    #[trigger] lang(final(b)@, final(self).non_wb.idx(), input).contains(p)
                        <==> non_boundary_at(final(b)@, final(self).word, input, p)
            },
    {
        if self.wb != NodeId::missing() {
            return;
        }
        let ghost c0 = *self;
        let ghost n0 = b@;
        let w = self.word;
        let lb_w = b.mk_lookbehind(w);
        let lb_nw = b.mk_neg_lookbehind(w);
        let la_w = {
            let tail = b.mk_concat(w, NodeId::ts());
            b.mk_lookahead(tail)
        };
        let la_nw = b.mk_neg_lookahead(w);
        let ghost n5 = b@;
        let wb_a = b.mk_concat(lb_w, la_nw);
        let wb_b = b.mk_concat(lb_nw, la_w);
        let wb = b.mk_union(wb_a, wb_b);
        let nwb_a = b.mk_concat(lb_w, la_w);
        let nwb_b = b.mk_concat(lb_nw, la_nw);
        let non_wb = b.mk_union(nwb_a, nwb_b);
        self.wb = wb;
        self.non_wb = non_wb;
        proof {
            let nf = b@;
            lemma_extend_all(n0, nf);
            lemma_extend_all(n5, nf);
            lemma_pair_extend(n0, nf, c0.word, c0.non_word);
            lemma_pair_extend(n0, nf, c0.digit, c0.non_digit);
            lemma_pair_extend(n0, nf, c0.space, c0.non_space);
            self.lemma_boundary_nodes(nf, w, lb_w, lb_nw, la_w, la_nw, wb_a, wb_b, nwb_a, nwb_b);
            assert(*self == (UnicodeClassCache { wb: wb, non_wb: non_wb, ..c0 }));
        }
    }

    /// The node shapes built by [`Self::ensure_wb`] match `\b` and `\B`.
    proof fn lemma_boundary_nodes(
        self,
        nf: Seq<Node>,
        w: NodeId,
        lb_w: NodeId,
        lb_nw: NodeId,
        la_w: NodeId,
        la_nw: NodeId,
        wb_a: NodeId,
        wb_b: NodeId,
        nwb_a: NodeId,
        nwb_b: NodeId,
    )
        requires
            wf_nodes(nf),
            w == self.word,
            w != NodeId::spec_missing(),
            valid_id(nf, self.wb),
            valid_id(nf, self.non_wb),
            wb_shape(nf, w, lb_w, lb_nw, la_w, la_nw, wb_a, wb_b, self.wb, nwb_a, nwb_b, self.non_wb),
        ensures
            boundary_inv(nf, self.word, self.wb, self.non_wb),
    {
        assert forall|input: Seq<u8>, q: (int, int)| #[trigger] lang(nf, self.wb.idx(), input).contains(q)
            <==> boundary_at(nf, w, input, q) by {
            self.lemma_boundary_input(nf, w, lb_w, lb_nw, la_w, la_nw, wb_a, wb_b, nwb_a, nwb_b, input);
        }
        assert forall|input: Seq<u8>, q: (int, int)| #[trigger] lang(nf, self.non_wb.idx(), input).contains(q)
            <==> non_boundary_at(nf, w, input, q) by {
            self.lemma_boundary_input(nf, w, lb_w, lb_nw, la_w, la_nw, wb_a, wb_b, nwb_a, nwb_b, input);
        }
    }

    /// [`Self::lemma_boundary_nodes`] for one input.
    proof fn lemma_boundary_input(
        self,
        nf: Seq<Node>,
        w: NodeId,
        lb_w: NodeId,
        lb_nw: NodeId,
        la_w: NodeId,
        la_nw: NodeId,
        wb_a: NodeId,
        wb_b: NodeId,
        nwb_a: NodeId,
        nwb_b: NodeId,
        input: Seq<u8>,
    )
        requires
            wf_nodes(nf),
            w == self.word,
            w != NodeId::spec_missing(),
            valid_id(nf, self.wb),
            valid_id(nf, self.non_wb),
            wb_shape(nf, w, lb_w, lb_nw, la_w, la_nw, wb_a, wb_b, self.wb, nwb_a, nwb_b, self.non_wb),
        ensures
            forall|q: (int, int)| #[trigger] lang(nf, self.wb.idx(), input).contains(q)
                <==> boundary_at(nf, w, input, q),
            forall|q: (int, int)| #[trigger] lang(nf, self.non_wb.idx(), input).contains(q)
                <==> non_boundary_at(nf, w, input, q),
    {
        let tail = NodeId((la_w.idx() - 1) as u32);
        assert(tail.idx() == la_w.idx() - 1);

        let len = input.len() as int;
        let mw = lang(nf, w.idx(), input);
        lemma_lang_in_bounds(nf, w.idx(), input);
        lemma_ts_all(nf, input);
        let ts = lang(nf, 4, input);
        let mlb = lang(nf, lb_w.idx(), input);
        let mlnb = lang(nf, lb_nw.idx(), input);
        let mlt = lang(nf, tail.idx(), input);
        let mla = lang(nf, la_w.idx(), input);
        let mlna = lang(nf, la_nw.idx(), input);
        assert(mlt == concat_set(mw, ts, len));
        assert forall|i: int| (exists|k: int| #[trigger] mlt.contains((i, k))) <==> word_after(nf, w, input, i) by {
            if exists|k: int| #[trigger] mlt.contains((i, k)) {
                let k = choose|k: int| #[trigger] mlt.contains((i, k));
                let m = choose|m: int| mw.contains((i, m)) && ts.contains((m, k));
                assert(mw.contains((i, m)));
            }
            if word_after(nf, w, input, i) {
                let m = choose|m: int| #[trigger] mw.contains((i, m));
                assert(in_bounds((i, m), len));
                assert(ts.contains((m, m)));
                assert(mlt.contains((i, m)));
            }
        }
        assert forall|p: (int, int)| #[trigger] mlb.contains(p) <==> in_bounds(p, len) && p.0 == p.1 && word_before(nf, w, input, p.0) by {}
        assert forall|p: (int, int)| #[trigger] mlnb.contains(p) <==> in_bounds(p, len) && p.0 == p.1 && !word_before(nf, w, input, p.0) by {}
        assert forall|p: (int, int)| #[trigger] mla.contains(p) <==> in_bounds(p, len) && p.0 == p.1 && word_after(nf, w, input, p.0) by {}
        assert forall|p: (int, int)| #[trigger] mlna.contains(p) <==> in_bounds(p, len) && p.0 == p.1 && !word_after(nf, w, input, p.0) by {}
        lemma_concat_empty_spans(mlb, mlna, len);
        lemma_concat_empty_spans(mlnb, mla, len);
        lemma_concat_empty_spans(mlb, mla, len);
        lemma_concat_empty_spans(mlnb, mlna, len);
        assert(lang(nf, wb_a.idx(), input) == concat_set(mlb, mlna, len));
        assert(lang(nf, wb_b.idx(), input) == concat_set(mlnb, mla, len));
        assert(lang(nf, nwb_a.idx(), input) == concat_set(mlb, mla, len));
        assert(lang(nf, nwb_b.idx(), input) == concat_set(mlnb, mlna, len));
    }

    proof fn lemma_set_pair_word(self, n0: Seq<Node>, n1: Seq<Node>, n2: Seq<Node>, pos: NodeId, neg: NodeId)
        requires
            self.inv(n0),
            self.word == NodeId::spec_missing(),
            extends(n1, n0),
            extends(n2, n1),
            valid_id(n1, pos),
            valid_id(n2, neg),
            pos != NodeId::spec_missing(),
            neg != NodeId::spec_missing(),
            forall|input: Seq<u8>, p: (int, int)|
                #[trigger] lang(n2, neg.idx(), input).contains(p) <==> utf8_char_at(input, p)
                    && !lang(n1, pos.idx(), input).contains(p),
        ensures
            (UnicodeClassCache { word: pos, non_word: neg, ..self }).inv(n2),
    {
        assert(extends(n2, n0));
        lemma_pair_extend(n0, n2, self.digit, self.non_digit);
        lemma_pair_extend(n0, n2, self.space, self.non_space);
        lemma_extend_all(n1, n2);
        assert forall|input: Seq<u8>, p: (int, int)| #[trigger] lang(n2, neg.idx(), input).contains(p)
            <==> utf8_char_at(input, p) && !lang(n2, pos.idx(), input).contains(p) by {
            assert(lang(n1, pos.idx(), input) == lang(n2, pos.idx(), input));
        }
    }

    proof fn lemma_set_pair_digit(self, n0: Seq<Node>, n1: Seq<Node>, n2: Seq<Node>, pos: NodeId, neg: NodeId)
        requires
            self.inv(n0),
            self.digit == NodeId::spec_missing(),
            extends(n1, n0),
            extends(n2, n1),
            valid_id(n1, pos),
            valid_id(n2, neg),
            pos != NodeId::spec_missing(),
            neg != NodeId::spec_missing(),
            forall|input: Seq<u8>, p: (int, int)|
                #[trigger] lang(n2, neg.idx(), input).contains(p) <==> utf8_char_at(input, p)
                    && !lang(n1, pos.idx(), input).contains(p),
        ensures
            (UnicodeClassCache { digit: pos, non_digit: neg, ..self }).inv(n2),
    {
        assert(extends(n2, n0));
        lemma_pair_extend(n0, n2, self.word, self.non_word);
        lemma_pair_extend(n0, n2, self.space, self.non_space);
        lemma_boundary_extend(n0, n2, self.word, self.wb, self.non_wb);
        lemma_extend_all(n1, n2);
        assert forall|input: Seq<u8>, p: (int, int)| #[trigger] lang(n2, neg.idx(), input).contains(p)
            <==> utf8_char_at(input, p) && !lang(n2, pos.idx(), input).contains(p) by {
            assert(lang(n1, pos.idx(), input) == lang(n2, pos.idx(), input));
        }
    }

    proof fn lemma_set_pair_space(self, n0: Seq<Node>, n1: Seq<Node>, n2: Seq<Node>, pos: NodeId, neg: NodeId)
        requires
            self.inv(n0),
            self.space == NodeId::spec_missing(),
            extends(n1, n0),
            extends(n2, n1),
            valid_id(n1, pos),
            valid_id(n2, neg),
            pos != NodeId::spec_missing(),
            neg != NodeId::spec_missing(),
            forall|input: Seq<u8>, p: (int, int)|
                #[trigger] lang(n2, neg.idx(), input).contains(p) <==> utf8_char_at(input, p)
                    && !lang(n1, pos.idx(), input).contains(p),
        ensures
            (UnicodeClassCache { space: pos, non_space: neg, ..self }).inv(n2),
    {
        assert(extends(n2, n0));
        lemma_pair_extend(n0, n2, self.word, self.non_word);
        lemma_pair_extend(n0, n2, self.digit, self.non_digit);
        lemma_boundary_extend(n0, n2, self.word, self.wb, self.non_wb);
        lemma_extend_all(n1, n2);
        assert forall|input: Seq<u8>, p: (int, int)| #[trigger] lang(n2, neg.idx(), input).contains(p)
            <==> utf8_char_at(input, p) && !lang(n2, pos.idx(), input).contains(p) by {
            assert(lang(n1, pos.idx(), input) == lang(n2, pos.idx(), input));
        }
    }
}

} // verus!
