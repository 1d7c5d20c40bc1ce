//! Character classes built from UTF-8 byte-range rows.

use vstd::prelude::*;
use crate::node::{
    all_ranges, byte_in, concat_lang, extends, in_bounds, lang, lemma_concat_ranges,
    lemma_extend_all, valid_id, wf_nodes, Node, NodeId, RegexBuilder, MAX_NODES,
};
use crate::tables::{
    digit_rows, digit_table, lemma_word_rows_shape, space_rows, space_table, word_rows, word_table,
};

verus! {

/// Nodes a class built from `rows` may add to an arena.
pub open spec fn class_budget(rows: Seq<[u8; 9]>) -> int {
    9 * rows.len() as int
}

/// Span `p` of `input` matches the row `row` (see [`crate::tables`]).
pub open spec fn row_matches(row: [u8; 9], input: Seq<u8>, p: (int, int)) -> bool {
    let n = row@[0] as int;
    &&& in_bounds(p, input.len() as int)
    &&& p.1 - p.0 == n
    &&& forall|t: int|
        0 <= t < n ==> row@[1 + 2 * t] <= #[trigger] input[p.0 + t] && input[p.0 + t] <= row@[2
            + 2 * t]
}

/// Span `p` of `input` matches some row of `rows` that is one to `max_len`
/// bytes long.
pub open spec fn class_at(rows: Seq<[u8; 9]>, max_len: int, input: Seq<u8>, p: (int, int)) -> bool {
    exists|r: int|
        0 <= r < rows.len() && 1 <= rows[r]@[0] <= max_len && #[trigger] row_matches(
            rows[r],
            input,
            p,
        )
}

/// A node matching exactly the spans of `row`.
fn build_row(b: &mut RegexBuilder, row: [u8; 9]) -> (r: NodeId)
    requires
        wf_nodes(old(b)@),
        1 <= row@[0] <= 4,
        old(b)@.len() + 8 < MAX_NODES,
    ensures
        wf_nodes(final(b)@),
        extends(final(b)@, old(b)@),
        final(b)@.len() <= old(b)@.len() + 8,
        valid_id(final(b)@, r),
        forall|input: Seq<u8>, p: (int, int)|
            #[trigger] lang(final(b)@, r.idx(), input).contains(p) <==> row_matches(row, input, p),
{
    let n = row[0] as usize;
    let mut parts: Vec<NodeId> = Vec::new();
    let mut t: usize = 0;
    while t < n
        invariant
            n == row@[0] as int,
            1 <= n <= 4,
            0 <= t <= n,
            parts@.len() == t,
            wf_nodes(b@),
            extends(b@, old(b)@),
            b@.len() == old(b)@.len() + t,
            old(b)@.len() + 8 < MAX_NODES,
            forall|q: int|
                0 <= q < t ==> valid_id(b@, #[trigger] parts@[q]) && b@[parts@[q].idx()]
                    == Node::Range(row@[1 + 2 * q], row@[2 + 2 * q]),
        decreases n - t,
    {
        let ghost prev = b@;
        let id = b.mk_range_u8(row[1 + 2 * t], row[2 + 2 * t]);
        parts.push(id);
        proof {
            assert forall|q: int|
                0 <= q < t + 1 implies valid_id(b@, #[trigger] parts@[q]) && b@[parts@[q].idx()]
                == Node::Range(row@[1 + 2 * q], row@[2 + 2 * q]) by {
                if q < t {
                    assert(prev[parts@[q].idx()] == b@[parts@[q].idx()]);
                }
            }
        }
        t = t + 1;
    }
    let ghost before = b@;
    let r = b.mk_concats(parts.as_slice());
    proof {
        assert(all_ranges(before, parts@));
        assert forall|input: Seq<u8>, p: (int, int)| #[trigger] lang(b@, r.idx(), input).contains(p)
            <==> row_matches(row, input, p) by {
            lemma_concat_ranges(before, parts@, input);
            assert(lang(b@, r.idx(), input) == concat_lang(before, parts@, input));
            if row_matches(row, input, p) {
                assert forall|q: int| 0 <= q < parts@.len() implies byte_in(before[parts@[q].idx()], #[trigger] input[p.0 + q]) by {
                    assert(before[parts@[q].idx()] == Node::Range(row@[1 + 2 * q], row@[2 + 2 * q]));
                }
            }
            if concat_lang(before, parts@, input).contains(p) {
                assert forall|q: int| 0 <= q < n implies row@[1 + 2 * q] <= #[trigger] input[p.0 + q] && input[p.0 + q] <= row@[2 + 2 * q] by {
                    assert(before[parts@[q].idx()] == Node::Range(row@[1 + 2 * q], row@[2 + 2 * q]));
                    assert(byte_in(before[parts@[q].idx()], input[p.0 + q]));
                }
            }
        }
    }
    r
}

/// A node matching exactly the spans of the rows of `rows` that are one to
/// `max_len` bytes long; rows of another length are left out.
pub fn build_class(b: &mut RegexBuilder, rows: &[[u8; 9]], max_len: u8) -> (r: NodeId)
    requires
        wf_nodes(old(b)@),
        max_len <= 4,
        old(b)@.len() + class_budget(rows@) <= MAX_NODES,
    ensures
        wf_nodes(final(b)@),
        extends(final(b)@, old(b)@),
        final(b)@.len() <= old(b)@.len() + class_budget(rows@),
        valid_id(final(b)@, r),
        r != NodeId::spec_missing(),
        forall|input: Seq<u8>, p: (int, int)|
            #[trigger] lang(final(b)@, r.idx(), input).contains(p) <==> class_at(
                rows@,
                max_len as int,
                input,
                p,
            ),
{
    let mut acc = NodeId::bot();
    let mut k: usize = 0;
    while k < rows.len()
        invariant
            0 <= k <= rows@.len(),
            max_len <= 4,
            wf_nodes(b@),
            extends(b@, old(b)@),
            b@.len() <= old(b)@.len() + 9 * k,
            old(b)@.len() + class_budget(rows@) <= MAX_NODES,
            valid_id(b@, acc),
            acc != NodeId::spec_missing(),
            forall|input: Seq<u8>, p: (int, int)|
                #[trigger] lang(b@, acc.idx(), input).contains(p) <==> exists|q: int|
                    0 <= q < k && 1 <= rows@[q]@[0] <= max_len && #[trigger] row_matches(
                        rows@[q],
                        input,
                        p,
                    ),
        decreases rows@.len() - k,
    {
        let row = rows[k];
        let n = row[0];
        if 1 <= n && n <= max_len {
            let ghost n0 = b@;
            let seq = build_row(b, row);
            let ghost n1 = b@;
            let next = b.mk_union(acc, seq);
            proof {
                lemma_extend_all(n0, n1);
                lemma_extend_all(n1, b@);
                assert forall|input: Seq<u8>, p: (int, int)| #[trigger] lang(b@, next.idx(), input).contains(p)
                    <==> exists|q: int|
                    0 <= q < k + 1 && 1 <= rows@[q]@[0] <= max_len && #[trigger] row_matches(
                        rows@[q],
                        input,
                        p,
                    ) by {
                    assert(b@[next.idx()] == Node::Union(acc, seq));
                    assert(lang(n1, acc.idx(), input) == lang(n0, acc.idx(), input));
                    assert(rows@[k as int] == row);
                    let in_acc = lang(n0, acc.idx(), input).contains(p);
                    let in_seq = lang(n1, seq.idx(), input).contains(p);
                    assert(lang(b@, acc.idx(), input) == lang(n1, acc.idx(), input));
                    assert(lang(b@, seq.idx(), input) == lang(n1, seq.idx(), input));
                    assert(lang(b@, next.idx(), input).contains(p) == (in_acc || in_seq));
                    assert(in_seq == row_matches(rows@[k as int], input, p));
                    if in_acc {
                        let q = choose|q: int| 0 <= q < k && 1 <= rows@[q]@[0] <= max_len && #[trigger] row_matches(rows@[q], input, p);
                        assert(row_matches(rows@[q], input, p));
                    }
                }
            }
            acc = next;
        } else {
            proof {
                assert forall|input: Seq<u8>, p: (int, int)| #[trigger] lang(b@, acc.idx(), input).contains(p)
                    <==> exists|q: int|
                    0 <= q < k + 1 && 1 <= rows@[q]@[0] <= max_len && #[trigger] row_matches(
                        rows@[q],
                        input,
                        p,
                    ) by {
                    assert(rows@[k as int] == row);
                }
            }
        }
        k = k + 1;
    }
    acc
}

/// Nodes one class builder may add to an arena.
pub const CLASS_NODES: u32 = 9000;

/// `\w` within the Basic Multilingual Plane (UTF-8 encodings of one to three bytes).
pub fn build_word_class(b: &mut RegexBuilder) -> (r: NodeId)
    requires
        wf_nodes(old(b)@),
        old(b)@.len() + CLASS_NODES <= MAX_NODES,
    ensures
        wf_nodes(final(b)@),
        extends(final(b)@, old(b)@),
        final(b)@.len() <= old(b)@.len() + CLASS_NODES,
        valid_id(final(b)@, r),
        r != NodeId::spec_missing(),
        forall|input: Seq<u8>, p: (int, int)|
            #[trigger] lang(final(b)@, r.idx(), input).contains(p) <==> class_at(word_rows(), 3, input, p),
{
    let rows = word_table();
    build_class(b, rows.as_slice(), 3)
}

/// `\w` over all of Unicode.
pub fn build_word_class_full(b: &mut RegexBuilder) -> (r: NodeId)
    requires
        wf_nodes(old(b)@),
        old(b)@.len() + CLASS_NODES <= MAX_NODES,
    ensures
        wf_nodes(final(b)@),
        extends(final(b)@, old(b)@),
        final(b)@.len() <= old(b)@.len() + CLASS_NODES,
        valid_id(final(b)@, r),
        r != NodeId::spec_missing(),
        forall|input: Seq<u8>, p: (int, int)|
            #[trigger] lang(final(b)@, r.idx(), input).contains(p) <==> class_at(word_rows(), 4, input, p),
{
    let rows = word_table();
    build_class(b, rows.as_slice(), 4)
}

/// `\d` within the Basic Multilingual Plane.
pub fn build_digit_class(b: &mut RegexBuilder) -> (r: NodeId)
    requires
        wf_nodes(old(b)@),
        old(b)@.len() + CLASS_NODES <= MAX_NODES,
    ensures
        wf_nodes(final(b)@),
        extends(final(b)@, old(b)@),
        final(b)@.len() <= old(b)@.len() + CLASS_NODES,
        valid_id(final(b)@, r),
        r != NodeId::spec_missing(),
        forall|input: Seq<u8>, p: (int, int)|
            #[trigger] lang(final(b)@, r.idx(), input).contains(p) <==> class_at(digit_rows(), 3, input, p),
{
    let rows = digit_table();
    build_class(b, rows.as_slice(), 3)
}

/// `\d` over all of Unicode.
pub fn build_digit_class_full(b: &mut RegexBuilder) -> (r: NodeId)
    requires
        wf_nodes(old(b)@),
        old(b)@.len() + CLASS_NODES <= MAX_NODES,
    ensures
        wf_nodes(final(b)@),
        extends(final(b)@, old(b)@),
        final(b)@.len() <= old(b)@.len() + CLASS_NODES,
        valid_id(final(b)@, r),
        r != NodeId::spec_missing(),
        forall|input: Seq<u8>, p: (int, int)|
            #[trigger] lang(final(b)@, r.idx(), input).contains(p) <==> class_at(digit_rows(), 4, input, p),
{
    let rows = digit_table();
    build_class(b, rows.as_slice(), 4)
}

/// `\s` within the Basic Multilingual Plane.
pub fn build_space_class(b: &mut RegexBuilder) -> (r: NodeId)
    requires
        wf_nodes(old(b)@),
        old(b)@.len() + CLASS_NODES <= MAX_NODES,
    ensures
        wf_nodes(final(b)@),
        extends(final(b)@, old(b)@),
        final(b)@.len() <= old(b)@.len() + CLASS_NODES,
        valid_id(final(b)@, r),
        r != NodeId::spec_missing(),
        forall|input: Seq<u8>, p: (int, int)|
            #[trigger] lang(final(b)@, r.idx(), input).contains(p) <==> class_at(space_rows(), 3, input, p),
{
    let rows = space_table();
    build_class(b, rows.as_slice(), 3)
}

/// `\s` over all of Unicode.
pub fn build_space_class_full(b: &mut RegexBuilder) -> (r: NodeId)
    requires
        wf_nodes(old(b)@),
        old(b)@.len() + CLASS_NODES <= MAX_NODES,
    ensures
        wf_nodes(final(b)@),
        extends(final(b)@, old(b)@),
        final(b)@.len() <= old(b)@.len() + CLASS_NODES,
        valid_id(final(b)@, r),
        r != NodeId::spec_missing(),
        forall|input: Seq<u8>, p: (int, int)|
            #[trigger] lang(final(b)@, r.idx(), input).contains(p) <==> class_at(space_rows(), 4, input, p),
{
    let rows = space_table();
    build_class(b, rows.as_slice(), 4)
}

/// A one-byte ASCII span is a decimal digit exactly when it holds one of
/// `0` to `9`.
pub proof fn lemma_digit_rows_ascii(input: Seq<u8>, i: int, max_len: int)
    requires
        1 <= max_len,
        0 <= i < input.len(),
        input[i] <= 0x7f,
    ensures
        class_at(digit_rows(), max_len, input, (i, i + 1)) <==> 0x30 <= input[i] <= 0x39,
{
    reveal(digit_rows);
    let rows = digit_rows();
    assert(rows[0] == [1u8, 0x30, 0x39, 0x00, 0x00, 0x00, 0x00, 0x00, 0x00]);
    assert(rows[0]@[0] == 1 && rows[0]@[1] == 0x30 && rows[0]@[2] == 0x39);
    assert forall|r: int| 1 <= r < rows.len() implies #[trigger] rows[r]@[0] >= 2 by {}
    if 0x30 <= input[i] <= 0x39 {
        assert(input[i + 0] == input[i]);
        assert(row_matches(rows[0], input, (i, i + 1)));
    }
    if class_at(rows, max_len, input, (i, i + 1)) {
        let r = choose|r: int|
            0 <= r < rows.len() && 1 <= rows[r]@[0] <= max_len && #[trigger] row_matches(
                rows[r],
                input,
                (i, i + 1),
            );
        if r >= 1 {
            assert(rows[r]@[0] >= 2);
        }
        assert(r == 0);
        assert(input[i + 0] == input[i]);
    }
}

/// A one-byte ASCII span is white space exactly when it holds a tab, line
/// feed, vertical tab, form feed, carriage return or space.
pub proof fn lemma_space_rows_ascii(input: Seq<u8>, i: int, max_len: int)
    requires
        1 <= max_len,
        0 <= i < input.len(),
        input[i] <= 0x7f,
    ensures
        class_at(space_rows(), max_len, input, (i, i + 1)) <==> (0x09 <= input[i] <= 0x0d || input[i]
            == 0x20),
{
    reveal(space_rows);
    let rows = space_rows();
    assert(rows[0] == [1u8, 0x09, 0x0d, 0x00, 0x00, 0x00, 0x00, 0x00, 0x00]);
    assert(rows[1] == [1u8, 0x20, 0x20, 0x00, 0x00, 0x00, 0x00, 0x00, 0x00]);
    assert(rows[0]@[0] == 1 && rows[0]@[1] == 0x09 && rows[0]@[2] == 0x0d);
    assert(rows[1]@[0] == 1 && rows[1]@[1] == 0x20 && rows[1]@[2] == 0x20);
    assert forall|r: int| 2 <= r < rows.len() implies #[trigger] rows[r]@[0] >= 2 by {}
    assert(input[i + 0] == input[i]);
    if 0x09 <= input[i] <= 0x0d {
        assert(row_matches(rows[0], input, (i, i + 1)));
    }
    if input[i] == 0x20 {
        assert(row_matches(rows[1], input, (i, i + 1)));
    }
    if class_at(rows, max_len, input, (i, i + 1)) {
        let r = choose|r: int|
            0 <= r < rows.len() && 1 <= rows[r]@[0] <= max_len && #[trigger] row_matches(
                rows[r],
                input,
                (i, i + 1),
            );
        if r >= 2 {
            assert(rows[r]@[0] >= 2);
        }
        assert(r == 0 || r == 1);
    }
}

/// A one-byte ASCII span is a word character exactly when it holds a
/// letter, a digit or `_`.
pub proof fn lemma_word_rows_ascii(input: Seq<u8>, i: int, max_len: int)
    requires
        1 <= max_len,
        0 <= i < input.len(),
        input[i] <= 0x7f,
    ensures
        class_at(word_rows(), max_len, input, (i, i + 1)) <==> (0x30 <= input[i] <= 0x39 || 0x41
            <= input[i] <= 0x5a || input[i] == 0x5f || 0x61 <= input[i] <= 0x7a),
{
    lemma_word_rows_shape();
    let rows = word_rows();
    assert(rows[0]@[0] == 1 && rows[0]@[1] == 0x30 && rows[0]@[2] == 0x39);
    assert(rows[1]@[0] == 1 && rows[1]@[1] == 0x41 && rows[1]@[2] == 0x5a);
    assert(rows[2]@[0] == 1 && rows[2]@[1] == 0x5f && rows[2]@[2] == 0x5f);
    assert(rows[3]@[0] == 1 && rows[3]@[1] == 0x61 && rows[3]@[2] == 0x7a);
    assert(input[i + 0] == input[i]);
    if 0x30 <= input[i] <= 0x39 {
        assert(row_matches(rows[0], input, (i, i + 1)));
    }
    if 0x41 <= input[i] <= 0x5a {
        assert(row_matches(rows[1], input, (i, i + 1)));
    }
    if input[i] == 0x5f {
        assert(row_matches(rows[2], input, (i, i + 1)));
    }
    if 0x61 <= input[i] <= 0x7a {
        assert(row_matches(rows[3], input, (i, i + 1)));
    }
    if class_at(rows, max_len, input, (i, i + 1)) {
        let r = choose|r: int|
            0 <= r < rows.len() && 1 <= rows[r]@[0] <= max_len && #[trigger] row_matches(
                rows[r],
                input,
                (i, i + 1),
            );
        if r >= 4 {
            assert(rows[r]@[0] >= 2);
        }
        assert(r < 4);
    }
}

} // verus!
