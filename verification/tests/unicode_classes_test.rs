use resharp::node::{Node, NodeId, RegexBuilder};
use resharp::unicode_classes::{neg_class, utf8_char, UnicodeClassCache};

fn whole(b: &RegexBuilder, id: NodeId, input: &[u8]) -> bool {
    b.matches_span(id, input, 0, input.len())
}

#[test]
fn builder_starts_with_base_nodes() {
    let b = RegexBuilder::new();
    assert_eq!(b.len(), 5);
    assert_eq!(b.get_kind(NodeId::missing()), Node::Missing);
    assert_eq!(b.get_kind(NodeId::bot()), Node::Bot);
    assert_eq!(b.get_kind(NodeId::eps()), Node::Eps);
    assert_eq!(b.get_kind(NodeId::top()), Node::Range(0, 255));
    assert_eq!(b.get_kind(NodeId::ts()), Node::Star(NodeId(3)));
}

#[test]
fn top_star_matches_every_span() {
    let b = RegexBuilder::new();
    let input = b"xyz";
    for i in 0..=3 {
        for j in i..=3 {
            assert!(b.matches_span(NodeId::ts(), input, i, j));
        }
    }
    assert!(!b.matches_span(NodeId::ts(), input, 2, 1));
    assert!(!b.matches_span(NodeId::ts(), input, 0, 4));
    assert!(!b.matches_span(NodeId::missing(), input, 0, 0));
    assert!(!b.matches_span(NodeId::bot(), input, 0, 1));
    assert!(b.matches_span(NodeId::eps(), input, 2, 2));
    assert!(!b.matches_span(NodeId::eps(), input, 1, 2));
}

#[test]
fn folds_of_empty_lists() {
    let mut b = RegexBuilder::new();
    assert_eq!(b.mk_concats(&[]), NodeId::eps());
    assert_eq!(b.mk_unions(&[]), NodeId::bot());
    assert_eq!(b.mk_inters(&[]), NodeId::ts());
    assert_eq!(b.len(), 5);
}

#[test]
fn concat_union_inter_compl_star() {
    let mut b = RegexBuilder::new();
    let a = b.mk_u8(b'a');
    let bb = b.mk_u8(b'b');
    let ab = b.mk_concats(&[a, bb]);
    assert!(whole(&b, ab, b"ab"));
    assert!(!whole(&b, ab, b"ba"));
    let a_or_b = b.mk_unions(&[a, bb]);
    assert!(whole(&b, a_or_b, b"b"));
    assert!(!whole(&b, a_or_b, b"c"));
    let lower = b.mk_range_u8(b'a', b'z');
    let only_a = b.mk_inters(&[lower, a]);
    assert!(whole(&b, only_a, b"a"));
    assert!(!whole(&b, only_a, b"q"));
    let not_a = b.mk_compl(a);
    assert!(whole(&b, not_a, b"q"));
    assert!(whole(&b, not_a, b"aa"));
    assert!(!whole(&b, not_a, b"a"));
    let many_ab = b.mk_star(ab);
    assert!(whole(&b, many_ab, b""));
    assert!(whole(&b, many_ab, b"ababab"));
    assert!(!whole(&b, many_ab, b"aba"));
}

#[test]
fn lookarounds_are_empty_spans() {
    let mut b = RegexBuilder::new();
    let a = b.mk_u8(b'a');
    let lb = b.mk_lookbehind(a);
    let nlb = b.mk_neg_lookbehind(a);
    let la = b.mk_lookahead(a);
    let nla = b.mk_neg_lookahead(a);
    let input = b"xa";
    assert!(b.matches_span(la, input, 1, 1));
    assert!(!b.matches_span(la, input, 0, 0));
    assert!(b.matches_span(nla, input, 0, 0));
    assert!(b.matches_span(lb, input, 2, 2));
    assert!(!b.matches_span(lb, input, 1, 1));
    assert!(b.matches_span(nlb, input, 1, 1));
    assert!(!b.matches_span(la, input, 1, 2));
}

#[test]
fn utf8_char_matches_one_codepoint() {
    let mut b = RegexBuilder::new();
    let u = utf8_char(&mut b);
    assert!(whole(&b, u, b"a"));
    assert!(whole(&b, u, &[0x7f]));
    assert!(whole(&b, u, "é".as_bytes()));
    assert!(whole(&b, u, "€".as_bytes()));
    assert!(whole(&b, u, "😀".as_bytes()));
    assert!(!whole(&b, u, b""));
    assert!(!whole(&b, u, b"ab"));
    assert!(!whole(&b, u, &[0x80]));
    assert!(!whole(&b, u, &[0xc3]));
    assert!(!whole(&b, u, &[0xc3, 0x41]));
    assert!(!whole(&b, u, &[0xf8, 0x80, 0x80, 0x80]));
    // lead-byte shapes only: the overlong form C0 80 is accepted
    assert!(whole(&b, u, &[0xc0, 0x80]));
    assert!(!b.matches_span(u, "é".as_bytes(), 0, 1));
}

#[test]
fn neg_class_is_the_complement_within_codepoints() {
    let mut b = RegexBuilder::new();
    let a = b.mk_u8(b'a');
    let not_a = neg_class(&mut b, a);
    assert!(!whole(&b, not_a, b"a"));
    assert!(whole(&b, not_a, b"b"));
    assert!(whole(&b, not_a, "é".as_bytes()));
    assert!(!whole(&b, not_a, &[0x80]));
    assert!(!whole(&b, not_a, b"bb"));
}

#[test]
fn neg_class_twice_gives_back_the_class_within_codepoints() {
    let mut b = RegexBuilder::new();
    let a = b.mk_u8(b'a');
    let ab = b.mk_u8(b'b');
    let pair = b.mk_concat(a, ab);
    let cls = b.mk_union(a, pair);
    let not_cls = neg_class(&mut b, cls);
    let again = neg_class(&mut b, not_cls);
    assert!(whole(&b, again, b"a"));
    assert!(!whole(&b, again, b"ab"));
    assert!(whole(&b, cls, b"ab"));
    assert!(!whole(&b, again, b"b"));
    assert!(!whole(&b, not_cls, b"a"));
}

#[test]
fn default_cache_is_empty() {
    let c = UnicodeClassCache::default();
    for id in [c.word, c.non_word, c.digit, c.non_digit, c.space, c.non_space, c.wb, c.non_wb] {
        assert_eq!(id, NodeId::missing());
    }
}

#[test]
fn ensure_word_builds_bmp_word_class_once() {
    let mut b = RegexBuilder::new();
    let mut c = UnicodeClassCache::default();
    c.ensure_word(&mut b);
    assert_ne!(c.word, NodeId::missing());
    assert_ne!(c.non_word, NodeId::missing());
    assert_eq!(c.digit, NodeId::missing());
    for w in ["a", "Z", "_", "7", "é", "Ω", "ж", "中"] {
        assert!(whole(&b, c.word, w.as_bytes()), "{}", w);
        assert!(!whole(&b, c.non_word, w.as_bytes()), "{}", w);
    }
    for w in ["-", " ", "!", "€"] {
        assert!(!whole(&b, c.word, w.as_bytes()), "{}", w);
        assert!(whole(&b, c.non_word, w.as_bytes()), "{}", w);
    }
    // U+1D400, outside the Basic Multilingual Plane
    let bold_a = "\u{1D400}".as_bytes();
    assert!(!whole(&b, c.word, bold_a));
    assert!(whole(&b, c.non_word, bold_a));
    let len = b.len();
    let before = (c.word, c.non_word);
    c.ensure_word(&mut b);
    c.ensure_word_full(&mut b);
    c.ensure_word_ascii(&mut b);
    assert_eq!(b.len(), len);
    assert_eq!((c.word, c.non_word), before);
}

#[test]
fn ensure_word_full_covers_all_planes() {
    let mut b = RegexBuilder::new();
    let mut c = UnicodeClassCache::default();
    c.ensure_word_full(&mut b);
    let bold_a = "\u{1D400}".as_bytes();
    assert!(whole(&b, c.word, bold_a));
    assert!(!whole(&b, c.non_word, bold_a));
    assert!(whole(&b, c.word, "é".as_bytes()));
    assert!(whole(&b, c.non_word, "😀".as_bytes()));
}

#[test]
fn ensure_word_ascii_builds_ascii_word_class() {
    let mut b = RegexBuilder::new();
    let mut c = UnicodeClassCache::default();
    c.ensure_word_ascii(&mut b);
    for w in ["a", "z", "A", "Z", "0", "9", "_"] {
        assert!(whole(&b, c.word, w.as_bytes()), "{}", w);
    }
    for w in ["é", "-", "`", "{", "@", "[", "/", ":"] {
        assert!(!whole(&b, c.word, w.as_bytes()), "{}", w);
        assert!(whole(&b, c.non_word, w.as_bytes()), "{}", w);
    }
}

#[test]
fn ensure_digit_and_space() {
    let mut b = RegexBuilder::new();
    let mut c = UnicodeClassCache::default();
    c.ensure_digit(&mut b);
    c.ensure_space(&mut b);
    assert!(whole(&b, c.digit, b"5"));
    assert!(whole(&b, c.digit, "\u{0660}".as_bytes()));
    assert!(!whole(&b, c.digit, b"a"));
    assert!(whole(&b, c.non_digit, b"a"));
    assert!(!whole(&b, c.digit, "\u{1D7CE}".as_bytes()));
    for w in [" ", "\t", "\n", "\r", "\u{0B}", "\u{0C}", "\u{85}", "\u{A0}", "\u{2003}", "\u{3000}"] {
        assert!(whole(&b, c.space, w.as_bytes()), "{:?}", w);
    }
    assert!(!whole(&b, c.space, b"a"));
    assert!(whole(&b, c.non_space, b"a"));
    assert_eq!(c.word, NodeId::missing());
}

#[test]
fn ensure_digit_full_and_space_full() {
    let mut b = RegexBuilder::new();
    let mut c = UnicodeClassCache::default();
    c.ensure_digit_full(&mut b);
    c.ensure_space_full(&mut b);
    assert!(whole(&b, c.digit, "\u{1D7CE}".as_bytes()));
    assert!(whole(&b, c.digit, b"0"));
    assert!(whole(&b, c.space, "\u{2029}".as_bytes()));
    assert!(!whole(&b, c.space, "\u{200B}".as_bytes()));
}

#[test]
fn ensure_wb_marks_word_boundaries() {
    let mut b = RegexBuilder::new();
    let mut c = UnicodeClassCache::default();
    c.ensure_word_ascii(&mut b);
    c.ensure_wb(&mut b);
    let input = b"ab cd";
    let boundaries = [true, false, true, true, false, true];
    for i in 0..=input.len() {
        assert_eq!(b.matches_span(c.wb, input, i, i), boundaries[i], "{}", i);
        assert_eq!(b.matches_span(c.non_wb, input, i, i), !boundaries[i], "{}", i);
    }
    assert!(!b.matches_span(c.wb, input, 0, 1));
    assert!(!b.matches_span(c.non_wb, input, 0, 1));
    assert!(b.matches_span(c.non_wb, b"", 0, 0));
    assert!(!b.matches_span(c.wb, b"", 0, 0));
    let len = b.len();
    let before = (c.wb, c.non_wb);
    c.ensure_wb(&mut b);
    assert_eq!(b.len(), len);
    assert_eq!((c.wb, c.non_wb), before);
}
