use resharp::engine::{Match, DFA_INITIAL, LDFA, NO_MATCH};
use resharp::fwd::{fwd_lb_prefix_impl, fwd_prefix_impl, Regex};
use resharp::prefix::FwdPrefixSearch;

fn m(start: usize, end: usize) -> Match {
    Match { start, end }
}

/// `ab+`: minterms other=0, a=1, b=2; states dead=0, initial=1,
/// after-a=2, after-ab=3 (accepting).
fn ab_plus() -> LDFA {
    let mut mt = vec![0u8; 256];
    mt[b'a' as usize] = 1;
    mt[b'b' as usize] = 2;
    let delta = vec![0, 0, 0, 0, 2, 0, 0, 0, 3, 0, 0, 3];
    LDFA::new(
        mt,
        3,
        4,
        delta,
        vec![0, 2, 0],
        0,
        vec![false, false, false, true],
        vec![false, false, false, true],
    )
    .unwrap()
}

/// `b+` after a lookbehind: minterms other=0, b=1; states dead=0,
/// initial=1, after-b=2 (accepting).
fn b_plus() -> LDFA {
    let mut mt = vec![0u8; 256];
    mt[b'b' as usize] = 1;
    LDFA::new(
        mt,
        2,
        3,
        vec![0, 0, 0, 2, 0, 2],
        vec![0, 0],
        0,
        vec![false, false, true],
        vec![false, false, true],
    )
    .unwrap()
}

fn regex(fwd: LDFA, fixed_length: Option<u32>) -> Regex {
    Regex { fwd, fixed_length, has_anchors: false, lb_check_bytes: 1, fwd_lb_begin_nullable: false }
}

#[test]
fn ldfa_new_rejects_inconsistent_tables() {
    let mt = vec![0u8; 256];
    assert!(LDFA::new(mt.clone(), 1, 2, vec![0, 1], vec![1], 0, vec![false, true], vec![false, true]).is_some());
    // byte table too short
    assert!(LDFA::new(vec![0u8; 255], 1, 2, vec![0, 1], vec![1], 0, vec![false, true], vec![false, true]).is_none());
    // dead state leaves
    assert!(LDFA::new(mt.clone(), 1, 2, vec![1, 1], vec![1], 0, vec![false, true], vec![false, true]).is_none());
    // dead state accepts
    assert!(LDFA::new(mt.clone(), 1, 2, vec![0, 1], vec![1], 0, vec![true, true], vec![false, true]).is_none());
    // transition out of range
    assert!(LDFA::new(mt.clone(), 1, 2, vec![0, 2], vec![1], 0, vec![false, true], vec![false, true]).is_none());
    // minterm out of range
    let mut bad = mt.clone();
    bad[7] = 1;
    assert!(LDFA::new(bad, 1, 2, vec![0, 1], vec![1], 0, vec![false, true], vec![false, true]).is_none());
    // table size mismatch
    assert!(LDFA::new(mt, 1, 2, vec![0, 1, 1], vec![1], 0, vec![false, true], vec![false, true]).is_none());
}

#[test]
fn scan_finds_the_last_accepting_position() {
    let d = ab_plus();
    let input = b"xabbbyab";
    assert_eq!(d.scan_fwd_from(DFA_INITIAL, 1, input), 5);
    assert_eq!(d.scan_fwd_from(DFA_INITIAL, 0, input), NO_MATCH);
    assert_eq!(d.scan_fwd_from(DFA_INITIAL, 6, input), 8);
    assert_eq!(d.scan_fwd_from(3, 3, input), 5);
    assert_eq!(d.scan_fwd_from(3, 8, input), 8);
    assert_eq!(d.scan_fwd_slow(6, input), 8);
    assert_eq!(d.walk_input(1, 2, input), 3);
    assert_eq!(d.walk_input(0, 2, input), 0);
    assert_eq!(d.walk_input(4, 0, input), DFA_INITIAL);
}

#[test]
fn prefix_search_finds_occurrences() {
    let p = FwdPrefixSearch::literal(b"ab");
    assert_eq!(p.len(), 2);
    assert!(p.is_literal());
    assert_eq!(p.find_fwd(b"xxabab", 0), Some(2));
    assert_eq!(p.find_fwd(b"xxabab", 3), Some(4));
    assert_eq!(p.find_fwd(b"xxabab", 5), None);
    assert_eq!(p.find_fwd(b"xxabab", 9), None);
    let set = FwdPrefixSearch { sets: vec![vec![b'a', b'b'], vec![b'c']] };
    assert!(!set.is_literal());
    assert_eq!(set.find_fwd(b"xbcac", 0), Some(1));
    assert_eq!(set.find_fwd(b"xbcac", 2), Some(3));
    let mut out = vec![m(9, 9)];
    assert!(!set.find_all_literal(b"ac", &mut out));
    assert_eq!(out, vec![m(9, 9)]);
    assert!(p.find_all_literal(b"abxabab", &mut out));
    assert_eq!(out, vec![m(9, 9), m(0, 2), m(3, 5), m(5, 7)]);
    let aa = FwdPrefixSearch::literal(b"aa");
    let mut out = Vec::new();
    assert!(aa.find_all_literal(b"aaaaa", &mut out));
    assert_eq!(out, vec![m(0, 2), m(2, 4)]);
    let empty = FwdPrefixSearch::literal(b"");
    let mut out = Vec::new();
    assert!(empty.find_all_literal(b"ab", &mut out));
    assert_eq!(out, vec![m(0, 0), m(1, 1), m(2, 2)]);
}

#[test]
fn prefix_driver_finds_leftmost_longest_matches() {
    let r = regex(ab_plus(), None);
    let p = FwdPrefixSearch::literal(b"ab");
    assert_eq!(r.find_all_fwd_prefix(&p, b"xxabbbyab"), vec![m(2, 6), m(7, 9)]);
    assert!(r.is_match_fwd_prefix(&p, b"xxabbbyab"));
    assert_eq!(r.find_all_fwd_prefix(&p, b"abb"), vec![m(0, 3)]);
    assert_eq!(r.find_all_fwd_prefix(&p, b"abbab"), vec![m(0, 3), m(3, 5)]);
    assert_eq!(r.find_all_fwd_prefix(&p, b"xyz"), vec![]);
    assert!(!r.is_match_fwd_prefix(&p, b"xyz"));
    assert_eq!(r.find_all_fwd_prefix(&p, b"a"), vec![]);
}

#[test]
fn prefix_driver_with_a_shorter_prefix() {
    let r = regex(ab_plus(), None);
    let p = FwdPrefixSearch::literal(b"a");
    assert_eq!(r.find_all_fwd_prefix(&p, b"aaabxab"), vec![m(2, 4), m(5, 7)]);
    assert!(r.is_match_fwd_prefix(&p, b"aaab"));
    assert!(!r.is_match_fwd_prefix(&p, b"aaa"));
}

#[test]
fn prefix_driver_literal_fast_path() {
    // the automaton is not consulted on the fast path
    let r = regex(ab_plus(), Some(2));
    let p = FwdPrefixSearch::literal(b"ab");
    assert_eq!(r.find_all_fwd_prefix(&p, b"abxabbb"), vec![m(0, 2), m(3, 5)]);
    assert!(r.is_match_fwd_prefix(&p, b"xxab"));
    assert!(!r.is_match_fwd_prefix(&p, b"ba"));
    assert_eq!(r.find_all_fwd_prefix(&p, b""), vec![]);
    assert!(!r.is_match_fwd_prefix(&p, b""));
    // anchors turn the fast path off
    let anchored = Regex { has_anchors: true, ..regex(ab_plus(), Some(2)) };
    assert_eq!(anchored.find_all_fwd_prefix(&p, b"abxabbb"), vec![m(0, 2), m(3, 7)]);
}

#[test]
fn prefix_impl_appends_or_only_answers() {
    let d = ab_plus();
    let p = FwdPrefixSearch::literal(b"ab");
    let mut out = vec![m(1, 1)];
    assert!(!fwd_prefix_impl::<false>(&d, None, false, &p, b"zab", &mut out));
    assert_eq!(out, vec![m(1, 1), m(1, 3)]);
    assert!(fwd_prefix_impl::<true>(&d, None, false, &p, b"zab", &mut out));
    assert_eq!(out, vec![m(1, 1), m(1, 3)]);
}

#[test]
fn lookbehind_driver_starts_after_the_lookbehind() {
    let r = Regex { lb_check_bytes: 1, ..regex(b_plus(), None) };
    let p = FwdPrefixSearch::literal(b"ab");
    assert_eq!(r.find_all_fwd_lb_prefix(&p, b"xabbab"), vec![m(2, 4), m(5, 6)]);
    assert!(r.is_match_fwd_lb_prefix(&p, b"xabbab"));
    assert_eq!(r.find_all_fwd_lb_prefix(&p, b"bbx"), vec![]);
    assert!(!r.is_match_fwd_lb_prefix(&p, b"bbx"));
}

#[test]
fn lookbehind_driver_at_the_start_of_input() {
    let r = Regex { fwd_lb_begin_nullable: true, ..regex(b_plus(), None) };
    let p = FwdPrefixSearch::literal(b"ab");
    assert_eq!(r.find_all_fwd_lb_prefix(&p, b"bbx"), vec![m(0, 2)]);
    assert!(r.is_match_fwd_lb_prefix(&p, b"bbx"));
    assert_eq!(r.find_all_fwd_lb_prefix(&p, b"xab"), vec![m(2, 3)]);
    assert_eq!(r.find_all_fwd_lb_prefix(&p, b""), vec![]);
    assert!(!r.is_match_fwd_lb_prefix(&p, b""));
}

#[test]
fn lb_impl_appends_or_only_answers() {
    let d = b_plus();
    let p = FwdPrefixSearch::literal(b"ab");
    let mut out = Vec::new();
    assert!(!fwd_lb_prefix_impl::<false>(&d, 1, false, &p, b"abab", &mut out));
    assert_eq!(out, vec![m(1, 2), m(3, 4)]);
    assert!(fwd_lb_prefix_impl::<true>(&d, 1, false, &p, b"abab", &mut out));
    assert_eq!(out.len(), 2);
}

/// `^$`-like: only the empty span matches, every byte leads to the dead
/// state; states dead=0, initial=1 (accepting).
fn empty_only() -> LDFA {
    LDFA::new(vec![0u8; 256], 1, 2, vec![0, 0], vec![0], 0, vec![false, true], vec![false, true]).unwrap()
}

#[test]
fn lookbehind_driver_keeps_empty_matches_after_one_at_the_start() {
    let r = Regex { lb_check_bytes: 1, fwd_lb_begin_nullable: true, ..regex(empty_only(), None) };
    let p = FwdPrefixSearch::literal(b"\n");
    assert_eq!(r.find_all_fwd_lb_prefix(&p, b"\n\n"), vec![m(0, 0), m(1, 1), m(2, 2)]);
    assert!(r.is_match_fwd_lb_prefix(&p, b"\n\n"));
    let mut out = Vec::new();
    assert!(!fwd_lb_prefix_impl::<false>(&r.fwd, 1, true, &p, b"\n\n", &mut out));
    assert_eq!(out, vec![m(0, 0), m(1, 1), m(2, 2)]);
}

/// One `a` after a lookbehind: minterms other=0, a=1; states dead=0,
/// initial=1, after-a=2 (accepting).
fn one_a() -> LDFA {
    let mut mt = vec![0u8; 256];
    mt[b'a' as usize] = 1;
    LDFA::new(mt, 2, 3, vec![0, 0, 0, 2, 0, 0], vec![0, 0], 0, vec![false, false, true], vec![false, false, true])
        .unwrap()
}

#[test]
fn lookbehind_driver_sees_occurrences_overlapping_the_previous_match() {
    // The occurrence at 1 overlaps the match 1..2; its body starts at the
    // match's end, so 2..3 is reported too.
    let r = Regex { lb_check_bytes: 1, ..regex(one_a(), None) };
    let p = FwdPrefixSearch::literal(b"aa");
    assert_eq!(r.find_all_fwd_lb_prefix(&p, b"aaa"), vec![m(1, 2), m(2, 3)]);
    assert_eq!(r.find_all_fwd_lb_prefix(&p, b"aaaa"), vec![m(1, 2), m(2, 3), m(3, 4)]);
    assert_eq!(r.find_all_fwd_lb_prefix(&p, b"aaxaa"), vec![m(1, 2), m(4, 5)]);
}

#[test]
fn lookbehind_driver_with_a_two_byte_lookbehind() {
    // Lookbehind `aa`, body one `a`, prefix `aaa`: over "aaaa" the
    // occurrence at 1 starts its body at the end of the match 2..3.
    let r = Regex { lb_check_bytes: 2, ..regex(one_a(), None) };
    let p = FwdPrefixSearch::literal(b"aaa");
    assert_eq!(r.find_all_fwd_lb_prefix(&p, b"aaab"), vec![m(2, 3)]);
    assert_eq!(r.find_all_fwd_lb_prefix(&p, b"aaaa"), vec![m(2, 3), m(3, 4)]);
}
