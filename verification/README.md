# resharp (verified core)

Building blocks of a byte-level regex engine with set operations
(intersection, complement) and lookarounds, written and proved with Verus.

## Modules

- `node` — the regex node arena (`RegexBuilder`, `NodeId`, `Node`). Every node
  has a denotation, `lang(nodes, id, input)`: the set of spans `(i, j)` of an
  input that it matches. Nodes only refer to older nodes, so adding nodes never
  changes what an existing node matches (`lemma_lang_extend`).
  `RegexBuilder::matches_span` evaluates the denotation.
- `tables` — the `\w`, `\d` and `\s` classes as rows of UTF-8 byte ranges
  (Unicode 14.0).
- `classes` — a node for a table (`build_class`), and the class builders:
  `build_*_class` keep the one-to-three-byte rows (the Basic Multilingual
  Plane), `build_*_class_full` keep all rows.
- `unicode_classes` — `utf8_char` (one UTF-8-shaped codepoint), `neg_class`
  (complement within the codepoints) and `UnicodeClassCache`, which builds each
  class and its negation at most once, and `\b` / `\B` from the word class.
- `engine` — `LDFA`, a complete transition table over byte classes with
  acceptance in the middle and at the end of the input; `scan_fwd_from`
  returns the last accepting position, `walk_input` the state after a stretch.
- `prefix` — `FwdPrefixSearch`, the byte sets a match has to start with, and
  the search for their occurrences.
- `fwd` — the prefix-accelerated forward drivers (`fwd_prefix_impl`,
  `fwd_lb_prefix_impl`) and the `Regex` entry points that use them. Their
  results are stated exactly (`fwd_prefix_matches`, `fwd_lb_prefix_matches`);
  the `is_match` forms answer whether that list is non-empty.
- `scan` — `leftmost_longest`: the leftmost-longest, non-overlapping matches
  among a set of spans (an empty match at `s` lets the next one start at
  `s + 1`).
- `fwd_scan` — the drivers against that scan. The prefix driver reports
  exactly `leftmost_longest` over `fwd_match_span`
  (`lemma_fwd_prefix_matches_leftmost_longest`), and the lookbehind driver
  exactly `leftmost_longest` over `lb_match_span`
  (`lemma_fwd_lb_prefix_matches_leftmost_longest`): after a non-empty match
  it searches on `lb_len` bytes before the match's end, so an occurrence
  whose lookbehind bytes overlap the match is still seen.

## Running

`tests/` holds ordinary Rust tests of the library; Verus checks `src/`.
