use vstd::prelude::*;

use aho_corasick::AhoCorasick;

verus! {

#[verifier::external_type_specification]
#[verifier::external_body]
pub struct ExAhoCorasick(AhoCorasick);

/// The patterns that an automaton searches for, each as the text it reads,
/// in the order in which it was given them.
pub uninterp spec fn automaton_patterns(ac: AhoCorasick) -> Seq<Seq<char>>;

/// What `AhoCorasick::replace_all` gives, for an automaton built by
/// `AhoCorasick::new` from `patterns`, on `haystack` with `replace_with`.
pub uninterp spec fn replaced_all(
    patterns: Seq<Seq<char>>,
    haystack: Seq<char>,
    replace_with: Seq<Seq<char>>,
) -> Seq<char>;

/// The views of a slice of texts.
pub open spec fn texts(s: Seq<&str>) -> Seq<Seq<char>> {
    s.map_values(|t: &str| t@)
}

/// Each pattern is one character, and no two are the same character.
pub open spec fn distinct_single_chars(patterns: Seq<Seq<char>>) -> bool {
    &&& forall|k: int| 0 <= k < patterns.len() ==> (#[trigger] patterns[k]).len() == 1
    &&& forall|k: int, l: int|
        0 <= k < l < patterns.len() ==> (#[trigger] patterns[k])[0] != (#[trigger] patterns[l])[0]
}

/// Some pattern is the character `c`.
pub open spec fn is_pattern_char(patterns: Seq<Seq<char>>, c: char) -> bool {
    exists|k: int| 0 <= k < patterns.len() && (#[trigger] patterns[k])[0] == c
}

/// The index of the pattern that is the character `c`.
pub open spec fn pattern_index(patterns: Seq<Seq<char>>, c: char) -> int {
    choose|k: int| 0 <= k < patterns.len() && (#[trigger] patterns[k])[0] == c
}

/// `s` with each character that is a pattern replaced by the replacement of
/// that pattern.
pub open spec fn replace_chars(
    s: Seq<char>,
    patterns: Seq<Seq<char>>,
    replace_with: Seq<Seq<char>>,
) -> Seq<char>
    decreases s.len(),
{
    if s.len() == 0 {
        Seq::empty()
    } else {
        replace_chars(s.drop_last(), patterns, replace_with) + if is_pattern_char(
            patterns,
            s.last(),
        ) {
            replace_with[pattern_index(patterns, s.last())]
        } else {
            seq![s.last()]
        }
    }
}

/// Builds a searcher for `patterns` with `AhoCorasick::new` (standard match
/// semantics); gives `None` where the builder reports an error. Claimed: the
/// automaton searches for the given patterns, in their order; and it is built
/// for at most sixteen patterns of one character each. The builder reports an
/// error only where a pattern, state or transition index would pass its
/// limit (about two billion); the automatic choice falls back from a failed
/// DFA or contiguous NFA to the NFA that was built first, and sixteen
/// one-character patterns (at most 64 bytes) need fewer than a hundred states.
#[verifier::external_body]
fn build_automaton(patterns: &[&str]) -> (r: Option<AhoCorasick>)
    ensures
        r matches Some(ac) ==> automaton_patterns(ac) == texts(patterns@),
        patterns@.len() <= 16 && (forall|i: int|
            0 <= i < patterns@.len() ==> (#[trigger] patterns@[i])@.len() == 1) ==> r is Some,
{
    AhoCorasick::new(patterns).ok()
}

/// `AhoCorasick::replace_all`: replaces each match that the automaton finds
/// in `haystack` by the text at the index of the matching pattern in
/// `replace_with`. Claimed: its result is named by `replaced_all`; where the
/// patterns are distinct single characters, every occurrence of a pattern
/// character is a match, so each such character is replaced and nothing else
/// changes. It panics where `replace_with` and the patterns differ in number,
/// which the precondition rules out.
#[verifier::external_body]
fn replace_all(ac: &AhoCorasick, haystack: &str, replace_with: &[&str]) -> (r: String)
    requires
        replace_with@.len() == automaton_patterns(*ac).len(),
    ensures
        r@ == replaced_all(automaton_patterns(*ac), haystack@, texts(replace_with@)),
        distinct_single_chars(automaton_patterns(*ac)) ==> r@ == replace_chars(
            haystack@,
            automaton_patterns(*ac),
            texts(replace_with@),
        ),
{
    ac.replace_all(haystack, replace_with)
}

/// The character that stands for `c` once the API's look-alike replacement is
/// undone: the full-width and look-alike forms of `: / [ ] @ " . , > #` become
/// those characters; any other character stays.
pub open spec fn unsanitize_char(c: char) -> char {
    if c == '\u{2F8}' || c == '\u{FF1A}' {
        ':'
    } else if c == '\u{2044}' {
        '/'
    } else if c == '\u{FF3B}' {
        '['
    } else if c == '\u{FF3D}' {
        ']'
    } else if c == '\u{FF20}' {
        '@'
    } else if c == '\u{FF02}' {
        '"'
    } else if c == '\u{2024}' {
        '.'
    } else if c == '\u{201A}' {
        ','
    } else if c == '\u{227B}' {
        '>'
    } else if c == '\u{FF03}' {
        '#'
    } else {
        c
    }
}

/// `s` with each look-alike character replaced by the character it stands for.
pub open spec fn unsanitized(s: Seq<char>) -> Seq<char> {
    s.map_values(|c: char| unsanitize_char(c))
}

/// The look-alike characters that the API puts in place of others, in the
/// order in which the searcher is given them.
pub open spec fn lookalikes() -> Seq<char> {
    seq![
        '\u{2F8}',
        '\u{FF1A}',
        '\u{2044}',
        '\u{FF3B}',
        '\u{FF3D}',
        '\u{FF20}',
        '\u{FF02}',
        '\u{2024}',
        '\u{201A}',
        '\u{227B}',
        '\u{FF03}',
    ]
}

/// The characters that the look-alikes stand for, in the same order.
pub open spec fn plain_chars() -> Seq<char> {
    seq![':', ':', '/', '[', ']', '@', '"', '.', ',', '>', '#']
}

/// Each character of `s` as a text of its own.
pub open spec fn as_texts(s: Seq<char>) -> Seq<Seq<char>> {
    s.map_values(|c: char| seq![c])
}

/// Undoes the look-alike replacement that the API applies to free text
/// (bios, status descriptions, world descriptions).
pub struct Unsanitizer {
    ac: AhoCorasick,
}

impl View for Unsanitizer {
    type V = Seq<Seq<char>>;

    /// The texts that the searcher looks for, in order.
    closed spec fn view(&self) -> Seq<Seq<char>> {
        automaton_patterns(self.ac)
    }
}

impl Unsanitizer {
    #[verifier::type_invariant]
    spec fn searches_lookalikes(self) -> bool {
        automaton_patterns(self.ac) == as_texts(lookalikes())
    }

    /// Builds the searcher for the look-alike characters, one pattern per
    /// character, in the order of `lookalikes`.
    pub fn new() -> (r: Option<Unsanitizer>)
        ensures
            r is Some,
            r matches Some(u) ==> u@ == as_texts(lookalikes()),
    {
        let patterns: [&str; 11] = [
            "\u{2F8}",
            "\u{FF1A}",
            "\u{2044}",
            "\u{FF3B}",
            "\u{FF3D}",
            "\u{FF20}",
            "\u{FF02}",
            "\u{2024}",
            "\u{201A}",
            "\u{227B}",
            "\u{FF03}",
        ];
        proof {
            reveal_strlit("\u{2F8}");
            reveal_strlit("\u{FF1A}");
            reveal_strlit("\u{2044}");
            reveal_strlit("\u{FF3B}");
            reveal_strlit("\u{FF3D}");
            reveal_strlit("\u{FF20}");
            reveal_strlit("\u{FF02}");
            reveal_strlit("\u{2024}");
            reveal_strlit("\u{201A}");
            reveal_strlit("\u{227B}");
            reveal_strlit("\u{FF03}");
            assert(patterns@[0]@ =~= seq!['\u{2F8}']);
            assert(patterns@[1]@ =~= seq!['\u{FF1A}']);
            assert(patterns@[2]@ =~= seq!['\u{2044}']);
            assert(patterns@[3]@ =~= seq!['\u{FF3B}']);
            assert(patterns@[4]@ =~= seq!['\u{FF3D}']);
            assert(patterns@[5]@ =~= seq!['\u{FF20}']);
            assert(patterns@[6]@ =~= seq!['\u{FF02}']);
            assert(patterns@[7]@ =~= seq!['\u{2024}']);
            assert(patterns@[8]@ =~= seq!['\u{201A}']);
            assert(patterns@[9]@ =~= seq!['\u{227B}']);
            assert(patterns@[10]@ =~= seq!['\u{FF03}']);
            assert(texts(patterns@) =~= as_texts(lookalikes()));
        }
        match build_automaton(&patterns) {
            Some(ac) => Some(Unsanitizer { ac }),
            None => None,
        }
    }

    /// `s` with each look-alike character replaced by the character it
    /// stands for.
    pub fn unsanitize(&self, s: &str) -> (r: String)
        ensures
            r@ == unsanitized(s@),
    {
        proof {
            use_type_invariant(self);
            lemma_lookalikes_distinct();
        }
        let replace_with: [&str; 11] = [
            ":",
            ":",
            "/",
            "[",
            "]",
            "@",
            "\"",
            ".",
            ",",
            ">",
            "#",
        ];
        proof {
            reveal_strlit("\"");
            reveal_strlit("#");
            reveal_strlit(",");
            reveal_strlit(".");
            reveal_strlit("/");
            reveal_strlit(":");
            reveal_strlit(">");
            reveal_strlit("@");
            reveal_strlit("[");
            reveal_strlit("]");
            assert(replace_with@[0]@ =~= seq![':']);
            assert(replace_with@[1]@ =~= seq![':']);
            assert(replace_with@[2]@ =~= seq!['/']);
            assert(replace_with@[3]@ =~= seq!['[']);
            assert(replace_with@[4]@ =~= seq![']']);
            assert(replace_with@[5]@ =~= seq!['@']);
            assert(replace_with@[6]@ =~= seq!['"']);
            assert(replace_with@[7]@ =~= seq!['.']);
            assert(replace_with@[8]@ =~= seq![',']);
            assert(replace_with@[9]@ =~= seq!['>']);
            assert(replace_with@[10]@ =~= seq!['#']);
            assert(texts(replace_with@) =~= as_texts(plain_chars()));
        }
        let r = replace_all(&self.ac, s, &replace_with);
        proof {
            lemma_replace_lookalikes(s@);
        }
        r
    }
}

proof fn lemma_lookalikes_distinct()
    ensures
        distinct_single_chars(as_texts(lookalikes())),
{
    let p = as_texts(lookalikes());
    assert forall|k: int| 0 <= k < p.len() implies (#[trigger] p[k]).len() == 1 by {}
    assert forall|k: int, l: int| 0 <= k < l < p.len() implies (#[trigger] p[k])[0] != (
    #[trigger] p[l])[0] by {
        assert(p[k][0] == lookalikes()[k]);
        assert(p[l][0] == lookalikes()[l]);
    }
}

proof fn lemma_replace_lookalike_char(c: char)
    ensures
        is_pattern_char(as_texts(lookalikes()), c) ==> as_texts(plain_chars())[pattern_index(
            as_texts(lookalikes()),
            c,
        )] == seq![unsanitize_char(c)],
        !is_pattern_char(as_texts(lookalikes()), c) ==> unsanitize_char(c) == c,
{
    let p = as_texts(lookalikes());
    let o = as_texts(plain_chars());
    assert forall|k: int| 0 <= k < 11 implies #[trigger] p[k][0] == lookalikes()[k] && o[k] == seq![
        plain_chars()[k],
    ] && unsanitize_char(lookalikes()[k]) == plain_chars()[k] by {}
    if is_pattern_char(p, c) {
        let k = pattern_index(p, c);
        assert(p[k][0] == c);
    } else {
        assert forall|k: int| 0 <= k < 11 implies lookalikes()[k] != c by {
            assert(p[k][0] == lookalikes()[k]);
        }
    }
}

proof fn lemma_replace_lookalikes(s: Seq<char>)
    ensures
        replace_chars(s, as_texts(lookalikes()), as_texts(plain_chars())) == unsanitized(s),
    decreases s.len(),
{
    if s.len() == 0 {
        assert(unsanitized(s) =~= Seq::<char>::empty());
    } else {
        lemma_replace_lookalikes(s.drop_last());
        lemma_replace_lookalike_char(s.last());
        assert(unsanitized(s) =~= unsanitized(s.drop_last()).push(unsanitize_char(s.last())));
        assert(unsanitized(s) =~= unsanitized(s.drop_last()) + seq![unsanitize_char(s.last())]);
    }
}

/// Undoing the look-alike replacement keeps the length of a text, and doing
/// it again changes nothing: the characters it writes are no look-alikes.
pub proof fn law_unsanitize_idempotent(s: Seq<char>)
    ensures
        unsanitized(s).len() == s.len(),
        unsanitized(unsanitized(s)) == unsanitized(s),
{
    assert(unsanitized(unsanitized(s)) =~= unsanitized(s));
}

} // verus!
