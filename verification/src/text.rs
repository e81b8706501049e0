use vstd::prelude::*;

verus! {

/// Whether `s` reads exactly `lit`.
pub fn is_text(s: &str, lit: &str) -> (r: bool)
    ensures
        r == (s@ == lit@),
{
    let a = String::from_str(s);
    let b = String::from_str(lit);
    a == b
}

/// `i` is the position of the first `c` in `s`.
pub open spec fn is_first_index_of(s: Seq<char>, c: char, i: int) -> bool {
    0 <= i < s.len() && s[i] == c && forall|j: int| 0 <= j < i ==> s[j] != c
}

/// The text before the first `sep` of `s` and the text after it; `None` where
/// `s` holds no `sep`.
pub open spec fn split_once_at(s: Seq<char>, sep: char) -> Option<(Seq<char>, Seq<char>)> {
    if exists|i: int| is_first_index_of(s, sep, i) {
        let i = choose|i: int| is_first_index_of(s, sep, i);
        Some((s.take(i), s.skip(i + 1)))
    } else {
        None
    }
}

/// The pieces of `s` between the occurrences of `sep`, in order; a text
/// without `sep` is one piece.
pub open spec fn split_on(s: Seq<char>, sep: char) -> Seq<Seq<char>>
    decreases s.len(),
{
    if s.len() == 0 {
        seq![Seq::empty()]
    } else {
        let p = split_on(s.drop_last(), sep);
        if s.last() == sep {
            p.push(Seq::empty())
        } else {
            p.update(p.len() - 1, p.last().push(s.last()))
        }
    }
}

/// A text always has at least one piece.
pub proof fn lemma_split_nonempty(s: Seq<char>, sep: char)
    ensures
        split_on(s, sep).len() >= 1,
    decreases s.len(),
{
    if s.len() > 0 {
        lemma_split_nonempty(s.drop_last(), sep);
    }
}

/// The text before the first `sep` of `s` and the text after it, where `s`
/// holds a `sep`.
pub fn split_once(s: &str, sep: char) -> (r: Option<(String, String)>)
    ensures
        match r {
            Some((a, b)) => split_once_at(s@, sep) == Some((a@, b@)),
            None => split_once_at(s@, sep) is None,
        },
{
    let n = s.unicode_len();
    let mut i: usize = 0;
    while i < n
        invariant
            n == s@.len(),
            0 <= i <= n,
            forall|j: int| 0 <= j < i ==> s@[j] != sep,
        decreases n - i,
    {
        if s.get_char(i) == sep {
            proof {
                assert(is_first_index_of(s@, sep, i as int));
                let k = choose|k: int| is_first_index_of(s@, sep, k);
                assert(k == i) by {
                    if k < i {
                        assert(s@[k] != sep);
                    } else if k > i {
                        assert(s@[i as int] != sep);
                    }
                }
                assert(s@.subrange(0, i as int) == s@.take(i as int));
                assert(s@.subrange(i + 1, n as int) == s@.skip(i + 1));
            }
            return Some((String::from_str(s.substring_char(0, i)), String::from_str(s.substring_char(i + 1, n))));
        }
        i = i + 1;
    }
    None
}

/// The views of a list of texts.
pub open spec fn texts_of(v: Seq<String>) -> Seq<Seq<char>> {
    v.map_values(|t: String| t@)
}

/// The pieces of `s` between the occurrences of `sep`.
pub fn split(s: &str, sep: char) -> (r: Vec<String>)
    ensures
        texts_of(r@) == split_on(s@, sep),
{
    let n = s.unicode_len();
    let mut pieces: Vec<String> = Vec::new();
    let mut start: usize = 0;
    let mut i: usize = 0;
    proof {
        assert(texts_of(pieces@) =~= Seq::<Seq<char>>::empty());
        assert(s@.subrange(0, 0) =~= Seq::<char>::empty());
        assert(texts_of(pieces@).push(s@.subrange(0, 0)) =~= seq![Seq::<char>::empty()]);
        assert(s@.take(0) =~= Seq::<char>::empty());
    }
    while i < n
        invariant
            n == s@.len(),
            0 <= start <= i <= n,
            texts_of(pieces@).push(s@.subrange(start as int, i as int)) == split_on(s@.take(i as int), sep),
        decreases n - i,
    {
        let c = s.get_char(i);
        proof {
            assert(s@.take(i + 1).drop_last() == s@.take(i as int));
            assert(s@.take(i + 1).last() == c);
        }
        if c == sep {
            let piece = String::from_str(s.substring_char(start, i));
            pieces.push(piece);
            proof {
                assert(texts_of(pieces@) =~= texts_of(pieces@.drop_last()).push(piece@));
                assert(s@.subrange((i + 1) as int, (i + 1) as int) =~= Seq::<char>::empty());
            }
            start = i + 1;
        } else {
            proof {
                let p = split_on(s@.take(i as int), sep);
                assert(s@.subrange(start as int, i + 1) =~= s@.subrange(start as int, i as int).push(c));
                assert(texts_of(pieces@).push(s@.subrange(start as int, i + 1)) =~= p.update(
                    p.len() - 1,
                    p.last().push(c),
                ));
            }
        }
        i = i + 1;
    }
    let last = String::from_str(s.substring_char(start, n));
    pieces.push(last);
    proof {
        assert(s@.take(n as int) =~= s@);
        assert(texts_of(pieces@) =~= texts_of(pieces@.drop_last()).push(last@));
    }
    pieces
}

/// `s` begins with `prefix`.
pub open spec fn has_prefix(s: Seq<char>, prefix: Seq<char>) -> bool {
    prefix.len() <= s.len() && s.take(prefix.len() as int) == prefix
}

/// `pat` occurs somewhere in `s`.
pub open spec fn has_infix(s: Seq<char>, pat: Seq<char>) -> bool {
    exists|i: int| 0 <= i && i + pat.len() <= s.len() && #[trigger] s.subrange(i, i + pat.len()) == pat
}

/// Whether `s` begins with `prefix`.
pub fn starts_with(s: &str, prefix: &str) -> (r: bool)
    ensures
        r == has_prefix(s@, prefix@),
{
    let n = s.unicode_len();
    let m = prefix.unicode_len();
    if m > n {
        return false;
    }
    proof {
        assert(s@.subrange(0, m as int) == s@.take(m as int));
    }
    is_text(s.substring_char(0, m), prefix)
}

/// Whether `pat` occurs somewhere in `s`.
pub fn contains_text(s: &str, pat: &str) -> (r: bool)
    ensures
        r == has_infix(s@, pat@),
{
    let n = s.unicode_len();
    let m = pat.unicode_len();
    if m > n {
        return false;
    }
    if m == 0 {
        proof {
            assert(s@.subrange(0, 0 + pat@.len() as int) =~= pat@);
        }
        return true;
    }
    let mut i: usize = 0;
    while i <= n - m
        invariant
            n == s@.len(),
            m == pat@.len(),
            0 < m <= n,
            0 <= i <= n - m + 1,
            forall|j: int| 0 <= j < i ==> #[trigger] s@.subrange(j, j + m) != pat@,
        decreases n - m + 1 - i,
    {
        if is_text(s.substring_char(i, i + m), pat) {
            return true;
        }
        i = i + 1;
    }
    proof {
        assert forall|j: int| 0 <= j && j + pat@.len() <= s@.len() implies #[trigger] s@.subrange(
            j,
            j + pat@.len(),
        ) != pat@ by {
            assert(j < i);
        }
    }
    false
}

/// `s` without any `c`.
pub open spec fn without_char(s: Seq<char>, c: char) -> Seq<char>
    decreases s.len(),
{
    if s.len() == 0 {
        Seq::empty()
    } else {
        without_char(s.drop_last(), c) + if s.last() == c {
            Seq::empty()
        } else {
            seq![s.last()]
        }
    }
}

/// The texts of `ps` one after the other.
pub open spec fn concat_all(ps: Seq<Seq<char>>) -> Seq<char>
    decreases ps.len(),
{
    if ps.len() == 0 {
        Seq::empty()
    } else {
        concat_all(ps.drop_last()) + ps.last()
    }
}

proof fn lemma_concat_split(s: Seq<char>, c: char)
    ensures
        concat_all(split_on(s, c)) == without_char(s, c),
    decreases s.len(),
{
    if s.len() == 0 {
        let p = split_on(s, c);
        assert(p.drop_last() =~= Seq::<Seq<char>>::empty());
        assert(concat_all(p.drop_last()) == Seq::<char>::empty());
        assert(p.last() == Seq::<char>::empty());
        assert(concat_all(p) =~= Seq::<char>::empty());
    } else {
        lemma_concat_split(s.drop_last(), c);
        lemma_split_nonempty(s.drop_last(), c);
        let p = split_on(s.drop_last(), c);
        let x = s.last();
        if x == c {
            assert(p.push(Seq::empty()).drop_last() == p);
            assert(concat_all(p.push(Seq::empty())) =~= concat_all(p));
        } else {
            let q = p.update(p.len() - 1, p.last().push(x));
            assert(q.drop_last() =~= p.drop_last());
            assert(concat_all(q) =~= concat_all(p.drop_last()) + p.last().push(x));
            assert(concat_all(q) =~= concat_all(p).push(x));
        }
    }
}

/// `s` without any `c`.
pub fn remove_char(s: &str, c: char) -> (r: String)
    ensures
        r@ == without_char(s@, c),
{
    let pieces = split(s, c);
    let mut r = String::new();
    let mut i: usize = 0;
    while i < pieces.len()
        invariant
            0 <= i <= pieces.len(),
            texts_of(pieces@) == split_on(s@, c),
            r@ == concat_all(texts_of(pieces@).take(i as int)),
        decreases pieces.len() - i,
    {
        r.append(pieces[i].as_str());
        proof {
            assert(texts_of(pieces@).take(i + 1).drop_last() == texts_of(pieces@).take(i as int));
            assert(texts_of(pieces@)[i as int] == pieces@[i as int]@);
        }
        i = i + 1;
    }
    proof {
        assert(texts_of(pieces@).take(i as int) =~= texts_of(pieces@));
        lemma_concat_split(s@, c);
    }
    r
}

/// `s` with each `c` replaced by the text `by`.
pub open spec fn with_char_replaced(s: Seq<char>, c: char, by: Seq<char>) -> Seq<char>
    decreases s.len(),
{
    if s.len() == 0 {
        Seq::empty()
    } else {
        with_char_replaced(s.drop_last(), c, by) + if s.last() == c {
            by
        } else {
            seq![s.last()]
        }
    }
}

/// The texts of `ps` with `sep` between each two.
pub open spec fn join_with(ps: Seq<Seq<char>>, sep: Seq<char>) -> Seq<char>
    decreases ps.len(),
{
    if ps.len() <= 1 {
        if ps.len() == 0 {
            Seq::empty()
        } else {
            ps[0]
        }
    } else {
        join_with(ps.drop_last(), sep) + sep + ps.last()
    }
}

proof fn lemma_join_split(s: Seq<char>, c: char, by: Seq<char>)
    ensures
        join_with(split_on(s, c), by) == with_char_replaced(s, c, by),
    decreases s.len(),
{
    if s.len() == 0 {
        assert(join_with(split_on(s, c), by) =~= Seq::<char>::empty());
    } else {
        lemma_join_split(s.drop_last(), c, by);
        lemma_split_nonempty(s.drop_last(), c);
        let p = split_on(s.drop_last(), c);
        let x = s.last();
        if x == c {
            let q = p.push(Seq::empty());
            assert(q.drop_last() == p);
            assert(join_with(q, by) =~= join_with(p, by) + by);
        } else {
            let q = p.update(p.len() - 1, p.last().push(x));
            if p.len() == 1 {
                assert(join_with(q, by) =~= join_with(p, by).push(x));
            } else {
                assert(q.drop_last() =~= p.drop_last());
                assert(join_with(q, by) =~= join_with(p, by).push(x));
            }
        }
    }
}

/// `s` with each `c` replaced by the text `by`.
pub fn replace_char(s: &str, c: char, by: &str) -> (r: String)
    ensures
        r@ == with_char_replaced(s@, c, by@),
{
    let pieces = split(s, c);
    proof {
        lemma_split_nonempty(s@, c);
        assert(texts_of(pieces@)[0] == pieces@[0]@);
    }
    let mut r = String::from_str(pieces[0].as_str());
    let mut i: usize = 1;
    proof {
        assert(texts_of(pieces@).take(1) =~= seq![pieces@[0]@]);
    }
    while i < pieces.len()
        invariant
            1 <= i <= pieces.len(),
            texts_of(pieces@) == split_on(s@, c),
            r@ == join_with(texts_of(pieces@).take(i as int), by@),
        decreases pieces.len() - i,
    {
        r.append(by);
        r.append(pieces[i].as_str());
        proof {
            assert(texts_of(pieces@).take(i + 1).drop_last() == texts_of(pieces@).take(i as int));
            assert(texts_of(pieces@)[i as int] == pieces@[i as int]@);
        }
        i = i + 1;
    }
    proof {
        assert(texts_of(pieces@).take(i as int) =~= texts_of(pieces@));
        lemma_join_split(s@, c, by@);
    }
    r
}

} // verus!
