//! Character-level text utilities shared by the parsers and formatters of the crate.
//!
//! Strings are modelled by their view, a `Seq<char>`. The spec functions here
//! describe the splitting operations of `str` (`split_whitespace`, `split`,
//! `lines`) and the searches (`contains`, `starts_with`, `ends_with`) that the
//! rest of the crate uses; the executable functions compute them on `&[char]`.
use vstd::prelude::*;

verus! {

// ---------------------------------------------------------------------------
// Spec model
// ---------------------------------------------------------------------------

/// Unicode `White_Space`, the property that `char::is_whitespace` tests.
pub open spec fn is_ws(c: char) -> bool {
    ||| c == '\t'
    ||| c == '\n'
    ||| c == '\u{0B}'
    ||| c == '\u{0C}'
    ||| c == '\r'
    ||| c == ' '
    ||| c == '\u{85}'
    ||| c == '\u{A0}'
    ||| c == '\u{1680}'
    ||| ('\u{2000}' <= c && c <= '\u{200A}')
    ||| c == '\u{2028}'
    ||| c == '\u{2029}'
    ||| c == '\u{202F}'
    ||| c == '\u{205F}'
    ||| c == '\u{3000}'
}

/// `s` holds the character `c`.
pub open spec fn has_char(s: Seq<char>, c: char) -> bool {
    exists|i: int| 0 <= i < s.len() && s[i] == c
}

/// `t` occurs in `s` as a contiguous piece (`str::contains` with a string pattern).
pub open spec fn has_piece(s: Seq<char>, t: Seq<char>) -> bool {
    exists|i: int| 0 <= i && i + t.len() <= s.len() && #[trigger] s.subrange(i, i + t.len()) == t
}

/// `str::starts_with`.
pub open spec fn begins_with(s: Seq<char>, p: Seq<char>) -> bool {
    p.len() <= s.len() && s.subrange(0, p.len() as int) == p
}

/// `str::ends_with`.
pub open spec fn finishes_with(s: Seq<char>, p: Seq<char>) -> bool {
    p.len() <= s.len() && s.subrange(s.len() - p.len(), s.len() as int) == p
}

/// Length of the longest prefix of `s` without the character `c`.
pub open spec fn run_until(s: Seq<char>, c: char) -> nat
    decreases s.len(),
{
    if s.len() == 0 || s[0] == c {
        0
    } else {
        1 + run_until(s.drop_first(), c)
    }
}

/// Length of the longest prefix of `s` without whitespace.
pub open spec fn word_run(s: Seq<char>) -> nat
    decreases s.len(),
{
    if s.len() == 0 || is_ws(s[0]) {
        0
    } else {
        1 + word_run(s.drop_first())
    }
}

/// The part of `s` before the first `c`, or all of `s`: `s.split(c).next()`.
pub open spec fn before(s: Seq<char>, c: char) -> Seq<char> {
    s.take(run_until(s, c) as int)
}

/// `str::split_whitespace`: the maximal runs of non-whitespace characters.
pub open spec fn words(s: Seq<char>) -> Seq<Seq<char>>
    decreases s.len(),
{
    if s.len() == 0 {
        seq![]
    } else if is_ws(s[0]) {
        words(s.drop_first())
    } else {
        let n = word_run(s);
        proof {
            lemma_word_run_bound(s);
        }
        seq![s.take(n as int)] + words(s.skip(n as int))
    }
}

/// `str::split(c)` with a character pattern: every piece, empty ones included.
pub open spec fn pieces(s: Seq<char>, c: char) -> Seq<Seq<char>>
    decreases s.len(),
{
    let n = run_until(s, c);
    if n >= s.len() {
        seq![s]
    } else {
        seq![s.take(n as int)] + pieces(s.skip(n + 1 as int), c)
    }
}

/// `str::lines`: split at `\n`; a line that ended in `\n` loses a final `\r`;
/// a final line ending is optional and the empty string has no lines.
pub open spec fn lines(s: Seq<char>) -> Seq<Seq<char>>
    decreases s.len(),
{
    if s.len() == 0 {
        seq![]
    } else {
        let n = run_until(s, '\n');
        if n >= s.len() {
            seq![s]
        } else {
            let l = s.take(n as int);
            let l = if l.len() > 0 && l.last() == '\r' {
                l.drop_last()
            } else {
                l
            };
            seq![l] + lines(s.skip(n + 1 as int))
        }
    }
}

/// The pieces of every string of `ws` at `c`, in order (`flat_map(|w| w.split(c))`).
pub open spec fn split_all(ws: Seq<Seq<char>>, c: char) -> Seq<Seq<char>>
    decreases ws.len(),
{
    if ws.len() == 0 {
        seq![]
    } else {
        split_all(ws.drop_last(), c) + pieces(ws.last(), c)
    }
}

/// The first word of `s`: `s.split_whitespace().next()`.
pub open spec fn first_word(s: Seq<char>) -> Option<Seq<char>> {
    if words(s).len() == 0 {
        None
    } else {
        Some(words(s)[0])
    }
}

/// Number of leading whitespace characters of `s`.
pub open spec fn ws_prefix(s: Seq<char>) -> nat
    decreases s.len(),
{
    if s.len() == 0 || !is_ws(s[0]) {
        0
    } else {
        1 + ws_prefix(s.drop_first())
    }
}

/// Number of trailing whitespace characters of `s`.
pub open spec fn ws_suffix(s: Seq<char>) -> nat
    decreases s.len(),
{
    if s.len() == 0 || !is_ws(s.last()) {
        0
    } else {
        1 + ws_suffix(s.drop_last())
    }
}

/// `str::trim`: `s` without leading and trailing whitespace.
pub open spec fn trimmed(s: Seq<char>) -> Seq<char> {
    let t = s.skip(ws_prefix(s) as int);
    t.take(t.len() - ws_suffix(t))
}

/// The characters of `v`, element by element, are the strings of `s`.
pub open spec fn views_match(v: Seq<Vec<char>>, s: Seq<Seq<char>>) -> bool {
    v.len() == s.len() && forall|i: int| 0 <= i < v.len() ==> #[trigger] v[i]@ == s[i]
}

// ---------------------------------------------------------------------------
// Lemmas
// ---------------------------------------------------------------------------

/// `run_until` is the distance to the first `c` (or to the end).
pub proof fn lemma_run_until(s: Seq<char>, c: char, i: int, j: int)
    requires
        0 <= i <= j <= s.len(),
        forall|k: int| i <= k < j ==> s[k] != c,
        j == s.len() || s[j] == c,
    ensures
        run_until(s.skip(i), c) == j - i,
    decreases j - i,
{
    if i < j {
        assert(s.skip(i).drop_first() =~= s.skip(i + 1));
        lemma_run_until(s, c, i + 1, j);
    }
}

/// `word_run` is the distance to the first whitespace (or to the end).
pub proof fn lemma_word_run(s: Seq<char>, i: int, j: int)
    requires
        0 <= i <= j <= s.len(),
        forall|k: int| i <= k < j ==> !is_ws(s[k]),
        j == s.len() || is_ws(s[j]),
    ensures
        word_run(s.skip(i)) == j - i,
    decreases j - i,
{
    if i < j {
        assert(s.skip(i).drop_first() =~= s.skip(i + 1));
        lemma_word_run(s, i + 1, j);
    }
}

/// `word_run` stays within the sequence and is positive before a non-whitespace character.
pub proof fn lemma_word_run_bound(s: Seq<char>)
    ensures
        word_run(s) <= s.len(),
        s.len() > 0 && !is_ws(s[0]) ==> word_run(s) >= 1,
    decreases s.len(),
{
    if s.len() > 0 && !is_ws(s[0]) {
        lemma_word_run_bound(s.drop_first());
    }
}

proof fn lemma_ws_prefix(s: Seq<char>, i: int)
    requires
        0 <= i <= s.len(),
        forall|k: int| 0 <= k < i ==> is_ws(s[k]),
        i == s.len() || !is_ws(s[i]),
    ensures
        ws_prefix(s) == i,
    decreases i,
{
    if i > 0 {
        lemma_ws_prefix(s.drop_first(), i - 1);
    }
}

proof fn lemma_ws_suffix(s: Seq<char>, j: int)
    requires
        0 <= j <= s.len(),
        forall|k: int| j <= k < s.len() ==> is_ws(s[k]),
        j == 0 || !is_ws(s[j - 1]),
    ensures
        ws_suffix(s) == s.len() - j,
    decreases s.len() - j,
{
    if j < s.len() {
        lemma_ws_suffix(s.drop_last(), j);
    }
}

/// The leading whitespace run stops at a character that is not whitespace.
proof fn lemma_ws_prefix_bound(s: Seq<char>)
    ensures
        ws_prefix(s) <= s.len(),
        ws_prefix(s) < s.len() ==> !is_ws(s[ws_prefix(s) as int]),
    decreases s.len(),
{
    if s.len() > 0 && is_ws(s[0]) {
        lemma_ws_prefix_bound(s.drop_first());
    }
}

/// The trailing whitespace run stops at a character that is not whitespace.
proof fn lemma_ws_suffix_bound(s: Seq<char>)
    ensures
        ws_suffix(s) <= s.len(),
        ws_suffix(s) < s.len() ==> !is_ws(s[s.len() - 1 - ws_suffix(s)]),
    decreases s.len(),
{
    if s.len() > 0 && is_ws(s.last()) {
        lemma_ws_suffix_bound(s.drop_last());
    }
}

/// A trimmed text neither begins nor ends with whitespace.
pub proof fn law_trimmed_edges(s: Seq<char>)
    ensures
        trimmed(s).len() > 0 ==> !is_ws(trimmed(s)[0]) && !is_ws(trimmed(s).last()),
{
    let t = s.skip(ws_prefix(s) as int);
    lemma_ws_prefix_bound(s);
    lemma_ws_suffix_bound(t);
    if trimmed(s).len() > 0 {
        assert(trimmed(s)[0] == s[ws_prefix(s) as int]);
        assert(trimmed(s).last() == t[t.len() - 1 - ws_suffix(t)]);
    }
}

/// A prefix without `c` is a prefix of `before(s, c)`.
pub proof fn lemma_run_until_bound(s: Seq<char>, c: char)
    ensures
        run_until(s, c) <= s.len(),
        run_until(s, c) < s.len() ==> s[run_until(s, c) as int] == c,
        forall|k: int| 0 <= k < run_until(s, c) ==> s[k] != c,
    decreases s.len(),
{
    if s.len() > 0 && s[0] != c {
        lemma_run_until_bound(s.drop_first(), c);
        assert forall|k: int| 0 <= k < run_until(s, c) implies s[k] != c by {
            if k > 0 {
                assert(s[k] == s.drop_first()[k - 1]);
            }
        }
    }
}

// ---------------------------------------------------------------------------
// Executable helpers
// ---------------------------------------------------------------------------

/// Every text begins with itself.
pub proof fn lemma_begins_with_self(s: Seq<char>)
    ensures
        begins_with(s, s),
{
    assert(s.subrange(0, s.len() as int) =~= s);
}

/// A prefix of `b` stays one after the same text goes before both.
pub proof fn lemma_begins_with_after(p: Seq<char>, a: Seq<char>, b: Seq<char>)
    requires
        begins_with(a, b),
    ensures
        begins_with(p + a, p + b),
{
    assert((p + a).subrange(0, (p + b).len() as int) =~= p + b);
}

/// `prefix + s` as a new string.
pub fn prefixed(prefix: &str, s: &str) -> (res: String)
    ensures
        res@ == prefix@ + s@,
{
    let mut res = prefix.to_owned();
    res.append(s);
    res
}

/// Appends a character to a string (`String::push`).
#[verifier::external_body]
pub(crate) fn push_char(s: &mut String, c: char)
    ensures
        final(s)@ == old(s)@.push(c),
{
    s.push(c);
}

/// The characters of `s`, in order.
pub fn chars_of(s: &str) -> (res: Vec<char>)
    ensures
        res@ == s@,
{
    let mut res: Vec<char> = Vec::new();
    for c in it: s.chars()
        invariant
            res@ == it.seq().take(it.index() as int),
            it.seq() == s@,
    {
        res.push(c);
    }
    res
}

/// The string made of the characters of `v`.
pub fn string_of(v: &[char]) -> (res: String)
    ensures
        res@ == v@,
{
    let mut res = String::new();
    let mut i: usize = 0;
    while i < v.len()
        invariant
            i <= v@.len(),
            res@ == v@.take(i as int),
        decreases v.len() - i,
    {
        push_char(&mut res, v[i]);
        assert(v@.take(i as int).push(v@[i as int]) =~= v@.take(i + 1));
        i = i + 1;
    }
    assert(v@.take(v@.len() as int) =~= v@);
    res
}

/// Appends the characters of `v` to `s`.
pub fn push_chars(s: &mut String, v: &[char])
    ensures
        final(s)@ == old(s)@ + v@,
{
    let mut i: usize = 0;
    while i < v.len()
        invariant
            i <= v@.len(),
            s@ == old(s)@ + v@.take(i as int),
        decreases v.len() - i,
    {
        push_char(s, v[i]);
        assert(v@.take(i as int).push(v@[i as int]) =~= v@.take(i + 1));
        assert(old(s)@ + v@.take(i as int) + seq![v@[i as int]] =~= old(s)@ + v@.take(i + 1));
        i = i + 1;
    }
    assert(v@.take(v@.len() as int) =~= v@);
}

/// `char::is_whitespace`.
pub fn is_whitespace(c: char) -> (res: bool)
    ensures
        res == is_ws(c),
{
    c == '\t' || c == '\n' || c == '\u{0B}' || c == '\u{0C}' || c == '\r' || c == ' ' || c
        == '\u{85}' || c == '\u{A0}' || c == '\u{1680}' || ('\u{2000}' <= c && c <= '\u{200A}')
        || c == '\u{2028}' || c == '\u{2029}' || c == '\u{202F}' || c == '\u{205F}' || c
        == '\u{3000}'
}

/// Whether `a` and `b` hold the same characters.
pub fn same_chars(a: &[char], b: &[char]) -> (res: bool)
    ensures
        res == (a@ == b@),
{
    if a.len() != b.len() {
        return false;
    }
    let mut i: usize = 0;
    while i < a.len()
        invariant
            a@.len() == b@.len(),
            i <= a@.len(),
            forall|k: int| 0 <= k < i ==> a@[k] == b@[k],
        decreases a.len() - i,
    {
        if a[i] != b[i] {
            return false;
        }
        i = i + 1;
    }
    assert(a@ =~= b@);
    true
}

/// Whether `s` holds `c`.
pub fn contains_char(s: &[char], c: char) -> (res: bool)
    ensures
        res == has_char(s@, c),
{
    let mut i: usize = 0;
    while i < s.len()
        invariant
            i <= s@.len(),
            forall|k: int| 0 <= k < i ==> s@[k] != c,
        decreases s.len() - i,
    {
        if s[i] == c {
            return true;
        }
        i = i + 1;
    }
    false
}

/// Whether `t` occurs in `s`.
pub fn contains_piece(s: &[char], t: &[char]) -> (res: bool)
    ensures
        res == has_piece(s@, t@),
{
    if t.len() > s.len() {
        return false;
    }
    let slen = s.len();
    let mut i: usize = 0;
    while i <= s.len() - t.len()
        invariant
            slen == s@.len(),
            t@.len() <= s@.len(),
            i <= s@.len() - t@.len() + 1,
            forall|k: int| 0 <= k < i ==> #[trigger] s@.subrange(k, k + t@.len()) != t@,
        decreases s.len() - i,
    {
        let mut j: usize = 0;
        let mut same = true;
        while j < t.len()
            invariant
                slen == s@.len(),
                i + t@.len() <= s@.len(),
                j <= t@.len(),
                same == (forall|k: int| 0 <= k < j ==> s@[i + k] == t@[k]),
            decreases t.len() - j,
        {
            assert(i + j < s@.len());
            let k: usize = i + j;
            if s[k] != t[j] {
                same = false;
            }
            j = j + 1;
        }
        if same {
            assert(s@.subrange(i as int, i + t@.len()) =~= t@);
            return true;
        } else {
            assert(s@.subrange(i as int, i + t@.len()) != t@) by {
                let k = choose|k: int| 0 <= k < t@.len() && s@[i + k] != t@[k];
                assert(s@.subrange(i as int, i + t@.len())[k] == s@[i + k]);
            }
        }
        i = i + 1;
    }
    assert forall|k: int| 0 <= k && k + t@.len() <= s@.len() implies #[trigger] s@.subrange(
        k,
        k + t@.len(),
    ) != t@ by {}
    false
}

/// Whether `s` starts with `p`.
pub fn starts_with(s: &[char], p: &[char]) -> (res: bool)
    ensures
        res == begins_with(s@, p@),
{
    if p.len() > s.len() {
        return false;
    }
    let mut j: usize = 0;
    while j < p.len()
        invariant
            p@.len() <= s@.len(),
            j <= p@.len(),
            forall|k: int| 0 <= k < j ==> s@[k] == p@[k],
        decreases p.len() - j,
    {
        if s[j] != p[j] {
            assert(s@.subrange(0, p@.len() as int)[j as int] != p@[j as int]);
            return false;
        }
        j = j + 1;
    }
    assert(s@.subrange(0, p@.len() as int) =~= p@);
    true
}

/// Whether `s` ends with `p`.
pub fn ends_with(s: &[char], p: &[char]) -> (res: bool)
    ensures
        res == finishes_with(s@, p@),
{
    if p.len() > s.len() {
        return false;
    }
    let off = s.len() - p.len();
    let slen = s.len();
    let mut j: usize = 0;
    while j < p.len()
        invariant
            slen == s@.len(),
            p@.len() <= s@.len(),
            off == s@.len() - p@.len(),
            j <= p@.len(),
            forall|k: int| 0 <= k < j ==> s@[off + k] == p@[k],
        decreases p.len() - j,
    {
        assert(off + j < s@.len());
        let k: usize = off + j;
        if s[k] != p[j] {
            assert(s@.subrange(off as int, s@.len() as int)[j as int] != p@[j as int]);
            return false;
        }
        j = j + 1;
    }
    assert(s@.subrange(off as int, s@.len() as int) =~= p@);
    true
}

/// The characters `s[from..to]`.
pub fn slice_chars(s: &[char], from: usize, to: usize) -> (res: Vec<char>)
    requires
        from <= to <= s@.len(),
    ensures
        res@ == s@.subrange(from as int, to as int),
{
    let mut res: Vec<char> = Vec::new();
    let mut i = from;
    while i < to
        invariant
            from <= i <= to <= s@.len(),
            res@ == s@.subrange(from as int, i as int),
        decreases to - i,
    {
        res.push(s[i]);
        assert(s@.subrange(from as int, i as int).push(s@[i as int]) =~= s@.subrange(
            from as int,
            i + 1,
        ));
        i = i + 1;
    }
    res
}

/// Index of the first `c` at or after `from`, or the length of `s`.
pub fn find_char_from(s: &[char], c: char, from: usize) -> (res: usize)
    requires
        from <= s@.len(),
    ensures
        from <= res <= s@.len(),
        res == from + run_until(s@.skip(from as int), c),
        forall|k: int| from <= k < res ==> s@[k] != c,
        res < s@.len() ==> s@[res as int] == c,
{
    let mut j = from;
    while j < s.len() && s[j] != c
        invariant
            from <= j <= s@.len(),
            forall|k: int| from <= k < j ==> s@[k] != c,
        decreases s.len() - j,
    {
        j = j + 1;
    }
    proof {
        lemma_run_until(s@, c, from as int, j as int);
    }
    j
}

/// The part of `s` before the first `c`.
pub fn prefix_before(s: &[char], c: char) -> (res: Vec<char>)
    ensures
        res@ == before(s@, c),
{
    let n = find_char_from(s, c, 0);
    assert(s@.skip(0) =~= s@);
    slice_chars(s, 0, n)
}

/// The words of `s` (`split_whitespace`).
pub fn split_words(s: &[char]) -> (res: Vec<Vec<char>>)
    ensures
        views_match(res@, words(s@)),
{
    let mut res: Vec<Vec<char>> = Vec::new();
    let mut i: usize = 0;
    let ghost mut acc: Seq<Seq<char>> = seq![];
    assert(s@.skip(0) =~= s@);
    while i < s.len()
        invariant
            i <= s@.len(),
            views_match(res@, acc),
            acc + words(s@.skip(i as int)) == words(s@),
        decreases s.len() - i,
    {
        if is_whitespace(s[i]) {
            assert(s@.skip(i as int).drop_first() =~= s@.skip(i + 1));
            i = i + 1;
        } else {
            let mut j = i;
            while j < s.len() && !is_whitespace(s[j])
                invariant
                    i <= j <= s@.len(),
                    forall|k: int| i <= k < j ==> !is_ws(s@[k]),
                decreases s.len() - j,
            {
                j = j + 1;
            }
            proof {
                lemma_word_run(s@, i as int, j as int);
                assert(s@.skip(i as int).take(j - i) =~= s@.subrange(i as int, j as int));
                assert(s@.skip(i as int).skip(j - i) =~= s@.skip(j as int));
                assert(words(s@.skip(i as int)) == seq![s@.subrange(i as int, j as int)] + words(
                    s@.skip(j as int),
                ));
            }
            let w = slice_chars(s, i, j);
            res.push(w);
            proof {
                let old_acc = acc;
                acc = acc.push(s@.subrange(i as int, j as int));
                assert(old_acc + words(s@.skip(i as int)) =~= acc + words(s@.skip(j as int)));
            }
            i = j;
        }
    }
    assert(words(s@.skip(i as int)) =~= seq![]);
    assert(acc + seq![] =~= acc);
    res
}

/// The first word of `s`, if any.
pub fn first_word_of(s: &[char]) -> (res: Option<Vec<char>>)
    ensures
        match res {
            Some(w) => first_word(s@) == Some(w@),
            None => first_word(s@) is None,
        },
{
    let ws = split_words(s);
    if ws.len() == 0 {
        None
    } else {
        let w = slice_chars(&ws[0], 0, ws[0].len());
        assert(ws@[0]@.subrange(0, ws@[0]@.len() as int) =~= ws@[0]@);
        Some(w)
    }
}

/// The pieces of `s` between occurrences of `c` (`str::split`).
pub fn split_on(s: &[char], c: char) -> (res: Vec<Vec<char>>)
    ensures
        views_match(res@, pieces(s@, c)),
{
    let mut res: Vec<Vec<char>> = Vec::new();
    let mut i: usize = 0;
    let ghost mut acc: Seq<Seq<char>> = seq![];
    assert(s@.skip(0) =~= s@);
    loop
        invariant
            i <= s@.len(),
            views_match(res@, acc),
            acc + pieces(s@.skip(i as int), c) == pieces(s@, c),
        decreases s.len() - i,
    {
        let j = find_char_from(s, c, i);
        let w = slice_chars(s, i, j);
        assert(s@.skip(i as int).take(j - i) =~= s@.subrange(i as int, j as int));
        if j == s.len() {
            assert(s@.skip(i as int) =~= s@.subrange(i as int, j as int));
            res.push(w);
            proof {
                acc = acc.push(s@.subrange(i as int, j as int));
            }
            return res;
        }
        assert(s@.skip(i as int).skip(j - i + 1) =~= s@.skip(j + 1));
        res.push(w);
        proof {
            let old_acc = acc;
            acc = acc.push(s@.subrange(i as int, j as int));
            assert(old_acc + pieces(s@.skip(i as int), c) =~= acc + pieces(s@.skip(j + 1), c));
        }
        i = j + 1;
    }
}

/// The lines of `s` (`str::lines`).
pub fn split_lines(s: &[char]) -> (res: Vec<Vec<char>>)
    ensures
        views_match(res@, lines(s@)),
{
    let mut res: Vec<Vec<char>> = Vec::new();
    let mut i: usize = 0;
    let ghost mut acc: Seq<Seq<char>> = seq![];
    assert(s@.skip(0) =~= s@);
    while i < s.len()
        invariant
            i <= s@.len(),
            views_match(res@, acc),
            acc + lines(s@.skip(i as int)) == lines(s@),
        decreases s.len() - i,
    {
        let j = find_char_from(s, '\n', i);
        assert(s@.skip(i as int).take(j - i) =~= s@.subrange(i as int, j as int));
        if j == s.len() {
            let w = slice_chars(s, i, j);
            assert(s@.skip(i as int) =~= s@.subrange(i as int, j as int));
            res.push(w);
            proof {
                acc = acc.push(s@.subrange(i as int, j as int));
            }
            assert(s@.skip(j as int) =~= seq![]);
            i = j;
        } else {
            let end = if j > i && s[j - 1] == '\r' {
                j - 1
            } else {
                j
            };
            let w = slice_chars(s, i, end);
            proof {
                let l = s@.subrange(i as int, j as int);
                if j > i && s@[j - 1] == '\r' {
                    assert(l.drop_last() =~= s@.subrange(i as int, end as int));
                }
            }
            assert(s@.skip(i as int).skip(j - i + 1) =~= s@.skip(j + 1));
            res.push(w);
            proof {
                let old_acc = acc;
                acc = acc.push(s@.subrange(i as int, end as int));
                assert(old_acc + lines(s@.skip(i as int)) =~= acc + lines(s@.skip(j + 1)));
            }
            i = j + 1;
        }
    }
    assert(lines(s@.skip(i as int)) =~= seq![]);
    assert(acc + seq![] =~= acc);
    res
}

} // verus!

verus! {

/// The pieces at `c` of every string of `items`, in order.
pub fn split_each(items: &Vec<Vec<char>>, Ghost(iv): Ghost<Seq<Seq<char>>>, c: char) -> (res: Vec<
    Vec<char>,
>)
    requires
        views_match(items@, iv),
    ensures
        views_match(res@, split_all(iv, c)),
{
    let mut res: Vec<Vec<char>> = Vec::new();
    let mut i: usize = 0;
    while i < items.len()
        invariant
            views_match(items@, iv),
            i <= items@.len(),
            views_match(res@, split_all(iv.take(i as int), c)),
        decreases items.len() - i,
    {
        let ps = split_on(items[i].as_slice(), c);
        let ghost before = res@;
        let mut j: usize = 0;
        while j < ps.len()
            invariant
                views_match(before, split_all(iv.take(i as int), c)),
                views_match(ps@, pieces(iv[i as int], c)),
                items@[i as int]@ == iv[i as int],
                j <= ps@.len(),
                res@.len() == before.len() + j,
                forall|k: int| 0 <= k < before.len() ==> #[trigger] res@[k] == before[k],
                forall|k: int| 0 <= k < j ==> #[trigger] res@[before.len() + k]@ == pieces(iv[i as int], c)[k],
            decreases ps.len() - j,
        {
            let p = slice_chars(ps[j].as_slice(), 0, ps[j].len());
            assert(ps@[j as int]@.subrange(0, ps@[j as int]@.len() as int) =~= ps@[j as int]@);
            res.push(p);
            j = j + 1;
        }
        proof {
            assert(iv.take(i + 1).drop_last() =~= iv.take(i as int));
            assert(iv.take(i + 1).last() == iv[i as int]);
            let target = split_all(iv.take(i + 1), c);
            assert(target == split_all(iv.take(i as int), c) + pieces(iv[i as int], c));
            assert forall|k: int| 0 <= k < res@.len() implies #[trigger] res@[k]@ == target[k] by {
                if k < before.len() {
                    assert(res@[k] == before[k]);
                } else {
                    assert(res@[before.len() + (k - before.len())]@ == pieces(iv[i as int], c)[k - before.len()]);
                }
            }
        }
        i = i + 1;
    }
    assert(iv.take(items@.len() as int) =~= iv);
    res
}

} // verus!

verus! {

/// `s` without leading and trailing whitespace.
pub fn trim_chars(s: &[char]) -> (res: Vec<char>)
    ensures
        res@ == trimmed(s@),
{
    let mut i: usize = 0;
    while i < s.len() && is_whitespace(s[i])
        invariant
            i <= s@.len(),
            forall|k: int| 0 <= k < i ==> is_ws(s@[k]),
        decreases s.len() - i,
    {
        i = i + 1;
    }
    proof {
        lemma_ws_prefix(s@, i as int);
    }
    let mut j: usize = s.len();
    while j > i && is_whitespace(s[j - 1])
        invariant
            i <= j <= s@.len(),
            forall|k: int| j <= k < s@.len() ==> is_ws(s@[k]),
        decreases j - i,
    {
        j = j - 1;
    }
    proof {
        let t = s@.skip(i as int);
        lemma_ws_suffix(t, j - i);
        assert(t.take(t.len() - ws_suffix(t)) =~= s@.subrange(i as int, j as int));
    }
    slice_chars(s, i, j)
}

} // verus!
