//! Character-level text operations and the sequence functions that specify them.
//!
//! Text is handled as a sequence of Unicode scalar values. Every executable
//! function here is specified by a function on `Seq<char>` of the same meaning.

use vstd::prelude::*;
use vstd::std_specs::iter::IteratorSpec;

verus! {

/// `s` with every leading repetition of `pat` removed. An empty `pat` removes nothing.
pub open spec fn without_leading(s: Seq<char>, pat: Seq<char>) -> Seq<char>
    decreases s.len(),
{
    if pat.len() > 0 && pat.is_prefix_of(s) {
        without_leading(s.skip(pat.len() as int), pat)
    } else {
        s
    }
}

/// `s` with every trailing repetition of `pat` removed. An empty `pat` removes nothing.
pub open spec fn without_trailing(s: Seq<char>, pat: Seq<char>) -> Seq<char>
    decreases s.len(),
{
    if pat.len() > 0 && pat.is_suffix_of(s) {
        without_trailing(s.take(s.len() - pat.len()), pat)
    } else {
        s
    }
}

/// `s` with every occurrence of `pat` removed, found from left to right without
/// overlap; what is left is not searched again. An empty `pat` removes nothing.
pub open spec fn without_all(s: Seq<char>, pat: Seq<char>) -> Seq<char>
    decreases s.len(),
{
    if pat.len() == 0 || s.len() == 0 {
        s
    } else if pat.is_prefix_of(s) {
        without_all(s.skip(pat.len() as int), pat)
    } else {
        seq![s[0]] + without_all(s.skip(1), pat)
    }
}

/// The position of the first `c` in `s`, or `s.len()` when there is none.
pub open spec fn first_at(s: Seq<char>, c: char) -> int
    decreases s.len(),
{
    if s.len() == 0 || s[0] == c {
        0
    } else {
        1 + first_at(s.skip(1), c)
    }
}

/// The pieces that `sep` divides `s` into: what stands before the first `sep`,
/// then the pieces of what follows it. There is always one piece more than there
/// are separators, so the empty text has one empty piece.
pub open spec fn pieces(s: Seq<char>, sep: char) -> Seq<Seq<char>>
    decreases s.len(),
{
    let i = first_at(s, sep);
    if 0 <= i < s.len() {
        seq![s.take(i)] + pieces(s.skip(i + 1), sep)
    } else {
        seq![s]
    }
}

/// The pieces `parts` put together again with `sep` between neighbours.
pub open spec fn joined(parts: Seq<Seq<char>>, sep: char) -> Seq<char>
    decreases parts.len(),
{
    if parts.len() == 0 {
        Seq::empty()
    } else if parts.len() == 1 {
        parts[0]
    } else {
        parts[0] + seq![sep] + joined(parts.skip(1), sep)
    }
}

/// The lower-case form of an ASCII capital letter; any other character is itself.
pub open spec fn lower(c: char) -> char {
    if 'A' <= c && c <= 'Z' {
        ((c as u8) + 32) as char
    } else {
        c
    }
}

/// `s` with each ASCII capital letter replaced by its lower-case form.
pub open spec fn lowered(s: Seq<char>) -> Seq<char> {
    Seq::new(s.len(), |i: int| lower(s[i]))
}

/// The text that `s` holds, where there is one.
pub open spec fn text_of(s: Option<&str>) -> Option<Seq<char>> {
    match s {
        Some(text) => Some(text@),
        None => None,
    }
}

/// The texts that the strings of `v` hold, in order.
pub open spec fn views_of(v: Seq<String>) -> Seq<Seq<char>> {
    Seq::new(v.len(), |i: int| v[i]@)
}

/// `first_at` finds the first `c`: nothing before it is `c`, and it is `c` unless
/// it is the end of `s`.
pub proof fn lemma_first_at(s: Seq<char>, c: char)
    ensures
        0 <= first_at(s, c) <= s.len(),
        forall|k: int| 0 <= k < first_at(s, c) ==> s[k] != c,
        first_at(s, c) < s.len() ==> s[first_at(s, c)] == c,
    decreases s.len(),
{
    if s.len() == 0 || s[0] == c {
    } else {
        let rest = s.skip(1);
        lemma_first_at(rest, c);
        assert forall|k: int| 0 <= k < first_at(s, c) implies s[k] != c by {
            if k > 0 {
                assert(s[k] == rest[k - 1]);
            }
        }
        assert(first_at(rest, c) < rest.len() ==> rest[first_at(rest, c)] == s[first_at(s, c)]);
    }
}

/// Any position that holds the first `c`, or the end of a text without `c`, is
/// what `first_at` gives.
pub proof fn lemma_first_at_is(s: Seq<char>, c: char, i: int)
    requires
        0 <= i <= s.len(),
        forall|k: int| 0 <= k < i ==> s[k] != c,
        i < s.len() ==> s[i] == c,
    ensures
        first_at(s, c) == i,
{
    lemma_first_at(s, c);
    let j = first_at(s, c);
    if j < i {
        assert(s[j] != c);
    } else if i < j {
        assert(s[i] != c);
    }
}

/// Dividing puts nothing in and leaves nothing out: the pieces of `s`, joined
/// by `sep` again, are `s`, and no piece holds a `sep`.
pub proof fn lemma_joined_pieces(s: Seq<char>, sep: char)
    ensures
        pieces(s, sep).len() >= 1,
        joined(pieces(s, sep), sep) == s,
        forall|k: int|
            0 <= k < pieces(s, sep).len() ==> !(#[trigger] pieces(s, sep)[k]).contains(sep),
    decreases s.len(),
{
    lemma_first_at(s, sep);
    let i = first_at(s, sep);
    if i < s.len() {
        let rest = s.skip(i + 1);
        lemma_joined_pieces(rest, sep);
        let all = pieces(s, sep);
        assert(all.skip(1) =~= pieces(rest, sep));
        assert(all[0] == s.take(i));
        assert(s.take(i) + seq![sep] + rest =~= s);
        assert forall|k: int| 0 <= k < all.len() implies !(#[trigger] all[k]).contains(sep) by {
            if k > 0 {
                assert(all[k] == pieces(rest, sep)[k - 1]);
            }
        }
    }
}

/// Dividing undoes joining: texts without a `sep` in them, joined by `sep`, are
/// divided into themselves.
pub proof fn lemma_pieces_of_joined(parts: Seq<Seq<char>>, sep: char)
    requires
        parts.len() >= 1,
        forall|k: int| 0 <= k < parts.len() ==> !(#[trigger] parts[k]).contains(sep),
    ensures
        pieces(joined(parts, sep), sep) == parts,
    decreases parts.len(),
{
    let s = joined(parts, sep);
    let head = parts[0];
    assert(!head.contains(sep));
    if parts.len() == 1 {
        lemma_first_at_is(s, sep, s.len() as int);
        assert(pieces(s, sep) =~= parts);
    } else {
        let tail = parts.skip(1);
        assert forall|k: int| 0 <= k < tail.len() implies !(#[trigger] tail[k]).contains(sep) by {
            assert(tail[k] == parts[k + 1]);
        }
        lemma_pieces_of_joined(tail, sep);
        assert forall|k: int| 0 <= k < head.len() implies s[k] != sep by {
            assert(s[k] == head[k]);
        }
        lemma_first_at_is(s, sep, head.len() as int);
        assert(s.take(head.len() as int) =~= head);
        assert(s.skip(head.len() as int + 1) =~= joined(tail, sep));
        assert(pieces(s, sep) =~= parts);
    }
}

/// The characters of `s`, in order.
pub fn chars_of(s: &str) -> (out: Vec<char>)
    ensures
        out@ == s@,
{
    let mut out: Vec<char> = Vec::new();
    let it = s.chars();
    for c in iter: it
        invariant
            out@ == iter.seq().take(iter.index() as int),
    {
        out.push(c);
    }
    out
}

/// `String::push`: appends the one character `c` to `s`.
#[verifier::external_body]
fn push_char(s: &mut String, c: char)
    ensures
        final(s)@ == old(s)@.push(c),
{
    s.push(c)
}

/// The text made of `chars[from..to]`.
pub fn string_of(chars: &[char], from: usize, to: usize) -> (out: String)
    requires
        from <= to <= chars@.len(),
    ensures
        out@ == chars@.subrange(from as int, to as int),
{
    let mut out = String::new();
    let mut i: usize = from;
    while i < to
        invariant
            from <= i <= to <= chars@.len(),
            out@ == chars@.subrange(from as int, i as int),
        decreases to - i,
    {
        push_char(&mut out, chars[i]);
        i += 1;
    }
    out
}

/// Whether `pat` stands in `text` at position `at`.
pub fn occurs_at(text: &[char], at: usize, pat: &[char]) -> (found: bool)
    requires
        at <= text@.len(),
    ensures
        found == pat@.is_prefix_of(text@.skip(at as int)),
{
    if pat.len() > text.len() - at {
        return false;
    }
    let n = text.len();
    let mut k: usize = 0;
    while k < pat.len()
        invariant
            at + pat@.len() <= text@.len() == n,
            k <= pat@.len(),
            forall|j: int| 0 <= j < k ==> text@[at + j] == pat@[j],
        decreases pat@.len() - k,
    {
        if text[at + k] != pat[k] {
            assert(text@.skip(at as int).subrange(0, pat@.len() as int)[k as int]
                != pat@[k as int]);
            return false;
        }
        k += 1;
    }
    assert(pat@ =~= text@.skip(at as int).subrange(0, pat@.len() as int));
    true
}

/// The lower-case form of `c`, for ASCII capital letters only.
pub fn to_lower(c: char) -> (l: char)
    ensures
        l == lower(c),
{
    if 'A' <= c && c <= 'Z' {
        ((c as u8) + 32) as char
    } else {
        c
    }
}

/// Whether `text`, with its ASCII capital letters lowered, reads `word`.
pub fn lowered_is(text: &[char], word: &[char]) -> (same: bool)
    ensures
        same == (lowered(text@) == word@),
{
    if text.len() != word.len() {
        return false;
    }
    let mut k: usize = 0;
    while k < text.len()
        invariant
            text@.len() == word@.len(),
            k <= text@.len(),
            forall|j: int| 0 <= j < k ==> lower(text@[j]) == word@[j],
        decreases text@.len() - k,
    {
        if to_lower(text[k]) != word[k] {
            assert(lowered(text@)[k as int] != word@[k as int]);
            return false;
        }
        k += 1;
    }
    assert(lowered(text@) =~= word@);
    true
}

/// How many leading characters of `text` are repetitions of `pat`.
pub fn leading_len(text: &[char], pat: &[char]) -> (a: usize)
    ensures
        a <= text@.len(),
        without_leading(text@, pat@) == text@.skip(a as int),
{
    if pat.len() == 0 {
        assert(text@.skip(0) =~= text@);
        return 0;
    }
    let n = text.len();
    let mut a: usize = 0;
    let mut more = occurs_at(text, 0, pat);
    assert(text@.skip(0) =~= text@);
    while more
        invariant
            pat@.len() > 0,
            a <= text@.len() == n,
            more == pat@.is_prefix_of(text@.skip(a as int)),
            without_leading(text@, pat@) == without_leading(text@.skip(a as int), pat@),
        decreases text@.len() - a,
    {
        assert(pat@.len() <= text@.skip(a as int).len());
        assert(text@.skip(a as int).skip(pat@.len() as int) =~= text@.skip(a + pat@.len()));
        a += pat.len();
        more = occurs_at(text, a, pat);
    }
    a
}

/// Where the trailing repetitions of `pat` begin in `text[from..]`.
pub fn trailing_start(text: &[char], from: usize, pat: &[char]) -> (b: usize)
    requires
        from <= text@.len(),
    ensures
        from <= b <= text@.len(),
        without_trailing(text@.skip(from as int), pat@) == text@.subrange(from as int, b as int),
{
    let n = text.len();
    assert(text@.skip(from as int) =~= text@.subrange(from as int, n as int));
    if pat.len() == 0 {
        return n;
    }
    let p = pat.len();
    let mut b: usize = n;
    let mut more = b - from >= p && occurs_at(text, b - p, pat);
    proof {
        lemma_suffix_at(text@, from as int, b as int, pat@);
    }
    while more
        invariant
            p == pat@.len() > 0,
            from <= b <= text@.len() == n,
            more == pat@.is_suffix_of(text@.subrange(from as int, b as int)),
            without_trailing(text@.skip(from as int), pat@) == without_trailing(
                text@.subrange(from as int, b as int),
                pat@,
            ),
        decreases b - from,
    {
        assert(text@.subrange(from as int, b as int).take(b - from - p) =~= text@.subrange(
            from as int,
            b - p,
        ));
        b -= p;
        more = b - from >= p && occurs_at(text, b - p, pat);
        proof {
            lemma_suffix_at(text@, from as int, b as int, pat@);
        }
    }
    b
}

/// `pat` ends `text[from..to]` exactly when that range is long enough and `pat`
/// stands at `to - pat.len()`.
proof fn lemma_suffix_at(text: Seq<char>, from: int, to: int, pat: Seq<char>)
    requires
        0 <= from <= to <= text.len(),
    ensures
        pat.is_suffix_of(text.subrange(from, to)) == (to - from >= pat.len() && pat.is_prefix_of(
            text.skip(to - pat.len()),
        )),
{
    if to - from >= pat.len() {
        let p = pat.len() as int;
        let range = text.subrange(from, to);
        assert(range.subrange(range.len() - p, range.len() as int) =~= text.skip(to - p).subrange(
            0,
            p,
        ));
    }
}

/// `text` without the occurrences of `pat`.
pub fn remove_all(text: &[char], pat: &[char]) -> (out: Vec<char>)
    ensures
        out@ == without_all(text@, pat@),
{
    let n = text.len();
    let mut out: Vec<char> = Vec::new();
    let mut i: usize = 0;
    assert(text@.skip(0) =~= text@);
    while i < n
        invariant
            i <= n == text@.len(),
            without_all(text@, pat@) == out@ + without_all(text@.skip(i as int), pat@),
        decreases n - i,
    {
        let ghost rest = text@.skip(i as int);
        if pat.len() > 0 && occurs_at(text, i, pat) {
            assert(rest.skip(pat@.len() as int) =~= text@.skip(i + pat@.len()));
            i += pat.len();
        } else {
            assert(rest.skip(1) =~= text@.skip(i + 1));
            assert(out@ + (seq![rest[0]] + without_all(rest.skip(1), pat@)) =~= out@.push(
                text@[i as int],
            ) + without_all(rest.skip(1), pat@));
            out.push(text[i]);
            i += 1;
        }
    }
    assert(out@ + without_all(text@.skip(i as int), pat@) =~= out@);
    out
}

/// The pieces that `sep` divides `text` into, each as a string of its own.
pub fn split(text: &[char], sep: char) -> (out: Vec<String>)
    ensures
        views_of(out@) == pieces(text@, sep),
{
    let n = text.len();
    let mut out: Vec<String> = Vec::new();
    let mut start: usize = 0;
    let mut i: usize = 0;
    assert(text@.skip(0) =~= text@);
    assert(views_of(out@) + pieces(text@, sep) =~= pieces(text@, sep));
    while i < n
        invariant
            start <= i <= n == text@.len(),
            forall|k: int| start <= k < i ==> text@[k] != sep,
            pieces(text@, sep) == views_of(out@) + pieces(text@.skip(start as int), sep),
        decreases n - i,
    {
        if text[i] == sep {
            let ghost rest = text@.skip(start as int);
            let piece = string_of(text, start, i);
            proof {
                lemma_first_at_is(rest, sep, i - start);
                assert(rest.take(i - start) =~= text@.subrange(start as int, i as int));
                assert(rest.skip(i - start + 1) =~= text@.skip(i + 1));
                assert(views_of(out@.push(piece)) =~= views_of(out@) + seq![piece@]);
                assert(views_of(out@) + (seq![piece@] + pieces(text@.skip(i + 1), sep))
                    =~= views_of(out@.push(piece)) + pieces(text@.skip(i + 1), sep));
            }
            out.push(piece);
            start = i + 1;
        }
        i += 1;
    }
    let last = string_of(text, start, n);
    proof {
        let rest = text@.skip(start as int);
        lemma_first_at_is(rest, sep, rest.len() as int);
        assert(rest =~= text@.subrange(start as int, n as int));
        assert(views_of(out@.push(last)) =~= views_of(out@) + seq![last@]);
    }
    out.push(last);
    out
}

} // verus!
