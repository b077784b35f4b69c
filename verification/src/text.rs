//! Character-level helpers shared by the parsers and the registry.
//!
//! Text is handled as sequences of Unicode scalar values: a `&str` or
//! `String` is viewed as `Seq<char>`, and the executable helpers work on
//! `Vec<char>` so that positions are character positions, never byte offsets.

use vstd::prelude::*;

verus! {

/// The lowercase form that `str::to_lowercase` gives a text with a
/// character beyond ASCII in it.
pub uninterp spec fn unicode_lowercase(s: Seq<char>) -> Seq<char>;

/// The uppercase form that `str::to_uppercase` gives a text with a
/// character beyond ASCII in it.
pub uninterp spec fn unicode_uppercase(s: Seq<char>) -> Seq<char>;

/// Whether every character of the text is an ASCII character.
pub open spec fn is_ascii_text(s: Seq<char>) -> bool {
    forall|i: int| 0 <= i < s.len() ==> #[trigger] s[i] <= '\u{7F}'
}

/// The small letter of a capital letter from `A` to `Z`; every other
/// character is left as it is.
pub open spec fn ascii_lower(c: char) -> char {
    if 'A' <= c <= 'Z' {
        ((c as u8) + 32) as char
    } else {
        c
    }
}

/// The capital letter of a small letter from `a` to `z`; every other
/// character is left as it is.
pub open spec fn ascii_upper(c: char) -> char {
    if 'a' <= c <= 'z' {
        ((c as u8) - 32) as char
    } else {
        c
    }
}

/// The lowercase form of a text. In a text of ASCII characters each
/// capital letter gives way to its small letter and nothing else changes;
/// the form of any other text is the one that Unicode defines.
pub open spec fn lowercase_of(s: Seq<char>) -> Seq<char> {
    if is_ascii_text(s) {
        Seq::new(s.len(), |i: int| ascii_lower(s[i]))
    } else {
        unicode_lowercase(s)
    }
}

/// The uppercase form of a text. In a text of ASCII characters each small
/// letter gives way to its capital letter and nothing else changes; the
/// form of any other text is the one that Unicode defines.
pub open spec fn uppercase_of(s: Seq<char>) -> Seq<char> {
    if is_ascii_text(s) {
        Seq::new(s.len(), |i: int| ascii_upper(s[i]))
    } else {
        unicode_uppercase(s)
    }
}

/// Whether a character has the Unicode `White_Space` property: the
/// controls from tab to carriage return, the space, the next-line control,
/// the no-break space, the Ogham space mark, the spaces from en quad to
/// hair space, the line and the paragraph separator, the narrow no-break
/// space, the medium mathematical space and the ideographic space.
pub open spec fn whitespace(c: char) -> bool {
    ||| '\u{0009}' <= c <= '\u{000D}'
    ||| c == '\u{0020}'
    ||| c == '\u{0085}'
    ||| c == '\u{00A0}'
    ||| c == '\u{1680}'
    ||| '\u{2000}' <= c <= '\u{200A}'
    ||| c == '\u{2028}'
    ||| c == '\u{2029}'
    ||| c == '\u{202F}'
    ||| c == '\u{205F}'
    ||| c == '\u{3000}'
}

/// Whether two texts are alike but for the case of their letters from `A`
/// to `Z`.
pub open spec fn same_ignoring_case(a: Seq<char>, b: Seq<char>) -> bool {
    &&& a.len() == b.len()
    &&& forall|i: int| 0 <= i < a.len() ==> ascii_lower(#[trigger] a[i]) == ascii_lower(b[i])
}

/// Two texts of ASCII characters that are alike but for the case of their
/// letters have the same lowercase form.
pub proof fn lemma_lowercase_ignores_case(a: Seq<char>, b: Seq<char>)
    requires
        is_ascii_text(a),
        is_ascii_text(b),
        same_ignoring_case(a, b),
    ensures
        lowercase_of(a) == lowercase_of(b),
{
    assert(lowercase_of(a) =~= lowercase_of(b));
}

/// `str::to_lowercase` follows the Unicode lowercase mapping, which is a
/// function of the text alone and has no tailoring. Among the ASCII
/// characters that mapping sends the letters `A` to `Z` to `a` to `z` and
/// leaves every other one alone, which is stated; for a text with a
/// character beyond ASCII the result is named, not spelled out.
pub assume_specification[ str::to_lowercase ](s: &str) -> (r: String)
    ensures
        r@ == lowercase_of(s@),
        !is_ascii_text(s@) ==> r@ == unicode_lowercase(s@),
;

/// `str::to_uppercase` follows the Unicode uppercase mapping, which is a
/// function of the text alone and has no tailoring. Among the ASCII
/// characters that mapping sends the letters `a` to `z` to `A` to `Z` and
/// leaves every other one alone, which is stated; for a text with a
/// character beyond ASCII the result is named, not spelled out.
pub assume_specification[ str::to_uppercase ](s: &str) -> (r: String)
    ensures
        r@ == uppercase_of(s@),
        !is_ascii_text(s@) ==> r@ == unicode_uppercase(s@),
;

/// `char::is_whitespace` says whether the character has the Unicode
/// `White_Space` property, which these twenty-five characters have and no
/// other.
pub assume_specification[ char::is_whitespace ](c: char) -> (b: bool)
    ensures
        b == whitespace(c),
;

/// `String::push` appends exactly the given character.
pub assume_specification[ String::push ](s: &mut String, c: char)
    ensures
        final(s)@ == old(s)@.push(c),
;

/// The characters of a string, in order.
pub fn chars_of(s: &str) -> (v: Vec<char>)
    ensures
        v@ == s@,
{
    let mut v: Vec<char> = Vec::new();
    let it = s.chars();
    for c in iter: it
        invariant
            v@ == iter.seq().take(iter.index()),
            iter.seq() == s@,
    {
        v.push(c);
    }
    v
}

/// The string made of the characters `v[from..to]`.
pub fn string_of_range(v: &Vec<char>, from: usize, to: usize) -> (s: String)
    requires
        from <= to <= v.len(),
    ensures
        s@ == v@.subrange(from as int, to as int),
{
    let mut s = String::new();
    let mut i: usize = from;
    while i < to
        invariant
            from <= i <= to <= v.len(),
            s@ == v@.subrange(from as int, i as int),
        decreases to - i,
    {
        s.push(v[i]);
        i += 1;
    }
    s
}

/// The string made of all the characters of `v`.
pub fn string_of(v: &Vec<char>) -> (s: String)
    ensures
        s@ == v@,
{
    let s = string_of_range(v, 0, v.len());
    assert(v@.subrange(0, v.len() as int) == v@);
    s
}

/// Whether the characters `v[from..to]` spell exactly `word`.
pub fn range_is(v: &Vec<char>, from: usize, to: usize, word: &str) -> (b: bool)
    requires
        from <= to <= v.len(),
    ensures
        b == (v@.subrange(from as int, to as int) == word@),
{
    let w = chars_of(word);
    if w.len() != to - from {
        return false;
    }
    let mut i: usize = 0;
    while i < w.len()
        invariant
            from <= to <= v.len(),
            w.len() == to - from,
            i <= w.len(),
            w@ == word@,
            forall|k: int| 0 <= k < i ==> v@[from + k] == w@[k],
        decreases w.len() - i,
    {
        if v[from + i] != w[i] {
            assert(v@.subrange(from as int, to as int)[i as int] != word@[i as int]);
            return false;
        }
        i += 1;
    }
    assert(v@.subrange(from as int, to as int) =~= word@);
    true
}

/// Whether `v` spells exactly `word`.
pub fn text_is(v: &Vec<char>, word: &str) -> (b: bool)
    ensures
        b == (v@ == word@),
{
    assert(v@.subrange(0, v.len() as int) == v@);
    range_is(v, 0, v.len(), word)
}

/// Whether `text` spells exactly `word`.
pub fn spells(text: &str, word: &str) -> (b: bool)
    ensures
        b == (text@ == word@),
{
    let chars = chars_of(text);
    text_is(&chars, word)
}

/// The number of leading whitespace characters of `s`.
pub open spec fn leading_whitespace(s: Seq<char>) -> nat
    decreases s.len(),
{
    if s.len() > 0 && whitespace(s[0]) {
        1 + leading_whitespace(s.drop_first())
    } else {
        0
    }
}

/// The number of trailing whitespace characters of `s`.
pub open spec fn trailing_whitespace(s: Seq<char>) -> nat
    decreases s.len(),
{
    if s.len() > 0 && whitespace(s.last()) {
        1 + trailing_whitespace(s.drop_last())
    } else {
        0
    }
}

/// `s` without its leading whitespace.
pub open spec fn trimmed_start(s: Seq<char>) -> Seq<char> {
    s.skip(leading_whitespace(s) as int)
}

/// `s` without its leading and trailing whitespace.
pub open spec fn trimmed(s: Seq<char>) -> Seq<char> {
    let rest = trimmed_start(s);
    rest.take(rest.len() - trailing_whitespace(rest))
}

/// A run of whitespace at the front of `s` that ends before a character
/// which is not whitespace, or at the end of `s`, is all of its leading
/// whitespace.
proof fn lemma_leading_whitespace_is(s: Seq<char>, n: int)
    requires
        0 <= n <= s.len(),
        forall|k: int| 0 <= k < n ==> whitespace(#[trigger] s[k]),
        n < s.len() ==> !whitespace(s[n]),
    ensures
        leading_whitespace(s) == n,
    decreases s.len(),
{
    if n > 0 {
        assert(whitespace(s[0]));
        let rest = s.drop_first();
        assert forall|k: int| 0 <= k < n - 1 implies whitespace(#[trigger] rest[k]) by {
            assert(rest[k] == s[k + 1]);
        }
        lemma_leading_whitespace_is(rest, n - 1);
    }
}

/// Nothing is left of a text of whitespace when it is trimmed.
pub proof fn lemma_trimmed_blank(s: Seq<char>)
    requires
        forall|k: int| 0 <= k < s.len() ==> whitespace(#[trigger] s[k]),
    ensures
        trimmed(s).len() == 0,
{
    lemma_leading_whitespace_is(s, s.len() as int);
}

/// The counterpart of `lemma_leading_whitespace_is` for the end of `s`.
proof fn lemma_trailing_whitespace_is(s: Seq<char>, n: int)
    requires
        0 <= n <= s.len(),
        forall|k: int| s.len() - n <= k < s.len() ==> whitespace(#[trigger] s[k]),
        n < s.len() ==> !whitespace(s[s.len() - n - 1]),
    ensures
        trailing_whitespace(s) == n,
    decreases s.len(),
{
    if n > 0 {
        assert(whitespace(s[s.len() - 1]));
        let rest = s.drop_last();
        assert forall|k: int| rest.len() - (n - 1) <= k < rest.len() implies whitespace(
            #[trigger] rest[k],
        ) by {
            assert(rest[k] == s[k]);
        }
        lemma_trailing_whitespace_is(rest, n - 1);
    }
}

/// The bounds `(from, to)` of `v[from..to]` once leading and trailing
/// whitespace is left out.
pub fn trim_range(v: &Vec<char>, from: usize, to: usize) -> (r: (usize, usize))
    requires
        from <= to <= v.len(),
    ensures
        from <= r.0 <= r.1 <= to,
        v@.subrange(r.0 as int, r.1 as int) == trimmed(v@.subrange(from as int, to as int)),
{
    let ghost s = v@.subrange(from as int, to as int);
    let mut a: usize = from;
    while a < to && v[a].is_whitespace()
        invariant
            from <= a <= to <= v.len(),
            forall|k: int| from <= k < a ==> whitespace(#[trigger] v@[k]),
        decreases to - a,
    {
        a += 1;
    }
    proof {
        assert forall|k: int| 0 <= k < a - from implies whitespace(#[trigger] s[k]) by {
            assert(s[k] == v@[from + k]);
        }
        lemma_leading_whitespace_is(s, a - from);
    }
    let ghost rest = trimmed_start(s);
    assert(rest == v@.subrange(a as int, to as int));
    let mut b: usize = to;
    while b > a && v[b - 1].is_whitespace()
        invariant
            a <= b <= to <= v.len(),
            forall|k: int| b <= k < to ==> whitespace(#[trigger] v@[k]),
        decreases b - a,
    {
        b -= 1;
    }
    proof {
        assert forall|k: int| rest.len() - (to - b) <= k < rest.len() implies whitespace(
            #[trigger] rest[k],
        ) by {
            assert(rest[k] == v@[a + k]);
        }
        lemma_trailing_whitespace_is(rest, to - b);
        assert(rest.take(rest.len() - (to - b)) == v@.subrange(a as int, b as int));
    }
    (a, b)
}

/// A copy of `v[from..to]`.
pub fn copy_range(v: &Vec<char>, from: usize, to: usize) -> (r: Vec<char>)
    requires
        from <= to <= v.len(),
    ensures
        r@ == v@.subrange(from as int, to as int),
{
    let mut r: Vec<char> = Vec::new();
    let mut i: usize = from;
    while i < to
        invariant
            from <= i <= to <= v.len(),
            r@ == v@.subrange(from as int, i as int),
        decreases to - i,
    {
        r.push(v[i]);
        i += 1;
    }
    r
}

/// The characters of `text` without leading and trailing whitespace.
pub fn trimmed_chars(text: &str) -> (r: Vec<char>)
    ensures
        r@ == trimmed(text@),
{
    let v = chars_of(text);
    assert(v@.subrange(0, v.len() as int) == v@);
    let (a, b) = trim_range(&v, 0, v.len());
    copy_range(&v, a, b)
}

/// The number of characters at the front of `s` that are not whitespace.
pub open spec fn leading_nonspace(s: Seq<char>) -> nat
    decreases s.len(),
{
    if s.len() > 0 && !whitespace(s[0]) {
        1 + leading_nonspace(s.drop_first())
    } else {
        0
    }
}

/// The first word of `s`: what stands between its leading whitespace and the
/// next whitespace. Empty where `s` holds nothing but whitespace.
pub open spec fn first_token(s: Seq<char>) -> Seq<char> {
    let rest = trimmed_start(s);
    rest.take(leading_nonspace(rest) as int)
}

proof fn lemma_leading_nonspace_is(s: Seq<char>, n: int)
    requires
        0 <= n <= s.len(),
        forall|k: int| 0 <= k < n ==> !whitespace(#[trigger] s[k]),
        n < s.len() ==> whitespace(s[n]),
    ensures
        leading_nonspace(s) == n,
    decreases s.len(),
{
    if n > 0 {
        assert(!whitespace(s[0]));
        let rest = s.drop_first();
        assert forall|k: int| 0 <= k < n - 1 implies !whitespace(#[trigger] rest[k]) by {
            assert(rest[k] == s[k + 1]);
        }
        lemma_leading_nonspace_is(rest, n - 1);
    }
}

/// The bounds of the first word of `v`.
pub fn first_token_range(v: &Vec<char>) -> (r: (usize, usize))
    ensures
        r.0 <= r.1 <= v.len(),
        v@.subrange(r.0 as int, r.1 as int) == first_token(v@),
{
    let mut a: usize = 0;
    while a < v.len() && v[a].is_whitespace()
        invariant
            a <= v.len(),
            forall|k: int| 0 <= k < a ==> whitespace(#[trigger] v@[k]),
        decreases v.len() - a,
    {
        a += 1;
    }
    proof {
        lemma_leading_whitespace_is(v@, a as int);
    }
    let ghost rest = trimmed_start(v@);
    let mut b: usize = a;
    while b < v.len() && !v[b].is_whitespace()
        invariant
            a <= b <= v.len(),
            forall|k: int| a <= k < b ==> !whitespace(#[trigger] v@[k]),
        decreases v.len() - b,
    {
        b += 1;
    }
    proof {
        assert forall|k: int| 0 <= k < b - a implies !whitespace(#[trigger] rest[k]) by {
            assert(rest[k] == v@[a + k]);
        }
        if b < v.len() {
            assert(rest[b - a] == v@[b as int]);
        }
        lemma_leading_nonspace_is(rest, b - a);
        assert(rest.take(b - a) =~= v@.subrange(a as int, b as int));
    }
    (a, b)
}

/// The position of the first `c` in `s`, or the length of `s` where there is
/// none.
pub open spec fn first_index_of(s: Seq<char>, c: char) -> int
    decreases s.len(),
{
    if s.len() == 0 || s[0] == c {
        0
    } else {
        1 + first_index_of(s.drop_first(), c)
    }
}

/// The position of the last `c` in `s`, or -1 where there is none.
pub open spec fn last_index_of(s: Seq<char>, c: char) -> int
    decreases s.len(),
{
    if s.len() == 0 {
        -1
    } else if s.last() == c {
        s.len() - 1
    } else {
        last_index_of(s.drop_last(), c)
    }
}

/// Where `first_index_of` points: at the first `c`, or at the end.
pub proof fn lemma_first_index_bounds(s: Seq<char>, c: char)
    ensures
        0 <= first_index_of(s, c) <= s.len(),
        forall|k: int| 0 <= k < first_index_of(s, c) ==> #[trigger] s[k] != c,
        first_index_of(s, c) < s.len() ==> s[first_index_of(s, c)] == c,
    decreases s.len(),
{
    if s.len() == 0 || s[0] == c {
    } else {
        let rest = s.drop_first();
        lemma_first_index_bounds(rest, c);
        assert forall|k: int| 0 <= k < first_index_of(s, c) implies #[trigger] s[k] != c by {
            if k > 0 {
                assert(s[k] == rest[k - 1]);
            }
        }
        if first_index_of(s, c) < s.len() {
            assert(s[first_index_of(s, c)] == rest[first_index_of(rest, c)]);
        }
    }
}

pub proof fn lemma_first_index_of(s: Seq<char>, c: char, n: int)
    requires
        0 <= n <= s.len(),
        forall|k: int| 0 <= k < n ==> #[trigger] s[k] != c,
        n < s.len() ==> s[n] == c,
    ensures
        first_index_of(s, c) == n,
    decreases s.len(),
{
    if n > 0 {
        let rest = s.drop_first();
        assert(s[0] != c);
        assert forall|k: int| 0 <= k < n - 1 implies #[trigger] rest[k] != c by {
            assert(rest[k] == s[k + 1]);
        }
        lemma_first_index_of(rest, c, n - 1);
    }
}

proof fn lemma_last_index_of(s: Seq<char>, c: char, n: int)
    requires
        -1 <= n < s.len(),
        forall|k: int| n < k < s.len() ==> #[trigger] s[k] != c,
        0 <= n ==> s[n] == c,
    ensures
        last_index_of(s, c) == n,
    decreases s.len(),
{
    if s.len() > 0 && n < s.len() - 1 {
        let rest = s.drop_last();
        assert(s[s.len() - 1] != c);
        assert forall|k: int| n < k < rest.len() implies #[trigger] rest[k] != c by {
            assert(rest[k] == s[k]);
        }
        lemma_last_index_of(rest, c, n);
    }
}

/// The position of the first `c` in `v`, or `v.len()`.
pub fn find_first(v: &Vec<char>, c: char) -> (n: usize)
    ensures
        n == first_index_of(v@, c),
        n <= v.len(),
{
    let mut i: usize = 0;
    while i < v.len() && v[i] != c
        invariant
            i <= v.len(),
            forall|k: int| 0 <= k < i ==> #[trigger] v@[k] != c,
        decreases v.len() - i,
    {
        i += 1;
    }
    proof {
        lemma_first_index_of(v@, c, i as int);
    }
    i
}

/// The position of the last `c` in `v`, if there is one.
pub fn find_last(v: &Vec<char>, c: char) -> (r: Option<usize>)
    ensures
        match r {
            Some(n) => n == last_index_of(v@, c) && n < v.len(),
            None => last_index_of(v@, c) == -1,
        },
{
    let mut i: usize = v.len();
    while i > 0 && v[i - 1] != c
        invariant
            i <= v.len(),
            forall|k: int| i <= k < v.len() ==> #[trigger] v@[k] != c,
        decreases i,
    {
        i -= 1;
    }
    proof {
        lemma_last_index_of(v@, c, i as int - 1);
    }
    if i == 0 {
        None
    } else {
        Some(i - 1)
    }
}

/// `s` with every occurrence of `c` left out.
pub open spec fn without(s: Seq<char>, c: char) -> Seq<char>
    decreases s.len(),
{
    if s.len() == 0 {
        s
    } else if s.last() == c {
        without(s.drop_last(), c)
    } else {
        without(s.drop_last(), c).push(s.last())
    }
}

/// A copy of `v` without the occurrences of `c`.
pub fn remove_char(v: &Vec<char>, c: char) -> (r: Vec<char>)
    ensures
        r@ == without(v@, c),
{
    let mut r: Vec<char> = Vec::new();
    let mut i: usize = 0;
    assert(v@.take(0) =~= Seq::<char>::empty());
    while i < v.len()
        invariant
            i <= v.len(),
            r@ == without(v@.take(i as int), c),
        decreases v.len() - i,
    {
        proof {
            let next = v@.take(i as int + 1);
            assert(next.drop_last() =~= v@.take(i as int));
            assert(next.last() == v@[i as int]);
        }
        if v[i] != c {
            r.push(v[i]);
        }
        i += 1;
    }
    assert(v@.take(v.len() as int) == v@);
    r
}

} // verus!
