//! The grammar of an `Authorization` header that carries a bearer token.
//!
//! A header value is cut into words at runs of white space. It carries a
//! token when it has exactly two words and the first one reads `bearer` in
//! any mix of ASCII upper and lower case; the token is the second word.

use vstd::prelude::*;
use vstd::string::StrSliceExecFns;

verus! {

/// White space: the characters with the Unicode property `White_Space`.
pub open spec fn is_space(c: char) -> bool {
    ||| c == ' '
    ||| '\u{9}' <= c <= '\u{d}'
    ||| c == '\u{85}'
    ||| c == '\u{a0}'
    ||| c == '\u{1680}'
    ||| '\u{2000}' <= c <= '\u{200a}'
    ||| c == '\u{2028}'
    ||| c == '\u{2029}'
    ||| c == '\u{202f}'
    ||| c == '\u{205f}'
    ||| c == '\u{3000}'
}

/// `c` with an ASCII capital letter turned into its small letter.
pub open spec fn ascii_lower(c: char) -> char {
    if 'A' <= c <= 'Z' {
        ((c as u32) + 32) as char
    } else {
        c
    }
}

/// Every character of `s` is white space.
pub open spec fn is_blank(s: Seq<char>) -> bool {
    forall|k: int| 0 <= k < s.len() ==> is_space(#[trigger] s[k])
}

/// `s` is not empty and holds no white space.
pub open spec fn is_word(s: Seq<char>) -> bool {
    s.len() > 0 && forall|k: int| 0 <= k < s.len() ==> !is_space(#[trigger] s[k])
}

/// `w` reads `bearer`, whatever the case of its letters.
pub open spec fn is_bearer_scheme(w: Seq<char>) -> bool {
    &&& w.len() == 6
    &&& ascii_lower(w[0]) == 'b'
    &&& ascii_lower(w[1]) == 'e'
    &&& ascii_lower(w[2]) == 'a'
    &&& ascii_lower(w[3]) == 'r'
    &&& ascii_lower(w[4]) == 'e'
    &&& ascii_lower(w[5]) == 'r'
}

/// Where the run of white space that starts at `i` ends: the first index
/// from `i` on that holds no white space, or the length of `s`.
pub open spec fn blank_end(s: Seq<char>, i: int) -> int
    decreases s.len() - i,
{
    if 0 <= i < s.len() && is_space(s[i]) {
        blank_end(s, i + 1)
    } else {
        i
    }
}

/// Where the word that starts at `i` ends: the first index from `i` on that
/// holds white space, or the length of `s`.
pub open spec fn word_end(s: Seq<char>, i: int) -> int
    decreases s.len() - i,
{
    if 0 <= i < s.len() && !is_space(s[i]) {
        word_end(s, i + 1)
    } else {
        i
    }
}

/// The words of `s` that start at index `i` or later, in order.
pub open spec fn words_from(s: Seq<char>, i: int) -> Seq<Seq<char>>
    decreases s.len() - i,
{
    let start = blank_end(s, i);
    let end = word_end(s, start);
    if 0 <= i <= start < end <= s.len() {
        seq![s.subrange(start, end)] + words_from(s, end)
    } else {
        Seq::empty()
    }
}

/// The words of `s`: its maximal runs of characters that are not white
/// space, in order.
pub open spec fn words(s: Seq<char>) -> Seq<Seq<char>> {
    words_from(s, 0)
}

/// The token that the header value `h` carries, if it carries one.
pub open spec fn bearer_token(h: Seq<char>) -> Option<Seq<char>> {
    let ws = words(h);
    if ws.len() == 2 && is_bearer_scheme(ws[0]) {
        Some(ws[1])
    } else {
        None
    }
}

/// `blank_end(s, i)` lies between `i` and the end of `s`, everything from `i`
/// up to it is white space, and what stands at it is not.
pub proof fn lemma_blank_end(s: Seq<char>, i: int)
    requires
        0 <= i <= s.len(),
    ensures
        i <= blank_end(s, i) <= s.len(),
        forall|k: int| i <= k < blank_end(s, i) ==> is_space(#[trigger] s[k]),
        blank_end(s, i) < s.len() ==> !is_space(s[blank_end(s, i)]),
    decreases s.len() - i,
{
    if i < s.len() && is_space(s[i]) {
        lemma_blank_end(s, i + 1);
    }
}

/// `word_end(s, i)` lies between `i` and the end of `s`, nothing from `i` up
/// to it is white space, and what stands at it is.
pub proof fn lemma_word_end(s: Seq<char>, i: int)
    requires
        0 <= i <= s.len(),
    ensures
        i <= word_end(s, i) <= s.len(),
        forall|k: int| i <= k < word_end(s, i) ==> !is_space(#[trigger] s[k]),
        word_end(s, i) < s.len() ==> is_space(s[word_end(s, i)]),
    decreases s.len() - i,
{
    if i < s.len() && !is_space(s[i]) {
        lemma_word_end(s, i + 1);
    }
}

/// A run of white space from `i` to `j` that cannot be made longer ends at
/// `blank_end(s, i)`.
pub proof fn lemma_blank_end_is(s: Seq<char>, i: int, j: int)
    requires
        0 <= i <= j <= s.len(),
        forall|k: int| i <= k < j ==> is_space(#[trigger] s[k]),
        j < s.len() ==> !is_space(s[j]),
    ensures
        blank_end(s, i) == j,
    decreases j - i,
{
    if i < j {
        lemma_blank_end_is(s, i + 1, j);
    }
}

/// A run free of white space from `i` to `j` that cannot be made longer ends
/// at `word_end(s, i)`.
pub proof fn lemma_word_end_is(s: Seq<char>, i: int, j: int)
    requires
        0 <= i <= j <= s.len(),
        forall|k: int| i <= k < j ==> !is_space(#[trigger] s[k]),
        j < s.len() ==> is_space(s[j]),
    ensures
        word_end(s, i) == j,
    decreases j - i,
{
    if i < j {
        lemma_word_end_is(s, i + 1, j);
    }
}

/// `h` is white space, the word `a`, white space, the word `b`, white
/// space, where the first and the last stretch may be empty.
pub open spec fn is_pair(h: Seq<char>, a: Seq<char>, b: Seq<char>) -> bool {
    exists|lead: Seq<char>, gap: Seq<char>, trail: Seq<char>|
        #![trigger lead + a + gap + b + trail]
        {
            &&& is_blank(lead)
            &&& is_word(a)
            &&& is_blank(gap)
            &&& gap.len() > 0
            &&& is_word(b)
            &&& is_blank(trail)
            &&& h == lead + a + gap + b + trail
        }
}

/// Two words with white space before, between and after them are the words
/// of the whole.
pub proof fn lemma_words_of_pair(
    lead: Seq<char>,
    a: Seq<char>,
    gap: Seq<char>,
    b: Seq<char>,
    trail: Seq<char>,
)
    requires
        is_blank(lead),
        is_word(a),
        is_blank(gap),
        gap.len() > 0,
        is_word(b),
        is_blank(trail),
    ensures
        words(lead + a + gap + b + trail) == seq![a, b],
{
    let h = lead + a + gap + b + trail;
    let a0 = lead.len() as int;
    let a1 = a0 + a.len();
    let b0 = a1 + gap.len();
    let b1 = b0 + b.len();
    assert(h.len() == b1 + trail.len());
    assert forall|k: int| 0 <= k < a0 implies is_space(#[trigger] h[k]) by {
        assert(h[k] == lead[k]);
    }
    assert forall|k: int| a0 <= k < a1 implies !is_space(#[trigger] h[k]) by {
        assert(h[k] == a[k - a0]);
    }
    assert forall|k: int| a1 <= k < b0 implies is_space(#[trigger] h[k]) by {
        assert(h[k] == gap[k - a1]);
    }
    assert forall|k: int| b0 <= k < b1 implies !is_space(#[trigger] h[k]) by {
        assert(h[k] == b[k - b0]);
    }
    assert forall|k: int| b1 <= k < h.len() implies is_space(#[trigger] h[k]) by {
        assert(h[k] == trail[k - b1]);
    }
    lemma_blank_end_is(h, 0, a0);
    lemma_word_end_is(h, a0, a1);
    lemma_blank_end_is(h, a1, b0);
    lemma_word_end_is(h, b0, b1);
    lemma_blank_end_is(h, b1, h.len() as int);
    lemma_word_end_is(h, h.len() as int, h.len() as int);
    assert(h.subrange(a0, a1) == a);
    assert(h.subrange(b0, b1) == b);
    assert(words_from(h, b1) == Seq::<Seq<char>>::empty());
    assert(words_from(h, a1) == seq![b] + words_from(h, b1));
    assert(words_from(h, 0) == seq![a] + words_from(h, a1));
}

/// A text with exactly two words is white space, the first word, white
/// space, the second word, white space.
pub proof fn lemma_pair_of_words(h: Seq<char>)
    requires
        words(h).len() == 2,
    ensures
        is_pair(h, words(h)[0], words(h)[1]),
{
    let a0 = blank_end(h, 0);
    lemma_blank_end(h, 0);
    let a1 = word_end(h, a0);
    lemma_word_end(h, a0);
    assert(a0 < a1);
    assert(words_from(h, 0) == seq![h.subrange(a0, a1)] + words_from(h, a1));
    let b0 = blank_end(h, a1);
    lemma_blank_end(h, a1);
    let b1 = word_end(h, b0);
    lemma_word_end(h, b0);
    assert(b0 < b1);
    assert(words_from(h, a1) == seq![h.subrange(b0, b1)] + words_from(h, b1));
    let e0 = blank_end(h, b1);
    lemma_blank_end(h, b1);
    let e1 = word_end(h, e0);
    lemma_word_end(h, e0);
    assert(e0 == h.len()) by {
        if e0 < e1 {
            assert(words_from(h, b1) == seq![h.subrange(e0, e1)] + words_from(h, e1));
        }
    }
    let lead = h.subrange(0, a0);
    let a = h.subrange(a0, a1);
    let gap = h.subrange(a1, b0);
    let b = h.subrange(b0, b1);
    let trail = h.subrange(b1, h.len() as int);
    assert(words(h)[0] == a);
    assert(words(h)[1] == b);
    assert(h == lead + a + gap + b + trail);
    assert(is_blank(lead));
    assert(is_word(a));
    assert(is_blank(gap));
    assert(is_word(b));
    assert(is_blank(trail));
}

/// A header carries the token `token` exactly when it is white space, a
/// word that reads `bearer`, white space, `token`, white space, where the
/// first and the last stretch may be empty.
pub proof fn lemma_bearer_token(h: Seq<char>, token: Seq<char>)
    ensures
        bearer_token(h) == Some(token) <==> exists|scheme: Seq<char>|
            is_bearer_scheme(scheme) && #[trigger] is_pair(h, scheme, token),
{
    if bearer_token(h) == Some(token) {
        lemma_pair_of_words(h);
        assert(is_pair(h, words(h)[0], token));
    }
    if exists|scheme: Seq<char>| is_bearer_scheme(scheme) && #[trigger] is_pair(h, scheme, token) {
        let scheme = choose|scheme: Seq<char>|
            is_bearer_scheme(scheme) && #[trigger] is_pair(h, scheme, token);
        let (lead, gap, trail) = choose|lead: Seq<char>, gap: Seq<char>, trail: Seq<char>|
            #![trigger lead + scheme + gap + token + trail]
            {
                &&& is_blank(lead)
                &&& is_word(scheme)
                &&& is_blank(gap)
                &&& gap.len() > 0
                &&& is_word(token)
                &&& is_blank(trail)
                &&& h == lead + scheme + gap + token + trail
            };
        lemma_words_of_pair(lead, scheme, gap, token, trail);
    }
}

/// The header value that presents `token` in the usual way: the word
/// `Bearer`, one blank, and `token`.
pub open spec fn bearer_header(token: Seq<char>) -> Seq<char> {
    seq!['B', 'e', 'a', 'r', 'e', 'r', ' '] + token
}

/// A token that is one word comes back unchanged out of the header that
/// presents it.
pub proof fn lemma_bearer_header(token: Seq<char>)
    requires
        is_word(token),
    ensures
        bearer_token(bearer_header(token)) == Some(token),
{
    let scheme = seq!['B', 'e', 'a', 'r', 'e', 'r'];
    let gap = seq![' '];
    let none = Seq::<char>::empty();
    assert(is_bearer_scheme(scheme));
    lemma_words_of_pair(none, scheme, gap, token, none);
    assert(bearer_header(token) == none + scheme + gap + token + none);
}

pub fn is_whitespace(c: char) -> (b: bool)
    ensures
        b == is_space(c),
{
    c == ' ' || ('\u{9}' <= c && c <= '\u{d}') || c == '\u{85}' || c == '\u{a0}' || c == '\u{1680}'
        || ('\u{2000}' <= c && c <= '\u{200a}') || c == '\u{2028}' || c == '\u{2029}' || c
        == '\u{202f}' || c == '\u{205f}' || c == '\u{3000}'
}

pub fn to_ascii_lower(c: char) -> (l: char)
    ensures
        l == ascii_lower(c),
{
    if 'A' <= c && c <= 'Z' {
        ((c as u8) + 32) as char
    } else {
        c
    }
}

/// The characters of `s`, one by one.
fn to_chars(s: &str) -> (v: Vec<char>)
    ensures
        v@ == s@,
{
    let mut v: Vec<char> = Vec::new();
    for c in it: s.chars()
        invariant
            it.seq() == s@,
            v@ == s@.take(it.index() as int),
    {
        v.push(c);
    }
    v
}

fn skip_blank(cs: &Vec<char>, from: usize) -> (to: usize)
    requires
        from <= cs.len(),
    ensures
        to == blank_end(cs@, from as int),
        from <= to <= cs.len(),
{
    let mut i: usize = from;
    while i < cs.len() && is_whitespace(cs[i])
        invariant
            from <= i <= cs.len(),
            blank_end(cs@, from as int) == blank_end(cs@, i as int),
        decreases cs.len() - i,
    {
        i = i + 1;
    }
    i
}

fn skip_word(cs: &Vec<char>, from: usize) -> (to: usize)
    requires
        from <= cs.len(),
    ensures
        to == word_end(cs@, from as int),
        from <= to <= cs.len(),
{
    let mut i: usize = from;
    while i < cs.len() && !is_whitespace(cs[i])
        invariant
            from <= i <= cs.len(),
            word_end(cs@, from as int) == word_end(cs@, i as int),
        decreases cs.len() - i,
    {
        i = i + 1;
    }
    i
}

fn reads_bearer(cs: &Vec<char>, from: usize, to: usize) -> (yes: bool)
    requires
        from <= to <= cs.len(),
    ensures
        yes == is_bearer_scheme(cs@.subrange(from as int, to as int)),
{
    if to - from != 6 {
        return false;
    }
    to_ascii_lower(cs[from]) == 'b' && to_ascii_lower(cs[from + 1]) == 'e' && to_ascii_lower(
        cs[from + 2],
    ) == 'a' && to_ascii_lower(cs[from + 3]) == 'r' && to_ascii_lower(cs[from + 4]) == 'e'
        && to_ascii_lower(cs[from + 5]) == 'r'
}

/// Reads the token out of the value of an `Authorization` header.
///
/// Gives the second word of `header` when `header` has exactly two words and
/// the first one reads `bearer`; nothing otherwise.
pub fn extract_bearer(header: &str) -> (token: Option<String>)
    ensures
        match token {
            Some(t) => bearer_token(header@) == Some(t@),
            None => bearer_token(header@).is_none(),
        },
{
    let cs = to_chars(header);
    let scheme_start = skip_blank(&cs, 0);
    let scheme_end = skip_word(&cs, scheme_start);
    let token_start = skip_blank(&cs, scheme_end);
    let token_end = skip_word(&cs, token_start);
    let rest_start = skip_blank(&cs, token_end);
    let rest_end = skip_word(&cs, rest_start);
    proof {
        let s = cs@;
        lemma_word_end(s, scheme_start as int);
        lemma_word_end(s, token_start as int);
        lemma_word_end(s, rest_start as int);
        assert(words(s) == words_from(s, 0));
        if scheme_start < scheme_end {
            assert(words_from(s, 0) == seq![s.subrange(scheme_start as int, scheme_end as int)]
                + words_from(s, scheme_end as int));
            if token_start < token_end {
                assert(words_from(s, scheme_end as int) == seq![
                    s.subrange(token_start as int, token_end as int),
                ] + words_from(s, token_end as int));
                if rest_start < rest_end {
                    assert(words_from(s, token_end as int) == seq![
                        s.subrange(rest_start as int, rest_end as int),
                    ] + words_from(s, rest_end as int));
                    assert(words(s).len() >= 3);
                } else {
                    assert(words_from(s, token_end as int) == Seq::<Seq<char>>::empty());
                    assert(words(s) == seq![
                        s.subrange(scheme_start as int, scheme_end as int),
                        s.subrange(token_start as int, token_end as int),
                    ]);
                }
            } else {
                assert(words_from(s, scheme_end as int) == Seq::<Seq<char>>::empty());
                assert(words(s).len() == 1);
            }
        } else {
            assert(words(s).len() == 0);
        }
    }
    if scheme_start < scheme_end && token_start < token_end && rest_start == rest_end
        && reads_bearer(&cs, scheme_start, scheme_end) {
        Some(header.substring_char(token_start, token_end).to_owned())
    } else {
        None
    }
}

} // verus!
