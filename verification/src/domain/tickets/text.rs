use vstd::prelude::*;
use vstd::std_specs::iter::IteratorSpec;

verus! {

/// Whether `c` carries the Unicode `White_Space` property.
pub open spec fn is_whitespace(c: char) -> bool {
    let n = c as u32;
    ||| 0x09 <= n <= 0x0D
    ||| n == 0x20
    ||| n == 0x85
    ||| n == 0xA0
    ||| n == 0x1680
    ||| 0x2000 <= n <= 0x200A
    ||| n == 0x2028
    ||| n == 0x2029
    ||| n == 0x202F
    ||| n == 0x205F
    ||| n == 0x3000
}

/// A text is blank when nothing but white space is in it; the empty text is blank.
pub open spec fn is_blank(s: Seq<char>) -> bool {
    forall|i: int| 0 <= i < s.len() ==> is_whitespace(#[trigger] s[i])
}

/// Decides `is_whitespace`.
pub fn char_is_whitespace(c: char) -> (r: bool)
    ensures
        r == is_whitespace(c),
{
    let n: u32 = c as u32;
    (0x09 <= n && n <= 0x0D) || n == 0x20 || n == 0x85 || n == 0xA0 || n == 0x1680 || (0x2000 <= n
        && n <= 0x200A) || n == 0x2028 || n == 0x2029 || n == 0x202F || n == 0x205F || n == 0x3000
}

/// Decides whether `s` is blank; stops at the first character that is no white space.
pub fn blank(s: &str) -> (r: bool)
    ensures
        r == is_blank(s@),
{
    broadcast use vstd::string::group_string_axioms;

    for c in it: s.chars()
        invariant
            it.seq() == s@,
            is_blank(s@.take(it.index())),
    {
        let ghost k = it.index();
        if !char_is_whitespace(c) {
            assert(!is_whitespace(s@[k]));
            return false;
        }
        assert forall|i: int| 0 <= i < k + 1 implies is_whitespace(#[trigger] s@.take(k + 1)[i]) by {
            if i < k {
                assert(s@.take(k)[i] == s@[i]);
            }
        }
    }
    assert(s@.take(s@.len() as int) == s@);
    true
}

/// Where the text proper begins: the place of the first character that is no white
/// space, and the length of the text where there is none.
pub open spec fn first_ink(s: Seq<char>) -> int {
    if is_blank(s) {
        s.len() as int
    } else {
        choose|a: int| 0 <= a < s.len() && !is_whitespace(s[a]) && is_blank(s.take(a))
    }
}

/// Where the text proper ends: the place after the last character that is no white
/// space, and the length of the text where there is none.
pub open spec fn last_ink(s: Seq<char>) -> int {
    if is_blank(s) {
        s.len() as int
    } else {
        choose|b: int| 0 < b <= s.len() && !is_whitespace(s[b - 1]) && is_blank(s.skip(b))
    }
}

/// The text without the white space at its ends.
pub open spec fn trimmed(s: Seq<char>) -> Seq<char> {
    s.subrange(first_ink(s), last_ink(s))
}

/// Whether a text has no white space at its ends.
pub open spec fn is_trimmed(s: Seq<char>) -> bool {
    s.len() > 0 ==> !is_whitespace(s.first()) && !is_whitespace(s.last())
}

/// The text proper lies between `a` and `b` where the first of its characters is at
/// `a`, the last before `b`, and nothing but white space is outside.
pub proof fn lemma_trimmed_between(s: Seq<char>, a: int, b: int)
    requires
        0 <= a < b <= s.len(),
        !is_whitespace(s[a]),
        !is_whitespace(s[b - 1]),
        is_blank(s.take(a)),
        is_blank(s.skip(b)),
    ensures
        first_ink(s) == a,
        last_ink(s) == b,
        trimmed(s) == s.subrange(a, b),
{
    let x = first_ink(s);
    let y = last_ink(s);
    assert(!is_blank(s));
    if x < a {
        assert(s.take(a)[x] == s[x]);
    }
    if a < x {
        assert(s.take(x)[a] == s[a]);
    }
    if y < b {
        assert(s.skip(y)[b - 1 - y] == s[b - 1]);
    }
    if b < y {
        assert(s.skip(b)[y - 1 - b] == s[y - 1]);
    }
}

/// A character that is no white space has a first such character at or before it.
proof fn lemma_first_ink_exists(s: Seq<char>, k: int)
    requires
        0 <= k < s.len(),
        !is_whitespace(s[k]),
    ensures
        exists|a: int| 0 <= a <= k && !is_whitespace(s[a]) && is_blank(s.take(a)),
    decreases k,
{
    if !is_blank(s.take(k)) {
        let j = choose|j: int| 0 <= j < s.take(k).len() && !is_whitespace(#[trigger] s.take(k)[j]);
        assert(s.take(k)[j] == s[j]);
        lemma_first_ink_exists(s, j);
    }
}

/// A character that is no white space has a last such character at or after it.
proof fn lemma_last_ink_exists(s: Seq<char>, k: int)
    requires
        0 <= k < s.len(),
        !is_whitespace(s[k]),
    ensures
        exists|b: int| k < b <= s.len() && !is_whitespace(s[b - 1]) && is_blank(s.skip(b)),
    decreases s.len() - k,
{
    if !is_blank(s.skip(k + 1)) {
        let j = choose|j: int|
            0 <= j < s.skip(k + 1).len() && !is_whitespace(#[trigger] s.skip(k + 1)[j]);
        assert(s.skip(k + 1)[j] == s[k + 1 + j]);
        lemma_last_ink_exists(s, k + 1 + j);
    }
}

/// What trimming does: a blank text becomes the empty text; any other text keeps its
/// characters from the first to the last that is no white space, so it stays no longer
/// than it was, is not blank, and has no white space at its ends.
pub proof fn lemma_trimmed(s: Seq<char>)
    ensures
        is_blank(s) <==> trimmed(s).len() == 0,
        is_blank(s) <==> is_blank(trimmed(s)),
        trimmed(s).len() <= s.len(),
        is_trimmed(trimmed(s)),
{
    if !is_blank(s) {
        let k = choose|k: int| 0 <= k < s.len() && !is_whitespace(#[trigger] s[k]);
        lemma_first_ink_exists(s, k);
        lemma_last_ink_exists(s, k);
        let a = choose|a: int| 0 <= a <= k && !is_whitespace(s[a]) && is_blank(s.take(a));
        let b = choose|b: int| k < b <= s.len() && !is_whitespace(s[b - 1]) && is_blank(s.skip(b));
        lemma_trimmed_between(s, a, b);
        assert(trimmed(s)[0] == s[a]);
        assert(trimmed(s)[b - a - 1] == s[b - 1]);
    }
}

/// A text that is not empty and has no white space at its ends is its own trimmed
/// text.
pub proof fn lemma_trimmed_stays(s: Seq<char>)
    requires
        is_trimmed(s),
    ensures
        trimmed(s) == s,
{
    if s.len() > 0 {
        assert(s.take(0) =~= Seq::<char>::empty());
        assert(s.skip(s.len() as int) =~= Seq::<char>::empty());
        lemma_trimmed_between(s, 0, s.len() as int);
        assert(s.subrange(0, s.len() as int) =~= s);
    } else {
        assert(trimmed(s) =~= s);
    }
}

/// Cuts the white space off both ends of a text, in one pass over its characters.
pub fn trim(s: &str) -> (r: &str)
    ensures
        r@ == trimmed(s@),
{
    broadcast use vstd::string::group_string_axioms;

    let n = s.unicode_len();
    let mut i: usize = 0;
    let mut start: usize = 0;
    let mut end: usize = 0;
    for c in it: s.chars()
        invariant
            it.seq() == s@,
            n == s@.len(),
            i == it.index(),
            i <= n,
            start <= end <= i,
            start == end ==> start == 0 && is_blank(s@.take(i as int)),
            start < end ==> {
                &&& is_blank(s@.take(start as int))
                &&& !is_whitespace(s@[start as int])
                &&& !is_whitespace(s@[end - 1])
                &&& forall|j: int| end <= j < i ==> is_whitespace(#[trigger] s@[j])
            },
    {
        assert(i < n);
        assert(s@[i as int] == c);
        let white = char_is_whitespace(c);
        if !white {
            if start == end {
                start = i;
            }
            end = i + 1;
        } else if start == end {
            assert forall|j: int| 0 <= j < i + 1 implies is_whitespace(
                #[trigger] s@.take(i + 1)[j],
            ) by {
                if j < i {
                    assert(s@.take(i as int)[j] == s@[j]);
                }
            }
        }
        i = i + 1;
    }
    proof {
        assert(s@.take(n as int) == s@);
        if start < end {
            assert forall|j: int| 0 <= j < s@.skip(end as int).len() implies is_whitespace(
                #[trigger] s@.skip(end as int)[j],
            ) by {
                assert(s@.skip(end as int)[j] == s@[end + j]);
            }
            lemma_trimmed_between(s@, start as int, end as int);
        } else {
            assert(s@.subrange(n as int, n as int) =~= s@.subrange(0, 0));
        }
    }
    s.substring_char(start, end)
}

/// Whether `c` is the letter `d`, or the capital of the lower-case letter `d`.
pub open spec fn is_letter(c: char, d: char) -> bool {
    c == d || ('A' <= c <= 'Z' && c as u32 + 32 == d as u32)
}

/// Whether `text` spells `word` when the case of its letters `A` to `Z` is not
/// regarded.
pub open spec fn spells(text: Seq<char>, word: Seq<char>) -> bool {
    &&& text.len() == word.len()
    &&& forall|i: int| 0 <= i < text.len() ==> is_letter(#[trigger] text[i], word[i])
}

/// Decides `spells`, walking both texts once.
pub fn spells_word(text: &str, word: &str) -> (r: bool)
    ensures
        r == spells(text@, word@),
{
    broadcast use vstd::string::group_string_axioms;

    let mut left = text.chars();
    let mut right = word.chars();
    let ghost mut k: int = 0;
    loop
        invariant
            0 <= k <= text@.len(),
            k <= word@.len(),
            left.remaining() == text@.skip(k),
            right.remaining() == word@.skip(k),
            forall|i: int| 0 <= i < k ==> is_letter(#[trigger] text@[i], word@[i]),
            left.obeys_prophetic_iter_laws(),
            right.obeys_prophetic_iter_laws(),
        decreases text@.len() - k,
    {
        let x = left.next();
        let y = right.next();
        match (x, y) {
            (None, None) => {
                return true;
            },
            (Some(c), Some(d)) => {
                let capital = 'A' <= c && c <= 'Z' && c as u32 + 32 == d as u32;
                if c != d && !capital {
                    assert(!is_letter(text@[k], word@[k]));
                    return false;
                }
                proof {
                    assert(text@.skip(k).drop_first() == text@.skip(k + 1));
                    assert(word@.skip(k).drop_first() == word@.skip(k + 1));
                    k = k + 1;
                }
            },
            _ => {
                return false;
            },
        }
    }
}

} // verus!
