//! Splitting text at whitespace and at line ends.
use vstd::prelude::*;
use vstd::string::*;
use crate::text::{chars_of, string_of};

verus! {

/// Whether a character is whitespace: one of the characters that Unicode
/// lists as White_Space.
pub open spec fn is_space(c: char) -> bool {
    let n = c as u32;
    ||| 0x09 <= n <= 0x0D
    ||| n == 0x20
    ||| n == 0x85
    ||| n == 0xA0
    ||| n == 0x1680
    ||| 0x2000 <= n <= 0x200A
    ||| n == 0x2028
    ||| n == 0x2029
    ||| n == 0x202F
    ||| n == 0x205F
    ||| n == 0x3000
}

/// Whether a character is whitespace.
pub fn space(c: char) -> (r: bool)
    ensures
        r == is_space(c),
{
    let n = c as u32;
    (0x09 <= n && n <= 0x0D) || n == 0x20 || n == 0x85 || n == 0xA0 || n == 0x1680 || (0x2000 <= n
        && n <= 0x200A) || n == 0x2028 || n == 0x2029 || n == 0x202F || n == 0x205F || n == 0x3000
}

/// The first position from `i` on that holds whitespace, or the length.
pub open spec fn word_end(s: Seq<char>, i: int) -> int
    decreases s.len() - i,
{
    if i < 0 || i >= s.len() {
        s.len() as int
    } else if is_space(s[i]) {
        i
    } else {
        word_end(s, i + 1)
    }
}

/// Whether a word starts at position `i`: a character that is not
/// whitespace, at the start of the text or behind whitespace.
pub open spec fn starts_word(s: Seq<char>, i: int) -> bool {
    0 <= i < s.len() && !is_space(s[i]) && (i == 0 || is_space(s[i - 1]))
}

/// The words that start at position `i` or behind it, in their order.
pub open spec fn words_from(s: Seq<char>, i: int) -> Seq<Seq<char>>
    decreases s.len() - i,
{
    if i < 0 || i >= s.len() {
        Seq::empty()
    } else if starts_word(s, i) {
        seq![s.subrange(i, word_end(s, i))] + words_from(s, i + 1)
    } else {
        words_from(s, i + 1)
    }
}

/// The words of a text: its longest runs of characters that are not
/// whitespace, in their order.
pub open spec fn words(s: Seq<char>) -> Seq<Seq<char>> {
    words_from(s, 0)
}

proof fn lemma_word_end(s: Seq<char>, i: int)
    requires
        0 <= i <= s.len(),
    ensures
        i <= word_end(s, i) <= s.len(),
        forall|j: int| i <= j < word_end(s, i) ==> !is_space(s[j]),
        word_end(s, i) < s.len() ==> is_space(s[word_end(s, i)]),
    decreases s.len() - i,
{
    if i < s.len() && !is_space(s[i]) {
        lemma_word_end(s, i + 1);
    }
}

/// No word starts inside a run of characters that are not whitespace, nor
/// at the whitespace behind it.
proof fn lemma_no_start(s: Seq<char>, i: int, b: int)
    requires
        0 < i <= b <= s.len(),
        forall|j: int| i - 1 <= j < b ==> !is_space(s[j]),
        b < s.len() ==> is_space(s[b]),
    ensures
        words_from(s, i) == words_from(s, b + 1),
    decreases b - i,
{
    if i < b {
        lemma_no_start(s, i + 1, b);
    } else if b < s.len() {
    } else {
    }
}

/// No word starts in a run of whitespace.
proof fn lemma_skip_spaces(s: Seq<char>, i: int, a: int)
    requires
        0 <= i <= a <= s.len(),
        forall|j: int| i <= j < a ==> is_space(s[j]),
    ensures
        words_from(s, i) == words_from(s, a),
    decreases a - i,
{
    if i < a {
        lemma_skip_spaces(s, i + 1, a);
    }
}

/// Splits a text at whitespace: the words of the text, in their order.
pub fn split_whitespace(text: &str) -> (r: Vec<String>)
    ensures
        r.deep_view() == words(text@),
{
    let v = chars_of(text);
    let n = v.len();
    let mut r: Vec<String> = Vec::new();
    let mut i: usize = 0;
    assert(r.deep_view() =~= Seq::<Seq<char>>::empty());
    while i < n
        invariant
            v@ == text@,
            n == v.len(),
            i <= n,
            i == 0 || i == n || is_space(v@[i - 1]),
            r.deep_view() + words_from(v@, i as int) == words(v@),
        decreases n - i,
    {
        let ghost done = r.deep_view();
        if space(v[i]) {
            i = i + 1;
        } else {
            let a = i;
            let mut b: usize = i + 1;
            while b < n && !space(v[b])
                invariant
                    n == v.len(),
                    a < b <= n,
                    forall|j: int| a <= j < b ==> !is_space(v@[j]),
                decreases n - b,
            {
                b = b + 1;
            }
            proof {
                lemma_word_end(v@, a as int);
                let e = word_end(v@, a as int);
                if e < b {
                    assert(is_space(v@[e]));
                }
                if b < e {
                    assert(!is_space(v@[b as int]));
                }
                assert(e == b);
                assert(starts_word(v@, a as int));
                lemma_no_start(v@, a + 1, b as int);
            }
            r.push(string_of(&v, a, b));
            proof {
                assert(r.deep_view() =~= done.push(v@.subrange(a as int, b as int)));
                assert(r.deep_view() + words_from(v@, b + 1) =~= done + words_from(v@, a as int));
            }
            if b < n {
                i = b + 1;
            } else {
                i = b;
            }
        }
    }
    assert(r.deep_view() + Seq::<Seq<char>>::empty() =~= r.deep_view());
    r
}

/// The first position from `i` on that holds no whitespace, or the length.
pub open spec fn word_start(s: Seq<char>, i: int) -> int
    decreases s.len() - i,
{
    if i < 0 || i >= s.len() {
        s.len() as int
    } else if !is_space(s[i]) {
        i
    } else {
        word_start(s, i + 1)
    }
}

/// The position behind the last character before `j` that is no
/// whitespace, or zero.
pub open spec fn text_end(s: Seq<char>, j: int) -> int
    decreases j,
{
    if j <= 0 || j > s.len() {
        0
    } else if !is_space(s[j - 1]) {
        j
    } else {
        text_end(s, j - 1)
    }
}

/// A text without the whitespace at its start and at its end.
pub open spec fn trimmed(s: Seq<char>) -> Seq<char> {
    if word_start(s, 0) >= text_end(s, s.len() as int) {
        Seq::empty()
    } else {
        s.subrange(word_start(s, 0), text_end(s, s.len() as int))
    }
}

/// A text without the whitespace at its start and at its end.
pub fn trim(text: &str) -> (r: String)
    ensures
        r@ == trimmed(text@),
{
    let v = chars_of(text);
    let n = v.len();
    let mut a: usize = 0;
    while a < n && space(v[a])
        invariant
            n == v.len(),
            a <= n,
            word_start(v@, 0) == word_start(v@, a as int),
        decreases n - a,
    {
        a = a + 1;
    }
    let mut b: usize = n;
    while b > 0 && space(v[b - 1])
        invariant
            n == v.len(),
            b <= n,
            text_end(v@, n as int) == text_end(v@, b as int),
        decreases b,
    {
        b = b - 1;
    }
    if a >= b {
        String::new()
    } else {
        string_of(&v, a, b)
    }
}

/// The first position from `i` on that holds a line feed, or the length.
pub open spec fn line_end(s: Seq<char>, i: int) -> int
    decreases s.len() - i,
{
    if i < 0 || i >= s.len() {
        s.len() as int
    } else if s[i] == '\n' {
        i
    } else {
        line_end(s, i + 1)
    }
}

/// Whether a line starts at position `i`: at the start of the text and
/// behind every line feed.
pub open spec fn starts_line(s: Seq<char>, i: int) -> bool {
    0 <= i <= s.len() && (i == 0 || s[i - 1] == '\n')
}

/// The lines that start at position `i` or behind it, in their order.
pub open spec fn lines_from(s: Seq<char>, i: int) -> Seq<Seq<char>>
    decreases s.len() + 1 - i,
{
    if i < 0 || i > s.len() {
        Seq::empty()
    } else if starts_line(s, i) {
        seq![s.subrange(i, line_end(s, i))] + lines_from(s, i + 1)
    } else {
        lines_from(s, i + 1)
    }
}

/// The lines of a text: what stands between its line feeds, before the
/// first and behind the last. A text of `n` line feeds has `n + 1` lines,
/// some of which may be empty.
pub open spec fn lines(s: Seq<char>) -> Seq<Seq<char>> {
    lines_from(s, 0)
}

proof fn lemma_line_end(s: Seq<char>, i: int)
    requires
        0 <= i <= s.len(),
    ensures
        i <= line_end(s, i) <= s.len(),
        forall|j: int| i <= j < line_end(s, i) ==> s[j] != '\n',
        line_end(s, i) < s.len() ==> s[line_end(s, i)] == '\n',
    decreases s.len() - i,
{
    if i < s.len() && s[i] != '\n' {
        lemma_line_end(s, i + 1);
    }
}

/// No line starts behind a character that is no line feed.
proof fn lemma_no_line(s: Seq<char>, i: int, b: int)
    requires
        0 < i <= b + 1 <= s.len() + 1,
        forall|j: int| i - 1 <= j < b ==> s[j] != '\n',
    ensures
        lines_from(s, i) == lines_from(s, b + 1),
    decreases b + 1 - i,
{
    if i < b + 1 {
        lemma_no_line(s, i + 1, b);
    }
}

/// Splits a text at its line feeds.
pub fn split_lines(text: &str) -> (r: Vec<String>)
    ensures
        r.deep_view() == lines(text@),
{
    let v = chars_of(text);
    let n = v.len();
    let mut r: Vec<String> = Vec::new();
    let mut a: usize = 0;
    assert(r.deep_view() =~= Seq::<Seq<char>>::empty());
    loop
        invariant_except_break
            starts_line(v@, a as int),
            r.deep_view() + lines_from(v@, a as int) == lines(v@),
        invariant
            v@ == text@,
            n == v.len(),
            a <= n,
        ensures
            r.deep_view() == lines(v@),
        decreases n - a,
    {
        let ghost done = r.deep_view();
        let mut b: usize = a;
        while b < n && v[b] != '\n'
            invariant
                n == v.len(),
                a <= b <= n,
                forall|j: int| a <= j < b ==> v@[j] != '\n',
            decreases n - b,
        {
            b = b + 1;
        }
        proof {
            lemma_line_end(v@, a as int);
            let e = line_end(v@, a as int);
            if e < b {
                assert(v@[e] == '\n');
            }
            if b < e {
                assert(v@[b as int] != '\n');
            }
            assert(e == b);
            lemma_no_line(v@, a + 1, b as int);
        }
        r.push(string_of(&v, a, b));
        proof {
            assert(r.deep_view() =~= done.push(v@.subrange(a as int, b as int)));
            assert(r.deep_view() + lines_from(v@, b + 1) =~= done + lines_from(v@, a as int));
        }
        if b >= n {
            assert(r.deep_view() + Seq::<Seq<char>>::empty() =~= r.deep_view());
            break ;
        }
        a = b + 1;
    }
    r
}

} // verus!
