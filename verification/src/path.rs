//! The components of a path, as far as the short form of a project root
//! needs them.
use vstd::prelude::*;
use vstd::string::*;
use crate::text::{chars_of, string_of};

verus! {

/// The first position from `i` on that holds a slash, or the length.
pub open spec fn run_end(s: Seq<char>, i: int) -> int
    decreases s.len() - i,
{
    if i < 0 || i >= s.len() {
        s.len() as int
    } else if s[i] == '/' {
        i
    } else {
        run_end(s, i + 1)
    }
}

/// Whether what stands between two slashes from position `i` on is a
/// single dot.
pub open spec fn is_dot(s: Seq<char>, i: int) -> bool {
    0 <= i < s.len() && s[i] == '.' && run_end(s, i) == i + 1
}

/// Whether a component of the path starts at position `i`: a character
/// that is no slash, at the start of the path or behind a slash. A single
/// dot is a component only at the start of the path.
pub open spec fn starts_component(s: Seq<char>, i: int) -> bool {
    0 <= i < s.len() && s[i] != '/' && (i == 0 || s[i - 1] == '/') && !(i > 0 && is_dot(s, i))
}

/// The positions from `i` on at which components start, in their order.
pub open spec fn component_starts(s: Seq<char>, i: int) -> Seq<int>
    decreases s.len() - i,
{
    if i < 0 || i >= s.len() {
        Seq::empty()
    } else if starts_component(s, i) {
        seq![i] + component_starts(s, i + 1)
    } else {
        component_starts(s, i + 1)
    }
}

/// The short form of a path: its last three components as they are
/// written, from the start of the third last to the end of the last; the
/// empty text for a path of fewer than three components.
pub open spec fn abbreviated(s: Seq<char>) -> Seq<char> {
    let starts = component_starts(s, 0);
    if starts.len() < 3 {
        Seq::empty()
    } else {
        s.subrange(starts[starts.len() - 3], run_end(s, starts.last()))
    }
}

proof fn lemma_run_end(s: Seq<char>, i: int)
    requires
        0 <= i <= s.len(),
    ensures
        i <= run_end(s, i) <= s.len(),
        forall|j: int| i <= j < run_end(s, i) ==> s[j] != '/',
        run_end(s, i) < s.len() ==> s[run_end(s, i)] == '/',
    decreases s.len() - i,
{
    if i < s.len() && s[i] != '/' {
        lemma_run_end(s, i + 1);
    }
}

/// No component starts inside a run of characters that are no slashes,
/// nor at the slash behind it.
proof fn lemma_no_component(s: Seq<char>, i: int, b: int)
    requires
        0 < i <= b <= s.len(),
        forall|j: int| i - 1 <= j < b ==> s[j] != '/',
        b < s.len() ==> s[b] == '/',
    ensures
        component_starts(s, i) == component_starts(s, b + 1),
    decreases b - i,
{
    if i < b {
        lemma_no_component(s, i + 1, b);
    }
}

/// The short form of a path: its last three components.
pub fn abbreviate(path: &str) -> (r: String)
    ensures
        r@ == abbreviated(path@),
{
    let v = chars_of(path);
    let n = v.len();
    let mut starts: Vec<usize> = Vec::new();
    let mut last_end: usize = 0;
    let mut i: usize = 0;
    let ghost mut found: Seq<int> = Seq::empty();
    assert(found + component_starts(v@, 0) =~= component_starts(v@, 0));
    while i < n
        invariant
            v@ == path@,
            n == v.len(),
            i <= n,
            i == 0 || i == n || v@[i - 1] == '/',
            found + component_starts(v@, i as int) == component_starts(v@, 0),
            starts.len() == found.len(),
            forall|j: int| 0 <= j < found.len() ==> found[j] == #[trigger] starts[j] && 0 <= found[j] < n,
            forall|j: int, k: int| 0 <= j < k < found.len() ==> found[j] < found[k],
            found.len() > 0 ==> last_end == run_end(v@, found.last()) && found.last() < last_end <= i,
        decreases n - i,
    {
        if v[i] == '/' {
            i = i + 1;
        } else {
            let a = i;
            let mut b: usize = i + 1;
            while b < n && v[b] != '/'
                invariant
                    n == v.len(),
                    a < b <= n,
                    forall|j: int| a <= j < b ==> v@[j] != '/',
                decreases n - b,
            {
                b = b + 1;
            }
            proof {
                lemma_run_end(v@, a as int);
                let e = run_end(v@, a as int);
                if e < b {
                    assert(v@[e] == '/');
                }
                if b < e {
                    assert(v@[b as int] != '/');
                }
                assert(e == b);
                lemma_no_component(v@, a + 1, b as int);
            }
            let dot = a > 0 && b == a + 1 && v[a] == '.';
            if !dot {
                proof {
                    assert(starts_component(v@, a as int));
                    assert(found.push(a as int) + component_starts(v@, b + 1) =~= found
                        + component_starts(v@, a as int));
                    found = found.push(a as int);
                }
                starts.push(a);
                last_end = b;
            } else {
                assert(!starts_component(v@, a as int));
            }
            if b < n {
                i = b + 1;
            } else {
                i = b;
            }
        }
    }
    assert(found =~= component_starts(v@, 0));
    if starts.len() < 3 {
        String::new()
    } else {
        let from = starts[starts.len() - 3];
        assert(found[found.len() - 3] < found[found.len() - 1]);
        string_of(&v, from, last_end)
    }
}

} // verus!
