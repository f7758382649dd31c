use vstd::prelude::*;

verus! {

/// The characters of `s`, in order.
pub fn chars_of(s: &str) -> (chars: Vec<char>)
    ensures
        chars@ == s@,
{
    let mut chars: Vec<char> = Vec::new();
    for c in it: s.chars()
        invariant
            chars@ == it.seq().take(it.index() as int),
            it.seq() == s@,
    {
        chars.push(c);
    }
    chars
}

} // verus!

verus! {

/// The characters with the Unicode `White_Space` property, which `char::is_whitespace`
/// and `str::trim` go by.
pub open spec fn is_white_space(c: char) -> bool {
    ||| c == '\t' || c == '\n' || c == '\x0B' || c == '\x0C' || c == '\r' || c == ' '
    ||| c == '\u{85}' || c == '\u{A0}' || c == '\u{1680}'
    ||| ('\u{2000}' <= c && c <= '\u{200A}')
    ||| c == '\u{2028}' || c == '\u{2029}' || c == '\u{202F}' || c == '\u{205F}'
    ||| c == '\u{3000}'
}

/// Whether `c` is white space.
pub fn is_white_space_char(c: char) -> (b: bool)
    ensures
        b == is_white_space(c),
{
    c == '\t' || c == '\n' || c == '\x0B' || c == '\x0C' || c == '\r' || c == ' ' || c == '\u{85}'
        || c == '\u{A0}' || c == '\u{1680}' || ('\u{2000}' <= c && c <= '\u{200A}') || c
        == '\u{2028}' || c == '\u{2029}' || c == '\u{202F}' || c == '\u{205F}' || c == '\u{3000}'
}

/// `s` without its leading and trailing white space, as `str::trim` returns it.
pub open spec fn trimmed(s: Seq<char>) -> Seq<char>
    decreases s.len(),
{
    if s.len() == 0 {
        s
    } else if is_white_space(s[0]) {
        trimmed(s.drop_first())
    } else if is_white_space(s.last()) {
        trimmed(s.drop_last())
    } else {
        s
    }
}

/// `s[a..b]` is what is left of `s` once its white space at both ends is cut.
pub open spec fn trim_bounds(s: Seq<char>, a: int, b: int) -> bool {
    &&& 0 <= a <= b <= s.len()
    &&& forall|k: int| 0 <= k < a ==> is_white_space(#[trigger] s[k])
    &&& forall|k: int| b <= k < s.len() ==> is_white_space(#[trigger] s[k])
    &&& a < b ==> !is_white_space(s[a]) && !is_white_space(s[b - 1])
}

proof fn lemma_trim_bounds(s: Seq<char>, a: int, b: int)
    requires
        trim_bounds(s, a, b),
    ensures
        trimmed(s) == s.subrange(a, b),
    decreases s.len(),
{
    if s.len() == 0 {
        assert(s.subrange(a, b) =~= s);
    } else if is_white_space(s[0]) {
        let t = s.drop_first();
        let a2 = if a > 0 {
            a - 1
        } else {
            0
        };
        let b2 = if b > 0 {
            b - 1
        } else {
            0
        };
        assert forall|k: int| 0 <= k < a2 implies is_white_space(#[trigger] t[k]) by {
            assert(t[k] == s[k + 1]);
        }
        assert forall|k: int| b2 <= k < t.len() implies is_white_space(#[trigger] t[k]) by {
            assert(t[k] == s[k + 1]);
        }
        assert(trim_bounds(t, a2, b2));
        lemma_trim_bounds(t, a2, b2);
        assert(t.subrange(a2, b2) =~= s.subrange(a, b));
    } else if is_white_space(s.last()) {
        let t = s.drop_last();
        assert(b < s.len());
        assert(trim_bounds(t, a, b));
        lemma_trim_bounds(t, a, b);
        assert(t.subrange(a, b) =~= s.subrange(a, b));
    } else {
        assert(a == 0);
        assert(b == s.len());
        assert(s.subrange(a, b) =~= s);
    }
}

/// Where the text `s[lo..hi]` starts and ends once trimmed: `str::trim` on a slice of `s`.
pub fn trim_range(s: &Vec<char>, lo: usize, hi: usize) -> (r: (usize, usize))
    requires
        lo <= hi <= s.len(),
    ensures
        lo <= r.0 <= r.1 <= hi,
        s@.subrange(r.0 as int, r.1 as int) == trimmed(s@.subrange(lo as int, hi as int)),
{
    let mut a = lo;
    while a < hi && is_white_space_char(s[a])
        invariant
            lo <= a <= hi <= s.len(),
            forall|k: int| lo <= k < a ==> is_white_space(#[trigger] s@[k]),
        decreases hi - a,
    {
        a = a + 1;
    }
    let mut b = hi;
    while b > a && is_white_space_char(s[b - 1])
        invariant
            lo <= a <= b <= hi <= s.len(),
            forall|k: int| b <= k < hi ==> is_white_space(#[trigger] s@[k]),
            a < hi ==> !is_white_space(s@[a as int]),
        decreases b - a,
    {
        b = b - 1;
    }
    proof {
        let t = s@.subrange(lo as int, hi as int);
        assert forall|k: int| 0 <= k < a - lo implies is_white_space(#[trigger] t[k]) by {
            assert(t[k] == s@[k + lo]);
        }
        assert forall|k: int| b - lo <= k < t.len() implies is_white_space(#[trigger] t[k]) by {
            assert(t[k] == s@[k + lo]);
        }
        assert(trim_bounds(t, a - lo, b - lo));
        lemma_trim_bounds(t, a - lo, b - lo);
        assert(t.subrange(a - lo, b - lo) =~= s@.subrange(a as int, b as int));
    }
    (a, b)
}

/// `c` with an ASCII capital letter taken to its small letter, as a number.
pub open spec fn ascii_fold(c: char) -> int {
    if 'A' <= c && c <= 'Z' {
        c as int + 32
    } else {
        c as int
    }
}

/// `x` and `y` are the same text up to the case of ASCII letters.
pub open spec fn eq_ignore_ascii_case(x: Seq<char>, y: Seq<char>) -> bool {
    &&& x.len() == y.len()
    &&& forall|i: int| 0 <= i < x.len() ==> ascii_fold(#[trigger] x[i]) == ascii_fold(y[i])
}

fn fold_char(c: char) -> (n: u32)
    ensures
        n == ascii_fold(c),
{
    if 'A' <= c && c <= 'Z' {
        c as u32 + 32
    } else {
        c as u32
    }
}

/// Whether `s[lo..hi]` is `w` up to the case of ASCII letters.
pub fn range_eq_ignore_ascii_case(s: &Vec<char>, lo: usize, hi: usize, w: &Vec<char>) -> (b: bool)
    requires
        lo <= hi <= s.len(),
    ensures
        b == eq_ignore_ascii_case(s@.subrange(lo as int, hi as int), w@),
{
    if hi - lo != w.len() {
        return false;
    }
    let n = w.len();
    let mut i: usize = 0;
    while i < n
        invariant
            lo <= hi <= s.len(),
            hi - lo == n == w.len(),
            0 <= i <= n,
            forall|k: int| 0 <= k < i ==> ascii_fold(#[trigger] s@[lo + k]) == ascii_fold(w@[k]),
        decreases n - i,
    {
        if fold_char(s[lo + i]) != fold_char(w[i]) {
            assert(s@.subrange(lo as int, hi as int)[i as int] == s@[lo + i]);
            return false;
        }
        i = i + 1;
    }
    assert forall|k: int| 0 <= k < n implies ascii_fold(
        #[trigger] s@.subrange(lo as int, hi as int)[k],
    ) == ascii_fold(w@[k]) by {
        assert(s@.subrange(lo as int, hi as int)[k] == s@[lo + k]);
    }
    true
}

/// Whether `s[lo..hi]` is exactly `w`.
pub fn range_equals(s: &Vec<char>, lo: usize, hi: usize, w: &Vec<char>) -> (b: bool)
    requires
        lo <= hi <= s.len(),
    ensures
        b == (s@.subrange(lo as int, hi as int) == w@),
{
    if hi - lo != w.len() {
        return false;
    }
    let n = w.len();
    let mut i: usize = 0;
    while i < n
        invariant
            lo <= hi <= s.len(),
            hi - lo == n == w.len(),
            0 <= i <= n,
            forall|k: int| 0 <= k < i ==> #[trigger] s@[lo + k] == w@[k],
        decreases n - i,
    {
        if s[lo + i] != w[i] {
            assert(s@.subrange(lo as int, hi as int)[i as int] == s@[lo + i]);
            return false;
        }
        i = i + 1;
    }
    assert forall|k: int| 0 <= k < n implies #[trigger] s@.subrange(lo as int, hi as int)[k]
        == w@[k] by {
        assert(s@.subrange(lo as int, hi as int)[k] == s@[lo + k]);
    }
    assert(s@.subrange(lo as int, hi as int) =~= w@);
    true
}

} // verus!

verus! {

/// Every text has trim bounds: where `trimmed` cuts it.
proof fn lemma_trim_bounds_exist(s: Seq<char>) -> (ab: (int, int))
    ensures
        trim_bounds(s, ab.0, ab.1),
    decreases s.len(),
{
    if s.len() == 0 {
        (0, 0)
    } else if is_white_space(s[0]) {
        let t = s.drop_first();
        let (a, b) = lemma_trim_bounds_exist(t);
        assert forall|k: int| 0 <= k < t.len() && (k < a || b <= k) implies is_white_space(
            #[trigger] s[k + 1],
        ) by {
            assert(s[k + 1] == t[k]);
        }
        if a < b {
            assert forall|k: int| 0 <= k < a + 1 implies is_white_space(#[trigger] s[k]) by {
                if k > 0 {
                    assert(s[k] == t[k - 1]);
                }
            }
            assert forall|k: int| b + 1 <= k < s.len() implies is_white_space(#[trigger] s[k]) by {
                assert(s[k] == t[k - 1]);
            }
            assert(s[a + 1] == t[a] && s[b] == t[b - 1]);
            (a + 1, b + 1)
        } else {
            assert forall|k: int| 0 <= k < s.len() implies is_white_space(#[trigger] s[k]) by {
                if k > 0 {
                    assert(s[k] == t[k - 1]);
                }
            }
            (0, 0)
        }
    } else if is_white_space(s.last()) {
        let t = s.drop_last();
        let (a, b) = lemma_trim_bounds_exist(t);
        assert forall|k: int| 0 <= k < t.len() implies #[trigger] s[k] == t[k] by {}
        if a < b {
            (a, b)
        } else {
            (0, 0)
        }
    } else {
        (0, s.len() as int)
    }
}

/// Trimming twice is trimming once.
pub proof fn lemma_trimmed_idempotent(s: Seq<char>)
    ensures
        trimmed(trimmed(s)) == trimmed(s),
{
    let (a, b) = lemma_trim_bounds_exist(s);
    lemma_trim_bounds(s, a, b);
    let t = s.subrange(a, b);
    if a < b {
        assert(t[0] == s[a] && t[b - a - 1] == s[b - 1]);
    }
    assert(trim_bounds(t, 0, t.len() as int));
    lemma_trim_bounds(t, 0, t.len() as int);
    assert(t.subrange(0, t.len() as int) =~= t);
}

/// White space added at either end of a text is trimmed away with the text's own.
pub proof fn lemma_trimmed_ignores_padding(pre: Seq<char>, s: Seq<char>, post: Seq<char>)
    requires
        forall|k: int| 0 <= k < pre.len() ==> is_white_space(#[trigger] pre[k]),
        forall|k: int| 0 <= k < post.len() ==> is_white_space(#[trigger] post[k]),
    ensures
        trimmed(pre + s + post) == trimmed(s),
{
    let (a, b) = lemma_trim_bounds_exist(s);
    lemma_trim_bounds(s, a, b);
    let t = pre + s + post;
    let n = pre.len() as int;
    assert forall|k: int| 0 <= k < t.len() implies #[trigger] t[k] == (if k < n {
        pre[k]
    } else if k < n + s.len() {
        s[k - n]
    } else {
        post[k - n - s.len()]
    }) by {}
    if a < b {
        assert(trim_bounds(t, n + a, n + b));
        lemma_trim_bounds(t, n + a, n + b);
        assert(t.subrange(n + a, n + b) =~= s.subrange(a, b));
    } else {
        assert(trim_bounds(t, 0, 0));
        lemma_trim_bounds(t, 0, 0);
        assert(t.subrange(0, 0) =~= s.subrange(a, b));
    }
}

} // verus!
