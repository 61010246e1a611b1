//! String primitives for the shell: whitespace trimming and
//! ASCII-case-insensitive comparison, prefix test and substring search.

use vstd::prelude::*;

verus! {

/// The characters removed when a command line is trimmed: the Unicode
/// `White_Space` set, the same set that `str::trim` removes.
pub open spec fn is_space(c: char) -> bool {
    ||| c == ' '
    ||| c == '\t'
    ||| c == '\n'
    ||| c == '\r'
    ||| c == '\u{000B}'
    ||| c == '\u{000C}'
    ||| c == '\u{0085}'
    ||| c == '\u{00A0}'
    ||| c == '\u{1680}'
    ||| c == '\u{2000}'
    ||| c == '\u{2001}'
    ||| c == '\u{2002}'
    ||| c == '\u{2003}'
    ||| c == '\u{2004}'
    ||| c == '\u{2005}'
    ||| c == '\u{2006}'
    ||| c == '\u{2007}'
    ||| c == '\u{2008}'
    ||| c == '\u{2009}'
    ||| c == '\u{200A}'
    ||| c == '\u{2028}'
    ||| c == '\u{2029}'
    ||| c == '\u{202F}'
    ||| c == '\u{205F}'
    ||| c == '\u{3000}'
}

pub fn is_space_char(c: char) -> (r: bool)
    ensures
        r == is_space(c),
{
    c == ' ' || c == '\t' || c == '\n' || c == '\r' || c == '\u{000B}' || c == '\u{000C}'
        || c == '\u{0085}' || c == '\u{00A0}' || c == '\u{1680}' || c == '\u{2000}'
        || c == '\u{2001}' || c == '\u{2002}' || c == '\u{2003}' || c == '\u{2004}'
        || c == '\u{2005}' || c == '\u{2006}' || c == '\u{2007}' || c == '\u{2008}'
        || c == '\u{2009}' || c == '\u{200A}' || c == '\u{2028}' || c == '\u{2029}'
        || c == '\u{202F}' || c == '\u{205F}' || c == '\u{3000}'
}

/// The code point of `c` with an ASCII capital letter folded to lower case;
/// two characters compare equal case-insensitively when these agree.
pub open spec fn lower_code(c: char) -> int {
    if 65 <= c as int && c as int <= 90 {
        c as int + 32
    } else {
        c as int
    }
}

pub fn char_lower_code(c: char) -> (r: u32)
    ensures
        r as int == lower_code(c),
{
    let n = c as u32;
    if 65 <= n && n <= 90 {
        n + 32
    } else {
        n
    }
}

/// Two character sequences are equal up to ASCII case.
pub open spec fn eq_ci(a: Seq<char>, b: Seq<char>) -> bool {
    a.len() == b.len() && forall|i: int|
        0 <= i < a.len() ==> lower_code(a[i]) == lower_code(b[i])
}

pub fn eq_ignore_case(a: &str, b: &str) -> (r: bool)
    ensures
        r == eq_ci(a@, b@),
{
    let na = a.unicode_len();
    let nb = b.unicode_len();
    if na != nb {
        return false;
    }
    let mut i: usize = 0;
    while i < na
        invariant
            na == a@.len(),
            na == b@.len(),
            0 <= i <= na,
            forall|k: int| 0 <= k < i ==> lower_code(a@[k]) == lower_code(b@[k]),
        decreases na - i,
    {
        if char_lower_code(a.get_char(i)) != char_lower_code(b.get_char(i)) {
            assert(lower_code(a@[i as int]) != lower_code(b@[i as int]));
            return false;
        }
        i += 1;
    }
    true
}

/// `s` begins with `kw`, up to ASCII case.
pub open spec fn starts_with_ci(s: Seq<char>, kw: Seq<char>) -> bool {
    kw.len() <= s.len() && eq_ci(s.subrange(0, kw.len() as int), kw)
}

pub fn starts_with_ignore_case(s: &str, kw: &str) -> (r: bool)
    ensures
        r == starts_with_ci(s@, kw@),
{
    let n = s.unicode_len();
    let m = kw.unicode_len();
    if m > n {
        return false;
    }
    let mut i: usize = 0;
    while i < m
        invariant
            n == s@.len(),
            m == kw@.len(),
            m <= n,
            0 <= i <= m,
            forall|k: int| 0 <= k < i ==> lower_code(s@[k]) == lower_code(kw@[k]),
        decreases m - i,
    {
        if char_lower_code(s.get_char(i)) != char_lower_code(kw.get_char(i)) {
            assert(lower_code(s@.subrange(0, m as int)[i as int]) != lower_code(kw@[i as int]));
            return false;
        }
        i += 1;
    }
    assert(forall|k: int|
        0 <= k < m ==> lower_code(s@.subrange(0, m as int)[k]) == lower_code(kw@[k]));
    true
}

/// `kw` occurs somewhere in `s`, up to ASCII case.
pub open spec fn contains_ci(s: Seq<char>, kw: Seq<char>) -> bool {
    exists|i: int|
        0 <= i && i + kw.len() <= s.len() && #[trigger] eq_ci(s.subrange(i, i + kw.len()), kw)
}

/// Whether the window of `s` that starts at `at` matches `kw`, up to ASCII case.
fn window_matches(s: &str, at: usize, kw: &str) -> (r: bool)
    requires
        at + kw@.len() <= s@.len(),
    ensures
        r == eq_ci(s@.subrange(at as int, at + kw@.len()), kw@),
{
    let n = s.unicode_len();
    let m = kw.unicode_len();
    let mut i: usize = 0;
    while i < m
        invariant
            n == s@.len(),
            m == kw@.len(),
            at + m <= s@.len(),
            0 <= i <= m,
            forall|k: int| 0 <= k < i ==> lower_code(s@[at + k]) == lower_code(kw@[k]),
        decreases m - i,
    {
        if char_lower_code(s.get_char(at + i)) != char_lower_code(kw.get_char(i)) {
            assert(lower_code(s@.subrange(at as int, at + m as int)[i as int])
                != lower_code(kw@[i as int]));
            return false;
        }
        i += 1;
    }
    assert(forall|k: int|
        0 <= k < m ==> lower_code(s@.subrange(at as int, at + m as int)[k])
            == lower_code(kw@[k]));
    true
}

pub fn contains_ignore_case(s: &str, kw: &str) -> (r: bool)
    ensures
        r == contains_ci(s@, kw@),
{
    let n = s.unicode_len();
    let m = kw.unicode_len();
    if m > n {
        return false;
    }
    let mut i: usize = 0;
    while i <= n - m
        invariant
            n == s@.len(),
            m == kw@.len(),
            m <= n,
            0 <= i <= n - m + 1,
            forall|k: int|
                0 <= k < i ==> !(#[trigger] eq_ci(s@.subrange(k, k + m as int), kw@)),
        decreases n - m + 1 - i,
    {
        if window_matches(s, i, kw) {
            assert(contains_ci(s@, kw@)) by {
                assert(0 <= i as int && i as int + kw@.len() <= s@.len()
                    && eq_ci(s@.subrange(i as int, i as int + kw@.len()), kw@));
            }
            return true;
        }
        i += 1;
    }
    false
}

/// `s` with its leading whitespace removed.
pub open spec fn trim_front(s: Seq<char>) -> Seq<char>
    decreases s.len(),
{
    if s.len() > 0 && is_space(s[0]) {
        trim_front(s.drop_first())
    } else {
        s
    }
}

/// `s` with its trailing whitespace removed.
pub open spec fn trim_back(s: Seq<char>) -> Seq<char>
    decreases s.len(),
{
    if s.len() > 0 && is_space(s[s.len() - 1]) {
        trim_back(s.drop_last())
    } else {
        s
    }
}

/// `s` with leading and trailing whitespace removed, as `str::trim` leaves it.
pub open spec fn trim(s: Seq<char>) -> Seq<char> {
    trim_back(trim_front(s))
}

/// When the first `i` characters are whitespace and the one at `i` (if any)
/// is not, trimming the front keeps exactly the characters from `i` on.
proof fn lemma_trim_front_at(s: Seq<char>, i: int)
    requires
        0 <= i <= s.len(),
        forall|k: int| 0 <= k < i ==> is_space(s[k]),
        i == s.len() || !is_space(s[i]),
    ensures
        trim_front(s) == s.subrange(i, s.len() as int),
    decreases s.len(),
{
    if i == 0 {
        assert(trim_front(s) =~= s.subrange(0, s.len() as int));
    } else {
        assert(is_space(s[0]));
        let t = s.drop_first();
        assert(forall|k: int| 0 <= k < i - 1 ==> is_space(#[trigger] t[k]) == is_space(s[k + 1]));
        lemma_trim_front_at(t, i - 1);
        assert(t.subrange(i - 1, t.len() as int) =~= s.subrange(i, s.len() as int));
    }
}

/// When the characters from `m` on are whitespace and the one before `m`
/// (if any) is not, trimming the back keeps exactly the first `m` characters.
proof fn lemma_trim_back_at(s: Seq<char>, m: int)
    requires
        0 <= m <= s.len(),
        forall|k: int| m <= k < s.len() ==> is_space(s[k]),
        m == 0 || !is_space(s[m - 1]),
    ensures
        trim_back(s) == s.subrange(0, m),
    decreases s.len(),
{
    if m == s.len() {
        assert(trim_back(s) =~= s.subrange(0, m));
    } else {
        assert(is_space(s[s.len() - 1]));
        let t = s.drop_last();
        assert(forall|k: int| 0 <= k < t.len() ==> #[trigger] t[k] == s[k]);
        lemma_trim_back_at(t, m);
        assert(t.subrange(0, m) =~= s.subrange(0, m));
    }
}

pub fn trim_spaces<'a>(s: &'a str) -> (r: &'a str)
    ensures
        r@ == trim(s@),
{
    let n = s.unicode_len();
    let mut i: usize = 0;
    while i < n && is_space_char(s.get_char(i))
        invariant
            n == s@.len(),
            0 <= i <= n,
            forall|k: int| 0 <= k < i ==> is_space(s@[k]),
        decreases n - i,
    {
        i += 1;
    }
    let mut j: usize = n;
    while j > i && is_space_char(s.get_char(j - 1))
        invariant
            n == s@.len(),
            i <= j <= n,
            forall|k: int| j <= k < n ==> is_space(s@[k]),
        decreases j,
    {
        j -= 1;
    }
    let r = s.substring_char(i, j);
    proof {
        lemma_trim_front_at(s@, i as int);
        let t = s@.subrange(i as int, n as int);
        assert(forall|k: int|
            j - i <= k < t.len() ==> is_space(#[trigger] t[k]) == is_space(s@[k + i]));
        assert(j - i == 0 || !is_space(t[j - i - 1]));
        lemma_trim_back_at(t, j - i);
        assert(t.subrange(0, j - i) =~= s@.subrange(i as int, j as int));
    }
    r
}

} // verus!
