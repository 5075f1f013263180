//! Text matching used by device selection and wake-word detection:
//! lowercasing, substring search, ASCII case-insensitive comparison, and
//! splitting a wake phrase into its first two tokens.

use vstd::prelude::*;

verus! {

/// The characters that `str::to_lowercase` returns for the given characters.
/// Unicode lowercasing is far too large to state here; this name pins only
/// that the result is a function of the characters alone.
pub uninterp spec fn lower_of(s: Seq<char>) -> Seq<char>;

/// Relies on `str::to_lowercase`: the result depends on the characters
/// alone, and an empty string stays empty.
#[verifier::external_body]
pub(crate) fn to_lower(s: &str) -> (r: String)
    ensures
        r@ == lower_of(s@),
        s@.len() == 0 ==> r@.len() == 0,
{
    s.to_lowercase()
}

/// The needle occurs in the haystack starting at index `i`.
pub open spec fn match_at(hay: Seq<char>, needle: Seq<char>, i: int) -> bool {
    &&& 0 <= i
    &&& i + needle.len() <= hay.len()
    &&& hay.subrange(i, i + needle.len()) == needle
}

/// The needle occurs somewhere in the haystack.
pub open spec fn contains_seq(hay: Seq<char>, needle: Seq<char>) -> bool {
    exists|i: int| match_at(hay, needle, i)
}

/// Substring search: whether `needle` occurs in `hay`.
pub fn contains_str(hay: &str, needle: &str) -> (r: bool)
    ensures
        r == contains_seq(hay@, needle@),
{
    let h = hay.unicode_len();
    let n = needle.unicode_len();
    if n > h {
        assert(forall|i: int| !match_at(hay@, needle@, i));
        return false;
    }
    if n == 0 {
        assert(hay@.subrange(0, 0) =~= needle@);
        assert(match_at(hay@, needle@, 0));
        return true;
    }
    let mut i: usize = 0;
    while i <= h - n
        invariant
            1 <= n <= h,
            h == hay@.len(),
            n == needle@.len(),
            i <= h - n + 1,
            forall|k: int| 0 <= k < i ==> !match_at(hay@, needle@, k),
        decreases h - n - i + 1,
    {
        let mut j: usize = 0;
        let mut matches_here = true;
        while j < n && matches_here
            invariant
                n <= h,
                h == hay@.len(),
                n == needle@.len(),
                i <= h - n,
                j <= n,
                matches_here ==> forall|m: int| 0 <= m < j
                    ==> hay@[i + m] == needle@[m],
                !matches_here ==> !match_at(hay@, needle@, i as int),
            decreases n - j,
        {
            if hay.get_char(i + j) != needle.get_char(j) {
                proof {
                    if match_at(hay@, needle@, i as int) {
                        assert(hay@.subrange(i as int, i + needle@.len())[j as int]
                            == hay@[i + j]);
                    }
                }
                matches_here = false;
            }
            j = j + 1;
        }
        if matches_here {
            assert(hay@.subrange(i as int, i + needle@.len()) =~= needle@);
            assert(match_at(hay@, needle@, i as int));
            return true;
        }
        i = i + 1;
    }
    assert(forall|k: int| match_at(hay@, needle@, k) ==> 0 <= k <= h - n);
    false
}

/// The code point of `c` with an ASCII upper-case letter folded to its
/// lower-case counterpart; every other character is left as it is. This is
/// the per-character map of `str::eq_ignore_ascii_case`.
pub open spec fn lower_code(c: char) -> int {
    if 65 <= c as u32 && c as u32 <= 90 {
        c as u32 + 32
    } else {
        c as u32 as int
    }
}

/// The two character sequences are equal ignoring ASCII case.
pub open spec fn ascii_eq_ci(a: Seq<char>, b: Seq<char>) -> bool {
    &&& a.len() == b.len()
    &&& forall|i: int| 0 <= i < a.len() ==> lower_code(a[i]) == lower_code(b[i])
}

fn lower_code_of(c: char) -> (r: u32)
    ensures
        r == lower_code(c),
{
    let x = c as u32;
    if 65 <= x && x <= 90 {
        x + 32
    } else {
        x
    }
}

/// Whether two strings are equal ignoring ASCII case.
pub fn eq_ignore_ascii(a: &str, b: &str) -> (r: bool)
    ensures
        r == ascii_eq_ci(a@, b@),
{
    let la = a.unicode_len();
    let lb = b.unicode_len();
    if la != lb {
        return false;
    }
    let mut i: usize = 0;
    while i < la
        invariant
            la == a@.len(),
            la == b@.len(),
            i <= la,
            forall|k: int| 0 <= k < i ==> lower_code(a@[k]) == lower_code(b@[k]),
        decreases la - i,
    {
        let ca = a.get_char(i);
        let cb = b.get_char(i);
        if lower_code_of(ca) != lower_code_of(cb) {
            assert(lower_code(a@[i as int]) != lower_code(b@[i as int]));
            return false;
        }
        i = i + 1;
    }
    true
}

/// The index of the first space at or after `i`, or the length of `s` if
/// there is none.
pub open spec fn space_or_end(s: Seq<char>, i: int) -> int
    decreases s.len() - i,
{
    if i >= s.len() {
        s.len() as int
    } else if s[i] == ' ' {
        i
    } else {
        space_or_end(s, i + 1)
    }
}

/// The characters before the first space.
pub open spec fn first_token(s: Seq<char>) -> Seq<char> {
    s.subrange(0, space_or_end(s, 0))
}

/// The characters between the first space and the second space, if the
/// first space exists; empty otherwise.
pub open spec fn second_token(s: Seq<char>) -> Seq<char> {
    let e = space_or_end(s, 0);
    if e >= s.len() {
        Seq::<char>::empty()
    } else {
        first_token(s.skip(e + 1))
    }
}

fn find_space(s: &str) -> (r: usize)
    ensures
        r == space_or_end(s@, 0),
        r <= s@.len(),
{
    let n = s.unicode_len();
    let mut i: usize = 0;
    while i < n
        invariant
            n == s@.len(),
            i <= n,
            space_or_end(s@, 0) == space_or_end(s@, i as int),
        decreases n - i,
    {
        if s.get_char(i) == ' ' {
            return i;
        }
        i = i + 1;
    }
    i
}

/// The first two space-separated tokens of `s`: the characters before the
/// first space, and those between the first and the second space. A missing
/// token is empty.
pub fn first_two_tokens(s: &str) -> (r: (String, String))
    ensures
        r.0@ == first_token(s@),
        r.1@ == second_token(s@),
{
    let n = s.unicode_len();
    let sp = find_space(s);
    let first = s.substring_char(0, sp).to_owned();
    if sp >= n {
        (first, String::new())
    } else {
        let rest = s.substring_char(sp + 1, n);
        assert(rest@ == s@.skip(sp + 1));
        let sp2 = find_space(rest);
        let second = rest.substring_char(0, sp2).to_owned();
        (first, second)
    }
}

} // verus!
