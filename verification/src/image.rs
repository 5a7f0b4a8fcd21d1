//! Image reference parsing.
//!
//! A reference such as `quay.io/repo:v1` or `quay.io/repo@sha256:abcd` is cut
//! into a repository and a tag. When the reference holds an `@` it is cut at
//! the first `@`; otherwise at the first `:`; the cut happens only once, so a
//! digest tag keeps its internal colon. A reference with no delimiter gets
//! the tag `latest`. A reference whose repository segment is empty is
//! rejected.

use vstd::prelude::*;

verus! {

/// True when `c` occurs somewhere in `s`.
pub open spec fn contains_char(s: Seq<char>, c: char) -> bool {
    exists|i: int| 0 <= i < s.len() && s[i] == c
}

/// True when position `i` holds the first occurrence of `c` in `s`.
pub open spec fn is_first_index(s: Seq<char>, c: char, i: int) -> bool {
    &&& 0 <= i < s.len()
    &&& s[i] == c
    &&& forall|j: int| 0 <= j < i ==> s[j] != c
}

/// The position of the first occurrence of `c` in `s`.
pub open spec fn first_index(s: Seq<char>, c: char) -> int {
    choose|i: int| is_first_index(s, c, i)
}

/// The character a reference is cut at: `@` when present, else `:`.
pub open spec fn delimiter(s: Seq<char>) -> char {
    if contains_char(s, '@') {
        '@'
    } else {
        ':'
    }
}

/// True when the reference yields a repository and a tag: it is non-empty
/// and its repository segment (everything before the first delimiter, or the
/// whole string) is non-empty.
pub open spec fn splittable(s: Seq<char>) -> bool {
    if contains_char(s, delimiter(s)) {
        s[0] != delimiter(s)
    } else {
        s.len() > 0
    }
}

/// The repository and tag denoted by a splittable reference.
pub open spec fn split_spec(s: Seq<char>) -> (Seq<char>, Seq<char>) {
    if contains_char(s, delimiter(s)) {
        let i = first_index(s, delimiter(s));
        (s.subrange(0, i), s.subrange(i + 1, s.len() as int))
    } else {
        (s, "latest"@)
    }
}

/// The first occurrence of a character is unique, so `first_index` returns
/// exactly the position exhibited by `is_first_index`.
pub proof fn lemma_first_index(s: Seq<char>, c: char, i: int)
    requires
        is_first_index(s, c, i),
    ensures
        first_index(s, c) == i,
{
    let k = first_index(s, c);
    assert(is_first_index(s, c, k));
    if k < i {
        assert(s[k] != c);
    }
    if i < k {
        assert(s[i] != c);
    }
}

/// True for the ASCII whitespace characters.
pub open spec fn is_space_char(c: char) -> bool {
    c == ' ' || c == '\t' || c == '\n' || c == '\r' || c == '\u{c}'
}

/// True when `a` and `b` cut `s` into a leading run of whitespace, a core
/// that neither starts nor ends with whitespace, and a trailing run of
/// whitespace. A whitespace-only string is cut at `0`.
pub open spec fn is_trim_split(s: Seq<char>, a: int, b: int) -> bool {
    &&& 0 <= a <= b <= s.len()
    &&& (forall|i: int| 0 <= i < a ==> is_space_char(s[i]))
    &&& (forall|i: int| b <= i < s.len() ==> is_space_char(s[i]))
    &&& (a < b ==> !is_space_char(s[a]) && !is_space_char(s[b - 1]))
    &&& (a == b ==> a == 0)
}

/// True when `t` is `s` with leading and trailing whitespace removed.
pub open spec fn trimmed(s: Seq<char>, t: Seq<char>) -> bool {
    exists|a: int, b: int| is_trim_split(s, a, b) && t == s.subrange(a, b)
}

/// Only one cut satisfies [`is_trim_split`], so `trimmed` relates `s` to
/// exactly one result.
pub proof fn lemma_trimmed_unique(s: Seq<char>, t1: Seq<char>, t2: Seq<char>)
    requires
        trimmed(s, t1),
        trimmed(s, t2),
    ensures
        t1 == t2,
{
    let (a1, b1): (int, int) = choose|a: int, b: int|
        is_trim_split(s, a, b) && t1 == s.subrange(a, b);
    let (a2, b2): (int, int) = choose|a: int, b: int|
        is_trim_split(s, a, b) && t2 == s.subrange(a, b);
    if a1 == b1 && a2 == b2 {
        assert(t1 =~= t2);
    } else if a1 == b1 && a2 < b2 {
        assert(is_space_char(s[a2]));
        assert(false);
    } else if a2 == b2 && a1 < b1 {
        assert(is_space_char(s[a1]));
        assert(false);
    } else {
        assert(a1 < b1 && a2 < b2);
        assert(a2 <= a1) by {
            if a1 < a2 {
                assert(is_space_char(s[a1]));
            }
        }
        assert(a1 <= a2) by {
            if a2 < a1 {
                assert(is_space_char(s[a2]));
            }
        }
        assert(b1 <= b2) by {
            if b2 < b1 {
                assert(is_space_char(s[b1 - 1]));
            }
        }
        assert(b2 <= b1) by {
            if b1 < b2 {
                assert(is_space_char(s[b2 - 1]));
            }
        }
        assert(t1 =~= t2);
    }
}

/// Whether `c` is whitespace.
fn is_space(c: char) -> (r: bool)
    ensures
        r == is_space_char(c),
{
    c == ' ' || c == '\t' || c == '\n' || c == '\r' || c == '\u{c}'
}

/// The position of the first non-whitespace character of `s`, or its length
/// when there is none.
fn first_non_space(s: &str) -> (a: usize)
    ensures
        a <= s@.len(),
        forall|j: int| 0 <= j < a ==> is_space_char(s@[j]),
        a < s@.len() ==> !is_space_char(s@[a as int]),
{
    let n = s.unicode_len();
    let mut a: usize = 0;
    while a < n
        invariant
            a <= n,
            n == s@.len(),
            forall|j: int| 0 <= j < a ==> is_space_char(s@[j]),
        decreases n - a,
    {
        if !is_space(s.get_char(a)) {
            return a;
        }
        a = a + 1;
    }
    a
}

/// Removes leading and trailing whitespace.
pub fn trim(s: &str) -> (r: String)
    ensures
        trimmed(s@, r@),
{
    let n = s.unicode_len();
    let a = first_non_space(s);
    if a == n {
        let r = String::new();
        proof {
            assert(is_trim_split(s@, 0, 0));
            assert(r@ =~= s@.subrange(0, 0));
        }
        r
    } else {
        let mut b: usize = n;
        while b > a + 1
            invariant
                a < b <= n,
                n == s@.len(),
                !is_space_char(s@[a as int]),
                forall|j: int| 0 <= j < a ==> is_space_char(s@[j]),
                forall|j: int| b <= j < n ==> is_space_char(s@[j]),
            decreases b,
        {
            if !is_space(s.get_char(b - 1)) {
                proof {
                    assert(is_trim_split(s@, a as int, b as int));
                }
                return String::from_str(s.substring_char(a, b));
            }
            b = b - 1;
        }
        proof {
            assert(is_trim_split(s@, a as int, b as int));
        }
        String::from_str(s.substring_char(a, b))
    }
}

/// Cuts a raw image reference into its repository and tag.
///
/// The cut happens once, at the first `@` when the reference holds one and at
/// the first `:` otherwise, so a digest-style tag such as `sha256:abcd` is
/// kept whole. A reference with no delimiter gets the tag `latest`. `None`
/// is returned exactly when the repository segment would be empty.
pub fn split(image: String) -> (r: Option<(String, String)>)
    ensures
        r is Some <==> splittable(image@),
        r matches Some(p) ==> p.0@ == split_spec(image@).0 && p.1@ == split_spec(image@).1,
        r matches Some(p) ==> p.0@.len() > 0,
{
    let s: &str = image.as_str();
    let n: usize = s.unicode_len();
    let mut i: usize = 0;
    let mut at_pos: Option<usize> = None;
    let mut colon_pos: Option<usize> = None;
    while i < n
        invariant
            i <= n,
            n == s@.len(),
            s@ == image@,
            at_pos matches Some(k) ==> k < i && is_first_index(s@, '@', k as int),
            at_pos is None ==> forall|j: int| 0 <= j < i ==> s@[j] != '@',
            colon_pos matches Some(k) ==> k < i && is_first_index(s@, ':', k as int),
            colon_pos is None ==> forall|j: int| 0 <= j < i ==> s@[j] != ':',
        decreases n - i,
    {
        let c = s.get_char(i);
        if c == '@' && at_pos.is_none() {
            at_pos = Some(i);
        }
        if c == ':' && colon_pos.is_none() {
            colon_pos = Some(i);
        }
        i = i + 1;
    }
    proof {
        if at_pos is None {
            assert(!contains_char(image@, '@'));
        }
        if colon_pos is None {
            assert(!contains_char(image@, ':'));
        }
    }
    let sep: Option<usize> = match at_pos {
        Some(k) => Some(k),
        None => colon_pos,
    };
    match sep {
        Some(k) => {
            proof {
                lemma_first_index(image@, delimiter(image@), k as int);
            }
            if k == 0 {
                None
            } else {
                let repo = String::from_str(s.substring_char(0, k));
                let tag = String::from_str(s.substring_char(k + 1, n));
                Some((repo, tag))
            }
        },
        None => {
            if n == 0 {
                None
            } else {
                let tag = String::from_str("latest");
                Some((image, tag))
            }
        },
    }
}

} // verus!
