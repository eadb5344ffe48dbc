//! Small facts about strings that extraction decides on.
use vstd::prelude::*;

verus! {

/// `s` ends with `suffix`.
pub open spec fn has_suffix(s: Seq<char>, suffix: Seq<char>) -> bool {
    suffix.len() <= s.len() && s.subrange(s.len() - suffix.len(), s.len() as int) == suffix
}

pub fn ends_with(s: &str, suffix: &str) -> (r: bool)
    ensures
        r == has_suffix(s@, suffix@),
{
    let n = s.unicode_len();
    let m = suffix.unicode_len();
    if m > n {
        return false;
    }
    let mut i: usize = 0;
    while i < m
        invariant
            n == s@.len(),
            m == suffix@.len(),
            m <= n,
            i <= m,
            forall|j: int| 0 <= j < i ==> s@[n - m + j] == #[trigger] suffix@[j],
        decreases m - i,
    {
        if s.get_char(n - m + i) != suffix.get_char(i) {
            assert(s@.subrange(n - m, n as int)[i as int] != suffix@[i as int]);
            return false;
        }
        i = i + 1;
    }
    assert(s@.subrange(n - m, n as int) =~= suffix@);
    true
}

pub fn contains_char(s: &str, c: char) -> (r: bool)
    ensures
        r == s@.contains(c),
{
    let n = s.unicode_len();
    let mut i: usize = 0;
    while i < n
        invariant
            n == s@.len(),
            i <= n,
            forall|j: int| 0 <= j < i ==> s@[j] != c,
        decreases n - i,
    {
        if s.get_char(i) == c {
            return true;
        }
        i = i + 1;
    }
    false
}

/// `pattern` occurs in `s` at index `i`.
pub open spec fn occurs_at(s: Seq<char>, pattern: Seq<char>, i: int) -> bool {
    0 <= i && i + pattern.len() <= s.len() && s.subrange(i, i + pattern.len()) == pattern
}

/// Whether `pattern` occurs in `s`, such as the resolver marker in a comment.
pub fn contains_text(s: &str, pattern: &str) -> (r: bool)
    ensures
        r == exists|i: int| occurs_at(s@, pattern@, i),
{
    let n = s.unicode_len();
    let m = pattern.unicode_len();
    if m > n {
        proof {
            assert forall|i: int| !occurs_at(s@, pattern@, i) by {}
        }
        return false;
    }
    if m == 0 {
        assert(s@.subrange(0, 0) =~= pattern@);
        assert(occurs_at(s@, pattern@, 0));
        return true;
    }
    let mut i: usize = 0;
    while i <= n - m
        invariant
            n == s@.len(),
            m == pattern@.len(),
            0 < m <= n,
            i <= n - m + 1,
            forall|k: int| 0 <= k < i ==> !occurs_at(s@, pattern@, k),
        decreases n - m + 1 - i,
    {
        let mut j: usize = 0;
        let mut same = true;
        while j < m
            invariant
                n == s@.len(),
                m == pattern@.len(),
                m <= n,
                i <= n - m,
                j <= m,
                same ==> forall|t: int| 0 <= t < j ==> s@[i + t] == #[trigger] pattern@[t],
                !same ==> !occurs_at(s@, pattern@, i as int),
            decreases m - j,
        {
            if same && s.get_char(i + j) != pattern.get_char(j) {
                assert(s@.subrange(i as int, i + m)[j as int] != pattern@[j as int]);
                same = false;
            }
            j = j + 1;
        }
        if same {
            assert(s@.subrange(i as int, i + m) =~= pattern@);
            assert(occurs_at(s@, pattern@, i as int));
            return true;
        }
        i = i + 1;
    }
    proof {
        assert forall|k: int| !occurs_at(s@, pattern@, k) by {
            if 0 <= k < i {
            }
        }
    }
    false
}

/// Whether a leading comment holds the resolver marker `@RelayResolver`, which
/// makes it a resolver docblock.
pub fn is_resolver_comment(comment: &str) -> (r: bool)
    ensures
        r == exists|i: int| occurs_at(comment@, "@RelayResolver"@, i),
{
    contains_text(comment, "@RelayResolver")
}

/// `i` is the index of the first `.` in `s`.
pub open spec fn is_first_dot(s: Seq<char>, i: int) -> bool {
    &&& 0 <= i < s.len()
    &&& s[i] == '.'
    &&& forall|j: int| 0 <= j < i ==> s[j] != '.'
}

pub open spec fn first_dot(s: Seq<char>) -> int {
    choose|i: int| is_first_dot(s, i)
}

/// The part of a `Type.field` name before its first dot.
pub open spec fn before_dot(s: Seq<char>) -> Seq<char> {
    s.subrange(0, first_dot(s))
}

/// The part of a `Type.field` name after its first dot.
pub open spec fn after_dot(s: Seq<char>) -> Seq<char> {
    s.subrange(first_dot(s) + 1, s.len() as int)
}

fn first_dot_index(s: &str) -> (r: usize)
    requires
        s@.contains('.'),
    ensures
        r == first_dot(s@),
        r < s@.len(),
{
    let n = s.unicode_len();
    let mut i: usize = 0;
    while i < n
        invariant
            n == s@.len(),
            i <= n,
            s@.contains('.'),
            forall|j: int| 0 <= j < i ==> s@[j] != '.',
        decreases n - i,
    {
        if s.get_char(i) == '.' {
            proof {
                assert(is_first_dot(s@, i as int));
                let c = first_dot(s@);
                if c < i {
                    assert(s@[c] != '.');
                } else if i < c {
                    assert(s@[i as int] != '.');
                }
            }
            return i;
        }
        i = i + 1;
    }
    proof {
        let k = choose|k: int| 0 <= k < s@.len() && s@[k] == '.';
        assert(s@[k] != '.');
    }
    0
}

/// The part of `s` before its first dot.
pub fn before_first_dot(s: &str) -> (r: String)
    requires
        s@.contains('.'),
    ensures
        r@ == before_dot(s@),
{
    let i = first_dot_index(s);
    s.substring_char(0, i).to_owned()
}

/// The part of `s` after its first dot.
pub fn after_first_dot(s: &str) -> (r: String)
    requires
        s@.contains('.'),
    ensures
        r@ == after_dot(s@),
{
    let i = first_dot_index(s);
    let n = s.unicode_len();
    s.substring_char(i + 1, n).to_owned()
}

/// Whether a character is lowercase, as the Unicode `Lowercase` property says.
pub uninterp spec fn is_lowercase_char(c: char) -> bool;

/// Relies on `char::is_lowercase`: the Unicode `Lowercase` property, true of
/// `a` to `z` and false of `A` to `Z`.
#[verifier::external_body]
pub fn char_is_lowercase(c: char) -> (r: bool)
    ensures
        r == is_lowercase_char(c),
        'a' <= c <= 'z' ==> r,
        'A' <= c <= 'Z' ==> !r,
{
    c.is_lowercase()
}

/// The file name of a path without its extension, if the path has a file name.
pub uninterp spec fn file_stem_of(path: Seq<char>) -> Option<Seq<char>>;

/// Relies on `std::path::Path::file_stem`: the last component of the path
/// without its final extension, or nothing when the path has no file name.
#[verifier::external_body]
pub fn file_stem(path: &str) -> (r: Option<String>)
    ensures
        match r {
            Some(s) => file_stem_of(path@) == Some(s@),
            None => file_stem_of(path@) is None,
        },
{
    match std::path::Path::new(path).file_stem() {
        Some(stem) => match stem.to_str() {
            Some(s) => Some(s.to_string()),
            None => None,
        },
        None => None,
    }
}

} // verus!
