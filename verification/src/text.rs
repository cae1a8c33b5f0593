//! Character-level text utilities: whitespace tests, trimming, equality of
//! string slices, and locating the first `=` of an attribute line.
//!
//! Every executable function is proved equal to a spec-level definition over
//! `Seq<char>`; the rest of the crate states its contracts in terms of these
//! spec functions.

use vstd::prelude::*;
use vstd::string::StrSliceExecFns;

verus! {

/// The whitespace characters the parser recognizes.
pub open spec fn is_space(c: char) -> bool {
    c == ' ' || c == '\t' || c == '\n' || c == '\r' || c == '\u{0b}' || c == '\u{0c}'
}

/// A line is blank when every character is whitespace (an empty line is blank).
pub open spec fn is_blank(s: Seq<char>) -> bool {
    forall|i: int| 0 <= i < s.len() ==> is_space(#[trigger] s[i])
}

/// `s` with trailing whitespace removed.
pub open spec fn trim_back(s: Seq<char>) -> Seq<char>
    decreases s.len(),
{
    if s.len() > 0 && is_space(s.last()) {
        trim_back(s.drop_last())
    } else {
        s
    }
}

/// `s` with leading whitespace removed.
pub open spec fn trim_front(s: Seq<char>) -> Seq<char>
    decreases s.len(),
{
    if s.len() > 0 && is_space(s.first()) {
        trim_front(s.drop_first())
    } else {
        s
    }
}

/// `s` with leading and trailing whitespace removed.
pub open spec fn trimmed(s: Seq<char>) -> Seq<char> {
    trim_front(trim_back(s))
}

/// The index of the first `=` at or after `i`, or `s.len()` when there is none.
pub open spec fn first_eq_at(s: Seq<char>, i: int) -> int
    decreases s.len() - i when 0 <= i
{
    if i >= s.len() {
        s.len() as int
    } else if s[i] == '=' {
        i
    } else {
        first_eq_at(s, i + 1)
    }
}

/// True when the line's last character is a backslash.
pub open spec fn ends_backslash(s: Seq<char>) -> bool {
    s.len() > 0 && s.last() == '\\'
}

/// Whether `c` is one of the recognized whitespace characters.
pub fn space_char(c: char) -> (r: bool)
    ensures
        r == is_space(c),
{
    c == ' ' || c == '\t' || c == '\n' || c == '\r' || c == '\u{0b}' || c == '\u{0c}'
}

/// Whether every character of `s` is whitespace.
pub fn blank_line(s: &str) -> (r: bool)
    ensures
        r == is_blank(s@),
{
    let n = s.unicode_len();
    let mut i: usize = 0;
    while i < n
        invariant
            i <= n,
            n == s@.len(),
            forall|j: int| 0 <= j < i ==> is_space(#[trigger] s@[j]),
        decreases n - i,
    {
        if !space_char(s.get_char(i)) {
            return false;
        }
        i += 1;
    }
    true
}

/// Whether the raw line ends with a backslash.
pub fn ends_with_backslash(s: &str) -> (r: bool)
    ensures
        r == ends_backslash(s@),
{
    let n = s.unicode_len();
    n > 0 && s.get_char(n - 1) == '\\'
}

/// Whether two string slices hold the same characters.
pub fn str_eq(a: &str, b: &str) -> (r: bool)
    ensures
        r == (a@ == b@),
{
    let n = a.unicode_len();
    let m = b.unicode_len();
    if n != m {
        return false;
    }
    let mut i: usize = 0;
    while i < n
        invariant
            i <= n,
            n == a@.len(),
            n == b@.len(),
            forall|j: int| 0 <= j < i ==> a@[j] == b@[j],
        decreases n - i,
    {
        if a.get_char(i) != b.get_char(i) {
            return false;
        }
        i += 1;
    }
    proof {
        assert(a@ =~= b@);
    }
    true
}

/// `s` without its leading and trailing whitespace.
pub fn trim_str(s: &str) -> (r: &str)
    ensures
        r@ == trimmed(s@),
{
    let n = s.unicode_len();
    proof {
        assert(s@.take(n as int) =~= s@);
    }
    let mut b: usize = n;
    while b > 0 && space_char(s.get_char(b - 1))
        invariant
            b <= n,
            n == s@.len(),
            trim_back(s@) == trim_back(s@.take(b as int)),
        decreases b,
    {
        proof {
            assert(s@.take(b as int).drop_last() =~= s@.take(b as int - 1));
        }
        b -= 1;
    }
    proof {
        if b == 0 {
            assert(s@.take(0) =~= Seq::<char>::empty());
        }
        assert(trim_back(s@) == s@.take(b as int));
    }
    let mut a: usize = 0;
    while a < b && space_char(s.get_char(a))
        invariant
            a <= b <= n,
            n == s@.len(),
            trim_back(s@) == s@.take(b as int),
            trim_front(s@.take(b as int)) == trim_front(s@.subrange(a as int, b as int)),
        decreases b - a,
    {
        proof {
            assert(s@.subrange(a as int, b as int).drop_first() =~= s@.subrange(
                a as int + 1,
                b as int,
            ));
        }
        a += 1;
    }
    proof {
        assert(s@.take(b as int) =~= s@.subrange(0, b as int));
        assert(trim_front(s@.subrange(a as int, b as int)) == s@.subrange(a as int, b as int));
    }
    s.substring_char(a, b)
}

/// The index of the first whitespace character at or after `i`, or `s.len()`.
pub open spec fn token_end(s: Seq<char>, i: int) -> int
    decreases s.len() - i when 0 <= i
{
    if i >= s.len() {
        s.len() as int
    } else if is_space(s[i]) {
        i
    } else {
        token_end(s, i + 1)
    }
}

/// A token's end never lies before its start nor past the end.
pub proof fn lemma_token_end_bounds(s: Seq<char>, i: int)
    requires
        0 <= i <= s.len(),
    ensures
        i <= token_end(s, i) <= s.len(),
    decreases s.len() - i,
{
    if i < s.len() && !is_space(s[i]) {
        lemma_token_end_bounds(s, i + 1);
    }
}

/// The whitespace-separated tokens of `s` from index `i` on, in order.
pub open spec fn split_ws_from(s: Seq<char>, i: int) -> Seq<Seq<char>>
    decreases s.len() - i + 1 when 0 <= i via split_ws_from_decreases
{
    if i >= s.len() {
        Seq::empty()
    } else if is_space(s[i]) {
        split_ws_from(s, i + 1)
    } else {
        seq![s.subrange(i, token_end(s, i))] + split_ws_from(s, token_end(s, i))
    }
}

#[via_fn]
proof fn split_ws_from_decreases(s: Seq<char>, i: int) {
    if 0 <= i < s.len() && !is_space(s[i]) {
        lemma_token_end_bounds(s, i + 1);
        assert(token_end(s, i) == token_end(s, i + 1));
    }
}

/// The whitespace-separated tokens of `s`.
pub open spec fn split_ws(s: Seq<char>) -> Seq<Seq<char>> {
    split_ws_from(s, 0)
}

/// Splits `s` into its whitespace-separated tokens.
pub fn split_tokens(s: &str) -> (r: Vec<String>)
    ensures
        r.deep_view() == split_ws(s@),
{
    let n = s.unicode_len();
    let mut r: Vec<String> = Vec::new();
    let mut i: usize = 0;
    proof {
        assert(r.deep_view() =~= Seq::<Seq<char>>::empty());
    }
    while i < n
        invariant
            i <= n,
            n == s@.len(),
            split_ws(s@) =~= r.deep_view() + split_ws_from(s@, i as int),
        decreases n - i,
    {
        if space_char(s.get_char(i)) {
            i += 1;
        } else {
            let mut j: usize = i + 1;
            proof {
                assert(token_end(s@, i as int) == token_end(s@, i as int + 1));
            }
            while j < n && !space_char(s.get_char(j))
                invariant
                    i < j <= n,
                    n == s@.len(),
                    token_end(s@, i as int) == token_end(s@, j as int),
                decreases n - j,
            {
                j += 1;
            }
            proof {
                assert(token_end(s@, i as int) == j as int);
                lemma_token_end_bounds(s@, i as int);
            }
            let piece = s.substring_char(i, j);
            let ghost prev = r.deep_view();
            r.push(piece.to_owned());
            proof {
                let tok = s@.subrange(i as int, j as int);
                assert(r.deep_view() =~= prev + seq![tok]);
                assert(prev + (seq![tok] + split_ws_from(s@, j as int)) =~= (prev + seq![tok])
                    + split_ws_from(s@, j as int));
            }
            i = j;
        }
    }
    proof {
        assert(split_ws_from(s@, i as int) =~= Seq::<Seq<char>>::empty());
        assert(r.deep_view() + Seq::<Seq<char>>::empty() =~= r.deep_view());
    }
    r
}

/// The index of the last `.` in `s`, or `-1` when `s` has none.
pub open spec fn last_dot(s: Seq<char>) -> int
    decreases s.len(),
{
    if s.len() == 0 {
        -1
    } else if s.last() == '.' {
        s.len() - 1
    } else {
        last_dot(s.drop_last())
    }
}

/// The last dot lies inside the string when there is one.
pub proof fn lemma_last_dot_bounds(s: Seq<char>)
    ensures
        -1 <= last_dot(s) < s.len(),
    decreases s.len(),
{
    if s.len() > 0 && s.last() != '.' {
        lemma_last_dot_bounds(s.drop_last());
    }
}

/// Finds the position of the last `.` in `s`, if any.
pub fn find_last_dot(s: &str) -> (r: Option<usize>)
    ensures
        match r {
            Some(k) => k == last_dot(s@) && k < s@.len(),
            None => last_dot(s@) == -1,
        },
{
    let n = s.unicode_len();
    let mut b: usize = n;
    proof {
        assert(s@.take(n as int) =~= s@);
    }
    while b > 0
        invariant
            b <= n,
            n == s@.len(),
            last_dot(s@) == last_dot(s@.take(b as int)),
        decreases b,
    {
        if s.get_char(b - 1) == '.' {
            proof {
                assert(s@.take(b as int).last() == s@[b as int - 1]);
                lemma_last_dot_bounds(s@);
            }
            return Some(b - 1);
        }
        proof {
            assert(s@.take(b as int).drop_last() =~= s@.take(b as int - 1));
        }
        b -= 1;
    }
    proof {
        assert(s@.take(0) =~= Seq::<char>::empty());
    }
    None
}

/// The position of the first `=` in `s`, or `None` when `s` has none.
pub fn find_eq_sign(s: &str) -> (r: Option<usize>)
    ensures
        match r {
            Some(k) => k == first_eq_at(s@, 0) && k < s@.len(),
            None => first_eq_at(s@, 0) == s@.len(),
        },
{
    let n = s.unicode_len();
    let mut i: usize = 0;
    while i < n
        invariant
            i <= n,
            n == s@.len(),
            first_eq_at(s@, 0) == first_eq_at(s@, i as int),
        decreases n - i,
    {
        if s.get_char(i) == '=' {
            return Some(i);
        }
        i += 1;
    }
    None
}

} // verus!
