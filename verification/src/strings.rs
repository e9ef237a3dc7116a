//! Small verified helpers on character sequences that the header and
//! url logic of the server is written with.

use vstd::prelude::*;

verus! {

/// Whether a character belongs to the url-safe base64 alphabet (`A-Z`, `a-z`, `0-9`, `-`, `_`).
pub open spec fn is_base64url_char(c: char) -> bool {
    ('A' <= c && c <= 'Z') || ('a' <= c && c <= 'z') || ('0' <= c && c <= '9') || c == '-' || c == '_'
}

/// The character sequence held by an optional string.
pub open spec fn opt_str_view(o: Option<String>) -> Option<Seq<char>> {
    match o {
        Some(s) => Some(s@),
        None => None,
    }
}

/// The header text that is read: the given one, or `application/json` when absent.
pub open spec fn str_or(o: Option<&str>, default: Seq<char>) -> Seq<char> {
    match o {
        Some(s) => s@,
        None => default,
    }
}

/// Index of the first occurrence of `c` in `s`, or `s.len()` when `c` does not occur.
pub open spec fn first_index_of(s: Seq<char>, c: char) -> int
    decreases s.len(),
{
    if s.len() == 0 {
        0
    } else if s[0] == c {
        0
    } else {
        1 + first_index_of(s.drop_first(), c)
    }
}

/// The part of `s` before the first `c` (all of `s` when `c` does not occur).
pub open spec fn before_first(s: Seq<char>, c: char) -> Seq<char> {
    s.take(first_index_of(s, c))
}

/// The part of `s` after the first `c`, or `None` when `c` does not occur.
pub open spec fn after_first(s: Seq<char>, c: char) -> Option<Seq<char>> {
    let i = first_index_of(s, c);
    if i < s.len() {
        Some(s.skip(i + 1))
    } else {
        None
    }
}

pub proof fn lemma_first_index_of(s: Seq<char>, c: char)
    ensures
        0 <= first_index_of(s, c) <= s.len(),
        forall|j: int| 0 <= j < first_index_of(s, c) ==> s[j] != c,
        first_index_of(s, c) < s.len() ==> s[first_index_of(s, c)] == c,
    decreases s.len(),
{
    if s.len() > 0 && s[0] != c {
        lemma_first_index_of(s.drop_first(), c);
        assert forall|j: int| 0 <= j < first_index_of(s, c) implies s[j] != c by {
            if j > 0 {
                assert(s[j] == s.drop_first()[j - 1]);
            }
        }
    }
}

/// Characterizes `first_index_of` by its defining properties.
pub proof fn lemma_first_index_of_unique(s: Seq<char>, c: char, i: int)
    requires
        0 <= i <= s.len(),
        forall|j: int| 0 <= j < i ==> s[j] != c,
        i < s.len() ==> s[i] == c,
    ensures
        first_index_of(s, c) == i,
{
    lemma_first_index_of(s, c);
    let k = first_index_of(s, c);
    if k < i {
        assert(s[k] != c);
    } else if i < k {
        assert(s[i] != c);
    }
}

/// Position of the first `c` in `s` at or after `from`, or the length of `s`.
pub fn find_char_from(s: &str, c: char, from: usize) -> (res: usize)
    requires
        from <= s@.len(),
    ensures
        from <= res <= s@.len(),
        forall|j: int| from <= j < res ==> s@[j] != c,
        res < s@.len() ==> s@[res as int] == c,
{
    let n = s.unicode_len();
    let mut i = from;
    while i < n
        invariant
            n == s@.len(),
            from <= i <= n,
            forall|j: int| from <= j < i ==> s@[j] != c,
        decreases n - i,
    {
        if s.get_char(i) == c {
            return i;
        }
        i = i + 1;
    }
    i
}

/// Position of the first `c` in `s`, or its length when `c` does not occur.
pub fn find_char(s: &str, c: char) -> (res: usize)
    ensures
        res == first_index_of(s@, c),
        res <= s@.len(),
{
    let r = find_char_from(s, c, 0);
    proof {
        lemma_first_index_of_unique(s@, c, r as int);
    }
    r
}

/// The decimal digits of `n`, most significant first, without leading zeros
/// (`"0"` for zero).
pub open spec fn decimal(n: nat) -> Seq<char>
    decreases n,
{
    if n < 10 {
        seq![digit_char(n)]
    } else {
        decimal(n / 10) + seq![digit_char(n % 10)]
    }
}

/// The character of a decimal digit.
pub open spec fn digit_char(d: nat) -> char {
    seq!['0', '1', '2', '3', '4', '5', '6', '7', '8', '9'][d as int]
}

fn digit_str(d: u16) -> (res: &'static str)
    requires
        d < 10,
    ensures
        res@ == seq![digit_char(d as nat)],
{
    let digits = "0123456789";
    proof {
        reveal_strlit("0123456789");
    }
    digits.substring_char(d as usize, d as usize + 1)
}

/// Renders `n` in decimal, as `u16`'s `Display` does.
pub fn decimal_u16(n: u16) -> (res: String)
    ensures
        res@ == decimal(n as nat),
    decreases n,
{
    if n < 10 {
        String::from_str(digit_str(n))
    } else {
        let mut s = decimal_u16(n / 10);
        s.append(digit_str(n % 10));
        s
    }
}

} // verus!
