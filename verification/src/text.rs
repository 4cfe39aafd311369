//! Character-level helpers on strings: Unicode white space, trimming and
//! comparison of string slices by their characters.

use vstd::prelude::*;

verus! {

/// The Unicode `White_Space` property, which `char::is_whitespace` follows.
pub open spec fn is_white_space(c: char) -> bool {
    let u = c as u32;
    ||| 0x09 <= u <= 0x0D
    ||| u == 0x20
    ||| u == 0x85
    ||| u == 0xA0
    ||| u == 0x1680
    ||| 0x2000 <= u <= 0x200A
    ||| u == 0x2028
    ||| u == 0x2029
    ||| u == 0x202F
    ||| u == 0x205F
    ||| u == 0x3000
}

/// Decides `is_white_space`.
pub fn is_white_space_char(c: char) -> (r: bool)
    ensures
        r == is_white_space(c),
{
    let u = c as u32;
    (0x09 <= u && u <= 0x0D) || u == 0x20 || u == 0x85 || u == 0xA0 || u == 0x1680 || (0x2000
        <= u && u <= 0x200A) || u == 0x2028 || u == 0x2029 || u == 0x202F || u == 0x205F || u
        == 0x3000
}

/// The index of the first character at or after `i` that is not white space
/// (the length of `s` when there is none).
pub open spec fn first_non_space_from(s: Seq<char>, i: int) -> int
    decreases s.len() - i,
{
    if 0 <= i < s.len() && is_white_space(s[i]) {
        first_non_space_from(s, i + 1)
    } else {
        i
    }
}

/// The end of `s.subrange(lo, j)` once its trailing white space is dropped.
pub open spec fn end_without_trailing_space(s: Seq<char>, lo: int, j: int) -> int
    decreases j - lo,
{
    if lo < j && is_white_space(s[j - 1]) {
        end_without_trailing_space(s, lo, j - 1)
    } else {
        j
    }
}

/// `s` without its leading and trailing white space, as `str::trim` gives it.
pub open spec fn trimmed(s: Seq<char>) -> Seq<char> {
    let start = first_non_space_from(s, 0);
    s.subrange(start, end_without_trailing_space(s, start, s.len() as int))
}

proof fn lemma_first_non_space_bounds(s: Seq<char>, i: int)
    requires
        0 <= i <= s.len(),
    ensures
        i <= first_non_space_from(s, i) <= s.len(),
        forall|k: int| i <= k < first_non_space_from(s, i) ==> is_white_space(#[trigger] s[k]),
        first_non_space_from(s, i) < s.len() ==> !is_white_space(s[first_non_space_from(s, i)]),
    decreases s.len() - i,
{
    if i < s.len() && is_white_space(s[i]) {
        lemma_first_non_space_bounds(s, i + 1);
    }
}

proof fn lemma_end_without_trailing_space_bounds(s: Seq<char>, lo: int, j: int)
    requires
        0 <= lo <= j <= s.len(),
    ensures
        lo <= end_without_trailing_space(s, lo, j) <= j,
        forall|k: int|
            end_without_trailing_space(s, lo, j) <= k < j ==> is_white_space(#[trigger] s[k]),
        lo < end_without_trailing_space(s, lo, j) ==> !is_white_space(
            s[end_without_trailing_space(s, lo, j) - 1],
        ),
    decreases j - lo,
{
    if lo < j && is_white_space(s[j - 1]) {
        lemma_end_without_trailing_space_bounds(s, lo, j - 1);
    }
}

/// What trimming leaves: no white space at either end, and only white space
/// cut away on each side.
pub proof fn lemma_trimmed_shape(s: Seq<char>)
    ensures
        trimmed(s).len() > 0 ==> !is_white_space(trimmed(s)[0]) && !is_white_space(
            trimmed(s)[trimmed(s).len() - 1],
        ),
        exists|a: int, b: int|
            0 <= a <= b <= s.len() && trimmed(s) == s.subrange(a, b) && (forall|k: int|
                0 <= k < a ==> is_white_space(#[trigger] s[k])) && (forall|k: int|
                b <= k < s.len() ==> is_white_space(#[trigger] s[k])),
{
    let start = first_non_space_from(s, 0);
    lemma_first_non_space_bounds(s, 0);
    lemma_end_without_trailing_space_bounds(s, start, s.len() as int);
    let end = end_without_trailing_space(s, start, s.len() as int);
    assert(trimmed(s) == s.subrange(start, end));
}

/// `s` with its leading and trailing white space removed.
pub fn trim(s: &str) -> (r: String)
    ensures
        r@ == trimmed(s@),
{
    let n = s.unicode_len();
    let mut i: usize = 0;
    while i < n && is_white_space_char(s.get_char(i))
        invariant
            n == s@.len(),
            0 <= i <= n,
            first_non_space_from(s@, 0) == first_non_space_from(s@, i as int),
        decreases n - i,
    {
        i = i + 1;
    }
    let mut j: usize = n;
    while i < j && is_white_space_char(s.get_char(j - 1))
        invariant
            n == s@.len(),
            0 <= i <= j <= n,
            first_non_space_from(s@, 0) == i,
            end_without_trailing_space(s@, i as int, n as int) == end_without_trailing_space(
                s@,
                i as int,
                j as int,
            ),
        decreases j - i,
    {
        j = j - 1;
    }
    String::from_str(s.substring_char(i, j))
}

/// Whether two string slices hold the same characters.
pub fn same_text(a: &str, b: &str) -> (r: bool)
    ensures
        r == (a@ == b@),
{
    let a_owned: String = a.to_owned();
    let b_owned: String = b.to_owned();
    a_owned == b_owned
}

} // verus!
