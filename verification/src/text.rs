//! Character-sequence helpers shared by the error and framing code:
//! decimal rendering of integers, substring search and case folding.

use vstd::prelude::*;
use vstd::std_specs::iter::IteratorSpec;
use vstd::string::StringExecFns;

verus! {

broadcast use vstd::string::group_string_axioms;

/// The character of a decimal digit.
pub open spec fn digit_char(d: nat) -> char {
    if d == 0 {
        '0'
    } else if d == 1 {
        '1'
    } else if d == 2 {
        '2'
    } else if d == 3 {
        '3'
    } else if d == 4 {
        '4'
    } else if d == 5 {
        '5'
    } else if d == 6 {
        '6'
    } else if d == 7 {
        '7'
    } else if d == 8 {
        '8'
    } else {
        '9'
    }
}

/// The decimal rendering of `n`, most significant digit first, without
/// leading zeros (zero renders as "0").
pub open spec fn decimal(n: nat) -> Seq<char>
    decreases n,
{
    if n < 10 {
        seq![digit_char(n)]
    } else {
        decimal(n / 10).push(digit_char(n % 10))
    }
}

/// `needle` occurs as a contiguous block somewhere in `hay`.
pub open spec fn contains_seq(hay: Seq<char>, needle: Seq<char>) -> bool {
    exists|i: int|
        0 <= i && i + needle.len() <= hay.len() && #[trigger] hay.subrange(i, i + needle.len())
            == needle
}

/// The result of Unicode lower-casing a string (`str::to_lowercase`).
pub uninterp spec fn lowercase(s: Seq<char>) -> Seq<char>;

/// Every character of `s` is ASCII.
pub open spec fn all_ascii(s: Seq<char>) -> bool {
    forall|i: int| 0 <= i < s.len() ==> (#[trigger] s[i] as u32) < 128
}

/// ASCII lower-casing of one character: 'A' to 'Z' become 'a' to 'z',
/// every other character is kept.
pub open spec fn ascii_lower_char(c: char) -> char {
    if 'A' <= c && c <= 'Z' {
        ((c as u32) + 32) as char
    } else {
        c
    }
}

/// ASCII upper-casing of one character: 'a' to 'z' become 'A' to 'Z',
/// every other character is kept.
pub open spec fn ascii_upper_char(c: char) -> char {
    if 'a' <= c && c <= 'z' {
        ((c as u32) - 32) as char
    } else {
        c
    }
}

/// ASCII lower-casing of each character of `s`.
pub open spec fn ascii_lower(s: Seq<char>) -> Seq<char> {
    s.map_values(|c: char| ascii_lower_char(c))
}

/// ASCII upper-casing of each character of `s`.
pub open spec fn ascii_upper(s: Seq<char>) -> Seq<char> {
    s.map_values(|c: char| ascii_upper_char(c))
}

/// The lower-cased form in which text is compared case-insensitively:
/// what `str::to_lowercase` gives, which on ASCII text is ASCII
/// lower-casing.
pub open spec fn case_folded(s: Seq<char>) -> Seq<char> {
    if all_ascii(s) {
        ascii_lower(s)
    } else {
        lowercase(s)
    }
}

/// Joining ASCII texts gives ASCII text, and lower-casing it lower-cases
/// each part.
pub proof fn lemma_ascii_join(a: Seq<char>, b: Seq<char>)
    requires
        all_ascii(a),
        all_ascii(b),
    ensures
        all_ascii(a + b),
        ascii_lower(a + b) == ascii_lower(a) + ascii_lower(b),
{
    assert forall|i: int| 0 <= i < (a + b).len() implies ((#[trigger] (a + b)[i]) as u32) < 128 by {
        if i < a.len() {
            assert((a + b)[i] == a[i]);
        } else {
            assert((a + b)[i] == b[i - a.len()]);
        }
    }
    assert(ascii_lower(a + b) =~= ascii_lower(a) + ascii_lower(b));
}

/// Upper- or lower-casing ASCII text keeps it ASCII and does not change
/// its lower-cased form.
pub proof fn lemma_ascii_case(s: Seq<char>)
    requires
        all_ascii(s),
    ensures
        all_ascii(ascii_upper(s)),
        all_ascii(ascii_lower(s)),
        ascii_lower(ascii_upper(s)) == ascii_lower(s),
        ascii_lower(ascii_lower(s)) == ascii_lower(s),
{
    assert forall|i: int| 0 <= i < s.len() implies (#[trigger] ascii_upper(s)[i] as u32) < 128
        && (ascii_lower(s)[i] as u32) < 128 && ascii_lower_char(ascii_upper(s)[i])
        == ascii_lower_char(s[i]) && ascii_lower_char(ascii_lower(s)[i]) == ascii_lower_char(
        s[i],
    ) by {
        let c = s[i];
        assert(ascii_upper(s)[i] == ascii_upper_char(c));
        assert(ascii_lower(s)[i] == ascii_lower_char(c));
    }
    assert(ascii_lower(ascii_upper(s)) =~= ascii_lower(s));
    assert(ascii_lower(ascii_lower(s)) =~= ascii_lower(s));
}

/// A text that occurs in `x` also occurs in `x` with anything before and
/// after it.
pub proof fn lemma_contains_in_context(x: Seq<char>, p: Seq<char>, before: Seq<char>, after: Seq<
    char,
>)
    requires
        contains_seq(x, p),
    ensures
        contains_seq(before + x + after, p),
{
    let i = choose|i: int|
        0 <= i && i + p.len() <= x.len() && #[trigger] x.subrange(i, i + p.len()) == p;
    let y = before + x + after;
    let j = i + before.len();
    assert(y.subrange(j, j + p.len()) =~= x.subrange(i, i + p.len()));
}

/// Wrapper of `str::to_lowercase`; the contract names its result
/// `lowercase` of the input characters.  Lower-casing follows Unicode's
/// lowercase mapping, which on ASCII text maps 'A' to 'Z' to 'a' to 'z'
/// and keeps every other character.
#[verifier::external_body]
pub(crate) fn to_lowercase(s: &str) -> (r: String)
    ensures
        r@ == lowercase(s@),
        all_ascii(s@) ==> r@ == ascii_lower(s@),
{
    s.to_lowercase()
}

/// Wrapper of `String::push`: appends one character.
#[verifier::external_body]
pub(crate) fn push_char(s: &mut String, c: char)
    ensures
        final(s)@ == old(s)@.push(c),
{
    s.push(c)
}

fn digit_to_char(d: u64) -> (c: char)
    requires
        d < 10,
    ensures
        c == digit_char(d as nat),
{
    if d == 0 {
        '0'
    } else if d == 1 {
        '1'
    } else if d == 2 {
        '2'
    } else if d == 3 {
        '3'
    } else if d == 4 {
        '4'
    } else if d == 5 {
        '5'
    } else if d == 6 {
        '6'
    } else if d == 7 {
        '7'
    } else if d == 8 {
        '8'
    } else {
        '9'
    }
}

/// Appends the decimal rendering of `n` to `s`.
pub fn push_decimal(s: &mut String, n: u64)
    ensures
        final(s)@ == old(s)@ + decimal(n as nat),
{
    let mut digits: Vec<char> = Vec::new();
    let mut m: u64 = n;
    while m >= 10
        invariant
            decimal(n as nat) == decimal(m as nat) + digits@.reverse(),
        decreases m,
    {
        let d = digit_to_char(m % 10);
        proof {
            assert(digits@.push(d).reverse() =~= seq![d] + digits@.reverse());
            assert(decimal(m as nat) == decimal((m / 10) as nat).push(d));
            assert(decimal((m / 10) as nat).push(d) + digits@.reverse() =~= decimal(
                (m / 10) as nat,
            ) + (seq![d] + digits@.reverse()));
        }
        digits.push(d);
        m = m / 10;
    }
    let d = digit_to_char(m);
    proof {
        assert(digits@.push(d).reverse() =~= seq![d] + digits@.reverse());
    }
    digits.push(d);
    let ghost target = digits@.reverse();
    assert(decimal(n as nat) =~= target);
    let mut k: usize = digits.len();
    while k > 0
        invariant
            k <= digits.len(),
            target == digits@.reverse(),
            s@ == old(s)@ + target.take((digits.len() - k) as int),
        decreases k,
    {
        k = k - 1;
        let c = digits[k];
        proof {
            assert(target.take((digits.len() - k) as int) =~= target.take(
                (digits.len() - k - 1) as int,
            ).push(c));
        }
        push_char(s, c);
    }
    assert(target.take(digits.len() as int) =~= target);
}

/// The decimal rendering of `n` as a new string.
pub fn decimal_string(n: u64) -> (r: String)
    ensures
        r@ == decimal(n as nat),
{
    let mut s = String::new();
    push_decimal(&mut s, n);
    assert(s@ =~= decimal(n as nat));
    s
}

/// The characters of `s`, one per element.
pub fn chars_of(s: &str) -> (v: Vec<char>)
    ensures
        v@ == s@,
{
    let mut v: Vec<char> = Vec::new();
    for c in it: s.chars()
        invariant
            v@ == it.seq().take(it.index() as int),
    {
        assert(it.seq().take(it.index() + 1) =~= it.seq().take(it.index() as int).push(c));
        v.push(c);
    }
    v
}

/// Substring search: whether `needle` occurs in `hay`.
pub fn contains_chars(hay: &Vec<char>, needle: &Vec<char>) -> (r: bool)
    ensures
        r == contains_seq(hay@, needle@),
{
    if needle.len() > hay.len() {
        return false;
    }
    let last = hay.len() - needle.len();
    let mut i: usize = 0;
    loop
        invariant
            last == hay.len() - needle.len(),
            needle.len() <= hay.len(),
            i <= last,
            forall|j: int|
                0 <= j < i ==> #[trigger] hay@.subrange(j, j + needle.len()) != needle@,
        decreases last - i,
    {
        let mut k: usize = 0;
        let mut matched = true;
        while k < needle.len()
            invariant
                i <= last,
                last == hay.len() - needle.len(),
                k <= needle.len(),
                matched ==> hay@.subrange(i as int, i + k) == needle@.take(k as int),
                !matched ==> hay@.subrange(i as int, i + needle.len()) != needle@,
            decreases needle.len() - k,
        {
            if hay[i + k] != needle[k] {
                assert(hay@.subrange(i as int, i + needle.len())[k as int] != needle@[k as int]);
                matched = false;
            } else if matched {
                assert(hay@.subrange(i as int, i + k + 1) =~= hay@.subrange(i as int, i + k).push(
                    hay@[i + k],
                ));
                assert(needle@.take(k + 1) =~= needle@.take(k as int).push(needle@[k as int]));
            }
            k = k + 1;
        }
        if matched {
            assert(needle@.take(needle.len() as int) =~= needle@);
            assert(hay@.subrange(i as int, i + needle.len()) == needle@);
            return true;
        }
        if i == last {
            proof {
                assert forall|j: int|
                    0 <= j && j + needle@.len() <= hay@.len() implies #[trigger] hay@.subrange(
                    j,
                    j + needle@.len(),
                ) != needle@ by {
                    assert(j <= i);
                }
            }
            return false;
        }
        i = i + 1;
    }
}

/// Substring search on strings: whether `needle` occurs in `hay`.
pub fn str_contains(hay: &str, needle: &str) -> (r: bool)
    ensures
        r == contains_seq(hay@, needle@),
{
    let h = chars_of(hay);
    let n = chars_of(needle);
    contains_chars(&h, &n)
}

/// Whether two strings hold the same characters.
pub fn str_equals(a: &str, b: &str) -> (r: bool)
    ensures
        r == (a@ == b@),
{
    let x = chars_of(a);
    let y = chars_of(b);
    if x.len() != y.len() {
        return false;
    }
    let mut i: usize = 0;
    while i < x.len()
        invariant
            x.len() == y.len(),
            x@ == a@,
            y@ == b@,
            i <= x.len(),
            forall|j: int| 0 <= j < i ==> x@[j] == y@[j],
        decreases x.len() - i,
    {
        if x[i] != y[i] {
            return false;
        }
        i = i + 1;
    }
    assert(x@ =~= y@);
    true
}

/// A copy of a string slice as an owned `String`.
pub fn owned(s: &str) -> (r: String)
    ensures
        r@ == s@,
{
    String::from_str(s)
}

} // verus!
