//! Character-level helpers shared by the catalogs, the directory and the query builder.

use vstd::prelude::*;
use vstd::string::*;
use vstd::utf8::is_ascii_chars;

verus! {

/// The ASCII uppercase of one character; every other character is left as it is.
pub open spec fn upper_char(c: char) -> char {
    if 'a' <= c && c <= 'z' {
        ((c as u32) - 32) as char
    } else {
        c
    }
}

/// The ASCII uppercase of a character sequence.
pub open spec fn ascii_upper(s: Seq<char>) -> Seq<char> {
    Seq::new(s.len(), |i: int| upper_char(s[i]))
}

/// What `str::to_uppercase` makes of a character sequence (full Unicode case mapping).
pub uninterp spec fn upper_of(s: Seq<char>) -> Seq<char>;

/// Relies on `str::to_uppercase`: the result depends on the characters alone, and on an
/// ASCII string it maps `a`..`z` to `A`..`Z` and keeps every other character.
#[verifier::external_body]
pub(crate) fn uppercase(s: &str) -> (r: String)
    ensures
        r@ == upper_of(s@),
        is_ascii_chars(s@) ==> r@ == ascii_upper(s@),
{
    s.to_uppercase()
}

/// The ASCII uppercase of one character.
pub fn upper_char_exec(c: char) -> (r: char)
    ensures
        r == upper_char(c),
{
    if 'a' <= c && c <= 'z' {
        ((c as u8) - 32) as char
    } else {
        c
    }
}

/// Whether two strings are equal once both are uppercased in ASCII.
pub fn eq_ignore_ascii_case(a: &str, b: &str) -> (r: bool)
    ensures
        r == (ascii_upper(a@) == ascii_upper(b@)),
{
    let n = a.unicode_len();
    if n != b.unicode_len() {
        assert(ascii_upper(a@).len() != ascii_upper(b@).len());
        return false;
    }
    let mut i: usize = 0;
    while i < n
        invariant
            0 <= i <= n,
            n == a@.len(),
            n == b@.len(),
            forall|j: int| 0 <= j < i ==> upper_char(#[trigger] a@[j]) == upper_char(b@[j]),
        decreases n - i,
    {
        if upper_char_exec(a.get_char(i)) != upper_char_exec(b.get_char(i)) {
            assert(ascii_upper(a@)[i as int] != ascii_upper(b@)[i as int]);
            return false;
        }
        i += 1;
    }
    assert(ascii_upper(a@) =~= ascii_upper(b@));
    true
}

/// Whether `u` is the ASCII uppercase of `canon`.
pub fn matches_upper(u: &str, canon: &str) -> (r: bool)
    ensures
        r == (u@ == ascii_upper(canon@)),
{
    let n = u.unicode_len();
    if n != canon.unicode_len() {
        return false;
    }
    let mut i: usize = 0;
    while i < n
        invariant
            0 <= i <= n,
            n == u@.len(),
            n == canon@.len(),
            forall|j: int| 0 <= j < i ==> u@[j] == upper_char(#[trigger] canon@[j]),
        decreases n - i,
    {
        if u.get_char(i) != upper_char_exec(canon.get_char(i)) {
            assert(u@[i as int] != ascii_upper(canon@)[i as int]);
            return false;
        }
        i += 1;
    }
    assert(u@ =~= ascii_upper(canon@));
    true
}

/// The decimal digit character for `d < 10`.
pub open spec fn digit_char(d: nat) -> char {
    (('0' as u32) + d) as char
}

/// The decimal representation of `n`, without leading zeros.
pub open spec fn decimal(n: nat) -> Seq<char>
    decreases n,
{
    if n < 10 {
        seq![digit_char(n)]
    } else {
        decimal(n / 10).push(digit_char(n % 10))
    }
}

/// `s` left-padded with `'0'` up to `width` characters; a longer `s` is kept whole.
pub open spec fn zero_padded(s: Seq<char>, width: nat) -> Seq<char> {
    if s.len() >= width {
        s
    } else {
        Seq::new((width - s.len()) as nat, |i: int| '0') + s
    }
}

pub open spec fn pow10(k: nat) -> nat
    decreases k,
{
    if k == 0 {
        1
    } else {
        10 * pow10((k - 1) as nat)
    }
}

/// A number below `10^k` has at most `k` decimal digits.
pub proof fn lemma_decimal_len(n: nat, k: nat)
    requires
        k >= 1,
        n < pow10(k),
    ensures
        decimal(n).len() <= k,
    decreases k,
{
    if n >= 10 {
        let p = pow10((k - 1) as nat);
        if k == 1 {
            assert(pow10(1) == 10) by {
                assert(pow10(0) == 1);
            }
        } else {
            assert(n / 10 < p) by (nonlinear_arith)
                requires
                    n < 10 * p,
            ;
            lemma_decimal_len(n / 10, (k - 1) as nat);
        }
    }
}

fn digit_text(d: u32) -> (r: &'static str)
    requires
        d < 10,
    ensures
        r@ == seq![digit_char(d as nat)],
{
    let r = if d == 0 {
        proof { reveal_strlit("0"); }
        "0"
    } else if d == 1 {
        proof { reveal_strlit("1"); }
        "1"
    } else if d == 2 {
        proof { reveal_strlit("2"); }
        "2"
    } else if d == 3 {
        proof { reveal_strlit("3"); }
        "3"
    } else if d == 4 {
        proof { reveal_strlit("4"); }
        "4"
    } else if d == 5 {
        proof { reveal_strlit("5"); }
        "5"
    } else if d == 6 {
        proof { reveal_strlit("6"); }
        "6"
    } else if d == 7 {
        proof { reveal_strlit("7"); }
        "7"
    } else if d == 8 {
        proof { reveal_strlit("8"); }
        "8"
    } else {
        proof { reveal_strlit("9"); }
        "9"
    };
    assert(r@ =~= seq![digit_char(d as nat)]);
    r
}

/// The decimal representation of `n`.
pub fn decimal_text(n: u32) -> (r: String)
    ensures
        r@ == decimal(n as nat),
{
    let mut m = n;
    let mut acc = String::new();
    while m >= 10
        invariant
            decimal(n as nat) == decimal(m as nat) + acc@,
        decreases m,
    {
        let next = String::from_str(digit_text(m % 10)).concat(acc.as_str());
        assert(decimal(m as nat) + acc@ =~= decimal((m / 10) as nat) + next@);
        acc = next;
        m = m / 10;
    }
    let r = String::from_str(digit_text(m)).concat(acc.as_str());
    assert(r@ =~= decimal(n as nat));
    r
}

/// The ten-character form of a CIK: its decimal digits, left-padded with zeros.
pub open spec fn padded_cik(n: u32) -> Seq<char> {
    zero_padded(decimal(n as nat), 10)
}

/// Every CIK that a `u32` holds pads to exactly ten characters.
pub proof fn lemma_padded_cik_len(n: u32)
    ensures
        padded_cik(n).len() == 10,
{
    reveal_with_fuel(pow10, 11);
    lemma_decimal_len(n as nat, 10);
}

/// The CIK `n` as exactly ten decimal digits, left-padded with zeros.
pub fn pad_cik(n: u32) -> (r: String)
    ensures
        r@ == padded_cik(n),
        r@.len() == 10,
{
    let mut r = decimal_text(n);
    proof {
        reveal_with_fuel(pow10, 11);
        assert(pow10(10) == 10000000000);
        lemma_decimal_len(n as nat, 10);
    }
    let ghost digits = r@;
    let mut len = r.unicode_len();
    while len < 10
        invariant
            len == r@.len(),
            digits.len() <= len <= 10,
            r@ == Seq::new((len - digits.len()) as nat, |i: int| '0') + digits,
        decreases 10 - len,
    {
        let next = String::from_str("0").concat(r.as_str());
        proof {
            reveal_strlit("0");
            assert(next@ =~= Seq::new((len + 1 - digits.len()) as nat, |i: int| '0') + digits);
        }
        r = next;
        len = len + 1;
    }
    assert(r@ =~= zero_padded(digits, 10));
    r
}

} // verus!
