//! Small verified text utilities: decimal rendering of counters and a
//! substring test, used to build status lines and to classify error
//! messages.

use vstd::prelude::*;

verus! {

/// The character for one decimal digit.
pub open spec fn decimal_digit_char(d: nat) -> char {
    if d == 0 {
        '0'
    } else if d == 1 {
        '1'
    } else if d == 2 {
        '2'
    } else if d == 3 {
        '3'
    } else if d == 4 {
        '4'
    } else if d == 5 {
        '5'
    } else if d == 6 {
        '6'
    } else if d == 7 {
        '7'
    } else if d == 8 {
        '8'
    } else {
        '9'
    }
}

/// The usual decimal rendering of `n`, most significant digit first and
/// without leading zeroes (except for `n == 0` itself).
pub open spec fn decimal_seq(n: nat) -> Seq<char>
    decreases n,
{
    if n < 10 {
        seq![decimal_digit_char(n)]
    } else {
        decimal_seq(n / 10) + seq![decimal_digit_char(n % 10)]
    }
}

/// One digit as a string slice.
fn digit_str(d: u64) -> (r: &'static str)
    requires
        d < 10,
    ensures
        r@ == seq![decimal_digit_char(d as nat)],
{
    if d == 0 {
        let r = "0";
        proof {
            reveal_strlit("0");
            assert(r@ =~= seq![decimal_digit_char(d as nat)]);
        }
        r
    } else if d == 1 {
        let r = "1";
        proof {
            reveal_strlit("1");
            assert(r@ =~= seq![decimal_digit_char(d as nat)]);
        }
        r
    } else if d == 2 {
        let r = "2";
        proof {
            reveal_strlit("2");
            assert(r@ =~= seq![decimal_digit_char(d as nat)]);
        }
        r
    } else if d == 3 {
        let r = "3";
        proof {
            reveal_strlit("3");
            assert(r@ =~= seq![decimal_digit_char(d as nat)]);
        }
        r
    } else if d == 4 {
        let r = "4";
        proof {
            reveal_strlit("4");
            assert(r@ =~= seq![decimal_digit_char(d as nat)]);
        }
        r
    } else if d == 5 {
        let r = "5";
        proof {
            reveal_strlit("5");
            assert(r@ =~= seq![decimal_digit_char(d as nat)]);
        }
        r
    } else if d == 6 {
        let r = "6";
        proof {
            reveal_strlit("6");
            assert(r@ =~= seq![decimal_digit_char(d as nat)]);
        }
        r
    } else if d == 7 {
        let r = "7";
        proof {
            reveal_strlit("7");
            assert(r@ =~= seq![decimal_digit_char(d as nat)]);
        }
        r
    } else if d == 8 {
        let r = "8";
        proof {
            reveal_strlit("8");
            assert(r@ =~= seq![decimal_digit_char(d as nat)]);
        }
        r
    } else {
        let r = "9";
        proof {
            reveal_strlit("9");
            assert(r@ =~= seq![decimal_digit_char(d as nat)]);
        }
        r
    }
}

/// Decimal rendering of a `u64`.
pub fn u64_to_string(n: u64) -> (s: String)
    ensures
        s@ == decimal_seq(n as nat),
    decreases n,
{
    if n < 10 {
        let s = String::from_str(digit_str(n));
        proof {
            assert(s@ =~= decimal_seq(n as nat));
        }
        s
    } else {
        let mut s = u64_to_string(n / 10);
        s.append(digit_str(n % 10));
        proof {
            assert(s@ =~= decimal_seq(n as nat));
        }
        s
    }
}

/// Decimal rendering of a `usize` counter.
pub fn usize_to_string(n: usize) -> (s: String)
    ensures
        s@ == decimal_seq(n as nat),
{
    u64_to_string(n as u64)
}

/// Whether `needle` occurs as a contiguous run of characters in `h`.
pub open spec fn contains_seq(h: Seq<char>, needle: Seq<char>) -> bool {
    exists|i: int| 0 <= i && i + needle.len() <= h.len() && #[trigger] h.subrange(i, i + needle.len() as int) == needle
}

/// Whether `needle` occurs in `h` starting at character position `at`.
fn matches_at(h: &str, needle: &str, at: usize) -> (r: bool)
    requires
        at + needle@.len() <= h@.len(),
    ensures
        r == (h@.subrange(at as int, at as int + needle@.len() as int) == needle@),
{
    let hlen = h.unicode_len();
    let nlen = needle.unicode_len();
    let mut k: usize = 0;
    while k < nlen
        invariant
            at + nlen <= hlen,
            hlen == h@.len(),
            nlen == needle@.len(),
            0 <= k <= nlen,
            forall|j: int| 0 <= j < k ==> h@[at + j] == needle@[j],
        decreases nlen - k,
    {
        if h.get_char(at + k) != needle.get_char(k) {
            proof {
                assert(h@.subrange(at as int, at as int + needle@.len() as int)[k as int] != needle@[k as int]);
            }
            return false;
        }
        k = k + 1;
    }
    proof {
        assert(h@.subrange(at as int, at as int + needle@.len() as int) =~= needle@);
    }
    true
}

/// Substring test over the characters of two string slices.
pub fn str_contains(h: &str, needle: &str) -> (r: bool)
    ensures
        r == contains_seq(h@, needle@),
{
    let hlen = h.unicode_len();
    let nlen = needle.unicode_len();
    if nlen > hlen {
        return false;
    }
    let limit = hlen - nlen;
    let mut i: usize = 0;
    while i < limit
        invariant
            nlen <= hlen,
            hlen == h@.len(),
            nlen == needle@.len(),
            limit == hlen - nlen,
            0 <= i <= limit,
            forall|j: int| 0 <= j < i ==> #[trigger] h@.subrange(j, j + needle@.len() as int) != needle@,
        decreases limit - i,
    {
        if matches_at(h, needle, i) {
            return true;
        }
        i = i + 1;
    }
    if matches_at(h, needle, limit) {
        return true;
    }
    false
}

} // verus!
