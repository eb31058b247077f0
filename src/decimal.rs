//! Reading an unsigned 32-bit integer written in decimal, as `str::parse::<u32>` does.
use vstd::prelude::*;
use vstd::string::*;

verus! {

/// The largest value a `u32` holds, plus one.
pub const U32_BOUND: u64 = 0x1_0000_0000;

/// `c` is one of the ASCII digits `0` to `9`.
pub open spec fn is_digit(c: char) -> bool {
    '0' <= c && c <= '9'
}

/// The value of the digit `c`.
pub open spec fn digit_value(c: char) -> nat {
    (c as nat - '0' as nat) as nat
}

/// The value of a sequence of digits, most significant first.
pub open spec fn digits_value(s: Seq<char>) -> nat
    decreases s.len(),
{
    if s.len() == 0 {
        0
    } else {
        digits_value(s.drop_last()) * 10 + digit_value(s.last())
    }
}

/// The text after one optional leading `+`.
pub open spec fn unsigned_part(s: Seq<char>) -> Seq<char> {
    if s.len() > 0 && s[0] == '+' {
        s.drop_first()
    } else {
        s
    }
}

/// `s` is an optional `+` followed by one or more digits.
pub open spec fn is_decimal(s: Seq<char>) -> bool {
    let d = unsigned_part(s);
    d.len() > 0 && forall|i: int| 0 <= i < d.len() ==> is_digit(#[trigger] d[i])
}

/// The `u32` that `s` spells in decimal, if it spells one.
pub open spec fn decimal_u32(s: Seq<char>) -> Option<u32> {
    if is_decimal(s) && digits_value(unsigned_part(s)) < U32_BOUND {
        Some(digits_value(unsigned_part(s)) as u32)
    } else {
        None
    }
}

/// Reads `s` as an unsigned decimal integer that fits in a `u32`: an optional
/// `+` and at least one digit, nothing else. Leading zeros are allowed.
pub fn parse_u32(s: &str) -> (r: Option<u32>)
    ensures
        r == decimal_u32(s@),
{
    let n = s.unicode_len();
    let mut start: usize = 0;
    if n > 0 && s.get_char(0) == '+' {
        start = 1;
    }
    let ghost d = unsigned_part(s@);
    assert(d =~= s@.subrange(start as int, n as int));
    if start == n {
        return None;
    }
    // `acc` is the value of the digits read so far, capped at `U32_BOUND`.
    let mut acc: u64 = 0;
    let mut i: usize = start;
    while i < n
        invariant
            start <= i <= n,
            n == s@.len(),
            d == unsigned_part(s@),
            d =~= s@.subrange(start as int, n as int),
            forall|k: int| 0 <= k < i - start ==> is_digit(#[trigger] d[k]),
            acc == if digits_value(d.take(i - start)) < U32_BOUND {
                digits_value(d.take(i - start))
            } else {
                U32_BOUND as nat
            },
        decreases n - i,
    {
        let c = s.get_char(i);
        if !('0' <= c && c <= '9') {
            assert(d[i - start] == c);
            assert(!is_decimal(s@));
            return None;
        }
        let v: u64 = (c as u32 - '0' as u32) as u64;
        let ghost prev = digits_value(d.take(i - start));
        assert(d.take(i + 1 - start).drop_last() =~= d.take(i - start));
        assert(digits_value(d.take(i + 1 - start)) == prev * 10 + v);
        let next: u64 = acc * 10 + v;
        if next >= U32_BOUND {
            acc = U32_BOUND;
        } else {
            acc = next;
        }
        i = i + 1;
    }
    assert(d.take(n - start) =~= d);
    if acc < U32_BOUND {
        Some(acc as u32)
    } else {
        None
    }
}

} // verus!
