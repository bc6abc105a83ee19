use vstd::prelude::*;

verus! {

/// Why a decimal string did not give a `u64`.
#[derive(Debug, Clone, Copy, PartialEq, Eq, Structural)]
pub enum NumberError {
    /// Not an optional `+` followed by one or more ASCII digits.
    Invalid,
    /// Well formed, but above `u64::MAX`.
    Overflow,
}

pub open spec fn is_digit(c: u8) -> bool {
    0x30u8 <= c <= 0x39u8
}

/// The value of a run of ASCII digits, most significant first.
pub open spec fn digits_value(s: Seq<u8>) -> nat
    decreases s.len(),
{
    if s.len() == 0 {
        0
    } else {
        digits_value(s.drop_last()) * 10 + (s.last() - 0x30u8) as nat
    }
}

/// The digits after an optional leading `+`.
pub open spec fn unsigned_part(s: Seq<u8>) -> Seq<u8> {
    if s.len() > 0 && s[0] == 0x2bu8 {
        s.drop_first()
    } else {
        s
    }
}

pub open spec fn all_digits(d: Seq<u8>) -> bool {
    forall|i: int| 0 <= i < d.len() ==> is_digit(#[trigger] d[i])
}

/// The number an unsigned decimal string denotes: an optional `+` and at
/// least one digit, nothing else.
pub open spec fn decimal_value(s: Seq<u8>) -> Option<nat> {
    let d = unsigned_part(s);
    if d.len() > 0 && all_digits(d) {
        Some(digits_value(d))
    } else {
        None
    }
}

pub open spec fn parsed_u64(s: Seq<u8>) -> Result<u64, NumberError> {
    match decimal_value(s) {
        None => Err(NumberError::Invalid),
        Some(v) => if v <= u64::MAX {
            Ok(v as u64)
        } else {
            Err(NumberError::Overflow)
        },
    }
}

proof fn lemma_digits_prefix(s: Seq<u8>, i: int)
    requires
        0 <= i < s.len(),
    ensures
        digits_value(s.subrange(0, i + 1)) == digits_value(s.subrange(0, i)) * 10 + (s[i]
            - 0x30u8) as nat,
{
    assert(s.subrange(0, i + 1).drop_last() =~= s.subrange(0, i));
}

/// Parses an unsigned decimal string as `str::parse::<u64>` reads it.
pub fn parse_u64(s: &[u8]) -> (r: Result<u64, NumberError>)
    ensures
        r == parsed_u64(s@),
{
    let start: usize = if s.len() > 0 && s[0] == 0x2bu8 {
        1
    } else {
        0
    };
    let ghost d = unsigned_part(s@);
    assert(d =~= s@.subrange(start as int, s@.len() as int));
    if start == s.len() {
        return Err(NumberError::Invalid);
    }
    let mut value: u64 = 0;
    let mut overflow = false;
    let mut i: usize = start;
    while i < s.len()
        invariant
            start <= i <= s@.len(),
            d == unsigned_part(s@),
            d =~= s@.subrange(start as int, s@.len() as int),
            forall|k: int| 0 <= k < i - start ==> is_digit(#[trigger] d[k]),
            overflow ==> digits_value(d.subrange(0, i - start)) > u64::MAX,
            !overflow ==> value == digits_value(d.subrange(0, i - start)),
        decreases s@.len() - i,
    {
        let c = s[i];
        if c < 0x30u8 || c > 0x39u8 {
            assert(!is_digit(d[i - start]));
            assert(!all_digits(d));
            return Err(NumberError::Invalid);
        }
        proof {
            lemma_digits_prefix(d, i - start);
        }
        let digit = (c - 0x30u8) as u64;
        if !overflow {
            match value.checked_mul(10) {
                Some(tens) => match tens.checked_add(digit) {
                    Some(next) => value = next,
                    None => overflow = true,
                },
                None => overflow = true,
            }
        }
        i += 1;
    }
    assert(d.subrange(0, d.len() as int) =~= d);
    if overflow {
        Err(NumberError::Overflow)
    } else {
        Ok(value)
    }
}

/// The length of the run of digits that `b` opens with.
pub open spec fn digit_run(b: Seq<u8>) -> nat
    decreases b.len(),
{
    if b.len() > 0 && is_digit(b[0]) {
        1 + digit_run(b.drop_first())
    } else {
        0
    }
}

pub open spec fn has_sign(s: Seq<u8>) -> bool {
    s.len() > 0 && (s[0] == 0x2bu8 || s[0] == 0x2du8)
}

pub open spec fn is_negative(s: Seq<u8>) -> bool {
    s.len() > 0 && s[0] == 0x2du8
}

/// The whole and fraction digits of a decimal number written as an optional
/// sign, digits, and an optional `.` with more digits, with at least one digit
/// in all; `None` for any other text.
pub open spec fn number_parts(s: Seq<u8>) -> Option<(Seq<u8>, Seq<u8>)> {
    let b = if has_sign(s) {
        s.drop_first()
    } else {
        s
    };
    let k = digit_run(b) as int;
    if k == b.len() {
        if k > 0 {
            Some((b, Seq::empty()))
        } else {
            None
        }
    } else if b[k] == 0x2eu8 && all_digits(b.subrange(k + 1, b.len() as int)) && (k > 0 || b.len()
        > k + 1) {
        Some((b.subrange(0, k), b.subrange(k + 1, b.len() as int)))
    } else {
        None
    }
}

proof fn lemma_digit_run(b: Seq<u8>, k: int)
    requires
        0 <= k <= b.len(),
        forall|i: int| 0 <= i < k ==> is_digit(#[trigger] b[i]),
        k == b.len() || !is_digit(b[k]),
    ensures
        digit_run(b) == k,
    decreases k,
{
    if k > 0 {
        let t = b.drop_first();
        assert forall|i: int| 0 <= i < k - 1 implies is_digit(#[trigger] t[i]) by {
            assert(t[i] == b[i + 1]);
        }
        if k - 1 < t.len() {
            assert(t[k - 1] == b[k]);
        }
        lemma_digit_run(t, k - 1);
    }
}

proof fn lemma_digit_run_digits(b: Seq<u8>)
    ensures
        digit_run(b) <= b.len(),
        forall|i: int| 0 <= i < digit_run(b) ==> is_digit(#[trigger] b[i]),
    decreases b.len(),
{
    if b.len() > 0 && is_digit(b[0]) {
        let t = b.drop_first();
        lemma_digit_run_digits(t);
        assert forall|i: int| 0 <= i < digit_run(b) implies is_digit(#[trigger] b[i]) by {
            if i > 0 {
                assert(b[i] == t[i - 1]);
            }
        }
    }
}

/// Where `s` is a decimal number, the positions of its parts: the whole
/// digits are `s[start..dot]` and the fraction digits `s[frac..]`.
#[verifier::rlimit(40)]
pub fn locate_number(s: &[u8]) -> (r: Option<(usize, usize, usize)>)
    ensures
        match number_parts(s@) {
            None => r is None,
            Some((whole, fraction)) => r matches Some((start, dot, frac)) && start <= dot <= frac
                <= s@.len() && whole == s@.subrange(start as int, dot as int) && fraction
                == s@.subrange(frac as int, s@.len() as int) && start == (if has_sign(s@) {
                1int
            } else {
                0int
            }) && all_digits(whole) && all_digits(fraction),
        },
{
    let start: usize = if s.len() > 0 && (s[0] == 0x2bu8 || s[0] == 0x2du8) {
        1
    } else {
        0
    };
    let ghost b = if has_sign(s@) {
        s@.drop_first()
    } else {
        s@
    };
    assert(b =~= s@.subrange(start as int, s@.len() as int));
    let mut k: usize = start;
    while k < s.len() && 0x30u8 <= s[k] && s[k] <= 0x39u8
        invariant
            start <= k <= s@.len(),
            b =~= s@.subrange(start as int, s@.len() as int),
            forall|i: int| 0 <= i < k - start ==> is_digit(#[trigger] b[i]),
        decreases s@.len() - k,
    {
        k += 1;
    }
    proof {
        if k < s@.len() {
            assert(b[k - start] == s@[k as int]);
        }
        lemma_digit_run(b, k - start);
        lemma_digit_run_digits(b);
    }
    if k == s.len() {
        if k > start {
            assert(b.subrange(0, b.len() as int) =~= b);
            return Some((start, k, k));
        }
        return None;
    }
    if s[k] != 0x2eu8 {
        return None;
    }
    let frac = k + 1;
    assert(b[k - start] == s@[k as int]);
    let mut i: usize = frac;
    while i < s.len()
        invariant
            start <= k < s@.len(),
            frac == k + 1,
            frac <= i <= s@.len(),
            b =~= s@.subrange(start as int, s@.len() as int),
            digit_run(b) == k - start,
            b[k - start] == 0x2eu8,
            b == (if has_sign(s@) {
                s@.drop_first()
            } else {
                s@
            }),
            forall|j: int| frac <= j < i ==> is_digit(#[trigger] s@[j]),
        decreases s@.len() - i,
    {
        if s[i] < 0x30u8 || s[i] > 0x39u8 {
            let ghost fr = b.subrange(k - start + 1, b.len() as int);
            assert(fr[i - frac] == s@[i as int]);
            assert(!all_digits(fr));
            return None;
        }
        i += 1;
    }
    assert(b.subrange(k - start + 1, b.len() as int) =~= s@.subrange(frac as int, s@.len() as int));
    assert(b[k - start] == s@[k as int]);
    assert(b.subrange(0, k - start) =~= s@.subrange(start as int, k as int));
    if k == start && frac == s.len() {
        return None;
    }
    Some((start, k, frac))
}

} // verus!
