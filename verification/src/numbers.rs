//! Signed decimal tokens for the graph grammar. A token is an optional sign
//! followed by digits; anything else, or a value outside `i32`, counts as
//! unparsable and yields 0.

use vstd::prelude::*;

verus! {

/// Whether `b` is an ASCII decimal digit.
pub open spec fn is_digit(b: u8) -> bool {
    48 <= b && b <= 57
}

/// Whether every byte of `s` is a decimal digit.
pub open spec fn all_digits(s: Seq<u8>) -> bool {
    forall|i: int| 0 <= i < s.len() ==> is_digit(s[i])
}

/// The value of a digit string read most-significant first.
pub open spec fn digits_val(s: Seq<u8>) -> int
    decreases s.len(),
{
    if s.len() == 0 {
        0
    } else {
        digits_val(s.drop_last()) * 10 + (s.last() - 48)
    }
}

/// The mathematical value of a signed decimal token, when well formed.
pub open spec fn signed_value(s: Seq<u8>) -> Option<int> {
    if s.len() > 0 && (s[0] == 43 || s[0] == 45) {
        let mag = s.drop_first();
        if mag.len() > 0 && all_digits(mag) {
            Some(
                if s[0] == 45 {
                    -digits_val(mag)
                } else {
                    digits_val(mag)
                },
            )
        } else {
            None
        }
    } else if s.len() > 0 && all_digits(s) {
        Some(digits_val(s))
    } else {
        None
    }
}

/// What a numeric token denotes: its value when it is a well-formed signed
/// decimal that fits in `i32`, and 0 otherwise.
pub open spec fn parsed_i32(s: Seq<u8>) -> i32 {
    match signed_value(s) {
        Some(v) => if i32::MIN <= v && v <= i32::MAX {
            v as i32
        } else {
            0
        },
        None => 0,
    }
}

proof fn lemma_digits_val_nonneg(s: Seq<u8>)
    requires
        all_digits(s),
    ensures
        digits_val(s) >= 0,
    decreases s.len(),
{
    if s.len() > 0 {
        assert(all_digits(s.drop_last()));
        lemma_digits_val_nonneg(s.drop_last());
    }
}

proof fn lemma_digits_val_prefix(s: Seq<u8>, i: int)
    requires
        all_digits(s),
        0 <= i <= s.len(),
    ensures
        digits_val(s.subrange(0, i)) <= digits_val(s),
    decreases s.len() - i,
{
    if i == s.len() {
        assert(s.subrange(0, i) =~= s);
    } else {
        let p = s.subrange(0, i);
        let q = s.subrange(0, i + 1);
        assert(q.drop_last() =~= p);
        assert(all_digits(p));
        lemma_digits_val_nonneg(p);
        assert(digits_val(q) == digits_val(p) * 10 + (s[i] - 48));
        lemma_digits_val_prefix(s, i + 1);
    }
}

/// The `i32` a numeric token denotes; 0 for a malformed or out-of-range one.
pub fn parse_i32(s: &Vec<u8>) -> (r: i32)
    ensures
        r == parsed_i32(s@),
{
    let n = s.len();
    if n == 0 {
        return 0;
    }
    let neg: bool = s[0] == 45;
    let start: usize = if s[0] == 43 || s[0] == 45 {
        1
    } else {
        0
    };
    if n == start {
        return 0;
    }
    let ghost mag = s@.subrange(start as int, n as int);
    proof {
        if start == 1 {
            assert(mag =~= s@.drop_first());
        } else {
            assert(mag =~= s@);
        }
    }
    let mut i: usize = start;
    while i < n
        invariant
            start <= i <= n == s@.len(),
            start < n,
            mag == s@.subrange(start as int, n as int),
            (s@[0] == 43 || s@[0] == 45) ==> start == 1 && mag == s@.drop_first(),
            !(s@[0] == 43 || s@[0] == 45) ==> start == 0 && mag == s@,
            forall|k: int| start <= k < i ==> is_digit(s@[k]),
        decreases n - i,
    {
        let b = s[i];
        if b < 48 || b > 57 {
            proof {
                assert(0 <= i - start < mag.len());
                assert(!is_digit(mag[i - start]));
                assert(!all_digits(mag));
                assert(signed_value(s@) is None);
            }
            return 0;
        }
        i += 1;
    }
    proof {
        assert(forall|k: int| 0 <= k < mag.len() ==> mag[k] == s@[start + k]);
        assert(all_digits(mag));
    }
    let mut val: u64 = 0;
    let mut j: usize = start;
    proof {
        assert(mag.subrange(0, 0) =~= Seq::<u8>::empty());
    }
    while j < n
        invariant
            start <= j <= n == s@.len(),
            start < n,
            mag == s@.subrange(start as int, n as int),
            (s@[0] == 43 || s@[0] == 45) ==> start == 1 && mag == s@.drop_first(),
            !(s@[0] == 43 || s@[0] == 45) ==> start == 0 && mag == s@,
            all_digits(mag),
            val == digits_val(mag.subrange(0, j - start)),
            val <= 2147483648,
        decreases n - j,
    {
        let b = s[j];
        proof {
            assert(mag[j - start] == s@[j as int]);
            assert(is_digit(mag[j - start]));
            assert(mag.subrange(0, j + 1 - start).drop_last() =~= mag.subrange(0, j - start));
        }
        val = val * 10 + ((b - 48) as u64);
        j += 1;
        if val > 2147483648 {
            proof {
                assert(val == digits_val(mag.subrange(0, j - start)));
                lemma_digits_val_prefix(mag, j - start);
                assert(digits_val(mag) >= val > 2147483648);
                assert(signed_value(s@) matches Some(v) && (v > i32::MAX || v < i32::MIN));
            }
            return 0;
        }
    }
    proof {
        assert(mag.subrange(0, n - start) =~= mag);
    }
    if neg {
        if val == 2147483648 {
            i32::MIN
        } else {
            -(val as i32)
        }
    } else {
        if val == 2147483648 {
            0
        } else {
            val as i32
        }
    }
}

} // verus!
