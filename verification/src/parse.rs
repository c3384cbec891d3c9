//! Decimal parsing of extracted attribute values.

use vstd::prelude::*;

verus! {

use vstd::arithmetic::div_mod::lemma_fundamental_div_mod;

/// `c` is an ASCII decimal digit.
pub open spec fn is_dec_digit(c: char) -> bool {
    48 <= c as u32 <= 57
}

/// Every character of `s` is an ASCII decimal digit.
pub open spec fn all_dec_digits(s: Seq<char>) -> bool {
    forall|i: int| 0 <= i < s.len() ==> is_dec_digit(#[trigger] s[i])
}

/// The integer value of a digit sequence, most significant digit
/// first.
pub open spec fn dec_value(s: Seq<char>) -> int
    decreases s.len(),
{
    if s.len() == 0 {
        0
    } else {
        dec_value(s.drop_last()) * 10 + (s.last() as u32 - 48)
    }
}

/// The digit character whose value is `d`.
pub open spec fn dec_digit_char(d: int) -> char
    recommends
        0 <= d <= 9,
{
    if d == 0 {
        '0'
    } else if d == 1 {
        '1'
    } else if d == 2 {
        '2'
    } else if d == 3 {
        '3'
    } else if d == 4 {
        '4'
    } else if d == 5 {
        '5'
    } else if d == 6 {
        '6'
    } else if d == 7 {
        '7'
    } else if d == 8 {
        '8'
    } else {
        '9'
    }
}

/// The canonical decimal representation of `n`: no sign, no leading
/// zeros (except for `0` itself).
pub open spec fn dec_repr(n: int) -> Seq<char>
    recommends
        n >= 0,
    decreases n,
{
    if n <= 9 {
        seq![dec_digit_char(n)]
    } else {
        dec_repr(n / 10).push(dec_digit_char(n % 10))
    }
}

proof fn lemma_dec_value_step(s: Seq<char>, i: int)
    requires
        0 <= i < s.len(),
    ensures
        dec_value(s.subrange(0, i + 1)) == dec_value(s.subrange(0, i)) * 10 + (s[i] as u32 - 48),
{
    let a = s.subrange(0, i + 1);
    assert(a.drop_last() =~= s.subrange(0, i));
    assert(a.last() == s[i]);
}

proof fn lemma_dec_value_nonneg(s: Seq<char>)
    requires
        all_dec_digits(s),
    ensures
        dec_value(s) >= 0,
    decreases s.len(),
{
    if s.len() > 0 {
        assert forall|i: int| 0 <= i < s.drop_last().len() implies is_dec_digit(
            #[trigger] s.drop_last()[i],
        ) by {
            assert(s.drop_last()[i] == s[i]);
        }
        lemma_dec_value_nonneg(s.drop_last());
        assert(is_dec_digit(s.last()));
    }
}

/// The value of a digit string never shrinks as digits are appended:
/// each prefix is worth at most the whole.
proof fn lemma_dec_value_prefix_le(s: Seq<char>, i: int)
    requires
        0 <= i <= s.len(),
        all_dec_digits(s),
    ensures
        dec_value(s.subrange(0, i)) <= dec_value(s),
    decreases s.len() - i,
{
    if i == s.len() {
        assert(s.subrange(0, i) =~= s);
    } else {
        lemma_dec_value_step(s, i);
        assert forall|j: int| 0 <= j < s.subrange(0, i).len() implies is_dec_digit(
            #[trigger] s.subrange(0, i)[j],
        ) by {
            assert(s.subrange(0, i)[j] == s[j]);
        }
        lemma_dec_value_nonneg(s.subrange(0, i));
        assert(is_dec_digit(s[i]));
        lemma_dec_value_prefix_le(s, i + 1);
    }
}

/// Encoding an integer as decimal digits and reading the digits back
/// yields the same integer, and the encoding is made of digits only.
pub proof fn lemma_dec_round_trip(n: int)
    requires
        n >= 0,
    ensures
        dec_repr(n).len() > 0,
        all_dec_digits(dec_repr(n)),
        dec_value(dec_repr(n)) == n,
    decreases n,
{
    if n <= 9 {
        let s = dec_repr(n);
        assert(s =~= seq![dec_digit_char(n)]);
        assert(s.drop_last() =~= Seq::<char>::empty());
        assert(dec_value(Seq::<char>::empty()) == 0);
        assert(s.last() == dec_digit_char(n));
        assert(dec_digit_char(n) as u32 == 48 + n);
        assert(dec_value(s) == dec_value(s.drop_last()) * 10 + (s.last() as u32 - 48));
        assert(dec_value(s) == n);
    } else {
        lemma_dec_round_trip(n / 10);
        let t = dec_repr(n / 10);
        let c = dec_digit_char(n % 10);
        let s = t.push(c);
        assert(s.drop_last() =~= t);
        assert(s.last() == c);
        assert(c as u32 == 48 + n % 10);
        assert(dec_value(s) == dec_value(t) * 10 + (n % 10));
        lemma_fundamental_div_mod(n, 10);
        assert forall|j: int| 0 <= j < s.len() implies is_dec_digit(#[trigger] s[j]) by {
            if j < t.len() {
                assert(s[j] == t[j]);
            } else {
                assert(s[j] == c);
            }
        }
    }
}

/// Parses an unsigned decimal integer.  Returns the value exactly when
/// the string is nonempty, all digits, and the value fits in a `u64`;
/// reports failure otherwise.
pub fn parse_u64(s: &str) -> (res: Option<u64>)
    ensures
        match res {
            Some(v) => s@.len() > 0 && all_dec_digits(s@) && dec_value(s@) == v,
            None => s@.len() == 0 || !all_dec_digits(s@) || dec_value(s@) > u64::MAX,
        },
{
    let n: usize = s.unicode_len();
    if n == 0 {
        return None;
    }
    let mut acc: u64 = 0;
    let mut i: usize = 0;
    while i < n
        invariant
            0 < n == s@.len(),
            i <= n,
            all_dec_digits(s@.subrange(0, i as int)),
            acc == dec_value(s@.subrange(0, i as int)),
        decreases n - i,
    {
        let c: char = s.get_char(i);
        let cu: u32 = c as u32;
        if cu < 48 || cu > 57 {
            proof {
                assert(!is_dec_digit(s@[i as int]));
            }
            return None;
        }
        let d: u64 = (cu - 48) as u64;
        proof {
            lemma_dec_value_step(s@, i as int);
        }
        let wide: u128 = (acc as u128) * 10 + (d as u128);
        if wide > u64::MAX as u128 {
            proof {
                if all_dec_digits(s@) {
                    lemma_dec_value_prefix_le(s@, i as int + 1);
                }
            }
            return None;
        }
        acc = wide as u64;
        proof {
            assert forall|j: int| 0 <= j < i + 1 implies is_dec_digit(
                #[trigger] s@.subrange(0, i as int + 1)[j],
            ) by {
                assert(s@.subrange(0, i as int + 1)[j] == s@[j]);
                if j < i {
                    assert(s@.subrange(0, i as int)[j] == s@[j]);
                }
            }
        }
        i = i + 1;
    }
    proof {
        assert(s@.subrange(0, n as int) =~= s@);
    }
    Some(acc)
}

} // verus!
