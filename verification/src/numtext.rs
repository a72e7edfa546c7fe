//! Decimal text for the integer leaf fields: rendering a number as the run
//! of its digits and parsing such a run back, with the proof that the two
//! are inverses. The wizard's manual-override path and the document codec
//! both parse through these functions.

use vstd::prelude::*;

verus! {

/// `c` is a decimal digit.
pub open spec fn is_digit(c: char) -> bool {
    0x30 <= (c as u32) <= 0x39
}

/// Numeric value of a digit character.
pub open spec fn spec_digit_val(c: char) -> nat {
    ((c as u32) - 0x30) as nat
}

/// The digit character for a value below ten.
pub open spec fn spec_digit_char(d: nat) -> char {
    if d == 0 {
        '0'
    } else if d == 1 {
        '1'
    } else if d == 2 {
        '2'
    } else if d == 3 {
        '3'
    } else if d == 4 {
        '4'
    } else if d == 5 {
        '5'
    } else if d == 6 {
        '6'
    } else if d == 7 {
        '7'
    } else if d == 8 {
        '8'
    } else {
        '9'
    }
}

/// Decimal text of a natural number, most significant digit first.
pub open spec fn spec_dec(n: nat) -> Seq<char>
    decreases n,
{
    if n < 10 {
        seq![spec_digit_char(n)]
    } else {
        spec_dec(n / 10).push(spec_digit_char(n % 10))
    }
}

/// Every character of `s` is a decimal digit.
pub open spec fn all_digits(s: Seq<char>) -> bool {
    forall|i: int| 0 <= i < s.len() ==> is_digit(#[trigger] s[i])
}

/// Value of a run of digit characters.
pub open spec fn spec_dec_val(s: Seq<char>) -> nat
    decreases s.len(),
{
    if s.len() == 0 {
        0
    } else {
        spec_dec_val(s.drop_last()) * 10 + spec_digit_val(s.last())
    }
}

/// What parsing unsigned decimal text yields: the value of a nonempty
/// all-digit run that fits, nothing otherwise.
pub open spec fn spec_parse_u64(s: Seq<char>) -> Option<u64> {
    if s.len() >= 1 && all_digits(s) && spec_dec_val(s) <= u64::MAX {
        Some(spec_dec_val(s) as u64)
    } else {
        None
    }
}

/// The digit character of a value below ten is a digit worth that value.
pub proof fn lemma_digit_char_val(d: nat)
    requires
        d < 10,
    ensures
        is_digit(spec_digit_char(d)),
        spec_digit_val(spec_digit_char(d)) == d,
{
}

/// The decimal text of `n` is a nonempty digit run whose value is `n`.
pub proof fn lemma_dec_props(n: nat)
    ensures
        spec_dec(n).len() >= 1,
        all_digits(spec_dec(n)),
        spec_dec_val(spec_dec(n)) == n,
    decreases n,
{
    if n < 10 {
        lemma_digit_char_val(n);
        assert(spec_dec(n) =~= seq![spec_digit_char(n)]);
        assert(spec_dec(n).drop_last() =~= Seq::<char>::empty());
        assert(spec_dec(n).last() == spec_digit_char(n));
        assert(spec_dec_val(Seq::<char>::empty()) == 0);
        assert(spec_dec_val(spec_dec(n)) == spec_dec_val(Seq::<char>::empty()) * 10
            + spec_digit_val(spec_digit_char(n)));
    } else {
        lemma_digit_char_val(n % 10);
        lemma_dec_props(n / 10);
        let prefix = spec_dec(n / 10);
        let whole = prefix.push(spec_digit_char(n % 10));
        assert(spec_dec(n) == whole);
        assert(whole.drop_last() =~= prefix);
        assert(whole.last() == spec_digit_char(n % 10));
        assert(spec_dec_val(whole) == (n / 10) * 10 + spec_digit_val(spec_digit_char(n % 10)));
        assert((n / 10) * 10 + n % 10 == n) by {
            vstd::arithmetic::div_mod::lemma_fundamental_div_mod(n as int, 10);
        }
    }
}

/// A digit run is worth at least as much as any of its prefixes.
pub proof fn lemma_dec_val_prefix(s: Seq<char>, k: int)
    requires
        0 <= k <= s.len(),
    ensures
        spec_dec_val(s.take(k)) <= spec_dec_val(s),
    decreases s.len() - k,
{
    if k == s.len() {
        assert(s.take(k) =~= s);
    } else {
        lemma_dec_val_prefix(s, k + 1);
        let t = s.take(k + 1);
        assert(t.drop_last() =~= s.take(k));
        assert(spec_dec_val(t) == spec_dec_val(s.take(k)) * 10 + spec_digit_val(t.last()));
        assert(spec_dec_val(s.take(k)) <= spec_dec_val(s.take(k)) * 10) by (nonlinear_arith);
    }
}

/// Round trip: parsing the rendered text of `n` yields `n` again.
pub proof fn lemma_dec_round_trip(n: u64)
    ensures
        spec_parse_u64(spec_dec(n as nat)) == Some(n),
{
    lemma_dec_props(n as nat);
}

fn digit_char(d: u64) -> (c: char)
    requires
        d < 10,
    ensures
        c == spec_digit_char(d as nat),
{
    if d == 0 {
        '0'
    } else if d == 1 {
        '1'
    } else if d == 2 {
        '2'
    } else if d == 3 {
        '3'
    } else if d == 4 {
        '4'
    } else if d == 5 {
        '5'
    } else if d == 6 {
        '6'
    } else if d == 7 {
        '7'
    } else if d == 8 {
        '8'
    } else {
        '9'
    }
}

/// Render `n` as decimal text.
pub fn u64_to_dec(n: u64) -> (r: Vec<char>)
    ensures
        r@ == spec_dec(n as nat),
    decreases n,
{
    if n < 10 {
        let mut r: Vec<char> = Vec::new();
        r.push(digit_char(n));
        proof {
            assert(r@ =~= spec_dec(n as nat));
        }
        r
    } else {
        let mut r = u64_to_dec(n / 10);
        r.push(digit_char(n % 10));
        r
    }
}

/// Parse unsigned decimal text.
pub fn parse_u64(s: &[char]) -> (r: Option<u64>)
    ensures
        r == spec_parse_u64(s@),
{
    let n = s.len();
    if n == 0 {
        return None;
    }
    let mut acc: u64 = 0;
    let mut i: usize = 0;
    while i < n
        invariant
            n == s@.len(),
            1 <= n <= usize::MAX,
            i <= n,
            all_digits(s@.take(i as int)),
            acc == spec_dec_val(s@.take(i as int)),
        decreases n - i,
    {
        let c = s[i];
        let code = c as u32;
        if code < 0x30 || code > 0x39 {
            proof {
                assert(!is_digit(s@[i as int]));
            }
            return None;
        }
        let d = (code - 0x30) as u64;
        let step = match acc.checked_mul(10) {
            Some(m) => m.checked_add(d),
            None => None,
        };
        proof {
            assert(s@.take(i as int + 1).drop_last() =~= s@.take(i as int));
            assert(s@.take(i as int + 1).last() == s@[i as int]);
            assert(spec_dec_val(s@.take(i as int + 1)) == acc * 10 + spec_digit_val(s@[i as int]));
        }
        match step {
            Some(next) => {
                acc = next;
                proof {
                    assert(all_digits(s@.take(i as int + 1)));
                }
                i += 1;
            },
            None => {
                proof {
                    assert(spec_dec_val(s@.take(i as int + 1)) > u64::MAX) by {
                        if acc * 10 > u64::MAX {
                        } else {
                            assert(acc * 10 + d > u64::MAX);
                        }
                    }
                    lemma_dec_val_prefix(s@, i as int + 1);
                }
                return None;
            },
        }
    }
    proof {
        assert(s@.take(n as int) =~= s@);
    }
    Some(acc)
}

/// Decimal text of a signed number: a minus sign before the magnitude when
/// negative.
pub open spec fn spec_dec_i64(n: i64) -> Seq<char> {
    if n >= 0 {
        spec_dec(n as nat)
    } else {
        seq!['-'] + spec_dec((-(n as int)) as nat)
    }
}

/// What parsing signed decimal text yields: an optional minus sign followed
/// by a digit run whose value fits the signed range.
pub open spec fn spec_parse_i64(s: Seq<char>) -> Option<i64> {
    if s.len() >= 1 && s[0] == '-' {
        let rest = s.skip(1);
        if rest.len() >= 1 && all_digits(rest) && spec_dec_val(rest) <= 0x8000000000000000 {
            Some((-(spec_dec_val(rest) as int)) as i64)
        } else {
            None
        }
    } else {
        if s.len() >= 1 && all_digits(s) && spec_dec_val(s) <= i64::MAX {
            Some(spec_dec_val(s) as i64)
        } else {
            None
        }
    }
}

/// Round trip for signed decimal text.
pub proof fn lemma_dec_i64_round_trip(n: i64)
    ensures
        spec_parse_i64(spec_dec_i64(n)) == Some(n),
{
    if n >= 0 {
        lemma_dec_props(n as nat);
        let s = spec_dec(n as nat);
        assert(is_digit(s[0]));
        assert(s[0] != '-');
    } else {
        let m = (-(n as int)) as nat;
        lemma_dec_props(m);
        let s = seq!['-'] + spec_dec(m);
        assert(s[0] == '-');
        assert(s.skip(1) =~= spec_dec(m));
    }
}

/// Render a signed number as decimal text.
pub fn i64_to_dec(n: i64) -> (r: Vec<char>)
    ensures
        r@ == spec_dec_i64(n),
{
    if n >= 0 {
        u64_to_dec(n as u64)
    } else {
        let mag: u64 = if n == i64::MIN {
            0x8000000000000000u64
        } else {
            (-n) as u64
        };
        let mut r: Vec<char> = Vec::new();
        r.push('-');
        let digits = u64_to_dec(mag);
        crate::text::append_chars(&mut r, digits.as_slice());
        proof {
            assert(r@ =~= seq!['-'] + spec_dec((-(n as int)) as nat));
        }
        r
    }
}

/// Parse signed decimal text.
pub fn parse_i64(s: &[char]) -> (r: Option<i64>)
    ensures
        r == spec_parse_i64(s@),
{
    let n = s.len();
    if n >= 1 && s[0] == '-' {
        let mut rest: Vec<char> = Vec::new();
        let mut i: usize = 1;
        while i < n
            invariant
                n == s@.len(),
                1 <= i <= n,
                rest@ == s@.skip(1).take(i as int - 1),
            decreases n - i,
        {
            rest.push(s[i]);
            proof {
                assert(rest@ =~= s@.skip(1).take(i as int));
            }
            i += 1;
        }
        proof {
            assert(rest@ =~= s@.skip(1));
        }
        match parse_u64(rest.as_slice()) {
            Some(m) => {
                if m <= 0x8000000000000000u64 {
                    let v: i64 = if m == 0x8000000000000000u64 {
                        i64::MIN
                    } else {
                        -(m as i64)
                    };
                    Some(v)
                } else {
                    None
                }
            },
            None => {
                proof {
                    if s@.skip(1).len() >= 1 && all_digits(s@.skip(1)) && spec_dec_val(s@.skip(1))
                        <= 0x8000000000000000 {
                        assert(spec_dec_val(s@.skip(1)) <= u64::MAX);
                    }
                }
                None
            },
        }
    } else {
        match parse_u64(s) {
            Some(m) => {
                if m <= i64::MAX as u64 {
                    Some(m as i64)
                } else {
                    None
                }
            },
            None => None,
        }
    }
}

} // verus!
