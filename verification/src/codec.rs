//! Decimal encoding and decoding of the unsigned integers that appear in
//! stored proposal numbers and in the policy request body.
//!
//! Stored proposal numbers are optional strings that must parse as unsigned
//! integers; a value that does not parse is a request-time error, never a
//! silent default. Parsing follows the standard unsigned-integer grammar: an
//! optional leading plus sign, then one or more decimal digits, with the value
//! within range.

use vstd::prelude::*;

verus! {

/// Whether a byte is an ASCII decimal digit.
pub open spec fn is_digit(b: u8) -> bool {
    48 <= b && b <= 57
}

/// The numeric value of an ASCII decimal digit.
pub open spec fn digit_val(b: u8) -> nat {
    (b - 48) as nat
}

/// Whether every byte of `s` is an ASCII decimal digit.
pub open spec fn all_digits(s: Seq<u8>) -> bool {
    forall|i: int| 0 <= i < s.len() ==> is_digit(s[i])
}

/// The value of a digit string read in base ten.
pub open spec fn dec_val(s: Seq<u8>) -> nat
    decreases s.len(),
{
    if s.len() == 0 {
        0
    } else {
        dec_val(s.drop_last()) * 10 + digit_val(s.last())
    }
}

/// The digit part of `s`: the whole string, or what follows a leading plus
/// sign.
pub open spec fn digit_part(s: Seq<u8>) -> Seq<u8> {
    if s.len() > 0 && s[0] == 43 {
        s.drop_first()
    } else {
        s
    }
}

/// What parsing `s` as an unsigned 32-bit integer yields: the base-ten value
/// of the digit part when it is non-empty, all digits, and in range; nothing
/// otherwise.
pub open spec fn spec_parse_u32(s: Seq<u8>) -> Option<u32> {
    let d = digit_part(s);
    if d.len() > 0 && all_digits(d) && dec_val(d) <= u32::MAX {
        Some(dec_val(d) as u32)
    } else {
        None
    }
}

/// Extending a digit string by one digit multiplies its value by ten and adds
/// the digit.
proof fn lemma_dec_val_take_step(s: Seq<u8>, i: int)
    requires
        0 <= i < s.len(),
    ensures
        dec_val(s.take(i + 1)) == dec_val(s.take(i)) * 10 + digit_val(s[i]),
{
    assert(s.take(i + 1).drop_last() =~= s.take(i));
    assert(s.take(i + 1).last() == s[i]);
}

/// The value of a digit string is at least the value of any of its prefixes.
proof fn lemma_dec_val_prefix_le(s: Seq<u8>, i: int)
    requires
        0 <= i <= s.len(),
        all_digits(s),
    ensures
        dec_val(s.take(i)) <= dec_val(s),
    decreases s.len() - i,
{
    if i < s.len() {
        lemma_dec_val_take_step(s, i);
        assert(dec_val(s.take(i)) <= dec_val(s.take(i)) * 10 + digit_val(s[i]))
            by (nonlinear_arith);
        lemma_dec_val_prefix_le(s, i + 1);
        assert(s.take(s.len() as int) =~= s);
    } else {
        assert(s.take(i) =~= s);
    }
}

/// Parses an unsigned 32-bit integer from its decimal representation,
/// rejecting empty input, stray bytes, and out-of-range values.
pub fn parse_u32(s: &[u8]) -> (r: Option<u32>)
    ensures
        r == spec_parse_u32(s@),
{
    let start: usize = if s.len() > 0 && s[0] == 43 {
        1
    } else {
        0
    };
    proof {
        if start == 1 {
            assert(digit_part(s@) =~= s@.subrange(1, s@.len() as int));
        } else {
            assert(digit_part(s@) =~= s@);
        }
    }
    let ghost d = digit_part(s@);
    if s.len() == start {
        return None;
    }
    let mut acc: u32 = 0;
    let mut i: usize = start;
    while i < s.len()
        invariant
            start <= i <= s.len(),
            s.len() > start,
            d == digit_part(s@),
            d =~= s@.subrange(start as int, s@.len() as int),
            all_digits(d.take(i - start)),
            acc == dec_val(d.take(i - start)),
        decreases s.len() - i,
    {
        let b = s[i];
        proof {
            assert(d[i - start] == s@[i as int]);
        }
        if b < 48 || b > 57 {
            proof {
                assert(!is_digit(d[i - start]));
            }
            return None;
        }
        let digit: u32 = (b - 48) as u32;
        proof {
            lemma_dec_val_take_step(d, i - start);
        }
        if acc > (u32::MAX - digit) / 10 {
            proof {
                assert(dec_val(d.take(i - start + 1)) > u32::MAX) by (nonlinear_arith)
                    requires
                        dec_val(d.take(i - start + 1)) == acc * 10 + digit,
                        acc > (u32::MAX - digit) / 10,
                        digit <= 9,
                ;
                if all_digits(d) {
                    lemma_dec_val_prefix_le(d, i - start + 1);
                }
            }
            return None;
        }
        acc = acc * 10 + digit;
        i += 1;
        proof {
            assert(d.take(i - start).drop_last() =~= d.take(i - start - 1));
        }
    }
    proof {
        assert(d.take(i - start) =~= d);
    }
    Some(acc)
}

/// The decimal representation of a natural number: the representation of the
/// leading digits followed by the last digit.
pub open spec fn spec_u32_dec(n: nat) -> Seq<u8>
    decreases n,
{
    if n < 10 {
        seq![(48 + n) as u8]
    } else {
        spec_u32_dec(n / 10).push((48 + n % 10) as u8)
    }
}

/// Appends the decimal representation of `n` to `out`.
pub fn push_u32_dec(n: u32, out: &mut Vec<u8>)
    ensures
        final(out)@ == old(out)@ + spec_u32_dec(n as nat),
    decreases n,
{
    if n < 10 {
        out.push(48 + (n as u8));
        proof {
            assert(final(out)@ =~= old(out)@ + spec_u32_dec(n as nat));
        }
    } else {
        push_u32_dec(n / 10, out);
        out.push(48 + ((n % 10) as u8));
        proof {
            assert(final(out)@ =~= old(out)@ + spec_u32_dec(n as nat));
        }
    }
}

/// Renders an unsigned 32-bit integer in decimal.
pub fn u32_to_dec(n: u32) -> (r: Vec<u8>)
    ensures
        r@ == spec_u32_dec(n as nat),
{
    let mut out: Vec<u8> = Vec::new();
    push_u32_dec(n, &mut out);
    proof {
        assert(out@ =~= spec_u32_dec(n as nat));
    }
    out
}

/// The decimal representation of a number is made of digits.
pub proof fn lemma_u32_dec_digits(n: nat)
    ensures
        spec_u32_dec(n).len() > 0,
        all_digits(spec_u32_dec(n)),
    decreases n,
{
    if n >= 10 {
        lemma_u32_dec_digits(n / 10);
    }
}

/// Rendering and then parsing an unsigned integer gives the number back.
pub proof fn lemma_dec_round_trip(n: u32)
    ensures
        spec_parse_u32(spec_u32_dec(n as nat)) == Some(n),
{
    lemma_u32_dec_digits(n as nat);
    lemma_dec_val_of_dec(n as nat);
    assert(digit_part(spec_u32_dec(n as nat)) =~= spec_u32_dec(n as nat));
}

/// The base-ten value of the decimal representation of `n` is `n`.
proof fn lemma_dec_val_of_dec(n: nat)
    ensures
        dec_val(spec_u32_dec(n)) == n,
    decreases n,
{
    if n < 10 {
        assert(spec_u32_dec(n).drop_last() =~= Seq::<u8>::empty());
        assert(dec_val(Seq::<u8>::empty()) == 0);
    } else {
        lemma_dec_val_of_dec(n / 10);
        assert(spec_u32_dec(n).drop_last() =~= spec_u32_dec(n / 10));
        assert(dec_val(spec_u32_dec(n)) == (n / 10) * 10 + n % 10);
        assert((n / 10) * 10 + n % 10 == n) by (nonlinear_arith);
    }
}

} // verus!
