//! Verified text helpers: decimal rendering of integers and related
//! character-level utilities used by the menu views and the payment worker.

use vstd::prelude::*;

verus! {

/// The ten decimal digit characters, lowest first.
pub const DIGITS: [char; 10] = ['0', '1', '2', '3', '4', '5', '6', '7', '8', '9'];

/// The decimal rendering of a natural number, most significant digit first.
pub open spec fn spec_udecimal(n: nat) -> Seq<char>
    decreases n,
{
    if n < 10 {
        seq![DIGITS@[n as int]]
    } else {
        spec_udecimal(n / 10) + seq![DIGITS@[(n % 10) as int]]
    }
}

/// The decimal rendering of an integer: a minus sign for negative values,
/// then the magnitude.
pub open spec fn spec_idecimal(n: int) -> Seq<char> {
    if n < 0 {
        seq!['-'] + spec_udecimal((-n) as nat)
    } else {
        spec_udecimal(n as nat)
    }
}

/// Relies on alloc's String::push: appends exactly one character.
#[verifier::external_body]
pub(crate) fn push_char(s: &mut String, c: char)
    ensures
        final(s)@ == old(s)@.push(c),
{
    s.push(c);
}

/// Appends the decimal rendering of `n` to `out`.
pub fn append_u64(out: &mut String, n: u64)
    ensures
        final(out)@ == old(out)@ + spec_udecimal(n as nat),
    decreases n,
{
    if n >= 10 {
        append_u64(out, n / 10);
    }
    let d = (n % 10) as usize;
    push_char(out, DIGITS[d]);
    proof {
        assert(final(out)@ =~= old(out)@ + spec_udecimal(n as nat));
    }
}

/// The decimal rendering of an unsigned 64-bit number.
pub fn u64_to_string(n: u64) -> (s: String)
    ensures
        s@ == spec_udecimal(n as nat),
{
    let mut s = String::new();
    append_u64(&mut s, n);
    s
}

/// Appends the decimal rendering of `n` to `out`, minus sign included.
pub fn append_i64(out: &mut String, n: i64)
    ensures
        final(out)@ == old(out)@ + spec_idecimal(n as int),
{
    if n < 0 {
        push_char(out, '-');
        let magnitude: u64 = (-(n as i128)) as u64;
        append_u64(out, magnitude);
        assert(final(out)@ =~= old(out)@ + spec_idecimal(n as int));
    } else {
        append_u64(out, n as u64);
    }
}

/// The decimal rendering of a signed 64-bit number.
pub fn i64_to_string(n: i64) -> (s: String)
    ensures
        s@ == spec_idecimal(n as int),
{
    let mut s = String::new();
    append_i64(&mut s, n);
    s
}


/// A decimal rendering is never empty.
pub proof fn lemma_udecimal_len_pos(n: nat)
    ensures
        spec_udecimal(n).len() >= 1,
    decreases n,
{
    if n >= 10 {
        lemma_udecimal_len_pos(n / 10);
    }
}

/// Every character of a decimal rendering is a digit.
pub proof fn lemma_udecimal_chars(n: nat)
    ensures
        forall|i: int|
            0 <= i < spec_udecimal(n).len() ==> '0' <= #[trigger] spec_udecimal(n)[i]
                && spec_udecimal(n)[i] <= '9',
    decreases n,
{
    if n >= 10 {
        lemma_udecimal_chars(n / 10);
        assert(spec_udecimal(n) == spec_udecimal(n / 10) + seq![DIGITS@[(n % 10) as int]]);
        assert forall|i: int| 0 <= i < spec_udecimal(n).len() implies '0' <= #[trigger] spec_udecimal(
            n,
        )[i] && spec_udecimal(n)[i] <= '9' by {
            if i < spec_udecimal(n / 10).len() {
                assert(spec_udecimal(n)[i] == spec_udecimal(n / 10)[i]);
            } else {
                assert(spec_udecimal(n)[i] == DIGITS@[(n % 10) as int]);
            }
        };
    } else {
        assert(spec_udecimal(n)[0] == DIGITS@[n as int]);
    }
}

/// Distinct numbers have distinct decimal renderings.
pub proof fn lemma_udecimal_injective(a: nat, b: nat)
    requires
        spec_udecimal(a) == spec_udecimal(b),
    ensures
        a == b,
    decreases a,
{
    lemma_udecimal_len_pos(a);
    lemma_udecimal_len_pos(b);
    if a < 10 && b < 10 {
        assert(spec_udecimal(a)[0] == DIGITS@[a as int]);
        assert(spec_udecimal(b)[0] == DIGITS@[b as int]);
    } else if a >= 10 && b >= 10 {
        lemma_udecimal_len_pos(a / 10);
        lemma_udecimal_len_pos(b / 10);
        assert(spec_udecimal(a).last() == DIGITS@[(a % 10) as int]);
        assert(spec_udecimal(b).last() == DIGITS@[(b % 10) as int]);
        assert(a % 10 == b % 10);
        assert(spec_udecimal(a).drop_last() =~= spec_udecimal(a / 10));
        assert(spec_udecimal(b).drop_last() =~= spec_udecimal(b / 10));
        lemma_udecimal_injective(a / 10, b / 10);
        vstd::arithmetic::div_mod::lemma_fundamental_div_mod(a as int, 10);
        vstd::arithmetic::div_mod::lemma_fundamental_div_mod(b as int, 10);
    } else if a < 10 {
        lemma_udecimal_len_pos(b / 10);
        assert(spec_udecimal(b).len() == spec_udecimal(b / 10).len() + 1);
    } else {
        lemma_udecimal_len_pos(a / 10);
        assert(spec_udecimal(a).len() == spec_udecimal(a / 10).len() + 1);
    }
}

/// The decimal rendering of a natural number as ASCII bytes.
pub open spec fn spec_udecimal_bytes(n: nat) -> Seq<u8>
    decreases n,
{
    if n < 10 {
        seq![(48 + n) as u8]
    } else {
        spec_udecimal_bytes(n / 10) + seq![(48 + n % 10) as u8]
    }
}

/// The decimal rendering of an integer as ASCII bytes.
pub open spec fn spec_idecimal_bytes(n: int) -> Seq<u8> {
    if n < 0 {
        seq![45u8] + spec_udecimal_bytes((-n) as nat)
    } else {
        spec_udecimal_bytes(n as nat)
    }
}

/// Appends the decimal rendering of `n` to `out` as ASCII bytes.
pub fn append_u64_bytes(out: &mut Vec<u8>, n: u64)
    ensures
        final(out)@ == old(out)@ + spec_udecimal_bytes(n as nat),
    decreases n,
{
    if n >= 10 {
        append_u64_bytes(out, n / 10);
    }
    let d: u8 = 48 + (n % 10) as u8;
    out.push(d);
    proof {
        assert(final(out)@ =~= old(out)@ + spec_udecimal_bytes(n as nat));
    }
}

/// Appends the decimal rendering of `n` to `out` as ASCII bytes, minus
/// sign included.
pub fn append_i64_bytes(out: &mut Vec<u8>, n: i64)
    ensures
        final(out)@ == old(out)@ + spec_idecimal_bytes(n as int),
{
    if n < 0 {
        out.push(45);
        let magnitude: u64 = (-(n as i128)) as u64;
        append_u64_bytes(out, magnitude);
        assert(final(out)@ =~= old(out)@ + spec_idecimal_bytes(n as int));
    } else {
        append_u64_bytes(out, n as u64);
    }
}

/// Whether `c` is a decimal digit.
pub open spec fn spec_is_digit(c: char) -> bool {
    '0' <= c && c <= '9'
}

/// The value of an all-digit string, most significant digit first.
pub open spec fn spec_digits_val(s: Seq<char>) -> int
    decreases s.len(),
{
    if s.len() == 0 {
        0
    } else {
        spec_digits_val(s.drop_last()) * 10 + (s.last() as int - 48)
    }
}

/// The sign and digit body of an integer literal: one optional leading
/// sign character, then the rest.
pub open spec fn spec_int_sign(s: Seq<char>) -> (bool, Seq<char>) {
    if s.len() > 0 && s.first() == '-' {
        (true, s.drop_first())
    } else if s.len() > 0 && s.first() == '+' {
        (false, s.drop_first())
    } else {
        (false, s)
    }
}

/// What parsing a signed 64-bit decimal accepts and returns: an optional
/// sign, then at least one digit and nothing else, with the value inside
/// the i64 range.
pub open spec fn spec_parse_i64(s: Seq<char>) -> Option<i64> {
    let neg = spec_int_sign(s).0;
    let body = spec_int_sign(s).1;
    if body.len() == 0 || !(forall|i: int| 0 <= i < body.len() ==> spec_is_digit(#[trigger] body[i])) {
        None
    } else {
        let v = if neg {
            -spec_digits_val(body)
        } else {
            spec_digits_val(body)
        };
        if i64::MIN <= v <= i64::MAX {
            Some(v as i64)
        } else {
            None
        }
    }
}

/// An all-digit string has a non-negative value.
proof fn lemma_digits_val_nonneg(s: Seq<char>)
    requires
        forall|i: int| 0 <= i < s.len() ==> spec_is_digit(#[trigger] s[i]),
    ensures
        spec_digits_val(s) >= 0,
    decreases s.len(),
{
    if s.len() > 0 {
        lemma_digits_val_nonneg(s.drop_last());
    }
}

/// The value of an all-digit string is at least the value of any prefix.
proof fn lemma_digits_val_prefix_le(s: Seq<char>, i: int)
    requires
        0 <= i <= s.len(),
        forall|k: int| 0 <= k < s.len() ==> spec_is_digit(#[trigger] s[k]),
    ensures
        spec_digits_val(s.take(i)) <= spec_digits_val(s),
    decreases s.len() - i,
{
    if i < s.len() {
        assert(s.take(i + 1).drop_last() =~= s.take(i));
        assert forall|k: int| 0 <= k < s.take(i).len() implies spec_is_digit(
            #[trigger] s.take(i)[k],
        ) by {};
        lemma_digits_val_nonneg(s.take(i));
        assert(spec_digits_val(s.take(i + 1)) == spec_digits_val(s.take(i)) * 10 + (s[i] as int
            - 48));
        lemma_digits_val_prefix_le(s, i + 1);
    } else {
        assert(s.take(i) =~= s);
    }
}

/// Parses a signed 64-bit decimal: an optional sign, then digits.
pub fn parse_i64(s: &str) -> (r: Option<i64>)
    ensures
        r == spec_parse_i64(s@),
{
    let n = s.unicode_len();
    let mut idx: usize = 0;
    if n > 0 {
        let c0 = s.get_char(0);
        if c0 == '-' || c0 == '+' {
            idx = 1;
        }
    }
    let ghost pair = spec_int_sign(s@);
    let ghost body = pair.1;
    proof {
        assert(body =~= s@.skip(idx as int));
    }
    if idx == n {
        return None;
    }
    let mut acc: i128 = 0;
    let mut i: usize = idx;
    while i < n
        invariant
            n == s@.len(),
            idx <= i <= n,
            idx <= 1,
            pair == spec_int_sign(s@),
            body == pair.1,
            pair.0 <==> (idx == 1 && s@[0] == '-'),
            body =~= s@.skip(idx as int),
            forall|k: int| 0 <= k < i - idx ==> spec_is_digit(#[trigger] body[k]),
            acc == spec_digits_val(body.take(i - idx)),
            0 <= acc <= 0x1000_0000_0000_0000_0000,
        decreases n - i,
    {
        let c = s.get_char(i);
        if c < '0' || c > '9' {
            proof {
                assert(body[i - idx] == s@[i as int]);
                assert(!spec_is_digit(spec_int_sign(s@).1[i - idx]));
            }
            return None;
        }
        if acc > 0x100_0000_0000_0000_0000i128 {
            // Even the digits so far overflow the i64 range; more digits
            // can only grow the magnitude.
            proof {
                if forall|k: int|
                    0 <= k < spec_int_sign(s@).1.len() ==> spec_is_digit(
                        #[trigger] spec_int_sign(s@).1[k],
                    ) {
                    assert forall|k: int| 0 <= k < body.len() implies spec_is_digit(
                        #[trigger] body[k],
                    ) by {
                        assert(body[k] == spec_int_sign(s@).1[k]);
                    };
                    lemma_digits_val_prefix_le(body, i - idx);
                    assert(spec_digits_val(body) >= acc);
                }
            }
            return None;
        }
        let d: i128 = (c as u32 - 48) as i128;
        proof {
            assert(body.take(i + 1 - idx).drop_last() =~= body.take(i - idx));
            assert(body[i - idx] == s@[i as int]);
        }
        acc = acc * 10 + d;
        i = i + 1;
    }
    proof {
        assert(body.take(n - idx) =~= body);
        if acc > i64::MAX as i128 {
            lemma_digits_val_nonneg(body);
        }
    }
    let neg = idx == 1 && s.get_char(0) == '-';
    proof {
        assert(pair.0 == neg);
    }
    if neg {
        if acc > 0x8000_0000_0000_0000i128 {
            None
        } else {
            Some((-acc) as i64)
        }
    } else {
        if acc > 0x7FFF_FFFF_FFFF_FFFFi128 {
            None
        } else {
            Some(acc as i64)
        }
    }
}

} // verus!
