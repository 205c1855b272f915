use vstd::prelude::*;

use crate::math_utils::{digits_value, BigNat};

verus! {

/// The Cairo field's prime, 2^251 + 17 * 2^192 + 1.
pub open spec fn spec_cairo_prime() -> nat {
    0x800000000000011000000000000000000000000000000000000000000000001nat
}

/// The Cairo field's prime, 2^251 + 17 * 2^192 + 1.
pub fn cairo_prime() -> (p: BigNat)
    ensures
        p.value() == spec_cairo_prime(),
{
    let digits: Vec<u32> = vec![1, 0, 0, 0, 0, 0, 17, 0x0800_0000];
    proof {
        let d0 = digits@;
        let d1 = d0.drop_first();
        let d2 = d1.drop_first();
        let d3 = d2.drop_first();
        let d4 = d3.drop_first();
        let d5 = d4.drop_first();
        let d6 = d5.drop_first();
        let d7 = d6.drop_first();
        let d8 = d7.drop_first();
        assert(d8.len() == 0);
        assert(digits_value(d8) == 0);
        assert(d7[0] == 134217728u32);
        assert(digits_value(d7) == 134217728nat);
        assert(d6[0] == 17u32);
        assert(digits_value(d6) == 576460752303423505nat);
        assert(d5[0] == 0u32);
        assert(digits_value(d5) == 2475880078570760622812692480nat);
        assert(d4[0] == 0u32);
        assert(digits_value(d4) == 10633823966279327296825105735305134080nat);
        assert(d3[0] == 0u32);
        assert(digits_value(d3) == 45671926166590717540743913764877583454495047680nat);
        assert(d2[0] == 0u32);
        assert(digits_value(d2) == 196159429230833779654668657131193454380566933979560673280nat);
        assert(d1[0] == 0u32);
        assert(digits_value(d1) == 842498333348457518428872056094713068013802919381204224185341050880nat);
        assert(d0[0] == 1u32);
        assert(digits_value(d0) == 3618502788666131213697322783095070105623107215331596699973092056135872020481nat);
    }
    BigNat { digits }
}

/// The Cairo field's prime, 2^251 + 17 * 2^192 + 1, in hexadecimal.
pub const PRIME_STR: &'static str = "0x800000000000011000000000000000000000000000000000000000000000001";

/// The character of a decimal digit.
pub open spec fn digit_char(d: nat) -> char {
    if d == 0 { '0' }
    else if d == 1 { '1' }
    else if d == 2 { '2' }
    else if d == 3 { '3' }
    else if d == 4 { '4' }
    else if d == 5 { '5' }
    else if d == 6 { '6' }
    else if d == 7 { '7' }
    else if d == 8 { '8' }
    else { '9' }
}

/// The decimal notation of a natural number, without leading zeros.
pub open spec fn decimal(n: nat) -> Seq<char>
    decreases n,
{
    if n < 10 {
        seq![digit_char(n)]
    } else {
        decimal(n / 10).push(digit_char(n % 10))
    }
}

fn digit_str(d: usize) -> (s: &'static str)
    requires
        d < 10,
    ensures
        s@ == seq![digit_char(d as nat)],
{
    if d == 0 {
        proof { reveal_strlit("0"); }
        "0"
    } else if d == 1 {
        proof { reveal_strlit("1"); }
        "1"
    } else if d == 2 {
        proof { reveal_strlit("2"); }
        "2"
    } else if d == 3 {
        proof { reveal_strlit("3"); }
        "3"
    } else if d == 4 {
        proof { reveal_strlit("4"); }
        "4"
    } else if d == 5 {
        proof { reveal_strlit("5"); }
        "5"
    } else if d == 6 {
        proof { reveal_strlit("6"); }
        "6"
    } else if d == 7 {
        proof { reveal_strlit("7"); }
        "7"
    } else if d == 8 {
        proof { reveal_strlit("8"); }
        "8"
    } else {
        proof { reveal_strlit("9"); }
        "9"
    }
}

/// Appends the decimal notation of `n` to `s`, as `usize`'s `Display` writes it.
pub fn push_decimal(s: &mut String, n: usize)
    ensures
        final(s)@ == old(s)@ + decimal(n as nat),
    decreases n,
{
    if n >= 10 {
        push_decimal(s, n / 10);
    }
    s.append(digit_str(n % 10));
    proof {
        if n >= 10 {
            assert(decimal(n as nat) == decimal((n / 10) as nat).push(digit_char((n % 10) as nat)));
        }
    }
}

} // verus!
