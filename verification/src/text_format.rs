use vstd::prelude::*;

verus! {

/// The upper-case digit for `d` in `0..16`.
pub open spec fn digit_char(d: int) -> char {
    if d < 10 {
        ('0' as int + d) as char
    } else {
        ('A' as int + (d - 10)) as char
    }
}

/// The decimal digits of `n`, most significant first, without leading zeros
/// (`0` is the single digit `0`), as `{}` prints an unsigned integer.
pub open spec fn decimal_chars(n: nat) -> Seq<char>
    decreases n,
{
    if n < 10 {
        seq![digit_char(n as int)]
    } else {
        decimal_chars(n / 10).push(digit_char((n % 10) as int))
    }
}

/// The last `width` upper-case hexadecimal digits of `n`, most significant
/// first; for `n < 16^width` this is what `{:0width$X}` prints.
pub open spec fn hex_chars(n: nat, width: nat) -> Seq<char>
    decreases width,
{
    if width == 0 {
        seq![]
    } else {
        hex_chars(n / 16, (width - 1) as nat).push(digit_char((n % 16) as int))
    }
}

/// Calls `String::push`, which appends the character to the end.
#[verifier::external_body]
fn push_char(s: &mut String, c: char)
    ensures
        final(s)@ == old(s)@.push(c),
{
    s.push(c);
}

fn digit(d: u64) -> (c: char)
    requires
        d < 16,
    ensures
        c == digit_char(d as int),
{
    let b: u8 = d as u8;
    if b < 10 {
        (48u8 + b) as char
    } else {
        (55u8 + b) as char
    }
}

/// Appends the decimal digits of `n`.
pub fn push_decimal(s: &mut String, n: u64)
    ensures
        final(s)@ == old(s)@ + decimal_chars(n as nat),
    decreases n,
{
    if n >= 10 {
        push_decimal(s, n / 10);
    }
    push_char(s, digit(n % 10));
    assert(s@ =~= old(s)@ + decimal_chars(n as nat));
}

/// Appends the last `width` upper-case hexadecimal digits of `n`.
pub fn push_hex(s: &mut String, n: u64, width: u32)
    ensures
        final(s)@ == old(s)@ + hex_chars(n as nat, width as nat),
    decreases width,
{
    if width > 0 {
        push_hex(s, n / 16, width - 1);
        push_char(s, digit(n % 16));
    }
    assert(s@ =~= old(s)@ + hex_chars(n as nat, width as nat));
}

/// The value of a digit character (`0`-`9`, `A`-`F`).
pub open spec fn digit_value(c: char) -> int {
    if c <= '9' {
        c as int - '0' as int
    } else {
        c as int - 'A' as int + 10
    }
}

/// The number that the digits `s` spell in base `base`.
pub open spec fn digits_value(s: Seq<char>, base: int) -> int
    decreases s.len(),
{
    if s.len() == 0 {
        0
    } else {
        digits_value(s.drop_last(), base) * base + digit_value(s.last())
    }
}

/// `16` to the power `w`.
pub open spec fn pow16(w: nat) -> int
    decreases w,
{
    if w == 0 {
        1
    } else {
        16 * pow16((w - 1) as nat)
    }
}

/// Decimal digits read back as the number they were made from.
pub proof fn lemma_decimal_roundtrip(n: nat)
    ensures
        digits_value(decimal_chars(n), 10) == n,
        decimal_chars(n).len() >= 1,
        forall|i: int| 0 <= i < decimal_chars(n).len() ==> '0' <= #[trigger] decimal_chars(n)[i] <= '9',
    decreases n,
{
    lemma_digit_roundtrip((n % 10) as int);
    if n < 10 {
        assert(decimal_chars(n).drop_last() =~= Seq::<char>::empty());
        assert(digits_value(Seq::<char>::empty(), 10) == 0);
        assert(n % 10 == n);
        assert(digits_value(decimal_chars(n), 10) == n);
    } else {
        lemma_decimal_roundtrip(n / 10);
        let s = decimal_chars(n);
        assert(s.drop_last() =~= decimal_chars(n / 10));
        assert(digits_value(s, 10) == (n / 10) * 10 + n % 10);
        assert forall|i: int| 0 <= i < s.len() implies '0' <= #[trigger] s[i] <= '9' by {
            if i < s.len() - 1 {
                assert(s[i] == decimal_chars(n / 10)[i]);
            }
        }
    }
}

/// Hexadecimal digits are exactly `width` long and read back as the number
/// modulo `16^width` (the number itself when it fits).
pub proof fn lemma_hex_roundtrip(n: nat, width: nat)
    ensures
        hex_chars(n, width).len() == width,
        digits_value(hex_chars(n, width), 16) == (n as int) % pow16(width),
        n < pow16(width) ==> digits_value(hex_chars(n, width), 16) == n,
    decreases width,
{
    if width > 0 {
        lemma_hex_roundtrip(n / 16, (width - 1) as nat);
        let s = hex_chars(n, width);
        lemma_digit_roundtrip((n % 16) as int);
        assert(s.drop_last() =~= hex_chars(n / 16, (width - 1) as nat));
        let p = pow16((width - 1) as nat);
        assert(p > 0) by {
            lemma_pow16_positive((width - 1) as nat);
        }
        assert(((n as int / 16) % p) * 16 + (n as int) % 16 == (n as int) % (16 * p)) by {
            vstd::arithmetic::div_mod::lemma_mod_breakdown(n as int, 16, p);
            vstd::arithmetic::mul::lemma_mul_is_commutative(16, p);
        }
    }
    if n < pow16(width) {
        assert((n as int) % pow16(width) == n) by {
            lemma_pow16_positive(width);
            vstd::arithmetic::div_mod::lemma_small_mod(n, pow16(width) as nat);
        }
    }
}

proof fn lemma_digit_roundtrip(d: int)
    requires
        0 <= d < 16,
    ensures
        digit_value(digit_char(d)) == d,
        d < 10 ==> '0' <= digit_char(d) <= '9',
{
}

proof fn lemma_pow16_positive(w: nat)
    ensures
        pow16(w) > 0,
    decreases w,
{
    if w > 0 {
        lemma_pow16_positive((w - 1) as nat);
    }
}

} // verus!
