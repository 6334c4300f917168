//! Positional numerals: the text of a number in a radix, and the number that a text denotes.
use vstd::prelude::*;

verus! {

/// The character that stands for the digit `d`: `0` to `9`, then `a` to `z`.
pub open spec fn digit_char(d: nat) -> char {
    if d < 10 {
        (48 + d) as u8 as char
    } else {
        (87 + d) as u8 as char
    }
}

/// Whether `c` is a digit of the radix: one of `0` to `9` and `a` to `z`, of a value below
/// the radix.
pub open spec fn is_digit(c: char, radix: nat) -> bool {
    ('0' <= c <= '9' && (c as nat) - 48 < radix) || ('a' <= c <= 'z' && (c as nat) - 87 < radix)
}

/// The value of the digit `c`.
pub open spec fn digit_value(c: char) -> nat {
    if '0' <= c <= '9' {
        ((c as nat) - 48) as nat
    } else {
        ((c as nat) - 87) as nat
    }
}

/// Whether `s` is a run of one or more digits of the radix.
pub open spec fn is_digits(s: Seq<char>, radix: nat) -> bool {
    &&& s.len() > 0
    &&& forall|i: int| 0 <= i < s.len() ==> is_digit(#[trigger] s[i], radix)
}

/// The number that the digits `s` denote, the most significant digit first.
pub open spec fn digits_value(s: Seq<char>, radix: nat) -> nat
    decreases s.len(),
{
    if s.len() == 0 {
        0
    } else {
        digits_value(s.drop_last(), radix) * radix + digit_value(s.last())
    }
}

/// The digits of `n` in the radix, the most significant first and without leading zeros;
/// zero is the single digit `0`.
pub open spec fn nat_text(n: nat, radix: nat) -> Seq<char>
    decreases n,
    via nat_text_terminates
{
    if radix < 2 || n < radix {
        seq![digit_char(n)]
    } else {
        nat_text(n / radix, radix).push(digit_char(n % radix))
    }
}

#[via_fn]
proof fn nat_text_terminates(n: nat, radix: nat) {
    if radix >= 2 && n >= radix {
        assert(n / radix < n) by (nonlinear_arith)
            requires
                radix >= 2,
                n >= radix,
        ;
    }
}

/// The numeral of `v` in the radix: a minus sign if `v` is negative, then the digits of its
/// magnitude.
pub open spec fn int_text(v: int, radix: nat) -> Seq<char> {
    if v < 0 {
        seq!['-'] + nat_text((-v) as nat, radix)
    } else {
        nat_text(v as nat, radix)
    }
}

/// Whether `s` is a numeral of the radix: an optional minus sign, then one or more digits.
pub open spec fn is_numeral(s: Seq<char>, radix: nat) -> bool {
    if s.len() > 0 && s[0] == '-' {
        is_digits(s.drop_first(), radix)
    } else {
        is_digits(s, radix)
    }
}

/// The number that the numeral `s` denotes.
pub open spec fn numeral_value(s: Seq<char>, radix: nat) -> int {
    if s.len() > 0 && s[0] == '-' {
        -(digits_value(s.drop_first(), radix) as int)
    } else {
        digits_value(s, radix) as int
    }
}

proof fn lemma_digit_round_trip(d: nat, radix: nat)
    requires
        d < radix <= 36,
    ensures
        is_digit(digit_char(d), radix),
        digit_value(digit_char(d)) == d,
        digit_char(d) != '-',
{
}

/// The digits of a number are digits of the radix, do not start with a minus sign, and
/// denote the number.
pub proof fn lemma_nat_text_round_trip(n: nat, radix: nat)
    requires
        2 <= radix <= 36,
    ensures
        is_digits(nat_text(n, radix), radix),
        nat_text(n, radix)[0] != '-',
        digits_value(nat_text(n, radix), radix) == n,
    decreases n,
{
    let s = nat_text(n, radix);
    if n < radix {
        lemma_digit_round_trip(n, radix);
        assert(s.drop_last() =~= Seq::<char>::empty());
        assert(digits_value(s.drop_last(), radix) * radix == 0) by (nonlinear_arith)
            requires
                digits_value(s.drop_last(), radix) == 0,
        ;
    } else {
        let q = n / radix;
        let r = n % radix;
        assert(q < n && n == q * radix + r && r < radix) by (nonlinear_arith)
            requires
                q == n / radix,
                r == n % radix,
                n >= radix,
                radix >= 2,
        ;
        lemma_nat_text_round_trip(q, radix);
        lemma_digit_round_trip(r, radix);
        let head = nat_text(q, radix);
        assert(s.drop_last() =~= head);
        assert(s.last() == digit_char(r));
        assert(s[0] == head[0]);
        assert(digits_value(s.drop_last(), radix) * radix == q * radix);
    }
}

/// The numeral of a number is a numeral of the radix and denotes the number.
pub proof fn lemma_int_text_round_trip(v: int, radix: nat)
    requires
        2 <= radix <= 36,
    ensures
        is_numeral(int_text(v, radix), radix),
        numeral_value(int_text(v, radix), radix) == v,
{
    if v < 0 {
        let m = (-v) as nat;
        lemma_nat_text_round_trip(m, radix);
        assert(int_text(v, radix).drop_first() =~= nat_text(m, radix));
    } else {
        lemma_nat_text_round_trip(v as nat, radix);
    }
}

} // verus!
