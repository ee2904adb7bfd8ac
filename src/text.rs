//! Decimal rendering of integers and fixed-point values.
use vstd::prelude::*;

verus! {

/// The ASCII digit for `d` (taken modulo ten).
pub open spec fn digit_char(d: nat) -> char {
    let d = d % 10;
    if d == 0 { '0' }
    else if d == 1 { '1' }
    else if d == 2 { '2' }
    else if d == 3 { '3' }
    else if d == 4 { '4' }
    else if d == 5 { '5' }
    else if d == 6 { '6' }
    else if d == 7 { '7' }
    else if d == 8 { '8' }
    else { '9' }
}

/// The decimal digits of `n`, most significant first, without leading zeros.
pub open spec fn decimal_digits(n: nat) -> Seq<char>
    decreases n,
{
    if n < 10 {
        seq![digit_char(n)]
    } else {
        decimal_digits(n / 10).push(digit_char(n % 10))
    }
}

/// The decimal digits of `n`, padded on the left with zeros to `width` characters.
pub open spec fn zero_padded(n: nat, width: nat) -> Seq<char> {
    let d = decimal_digits(n);
    if d.len() >= width {
        d
    } else {
        Seq::new((width - d.len()) as nat, |_i: int| '0') + d
    }
}

/// The digits after the decimal point of a fraction given in thousandths
/// (`1 <= f <= 999`), with trailing zeros dropped.
pub open spec fn fraction_digits(f: nat) -> Seq<char> {
    if f % 100 == 0 {
        seq![digit_char(f / 100)]
    } else if f % 10 == 0 {
        seq![digit_char(f / 100), digit_char(f / 10)]
    } else {
        seq![digit_char(f / 100), digit_char(f / 10), digit_char(f)]
    }
}

/// The shortest decimal text of the value `v / 1000`: `2500` reads `2.5`,
/// `200` reads `0.2`, `3000` reads `3`.
pub open spec fn thousandths_text(v: nat) -> Seq<char> {
    let whole = decimal_digits(v / 1000);
    if v % 1000 == 0 {
        whole
    } else {
        whole + seq!['.'] + fraction_digits(v % 1000)
    }
}

proof fn lemma_decimal_digits_nonempty(n: nat)
    ensures
        decimal_digits(n).len() >= 1,
    decreases n,
{
    if n >= 10 {
        lemma_decimal_digits_nonempty(n / 10);
    }
}

/// A one-character string holding the digit `d`.
fn digit_str(d: u64) -> (r: &'static str)
    requires
        d < 10,
    ensures
        r@ == seq![digit_char(d as nat)],
{
    proof {
        reveal_strlit("0");
        reveal_strlit("1");
        reveal_strlit("2");
        reveal_strlit("3");
        reveal_strlit("4");
        reveal_strlit("5");
        reveal_strlit("6");
        reveal_strlit("7");
        reveal_strlit("8");
        reveal_strlit("9");
    }
    if d == 0 {
        "0"
    } else if d == 1 {
        "1"
    } else if d == 2 {
        "2"
    } else if d == 3 {
        "3"
    } else if d == 4 {
        "4"
    } else if d == 5 {
        "5"
    } else if d == 6 {
        "6"
    } else if d == 7 {
        "7"
    } else if d == 8 {
        "8"
    } else {
        "9"
    }
}

/// The decimal text of `n`.
pub fn decimal_text(n: u64) -> (r: String)
    ensures
        r@ == decimal_digits(n as nat),
    decreases n,
{
    if n < 10 {
        String::from_str(digit_str(n))
    } else {
        let mut s = decimal_text(n / 10);
        s.append(digit_str(n % 10));
        s
    }
}

/// The decimal text of `n`, padded on the left with zeros to `width` characters.
pub fn zero_padded_text(n: u64, width: usize) -> (r: String)
    ensures
        r@ == zero_padded(n as nat, width as nat),
{
    let digits = decimal_text(n);
    let len = digits.as_str().unicode_len();
    proof {
        lemma_decimal_digits_nonempty(n as nat);
    }
    if len >= width {
        return digits;
    }
    let missing = width - len;
    let mut s = digits;
    let mut k: usize = 0;
    while k < missing
        invariant
            k <= missing,
            s@ == Seq::new(k as nat, |_i: int| '0') + decimal_digits(n as nat),
        decreases missing - k,
    {
        proof {
            reveal_strlit("0");
        }
        s = String::from_str("0").concat(s.as_str());
        k = k + 1;
        assert(s@ =~= Seq::new(k as nat, |_i: int| '0') + decimal_digits(n as nat));
    }
    s
}

/// The shortest decimal text of `v / 1000`.
pub fn thousandths_to_text(v: u64) -> (r: String)
    ensures
        r@ == thousandths_text(v as nat),
{
    let mut s = decimal_text(v / 1000);
    let f = v % 1000;
    if f != 0 {
        proof {
            reveal_strlit(".");
        }
        s.append(".");
        s.append(digit_str(f / 100));
        if f % 100 != 0 {
            s.append(digit_str((f / 10) % 10));
            if f % 10 != 0 {
                s.append(digit_str(f % 10));
            }
        }
        assert(s@ =~= thousandths_text(v as nat));
    }
    s
}

} // verus!
