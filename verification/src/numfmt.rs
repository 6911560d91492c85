//! Decimal formatting of integers, verified against a sequence-of-digits
//! specification. The canonical header carries the receipt identifier as a
//! string, so the adapter needs an exact account of that rendering.

use vstd::prelude::*;
use vstd::string::StringExecFns;

verus! {

/// The character of one decimal digit value.
pub open spec fn digit_char(d: int) -> char {
    if d == 0 {
        '0'
    } else if d == 1 {
        '1'
    } else if d == 2 {
        '2'
    } else if d == 3 {
        '3'
    } else if d == 4 {
        '4'
    } else if d == 5 {
        '5'
    } else if d == 6 {
        '6'
    } else if d == 7 {
        '7'
    } else if d == 8 {
        '8'
    } else {
        '9'
    }
}

/// The decimal digit characters of `n`, most significant first, with no
/// leading zeros (`0` itself is the single character `'0'`).
pub open spec fn dec_digits(n: nat) -> Seq<char>
    decreases n,
{
    if n < 10 {
        seq![digit_char(n as int)]
    } else {
        dec_digits(n / 10) + seq![digit_char((n % 10) as int)]
    }
}

/// The decimal rendering of a signed value: a `-` sign for negatives,
/// then the digits of the magnitude.
pub open spec fn i64_dec(v: int) -> Seq<char> {
    if v < 0 {
        seq!['-'] + dec_digits((-v) as nat)
    } else {
        dec_digits(v as nat)
    }
}

/// The digit characters of a digit-value sequence read back to front.
pub open spec fn chars_of_rev(ds: Seq<u64>) -> Seq<char>
    decreases ds.len(),
{
    if ds.len() == 0 {
        Seq::empty()
    } else {
        seq![digit_char(ds.last() as int)] + chars_of_rev(ds.drop_last())
    }
}

/// The one-character string of one decimal digit value.
fn digit_str(d: u64) -> (s: &'static str)
    requires
        d <= 9,
    ensures
        s@ == seq![digit_char(d as int)],
{
    let r: &'static str = if d == 0 {
        "0"
    } else if d == 1 {
        "1"
    } else if d == 2 {
        "2"
    } else if d == 3 {
        "3"
    } else if d == 4 {
        "4"
    } else if d == 5 {
        "5"
    } else if d == 6 {
        "6"
    } else if d == 7 {
        "7"
    } else if d == 8 {
        "8"
    } else {
        "9"
    };
    proof {
        reveal_strlit("0");
        reveal_strlit("1");
        reveal_strlit("2");
        reveal_strlit("3");
        reveal_strlit("4");
        reveal_strlit("5");
        reveal_strlit("6");
        reveal_strlit("7");
        reveal_strlit("8");
        reveal_strlit("9");
        assert(r@ =~= seq![digit_char(d as int)]);
    }
    r
}

/// Renders an unsigned value in decimal.
pub fn u64_to_dec(n: u64) -> (s: String)
    ensures
        s@ == dec_digits(n as nat),
{
    let mut digits: Vec<u64> = Vec::new();
    let mut rem: u64 = n;
    while rem >= 10
        invariant
            dec_digits(n as nat) =~= dec_digits(rem as nat) + chars_of_rev(digits@),
            forall|k: int| 0 <= k < digits@.len() ==> digits@[k] <= 9,
        decreases rem,
    {
        let d: u64 = rem % 10;
        proof {
            assert(digits@.push(d).drop_last() =~= digits@);
            assert(chars_of_rev(digits@.push(d)) =~= seq![digit_char(d as int)] + chars_of_rev(
                digits@,
            ));
            assert(dec_digits(rem as nat) =~= dec_digits((rem / 10) as nat) + seq![
                digit_char(d as int),
            ]);
            assert(dec_digits((rem / 10) as nat) + chars_of_rev(digits@.push(d)) =~= dec_digits(
                rem as nat,
            ) + chars_of_rev(digits@));
        }
        digits.push(d);
        rem = rem / 10;
    }
    let mut s = String::new();
    s.append(digit_str(rem));
    proof {
        assert(dec_digits(rem as nat) =~= seq![digit_char(rem as int)]);
        assert(s@ + chars_of_rev(digits@) =~= dec_digits(n as nat));
        assert(digits@.subrange(0, digits@.len() as int) =~= digits@);
    }
    let mut j: usize = digits.len();
    while j > 0
        invariant
            j <= digits@.len(),
            forall|k: int| 0 <= k < digits@.len() ==> digits@[k] <= 9,
            s@ + chars_of_rev(digits@.subrange(0, j as int)) =~= dec_digits(n as nat),
        decreases j,
    {
        let d: u64 = digits[j - 1];
        proof {
            assert(digits@.subrange(0, j as int).last() == d);
            assert(digits@.subrange(0, j as int).drop_last() =~= digits@.subrange(
                0,
                j as int - 1,
            ));
            assert(chars_of_rev(digits@.subrange(0, j as int)) =~= seq![digit_char(d as int)]
                + chars_of_rev(digits@.subrange(0, j as int - 1)));
            assert((s@ + seq![digit_char(d as int)]) + chars_of_rev(
                digits@.subrange(0, j as int - 1),
            ) =~= s@ + chars_of_rev(digits@.subrange(0, j as int)));
        }
        s.append(digit_str(d));
        j = j - 1;
    }
    proof {
        assert(digits@.subrange(0, 0) =~= Seq::<u64>::empty());
        assert(chars_of_rev(Seq::<u64>::empty()) =~= Seq::<char>::empty());
        assert(s@ =~= dec_digits(n as nat));
    }
    s
}

/// Renders a signed value in decimal, as the standard library would.
pub fn i64_to_dec(v: i64) -> (s: String)
    ensures
        s@ == i64_dec(v as int),
{
    if v >= 0 {
        u64_to_dec(v as u64)
    } else {
        let mag: u64 = if v == i64::MIN {
            9223372036854775808
        } else {
            (-v) as u64
        };
        assert(mag as int == -(v as int));
        let rest = u64_to_dec(mag);
        let s = String::new().concat("-").concat(rest.as_str());
        proof {
            reveal_strlit("-");
            assert(s@ =~= seq!['-'] + dec_digits(mag as nat));
        }
        s
    }
}

} // verus!
