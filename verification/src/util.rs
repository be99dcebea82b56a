//! Text helpers: decimal rendering of integers, string comparison and the
//! marks used for boolean flags.

use vstd::prelude::*;
use vstd::string::StringExecFns;

verus! {

/// The decimal digit character for `d < 10`.
pub open spec fn digit_char(d: nat) -> char {
    if d == 0 {
        '0'
    } else if d == 1 {
        '1'
    } else if d == 2 {
        '2'
    } else if d == 3 {
        '3'
    } else if d == 4 {
        '4'
    } else if d == 5 {
        '5'
    } else if d == 6 {
        '6'
    } else if d == 7 {
        '7'
    } else if d == 8 {
        '8'
    } else {
        '9'
    }
}

/// Decimal digits of `n`, most significant first, without leading zeros.
pub open spec fn decimal(n: nat) -> Seq<char>
    decreases n,
{
    if n < 10 {
        seq![digit_char(n)]
    } else {
        decimal(n / 10).push(digit_char(n % 10))
    }
}

/// Decimal text of an integer: a minus sign before the digits of a
/// negative number.
pub open spec fn int_text(v: int) -> Seq<char> {
    if v < 0 {
        seq!['-'] + decimal((-v) as nat)
    } else {
        decimal(v as nat)
    }
}

/// The decimal text of a number is never empty, starts with a digit (never a
/// minus sign), and has two digits or more from ten on.
pub proof fn lemma_decimal_shape(n: nat)
    ensures
        decimal(n).len() >= 1,
        decimal(n)[0] != '-',
        n >= 10 ==> decimal(n).len() >= 2,
    decreases n,
{
    if n >= 10 {
        lemma_decimal_shape(n / 10);
    }
}

/// Different numbers have different decimal texts.
pub proof fn lemma_decimal_injective(a: nat, b: nat)
    ensures
        decimal(a) == decimal(b) ==> a == b,
    decreases a,
{
    lemma_decimal_shape(a);
    lemma_decimal_shape(b);
    if decimal(a) == decimal(b) {
        let (da, db) = (decimal(a), decimal(b));
        assert(da.last() == db.last());
        if a >= 10 && b >= 10 {
            assert(da.drop_last() =~= decimal(a / 10));
            assert(db.drop_last() =~= decimal(b / 10));
            lemma_decimal_injective(a / 10, b / 10);
            assert(digit_char(a % 10) == digit_char(b % 10));
        }
    }
}

/// Different integers have different decimal texts.
pub proof fn lemma_int_text_injective(a: int, b: int)
    ensures
        int_text(a) == int_text(b) ==> a == b,
{
    if int_text(a) == int_text(b) {
        if a < 0 && b < 0 {
            assert(int_text(a).skip(1) =~= decimal((-a) as nat));
            assert(int_text(b).skip(1) =~= decimal((-b) as nat));
            lemma_decimal_injective((-a) as nat, (-b) as nat);
        } else if a < 0 {
            lemma_decimal_shape(b as nat);
            assert(int_text(a)[0] == '-');
        } else if b < 0 {
            lemma_decimal_shape(a as nat);
            assert(int_text(b)[0] == '-');
        } else {
            lemma_decimal_injective(a as nat, b as nat);
        }
    }
}

/// Appends the text of the digit `d` to `s`.
fn push_digit(s: &mut String, d: u64)
    requires
        d < 10,
    ensures
        final(s)@ == old(s)@.push(digit_char(d as nat)),
{
    proof {
        reveal_strlit("0");
        reveal_strlit("1");
        reveal_strlit("2");
        reveal_strlit("3");
        reveal_strlit("4");
        reveal_strlit("5");
        reveal_strlit("6");
        reveal_strlit("7");
        reveal_strlit("8");
        reveal_strlit("9");
    }
    let t = if d == 0 {
        "0"
    } else if d == 1 {
        "1"
    } else if d == 2 {
        "2"
    } else if d == 3 {
        "3"
    } else if d == 4 {
        "4"
    } else if d == 5 {
        "5"
    } else if d == 6 {
        "6"
    } else if d == 7 {
        "7"
    } else if d == 8 {
        "8"
    } else {
        "9"
    };
    s.append(t);
    proof {
        assert(final(s)@ =~= old(s)@.push(digit_char(d as nat)));
    }
}

/// Appends the decimal digits of `n` to `s`.
pub fn push_decimal(s: &mut String, n: u64)
    ensures
        final(s)@ == old(s)@ + decimal(n as nat),
    decreases n,
{
    if n >= 10 {
        push_decimal(s, n / 10);
    }
    push_digit(s, n % 10);
    proof {
        if n >= 10 {
            assert(final(s)@ =~= old(s)@ + decimal(n as nat));
        } else {
            assert(final(s)@ =~= old(s)@ + decimal(n as nat));
        }
    }
}

/// Decimal text of `v`, as `v.to_string()` gives it.
pub fn int_to_string(v: i64) -> (r: String)
    ensures
        r@ == int_text(v as int),
{
    let mut s = String::new();
    if v < 0 {
        s.append("-");
        let m: u64 = (-(v as i128)) as u64;
        push_decimal(&mut s, m);
        proof {
            reveal_strlit("-");
            assert(s@ =~= int_text(v as int));
        }
    } else {
        push_decimal(&mut s, v as u64);
        proof {
            assert(s@ =~= int_text(v as int));
        }
    }
    s
}

/// Whether two string slices hold the same characters.
pub fn str_eq(a: &str, b: &str) -> (r: bool)
    ensures
        r == (a@ == b@),
{
    a.to_owned() == b.to_owned()
}

/// The mark shown for a set flag.
pub open spec fn yes_mark() -> Seq<char> {
    "✓"@
}

/// The mark shown for a clear flag.
pub open spec fn no_mark() -> Seq<char> {
    "✗"@
}

/// The mark for a boolean flag: a tick when set, a cross when clear.
pub fn format_bool(val: bool) -> (r: &'static str)
    ensures
        r@ == if val { yes_mark() } else { no_mark() },
{
    if val {
        "✓"
    } else {
        "✗"
    }
}

} // verus!
