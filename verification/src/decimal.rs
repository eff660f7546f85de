//! Decimal rendering of request ids.
//!
//! A request id appears in the serialized envelope as a plain base-10 JSON
//! number. [`decimal_chars`] states what that text is; [`decimal_string`]
//! produces it.

use vstd::prelude::*;
use vstd::string::StringExecFns;

verus! {

/// The character for one decimal digit.
pub open spec fn digit_char(d: nat) -> char {
    if d == 0 {
        '0'
    } else if d == 1 {
        '1'
    } else if d == 2 {
        '2'
    } else if d == 3 {
        '3'
    } else if d == 4 {
        '4'
    } else if d == 5 {
        '5'
    } else if d == 6 {
        '6'
    } else if d == 7 {
        '7'
    } else if d == 8 {
        '8'
    } else {
        '9'
    }
}

/// The base-10 rendering of `n`: most significant digit first, no sign,
/// no leading zeros (except for `n == 0`, rendered as "0").
pub open spec fn decimal_chars(n: nat) -> Seq<char>
    decreases n,
{
    if n < 10 {
        seq![digit_char(n)]
    } else {
        decimal_chars(n / 10).push(digit_char(n % 10))
    }
}

/// Appends the character of the single digit `d` to `out`.
fn push_digit(d: u64, out: &mut String)
    requires
        d < 10,
    ensures
        final(out)@ == old(out)@ + seq![digit_char(d as nat)],
{
    if d == 0 {
        out.append("0");
        proof {
            reveal_strlit("0");
            assert(out@ =~= old(out)@ + seq![digit_char(d as nat)]);
        }
    } else if d == 1 {
        out.append("1");
        proof {
            reveal_strlit("1");
            assert(out@ =~= old(out)@ + seq![digit_char(d as nat)]);
        }
    } else if d == 2 {
        out.append("2");
        proof {
            reveal_strlit("2");
            assert(out@ =~= old(out)@ + seq![digit_char(d as nat)]);
        }
    } else if d == 3 {
        out.append("3");
        proof {
            reveal_strlit("3");
            assert(out@ =~= old(out)@ + seq![digit_char(d as nat)]);
        }
    } else if d == 4 {
        out.append("4");
        proof {
            reveal_strlit("4");
            assert(out@ =~= old(out)@ + seq![digit_char(d as nat)]);
        }
    } else if d == 5 {
        out.append("5");
        proof {
            reveal_strlit("5");
            assert(out@ =~= old(out)@ + seq![digit_char(d as nat)]);
        }
    } else if d == 6 {
        out.append("6");
        proof {
            reveal_strlit("6");
            assert(out@ =~= old(out)@ + seq![digit_char(d as nat)]);
        }
    } else if d == 7 {
        out.append("7");
        proof {
            reveal_strlit("7");
            assert(out@ =~= old(out)@ + seq![digit_char(d as nat)]);
        }
    } else if d == 8 {
        out.append("8");
        proof {
            reveal_strlit("8");
            assert(out@ =~= old(out)@ + seq![digit_char(d as nat)]);
        }
    } else {
        out.append("9");
        proof {
            reveal_strlit("9");
            assert(out@ =~= old(out)@ + seq![digit_char(d as nat)]);
        }
    }
}

/// Appends the base-10 rendering of `n` to `out`, most significant digit
/// first.
fn push_decimal(n: u64, out: &mut String)
    ensures
        final(out)@ == old(out)@ + decimal_chars(n as nat),
    decreases n,
{
    if n < 10 {
        push_digit(n, out);
    } else {
        push_decimal(n / 10, out);
        push_digit(n % 10, out);
        proof {
            assert((n / 10) as nat == (n as nat) / 10);
            assert((n % 10) as nat == (n as nat) % 10);
            assert(out@ =~= old(out)@ + decimal_chars(n as nat));
        }
    }
}

/// The base-10 text of `n`.
pub fn decimal_string(n: u64) -> (r: String)
    ensures
        r@ == decimal_chars(n as nat),
{
    let mut out = String::new();
    push_decimal(n, &mut out);
    proof {
        assert(out@ =~= decimal_chars(n as nat));
    }
    out
}

} // verus!
