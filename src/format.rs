//! Decimal rendering of counts for human-readable reports.
use vstd::prelude::*;
use vstd::string::StringExecFns;

verus! {

/// The decimal digit `d`.
pub open spec fn digit_text(d: int) -> Seq<char> {
    if d == 0 {
        "0"@
    } else if d == 1 {
        "1"@
    } else if d == 2 {
        "2"@
    } else if d == 3 {
        "3"@
    } else if d == 4 {
        "4"@
    } else if d == 5 {
        "5"@
    } else if d == 6 {
        "6"@
    } else if d == 7 {
        "7"@
    } else if d == 8 {
        "8"@
    } else {
        "9"@
    }
}

/// The decimal digits of `n`, without leading zeros.
pub open spec fn decimal_text(n: nat) -> Seq<char>
    decreases n,
{
    if n < 10 {
        digit_text(n as int)
    } else {
        decimal_text(n / 10) + digit_text((n % 10) as int)
    }
}

/// The three decimal digits of `r` (below 1000), zero-padded.
pub open spec fn three_digits(r: nat) -> Seq<char> {
    digit_text((r / 100) as int) + digit_text(((r / 10) % 10) as int) + digit_text((r % 10) as int)
}

/// The decimal digits of `n` in groups of three separated by commas.
pub open spec fn grouped_text(n: nat) -> Seq<char>
    decreases n,
{
    if n < 1000 {
        decimal_text(n)
    } else {
        grouped_text(n / 1000) + ","@ + three_digits(n % 1000)
    }
}

fn append_digit(s: &mut String, d: u64)
    requires
        d < 10,
    ensures
        final(s)@ == old(s)@ + digit_text(d as int),
{
    if d == 0 {
        s.append("0");
    } else if d == 1 {
        s.append("1");
    } else if d == 2 {
        s.append("2");
    } else if d == 3 {
        s.append("3");
    } else if d == 4 {
        s.append("4");
    } else if d == 5 {
        s.append("5");
    } else if d == 6 {
        s.append("6");
    } else if d == 7 {
        s.append("7");
    } else if d == 8 {
        s.append("8");
    } else {
        s.append("9");
    }
}

/// Renders `n` in decimal with a comma between groups of three digits
/// (`1234567` becomes `1,234,567`).
pub fn format_number_with_commas(n: u64) -> (r: String)
    ensures
        r@ == grouped_text(n as nat),
    decreases n,
{
    if n < 1000 {
        let mut s = String::from_str("");
        proof {
            reveal_strlit("");
            assert(s@ =~= Seq::<char>::empty());
        }
        if n >= 100 {
            append_digit(&mut s, n / 100);
            append_digit(&mut s, (n / 10) % 10);
            append_digit(&mut s, n % 10);
            proof {
                assert(decimal_text(n as nat) == decimal_text((n / 10) as nat) + digit_text(
                    (n % 10) as int,
                ));
                assert(decimal_text((n / 10) as nat) == decimal_text((n / 100) as nat)
                    + digit_text(((n / 10) % 10) as int));
                assert(s@ =~= digit_text((n / 100) as int) + digit_text(((n / 10) % 10) as int)
                    + digit_text((n % 10) as int));
                assert(decimal_text((n / 100) as nat) == digit_text((n / 100) as int));
                assert(s@ == decimal_text(n as nat));
            }
        } else if n >= 10 {
            append_digit(&mut s, n / 10);
            append_digit(&mut s, n % 10);
            proof {
                assert(s@ =~= digit_text((n / 10) as int) + digit_text((n % 10) as int));
                assert(decimal_text((n / 10) as nat) == digit_text((n / 10) as int));
                assert(s@ == decimal_text(n as nat));
            }
        } else {
            append_digit(&mut s, n);
            proof {
                assert(s@ =~= digit_text(n as int));
                assert(s@ == decimal_text(n as nat));
            }
        }
        assert(grouped_text(n as nat) == decimal_text(n as nat));
        s
    } else {
        let mut s = format_number_with_commas(n / 1000);
        let ghost g = s@;
        s.append(",");
        let r = n % 1000;
        append_digit(&mut s, r / 100);
        append_digit(&mut s, (r / 10) % 10);
        append_digit(&mut s, r % 10);
        proof {
            assert(s@ =~= g + ","@ + three_digits(r as nat));
            assert(g == grouped_text((n / 1000) as nat));
            assert(grouped_text(n as nat) == grouped_text((n / 1000) as nat) + ","@ + three_digits(
                (n % 1000) as nat,
            ));
        }
        s
    }
}

} // verus!
