//! Text for log lines: numbers and flags as they are displayed.

use vstd::prelude::*;
use vstd::string::*;

verus! {

/// The character for a single decimal digit.
pub open spec fn digit(d: nat) -> char {
    (0x30 + d) as char
}

/// The shortest decimal numeral of `n`.
pub open spec fn decimal(n: nat) -> Seq<char>
    decreases n,
{
    if n < 10 {
        seq![digit(n)]
    } else {
        decimal(n / 10).push(digit(n % 10))
    }
}

/// How a flag is displayed.
pub open spec fn flag(b: bool) -> Seq<char> {
    if b {
        "true"@
    } else {
        "false"@
    }
}

/// A digit as text.
fn digit_text(d: u32) -> (text: &'static str)
    requires
        d < 10,
    ensures
        text@ == seq![digit(d as nat)],
{
    let text: &'static str = match d {
        0 => "0",
        1 => "1",
        2 => "2",
        3 => "3",
        4 => "4",
        5 => "5",
        6 => "6",
        7 => "7",
        8 => "8",
        _ => "9",
    };
    proof {
        reveal_strlit("0");
        reveal_strlit("1");
        reveal_strlit("2");
        reveal_strlit("3");
        reveal_strlit("4");
        reveal_strlit("5");
        reveal_strlit("6");
        reveal_strlit("7");
        reveal_strlit("8");
        reveal_strlit("9");
        assert(text@.len() == 1);
        assert(text@[0] == digit(d as nat));
    }
    text
}

/// Appends the decimal numeral of `n` to `out`.
pub fn push_decimal(out: &mut String, n: u32)
    ensures
        final(out)@ == old(out)@ + decimal(n as nat),
    decreases n,
{
    if n < 10 {
        out.append(digit_text(n));
    } else {
        push_decimal(out, n / 10);
        out.append(digit_text(n % 10));
        assert(old(out)@ + decimal((n / 10) as nat) + seq![digit((n % 10) as nat)] =~= old(out)@
            + decimal((n / 10) as nat).push(digit((n % 10) as nat)));
    }
}

/// A flag as text.
pub fn flag_text(b: bool) -> (text: &'static str)
    ensures
        text@ == flag(b),
{
    if b {
        "true"
    } else {
        "false"
    }
}

/// The number that a row of digits denotes.
pub open spec fn numeral_value(s: Seq<char>) -> int
    decreases s.len(),
{
    if s.len() == 0 {
        0
    } else {
        10 * numeral_value(s.drop_last()) + (s.last() as int - '0' as int)
    }
}

/// The numeral of a number denotes that number, has nothing but digits, and starts with a zero
/// only if it is zero.
pub proof fn law_decimal_denotes_number(n: nat)
    ensures
        numeral_value(decimal(n)) == n,
        decimal(n).len() > 0,
        forall|i: int|
            0 <= i < decimal(n).len() ==> '0' as int <= #[trigger] decimal(n)[i] as int <= '9' as int,
        n > 0 ==> decimal(n)[0] != '0',
        n == 0 ==> decimal(n).len() == 1,
    decreases n,
{
    reveal_with_fuel(numeral_value, 2);
    if n < 10 {
        assert(decimal(n).drop_last() =~= Seq::<char>::empty());
    } else {
        law_decimal_denotes_number(n / 10);
        assert(decimal(n).drop_last() =~= decimal(n / 10));
    }
}

} // verus!
