//! Integers written in base ten.
use vstd::prelude::*;
use vstd::string::*;

verus! {

/// The character of the decimal digit `d`.
pub open spec fn digit(d: nat) -> char
    recommends
        d < 10,
{
    ('0' as nat + d) as char
}

/// `n` in base ten, most significant digit first, without leading zeros.
pub open spec fn decimal(n: nat) -> Seq<char>
    decreases n,
{
    if n < 10 {
        seq![digit(n)]
    } else {
        decimal(n / 10).push(digit(n % 10))
    }
}

/// `n` in base ten, with a minus sign in front where it is negative.
pub open spec fn signed_decimal(n: int) -> Seq<char> {
    if n < 0 {
        seq!['-'] + decimal((-n) as nat)
    } else {
        decimal(n as nat)
    }
}

fn digit_text(d: u128) -> (text: &'static str)
    requires
        d < 10,
    ensures
        text@ == seq![digit(d as nat)],
{
    proof {
        reveal_strlit("0");
        reveal_strlit("1");
        reveal_strlit("2");
        reveal_strlit("3");
        reveal_strlit("4");
        reveal_strlit("5");
        reveal_strlit("6");
        reveal_strlit("7");
        reveal_strlit("8");
        reveal_strlit("9");
    }
    match d {
        0 => "0",
        1 => "1",
        2 => "2",
        3 => "3",
        4 => "4",
        5 => "5",
        6 => "6",
        7 => "7",
        8 => "8",
        _ => "9",
    }
}

/// Writes `n` in base ten.
pub fn decimal_text(n: u128) -> (text: String)
    ensures
        text@ == decimal(n as nat),
    decreases n,
{
    if n < 10 {
        String::from_str(digit_text(n))
    } else {
        let mut text = decimal_text(n / 10);
        text.append(digit_text(n % 10));
        text
    }
}

/// Writes `n` in base ten, signed.
pub fn signed_decimal_text(n: i32) -> (text: String)
    ensures
        text@ == signed_decimal(n as int),
{
    if n < 0 {
        proof {
            reveal_strlit("-");
        }
        let magnitude: i64 = -(n as i64);
        let mut text = String::from_str("-");
        text.append(decimal_text(magnitude as u128).as_str());
        text
    } else {
        decimal_text(n as u128)
    }
}

/// What is written is the number: one digit or more, none but the last a leading
/// zero, and read as base ten they give `n` back.
pub proof fn law_decimal_reads_back(n: nat)
    ensures
        decimal(n).len() >= 1,
        forall|i: int| 0 <= i < decimal(n).len() ==> '0' <= #[trigger] decimal(n)[i] <= '9',
        n > 0 ==> decimal(n)[0] != '0',
        n == 0 ==> decimal(n) == seq!['0'],
        decimal(n).fold_left(0int, |read: int, c: char| 10 * read + (c as int - 48)) == n,
    decreases n,
{
    let read = |read: int, c: char| 10 * read + (c as int - 48);
    if n < 10 {
        assert(decimal(n) =~= seq![digit(n)]);
        assert(digit(n) as int == 48 + n);
        assert(decimal(n).drop_last() =~= Seq::empty());
        reveal_with_fuel(Seq::fold_left, 2);
    } else {
        law_decimal_reads_back(n / 10);
        let last = digit(n % 10);
        assert(last as int == 48 + n % 10);
        assert(decimal(n).drop_last() =~= decimal(n / 10));
        assert(decimal(n).last() == last);
        assert forall|i: int| 0 <= i < decimal(n).len() implies '0' <= #[trigger] decimal(n)[i]
            <= '9' by {
            if i < decimal(n / 10).len() {
                assert(decimal(n)[i] == decimal(n / 10)[i]);
            }
        }
        assert(decimal(n)[0] == decimal(n / 10)[0]);
        reveal_with_fuel(Seq::fold_left, 2);
        assert(decimal(n).fold_left(0int, read) == read(
            decimal(n).drop_last().fold_left(0int, read),
            last,
        ));
    }
}

/// Writing one more digit behind a number writes the number that is ten times as
/// large, and that digit.
pub proof fn law_decimal_appends_digits(n: nat, d: nat)
    requires
        n > 0,
        d < 10,
    ensures
        decimal(10 * n + d).len() == decimal(n).len() + 1,
        decimal(10 * n + d).drop_last() == decimal(n),
        decimal(10 * n + d).last() as int == 48 + d,
{
    assert((10 * n + d) / 10 == n);
    assert((10 * n + d) % 10 == d);
    assert(decimal(10 * n + d).drop_last() =~= decimal(n));
}

/// What is written of a signed number reads back as that number: digits alone
/// where it is not negative, else a minus sign and the digits of its magnitude.
pub proof fn law_signed_decimal_reads_back(n: int)
    ensures
        n >= 0 ==> signed_decimal(n).len() >= 1,
        n >= 0 ==> forall|i: int|
            0 <= i < signed_decimal(n).len() ==> '0' <= #[trigger] signed_decimal(n)[i] <= '9',
        n > 0 ==> signed_decimal(n)[0] != '0',
        n == 0 ==> signed_decimal(n) == seq!['0'],
        n >= 0 ==> signed_decimal(n).fold_left(
            0int,
            |read: int, c: char| 10 * read + (c as int - 48),
        ) == n,
        n < 0 ==> signed_decimal(n).len() >= 2,
        n < 0 ==> signed_decimal(n)[0] == '-',
        n < 0 ==> signed_decimal(n)[1] != '0',
        n < 0 ==> forall|i: int|
            1 <= i < signed_decimal(n).len() ==> '0' <= #[trigger] signed_decimal(n)[i] <= '9',
        n < 0 ==> signed_decimal(n).skip(1).fold_left(
            0int,
            |read: int, c: char| 10 * read + (c as int - 48),
        ) == -n,
{
    if n < 0 {
        let magnitude = (-n) as nat;
        law_decimal_reads_back(magnitude);
        assert(signed_decimal(n).skip(1) =~= decimal(magnitude));
        assert forall|i: int| 1 <= i < signed_decimal(n).len() implies '0'
            <= #[trigger] signed_decimal(n)[i] <= '9' by {
            assert(signed_decimal(n)[i] == decimal(magnitude)[i - 1]);
        }
        assert(signed_decimal(n)[1] == decimal(magnitude)[0]);
    } else {
        law_decimal_reads_back(n as nat);
    }
}

/// No two numbers are written alike.
pub proof fn law_signed_decimal_is_injective(one: int, other: int)
    requires
        signed_decimal(one) == signed_decimal(other),
    ensures
        one == other,
{
    law_signed_decimal_reads_back(one);
    law_signed_decimal_reads_back(other);
}

} // verus!
