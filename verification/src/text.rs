//! Building the text of diagnostics and option values.
//!
//! Every message the crate hands out is assembled here from literals and
//! numbers, so that a contract can say exactly which characters it holds.

use vstd::prelude::*;

verus! {

/// The decimal digit `d` as a character.
pub open spec fn digit_char(d: nat) -> char
    recommends
        d < 10,
{
    (('0' as nat) + d) as char
}

/// The decimal numeral of `n`: no sign, no leading zero, `"0"` for zero.
pub open spec fn dec(n: nat) -> Seq<char>
    decreases n,
{
    if n < 10 {
        seq![digit_char(n)]
    } else {
        dec(n / 10).push(digit_char(n % 10))
    }
}

/// The decimal numeral of an integer, with a leading `-` below zero.
pub open spec fn dec_int(n: int) -> Seq<char> {
    if n < 0 {
        seq!['-'] + dec((-n) as nat)
    } else {
        dec(n as nat)
    }
}

/// The literal that writes one decimal digit.
fn digit_str(d: u128) -> (s: &'static str)
    requires
        d < 10,
    ensures
        s@ == seq![digit_char(d as nat)],
{
    proof {
        reveal_strlit("0");
        reveal_strlit("1");
        reveal_strlit("2");
        reveal_strlit("3");
        reveal_strlit("4");
        reveal_strlit("5");
        reveal_strlit("6");
        reveal_strlit("7");
        reveal_strlit("8");
        reveal_strlit("9");
    }
    if d == 0 {
        "0"
    } else if d == 1 {
        "1"
    } else if d == 2 {
        "2"
    } else if d == 3 {
        "3"
    } else if d == 4 {
        "4"
    } else if d == 5 {
        "5"
    } else if d == 6 {
        "6"
    } else if d == 7 {
        "7"
    } else if d == 8 {
        "8"
    } else {
        "9"
    }
}

/// Append the decimal numeral of `n` to `out`.
pub fn push_dec(out: &mut String, n: u128)
    ensures
        final(out)@ == old(out)@ + dec(n as nat),
    decreases n,
{
    if n >= 10 {
        push_dec(out, n / 10);
        let ghost head = out@;
        let s: &'static str = digit_str(n % 10);
        out.append(s);
        proof {
            assert(dec(n as nat) == dec((n / 10) as nat).push(digit_char((n % 10) as nat)));
            assert(out@ =~= old(out)@ + dec(n as nat));
        }
    } else {
        let s: &'static str = digit_str(n);
        out.append(s);
    }
}

/// Append the decimal numeral of `n`, signed, to `out`.
pub fn push_dec_int(out: &mut String, n: i64)
    ensures
        final(out)@ == old(out)@ + dec_int(n as int),
{
    if n < 0 {
        proof {
            reveal_strlit("-");
        }
        out.append("-");
        let magnitude: u128 = if n == i64::MIN {
            9_223_372_036_854_775_808u128
        } else {
            (-n) as u128
        };
        push_dec(out, magnitude);
        proof {
            assert(out@ =~= old(out)@ + dec_int(n as int));
        }
    } else {
        push_dec(out, n as u128);
    }
}

/// The decimal numeral of `n`.
pub fn decimal(n: u128) -> (s: String)
    ensures
        s@ == dec(n as nat),
{
    let mut out: String = String::new();
    push_dec(&mut out, n);
    proof {
        assert(out@ =~= dec(n as nat));
    }
    out
}

/// A digit of a numeral: the character and the digit determine each other.
proof fn digit_char_injective(a: nat, b: nat)
    requires
        a < 10,
        b < 10,
        digit_char(a) == digit_char(b),
    ensures
        a == b,
{
}

/// Two numerals that read the same are the same number: an option value or a
/// figure in a message says which number it stands for.
pub proof fn numeral_names_one_number(a: nat, b: nat)
    requires
        dec(a) == dec(b),
    ensures
        a == b,
    decreases a,
{
    numeral_len_is_positive(a);
    numeral_len_is_positive(b);
    assert(dec(a).last() == dec(b).last());
    if a < 10 {
        if b < 10 {
            assert(dec(a)[0] == digit_char(a));
            assert(dec(b)[0] == digit_char(b));
            digit_char_injective(a, b);
        } else {
            numeral_len_is_positive(b / 10);
            assert(dec(b).len() == dec(b / 10).len() + 1);
        }
    } else if b < 10 {
        numeral_len_is_positive(a / 10);
        assert(dec(a).len() == dec(a / 10).len() + 1);
    } else {
        assert(dec(a).drop_last() =~= dec(a / 10));
        assert(dec(b).drop_last() =~= dec(b / 10));
        numeral_names_one_number(a / 10, b / 10);
        assert(dec(a).last() == digit_char(a % 10));
        assert(dec(b).last() == digit_char(b % 10));
        digit_char_injective(a % 10, b % 10);
    }
}

proof fn numeral_len_is_positive(n: nat)
    ensures
        dec(n).len() > 0,
{
}

/// Whether two texts hold the same characters.
pub fn same_text(a: &str, b: &str) -> (same: bool)
    ensures
        same == (a@ == b@),
{
    let n: usize = a.unicode_len();
    if n != b.unicode_len() {
        return false;
    }
    let mut i: usize = 0;
    while i < n
        invariant
            i <= n,
            n == a@.len(),
            n == b@.len(),
            forall|j: int| 0 <= j < i ==> #[trigger] a@[j] == b@[j],
        decreases n - i,
    {
        if a.get_char(i) != b.get_char(i) {
            return false;
        }
        i = i + 1;
    }
    assert(a@ =~= b@);
    true
}

/// The number that a numeral stands for, read digit by digit.
pub open spec fn value_of(s: Seq<char>) -> int
    decreases s.len(),
{
    if s.len() == 0 {
        0
    } else {
        10 * value_of(s.drop_last()) + (s.last() as int - '0' as int)
    }
}

/// A numeral is made of decimal digits, reads back as its number, and starts
/// with a zero only where it is zero.
pub proof fn numerals_read_back(n: nat)
    ensures
        dec(n).len() > 0,
        forall|i: int| 0 <= i < dec(n).len() ==> '0' <= #[trigger] dec(n)[i] <= '9',
        value_of(dec(n)) == n,
        dec(n)[0] == '0' ==> n == 0,
    decreases n,
{
    if n < 10 {
        assert(dec(n) =~= seq![digit_char(n)]);
        assert(dec(n).drop_last() =~= Seq::empty());
        reveal_with_fuel(value_of, 2);
    } else {
        numerals_read_back(n / 10);
        let d = dec(n / 10);
        assert(dec(n) == d.push(digit_char(n % 10)));
        assert(dec(n).drop_last() =~= d);
        assert(dec(n)[0] == d[0]);
        assert forall|i: int| 0 <= i < dec(n).len() implies '0' <= #[trigger] dec(n)[i] <= '9' by {
            if i < d.len() {
                assert(dec(n)[i] == d[i]);
            }
        }
    }
}

/// A number below zero is its negation behind a minus sign, and any other has no
/// sign.
pub proof fn signs_read_back(n: int)
    ensures
        n < 0 ==> dec_int(n)[0] == '-' && dec_int(n).subrange(1, dec_int(n).len() as int) == dec(
            (-n) as nat,
        ),
        n >= 0 ==> dec_int(n)[0] != '-' && value_of(dec_int(n)) == n,
{
    if n < 0 {
        assert(dec_int(n).subrange(1, dec_int(n).len() as int) =~= dec((-n) as nat));
    } else {
        numerals_read_back(n as nat);
    }
}

} // verus!
