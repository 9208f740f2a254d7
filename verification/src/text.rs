//! Building the text of error messages: appending to a `String` and writing
//! integers in decimal.

use vstd::prelude::*;

verus! {

/// The character of a decimal digit `d` (`0 <= d < 10`).
pub open spec fn digit_char(d: nat) -> char {
    (48 + d) as char
}

/// The decimal digits of a natural number, most significant first, with no
/// leading zeros (zero itself is written as one `0`).
pub open spec fn decimal_digits(n: nat) -> Seq<char>
    decreases n,
{
    if n < 10 {
        seq![digit_char(n)]
    } else {
        decimal_digits(n / 10).push(digit_char(n % 10))
    }
}

/// The decimal text of an integer, as Rust's `Display` writes it: a `-` in
/// front of a negative number, then its digits.
pub open spec fn decimal_text(i: int) -> Seq<char> {
    if i < 0 {
        seq!['-'] + decimal_digits((-i) as nat)
    } else {
        decimal_digits(i as nat)
    }
}

/// The number a string of decimal digits stands for.
pub open spec fn digits_value(s: Seq<char>) -> int
    decreases s.len(),
{
    if s.len() == 0 {
        0
    } else {
        digits_value(s.drop_last()) * 10 + (s.last() as int - 48)
    }
}

/// Writing a natural number in decimal and reading the digits back gives
/// the number; the text is never empty and starts with a zero only for
/// zero itself.
pub proof fn law_decimal_digits_read_back(n: nat)
    ensures
        digits_value(decimal_digits(n)) == n,
        decimal_digits(n).len() >= 1,
        n > 0 ==> decimal_digits(n)[0] != '0',
        forall|i: int|
            0 <= i < decimal_digits(n).len() ==> 48 <= #[trigger] decimal_digits(n)[i] as int
                <= 57,
    decreases n,
{
    if n < 10 {
        assert(decimal_digits(n) == seq![digit_char(n)]);
        assert(seq![digit_char(n)].drop_last() =~= Seq::<char>::empty());
        assert(digits_value(Seq::<char>::empty()) == 0);
    } else {
        law_decimal_digits_read_back(n / 10);
        let prefix = decimal_digits(n / 10);
        assert(decimal_digits(n).drop_last() =~= prefix);
        assert(decimal_digits(n)[0] == prefix[0]);
        assert forall|i: int| 0 <= i < decimal_digits(n).len() implies 48
            <= #[trigger] decimal_digits(n)[i] as int <= 57 by {
            if i < prefix.len() {
                assert(decimal_digits(n)[i] == prefix[i]);
            }
        }
    }
}

/// Different integers have different decimal texts, so the code in a
/// recorded message determines the code.
pub proof fn law_decimal_text_injective(a: int, b: int)
    requires
        decimal_text(a) == decimal_text(b),
    ensures
        a == b,
{
    if a < 0 {
        law_decimal_digits_read_back((-a) as nat);
    } else {
        law_decimal_digits_read_back(a as nat);
    }
    if b < 0 {
        law_decimal_digits_read_back((-b) as nat);
    } else {
        law_decimal_digits_read_back(b as nat);
    }
    if a < 0 && b < 0 {
        assert(decimal_digits((-a) as nat) =~= decimal_text(a).drop_first());
        assert(decimal_digits((-b) as nat) =~= decimal_text(b).drop_first());
    } else if a < 0 && b >= 0 {
        assert(decimal_text(a)[0] == '-');
        assert(decimal_text(b)[0] == decimal_digits(b as nat)[0]);
        assert(48 <= decimal_digits(b as nat)[0] as int);
        assert(false);
    } else if a >= 0 && b < 0 {
        assert(decimal_text(b)[0] == '-');
        assert(decimal_text(a)[0] == decimal_digits(a as nat)[0]);
        assert(48 <= decimal_digits(a as nat)[0] as int);
        assert(false);
    }
}

/// Appends the character `c` to `s`.
///
/// Trusted: calls `String::push`, which the standard library documents as
/// appending the given `char` to the end of the `String`.
#[verifier::external_body]
pub(crate) fn push_char(s: &mut String, c: char)
    ensures
        final(s)@ == old(s)@.push(c),
{
    s.push(c);
}

/// Appends the decimal digits of `n` to `s`.
fn push_digits(s: &mut String, n: u64)
    ensures
        final(s)@ == old(s)@ + decimal_digits(n as nat),
    decreases n,
{
    if n >= 10 {
        push_digits(s, n / 10);
    }
    let d: u64 = n % 10;
    assert(48 + d < 128);
    let c: char = (48u8 + (d as u8)) as char;
    assert(c == digit_char(d as nat));
    push_char(s, c);
    proof {
        if n >= 10 {
            assert(decimal_digits(n as nat) == decimal_digits((n / 10) as nat).push(
                digit_char((n % 10) as nat),
            ));
        }
    }
}

/// Appends the decimal text of `n` to `s`, as `write!(s, "{}", n)` does.
pub fn push_decimal(s: &mut String, n: i64)
    ensures
        final(s)@ == old(s)@ + decimal_text(n as int),
{
    if n < 0 {
        push_char(s, '-');
        let magnitude: u64 = (0i128 - (n as i128)) as u64;
        push_digits(s, magnitude);
        assert(final(s)@ =~= old(s)@ + decimal_text(n as int)) by {
            assert(seq!['-'] + decimal_digits(magnitude as nat) == decimal_text(n as int));
        }
    } else {
        push_digits(s, n as u64);
    }
}

/// The message recorded for a failed SDK call: the call's name, then the
/// code in brackets.
pub open spec fn code_message(context: Seq<char>, code: int) -> Seq<char> {
    context + " (code: "@ + decimal_text(code) + ")"@
}

/// Writes `"{context} (code: {code})"`, the message recorded for an SDK
/// call that returned the non-zero `code`.
pub fn format_code_message(context: &str, code: i64) -> (r: String)
    ensures
        r@ == code_message(context@, code as int),
{
    let mut s = String::new();
    s.append(context);
    s.append(" (code: ");
    push_decimal(&mut s, code);
    s.append(")");
    assert(s@ =~= code_message(context@, code as int));
    s
}

} // verus!
