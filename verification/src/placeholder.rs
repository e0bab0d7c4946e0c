//! Positional placeholders: how the marker of the n-th parameter is written
//! into SQL text, and which markers a text holds.

use vstd::prelude::*;
use vstd::string::StringExecFns;

verus! {

/// The decimal digit for `d`.
pub open spec fn digit(d: nat) -> char {
    if d == 0 {
        '0'
    } else if d == 1 {
        '1'
    } else if d == 2 {
        '2'
    } else if d == 3 {
        '3'
    } else if d == 4 {
        '4'
    } else if d == 5 {
        '5'
    } else if d == 6 {
        '6'
    } else if d == 7 {
        '7'
    } else if d == 8 {
        '8'
    } else {
        '9'
    }
}

/// Whether `c` is a decimal digit.
pub open spec fn is_digit(c: char) -> bool {
    '0' <= c <= '9'
}

/// The number that the decimal digit `c` stands for.
pub open spec fn digit_value(c: char) -> nat {
    (c as u32 - '0' as u32) as nat
}

/// `n` in decimal, without leading zeros.
pub open spec fn decimal(n: nat) -> Seq<char>
    decreases n,
{
    if n < 10 {
        seq![digit(n)]
    } else {
        decimal(n / 10).push(digit(n % 10))
    }
}

/// The number that a sequence of decimal digits stands for.
pub open spec fn number_of(digits: Seq<char>) -> nat
    decreases digits.len(),
{
    if digits.len() == 0 {
        0
    } else {
        number_of(digits.drop_last()) * 10 + digit_value(digits.last())
    }
}

/// The marker of the `n`-th parameter: a dollar sign and `n` in decimal.
pub open spec fn placeholder(n: nat) -> Seq<char> {
    seq!['$'] + decimal(n)
}

/// The digit for `d`, as text.
fn digit_str(d: u8) -> (s: &'static str)
    requires
        d < 10,
    ensures
        s@ == seq![digit(d as nat)],
{
    proof {
        reveal_strlit("0");
        reveal_strlit("1");
        reveal_strlit("2");
        reveal_strlit("3");
        reveal_strlit("4");
        reveal_strlit("5");
        reveal_strlit("6");
        reveal_strlit("7");
        reveal_strlit("8");
        reveal_strlit("9");
    }
    let s = if d == 0 {
        "0"
    } else if d == 1 {
        "1"
    } else if d == 2 {
        "2"
    } else if d == 3 {
        "3"
    } else if d == 4 {
        "4"
    } else if d == 5 {
        "5"
    } else if d == 6 {
        "6"
    } else if d == 7 {
        "7"
    } else if d == 8 {
        "8"
    } else {
        "9"
    };
    assert(s@ =~= seq![digit(d as nat)]);
    s
}

/// Appends `n` in decimal to `text`.
pub fn push_decimal(text: &mut String, n: u128)
    ensures
        final(text)@ == old(text)@ + decimal(n as nat),
    decreases n,
{
    if n < 10 {
        text.append(digit_str(n as u8));
    } else {
        push_decimal(text, n / 10);
        text.append(digit_str((n % 10) as u8));
        assert(text@ =~= old(text)@ + decimal(n as nat));
    }
}

/// Appends the marker of the `n`-th parameter to `text`.
pub fn push_placeholder(text: &mut String, n: u128)
    ensures
        final(text)@ == old(text)@ + placeholder(n as nat),
{
    proof {
        reveal_strlit("$");
    }
    text.append("$");
    push_decimal(text, n);
    assert(text@ =~= old(text)@ + placeholder(n as nat));
}

/// The run of decimal digits that `text` begins with.
pub open spec fn leading_digits(text: Seq<char>) -> Seq<char>
    decreases text.len(),
{
    if text.len() > 0 && is_digit(text[0]) {
        seq![text[0]] + leading_digits(text.drop_first())
    } else {
        Seq::empty()
    }
}

/// The numbers of the parameter markers in `text`, in the order in which
/// they stand there: every dollar sign is a marker, and its number is what
/// the digits that follow it say.
pub open spec fn placeholders(text: Seq<char>) -> Seq<nat>
    decreases text.len(),
{
    if text.len() == 0 {
        Seq::empty()
    } else if text[0] == '$' {
        seq![number_of(leading_digits(text.drop_first()))] + placeholders(text.drop_first())
    } else {
        placeholders(text.drop_first())
    }
}

/// Whether `text` holds no dollar sign.
pub open spec fn marker_free(text: Seq<char>) -> bool {
    forall|i: int| 0 <= i < text.len() ==> text[i] != '$'
}

/// Whether `text` is made of decimal digits only.
pub open spec fn all_digits(text: Seq<char>) -> bool {
    forall|i: int| 0 <= i < text.len() ==> is_digit(#[trigger] text[i])
}

/// The numbers 1 to `n`, in order.
pub open spec fn one_to(n: nat) -> Seq<nat> {
    Seq::new(n, |k: int| (k + 1) as nat)
}

/// A text without a dollar sign holds no marker.
pub proof fn lemma_marker_free(text: Seq<char>)
    requires
        marker_free(text),
    ensures
        placeholders(text) == Seq::<nat>::empty(),
    decreases text.len(),
{
    if text.len() > 0 {
        lemma_marker_free(text.drop_first());
    }
}

/// A text without a dollar sign adds no marker to what follows it.
pub proof fn lemma_marker_free_prefix(text: Seq<char>, rest: Seq<char>)
    requires
        marker_free(text),
    ensures
        placeholders(text + rest) == placeholders(rest),
    decreases text.len(),
{
    if text.len() == 0 {
        assert(text + rest =~= rest);
    } else {
        assert((text + rest).drop_first() =~= text.drop_first() + rest);
        lemma_marker_free_prefix(text.drop_first(), rest);
    }
}

/// A run of digits ends where the text ends or a character that is no digit
/// follows: what comes after that does not change it.
pub proof fn lemma_leading_digits_append(text: Seq<char>, rest: Seq<char>)
    requires
        rest.len() == 0 || !is_digit(rest[0]),
    ensures
        leading_digits(text + rest) == leading_digits(text),
    decreases text.len(),
{
    if text.len() == 0 {
        assert(text + rest =~= rest);
    } else {
        assert((text + rest).drop_first() =~= text.drop_first() + rest);
        lemma_leading_digits_append(text.drop_first(), rest);
    }
}

/// The markers of two texts put together are the markers of the first and
/// then those of the second, as long as the second does not begin with a
/// digit.
pub proof fn lemma_placeholders_append(text: Seq<char>, rest: Seq<char>)
    requires
        rest.len() == 0 || !is_digit(rest[0]),
    ensures
        placeholders(text + rest) == placeholders(text) + placeholders(rest),
    decreases text.len(),
{
    if text.len() == 0 {
        assert(text + rest =~= rest);
        assert(placeholders(text) + placeholders(rest) =~= placeholders(rest));
    } else {
        assert((text + rest).drop_first() =~= text.drop_first() + rest);
        lemma_placeholders_append(text.drop_first(), rest);
        if text[0] == '$' {
            lemma_leading_digits_append(text.drop_first(), rest);
            assert(placeholders(text + rest) =~= placeholders(text) + placeholders(rest));
        }
    }
}

/// A text of digits is its own leading run of digits.
pub proof fn lemma_leading_digits_of_digits(text: Seq<char>)
    requires
        all_digits(text),
    ensures
        leading_digits(text) == text,
    decreases text.len(),
{
    if text.len() > 0 {
        assert(is_digit(text[0]));
        assert forall|i: int| 0 <= i < text.drop_first().len() implies is_digit(
            #[trigger] text.drop_first()[i],
        ) by {
            assert(text.drop_first()[i] == text[i + 1]);
        }
        lemma_leading_digits_of_digits(text.drop_first());
        assert(seq![text[0]] + text.drop_first() =~= text);
    } else {
        assert(text =~= Seq::<char>::empty());
    }
}

/// The decimal form of a number is made of digits and stands for that
/// number.
pub proof fn lemma_decimal(n: nat)
    ensures
        decimal(n).len() > 0,
        all_digits(decimal(n)),
        number_of(decimal(n)) == n,
    decreases n,
{
    if n < 10 {
        assert(decimal(n).drop_last() =~= Seq::<char>::empty());
        assert(number_of(decimal(n).drop_last()) == 0);
    } else {
        lemma_decimal(n / 10);
        assert(decimal(n).drop_last() =~= decimal(n / 10));
        assert(decimal(n).last() == digit(n % 10));
    }
}

/// The marker of the `n`-th parameter is read as one marker with the number
/// `n`.
pub proof fn lemma_placeholder(n: nat)
    ensures
        placeholders(placeholder(n)) == seq![n],
{
    lemma_decimal(n);
    let text = placeholder(n);
    assert(text.drop_first() =~= decimal(n));
    lemma_leading_digits_of_digits(decimal(n));
    assert(marker_free(decimal(n))) by {
        assert forall|i: int| 0 <= i < decimal(n).len() implies decimal(n)[i] != '$' by {
            assert(is_digit(decimal(n)[i]));
        }
    }
    lemma_marker_free(decimal(n));
    assert(placeholders(text) =~= seq![n]);
}

} // verus!
