//! Decimal notation of unsigned numbers.
use crate::text::{extended, given, room, write_ascii};
use format_no_std::WriteTo;
use vstd::prelude::*;
use vstd::utf8::is_ascii_chars;

verus! {

/// The character that stands for one decimal digit.
pub open spec fn digit(value: nat) -> char
    recommends
        value < 10,
{
    ('0' as u32 + value) as char
}

/// The decimal notation of `value`, without leading zeros.
pub open spec fn decimal(value: nat) -> Seq<char>
    decreases value,
{
    if value < 10 {
        seq![digit(value)]
    } else {
        decimal(value / 10).push(digit(value % 10))
    }
}

/// The text of one digit.
fn digit_text(value: u16) -> (text: &'static str)
    requires
        value < 10,
    ensures
        text@ == seq![digit(value as nat)],
{
    proof {
        reveal_strlit("0");
        reveal_strlit("1");
        reveal_strlit("2");
        reveal_strlit("3");
        reveal_strlit("4");
        reveal_strlit("5");
        reveal_strlit("6");
        reveal_strlit("7");
        reveal_strlit("8");
        reveal_strlit("9");
    }
    match value {
        0 => "0",
        1 => "1",
        2 => "2",
        3 => "3",
        4 => "4",
        5 => "5",
        6 => "6",
        7 => "7",
        8 => "8",
        _ => "9",
    }
}

/// Writes the decimal notation of `value` behind the text that the writer has.
pub(crate) fn write_decimal<'a>(writer: &mut WriteTo<'a>, value: u16) -> (written: Result<
    (),
    core::fmt::Error,
>)
    requires
        is_ascii_chars(given(*old(writer))),
    ensures
        written is Ok <==> given(*old(writer)).len() + decimal(value as nat).len() <= room(
            *old(writer),
        ),
        written is Ok ==> extended(*old(writer), *final(writer), decimal(value as nat)),
    decreases value,
{
    proof {
        lemma_decimal_shape(value as nat);
    }
    if value >= 10 {
        if let Err(error) = write_decimal(writer, value / 10) {
            return Err(error);
        }
        assert(given(*old(writer)) + decimal(value as nat) =~= given(*writer) + seq![
            digit(value as nat % 10),
        ]);
    }
    write_ascii(writer, digit_text(value % 10))
}

/// A decimal notation is made of digits, and its length is the number of powers of
/// ten that the value has reached.
pub proof fn lemma_decimal_shape(value: nat)
    requires
        value < 100_000,
    ensures
        decimal(value).len() == (if value < 10 {
            1nat
        } else if value < 100 {
            2
        } else if value < 1_000 {
            3
        } else if value < 10_000 {
            4
        } else {
            5
        }),
        forall|i: int|
            0 <= i < decimal(value).len() ==> '0' <= #[trigger] decimal(value)[i] <= '9',
        is_ascii_chars(decimal(value)),
    decreases value,
{
    if value >= 10 {
        lemma_decimal_shape(value / 10);
    }
}

/// Two numbers with the same notation are the same number.
pub proof fn law_decimal_is_injective(a: nat, b: nat)
    requires
        decimal(a) == decimal(b),
    ensures
        a == b,
    decreases a,
{
    lemma_decimal_not_empty(a / 10);
    lemma_decimal_not_empty(b / 10);
    if a < 10 && b < 10 {
        assert(decimal(a)[0] == digit(a) && decimal(b)[0] == digit(b));
    } else if a >= 10 && b >= 10 {
        assert(decimal(a).last() == digit(a % 10) && decimal(b).last() == digit(b % 10));
        assert(decimal(a).drop_last() =~= decimal(a / 10));
        assert(decimal(b).drop_last() =~= decimal(b / 10));
        law_decimal_is_injective(a / 10, b / 10);
    }
}

proof fn lemma_decimal_not_empty(value: nat)
    ensures
        decimal(value).len() >= 1,
    decreases value,
{
    if value >= 10 {
        lemma_decimal_not_empty(value / 10);
    }
}

/// The number that a row of digits stands for: each place counts ten times the next.
pub open spec fn number(text: Seq<char>) -> int
    decreases text.len(),
{
    if text.len() == 0 {
        0
    } else {
        10 * number(text.drop_last()) + (text.last() as int - '0' as int)
    }
}

/// Whether `text` is the way to write `value`: digits only, at least one, without a leading
/// zero before another digit, that stand for the value.
pub open spec fn is_numeral(text: Seq<char>, value: int) -> bool {
    &&& text.len() > 0
    &&& forall|i: int| 0 <= i < text.len() ==> '0' <= #[trigger] text[i] <= '9'
    &&& text.len() > 1 ==> text[0] != '0'
    &&& number(text) == value
}

/// Every number has one numeral, which is its decimal notation.
pub proof fn law_decimal_is_the_numeral(text: Seq<char>, value: nat)
    ensures
        is_numeral(text, value as int) <==> text == decimal(value),
{
    lemma_decimal_is_numeral(value);
    if is_numeral(text, value as int) {
        lemma_numeral_is_decimal(text, value);
    }
}

proof fn lemma_decimal_is_numeral(value: nat)
    ensures
        is_numeral(decimal(value), value as int),
        value > 0 ==> decimal(value)[0] != '0',
    decreases value,
{
    if value < 10 {
        assert(decimal(value).drop_last() =~= Seq::empty());
        assert(number(decimal(value).drop_last()) == 0);
    } else {
        lemma_decimal_is_numeral(value / 10);
        assert(decimal(value).drop_last() =~= decimal(value / 10));
    }
}

proof fn lemma_numeral_is_decimal(text: Seq<char>, value: nat)
    requires
        is_numeral(text, value as int),
    ensures
        text == decimal(value),
    decreases text.len(),
{
    let head = text.drop_last();
    assert('0' <= text[text.len() - 1] <= '9');
    if text.len() == 1 {
        assert(number(head) == 0);
        assert(text =~= decimal(value));
    } else {
        assert forall|i: int| 0 <= i < head.len() implies '0' <= #[trigger] head[i] <= '9' by {
            assert(head[i] == text[i]);
        }
        lemma_leading_digit_counts(head);
        lemma_numeral_is_decimal(head, number(head) as nat);
        assert(number(head) == value / 10);
        assert(text =~= decimal(value));
    }
}

proof fn lemma_leading_digit_counts(text: Seq<char>)
    requires
        text.len() > 0,
        forall|i: int| 0 <= i < text.len() ==> '0' <= #[trigger] text[i] <= '9',
        text[0] != '0',
    ensures
        number(text) > 0,
    decreases text.len(),
{
    let head = text.drop_last();
    assert('0' <= text[text.len() - 1] <= '9');
    if text.len() == 1 {
        assert(number(head) == 0);
    } else {
        assert forall|i: int| 0 <= i < head.len() implies '0' <= #[trigger] head[i] <= '9' by {
            assert(head[i] == text[i]);
        }
        lemma_leading_digit_counts(head);
    }
}

/// A fold that counts each place ten times the next gives the number of a row of digits.
pub(crate) proof fn lemma_fold_is_number(text: Seq<char>, place: spec_fn(int, char) -> int)
    requires
        forall|n: int, c: char| #[trigger] place(n, c) == 10 * n + (c as int - '0' as int),
    ensures
        text.fold_left(0, place) == number(text),
    decreases text.len(),
{
    if text.len() > 0 {
        lemma_fold_is_number(text.drop_last(), place);
    }
}

} // verus!
