//! Rendering of numbers for messages and device-tree node names.

use vstd::prelude::*;
use vstd::string::StringExecFns;

verus! {

/// The character of a digit below sixteen.
pub open spec fn digit_char(digit: nat) -> char {
    if digit < 10 {
        ('0' as u32 + digit) as char
    } else {
        ('a' as u32 + digit - 10) as char
    }
}

/// The digits of `value` in `base`, most significant first and without leading
/// zeros.
pub open spec fn digits(value: nat, base: nat) -> Seq<char>
    decreases value,
{
    if base < 2 || value < base {
        seq![digit_char(value)]
    } else {
        proof {
            assert(value / base < value) by (nonlinear_arith)
                requires
                    2 <= base,
                    base <= value,
            ;
        }
        digits(value / base, base).push(digit_char(value % base))
    }
}

/// The text of a digit below sixteen.
fn digit_text(digit: u64) -> (text: &'static str)
    requires
        digit < 16,
    ensures
        text@ == seq![digit_char(digit as nat)],
{
    proof {
        reveal_strlit("0");
        reveal_strlit("1");
        reveal_strlit("2");
        reveal_strlit("3");
        reveal_strlit("4");
        reveal_strlit("5");
        reveal_strlit("6");
        reveal_strlit("7");
        reveal_strlit("8");
        reveal_strlit("9");
        reveal_strlit("a");
        reveal_strlit("b");
        reveal_strlit("c");
        reveal_strlit("d");
        reveal_strlit("e");
        reveal_strlit("f");
    }
    let text = match digit {
        0 => "0",
        1 => "1",
        2 => "2",
        3 => "3",
        4 => "4",
        5 => "5",
        6 => "6",
        7 => "7",
        8 => "8",
        9 => "9",
        10 => "a",
        11 => "b",
        12 => "c",
        13 => "d",
        14 => "e",
        _ => "f",
    };
    assert(text@ =~= seq![digit_char(digit as nat)]);
    text
}

/// Renders `value` in `base`, as the `{}` (ten) and `{:x}` (sixteen) formats do.
pub fn render(value: u64, base: u64) -> (text: String)
    requires
        2 <= base <= 16,
    ensures
        text@ == digits(value as nat, base as nat),
    decreases value,
{
    if value < base {
        String::from_str(digit_text(value))
    } else {
        proof {
            assert(value / base < value) by (nonlinear_arith)
                requires
                    2 <= base,
                    base <= value,
            ;
            assert(value % base < base);
        }
        let mut text = render(value / base, base);
        text.append(digit_text(value % base));
        assert(text@ =~= digits(value as nat, base as nat));
        text
    }
}

/// What a digit of a number is worth.
pub open spec fn digit_worth(c: char) -> int {
    if c <= '9' {
        c as int - '0' as int
    } else {
        10 + (c as int - 'a' as int)
    }
}

/// The number that a text spells in `base`: the last digit counts once, and each digit
/// before it `base` times as much as the next one.
pub open spec fn spelled(text: Seq<char>, base: int) -> int
    decreases text.len(),
{
    if text.len() == 0 {
        0
    } else {
        spelled(text.drop_last(), base) * base + digit_worth(text.last())
    }
}

/// A rendered number spells the number: it consists of digits of the base, of which the
/// first is zero for the number zero only.
pub proof fn law_rendering_spells_the_number(value: nat, base: nat)
    requires
        2 <= base <= 16,
    ensures
        ({
            let text = digits(value, base);
            &&& spelled(text, base as int) == value
            &&& text.len() > 0
            &&& text[0] == '0' <==> value == 0
            &&& value == 0 ==> text.len() == 1
            &&& forall|i: int|
                0 <= i < text.len() ==> ('0' <= #[trigger] text[i] <= '9' || 'a' <= text[i] <= 'f')
                    && digit_worth(text[i]) < base
        }),
    decreases value,
{
    let text = digits(value, base);
    if value < base {
        assert(text.drop_last() =~= Seq::empty());
        assert(spelled(text.drop_last(), base as int) == 0);
        assert(0 * base == 0);
    } else {
        assert(value / base < value && value / base > 0 && value == value / base * base + value
            % base && value % base < base) by (nonlinear_arith)
            requires
                2 <= base,
                base <= value,
        ;
        law_rendering_spells_the_number(value / base, base);
        let before = digits(value / base, base);
        assert(text.drop_last() =~= before);
        assert(text[0] == before[0]);
        assert forall|i: int| 0 <= i < text.len() implies ('0' <= #[trigger] text[i] <= '9' || 'a'
            <= text[i] <= 'f') && digit_worth(text[i]) < base by {
            if i < before.len() {
                assert(text[i] == before[i]);
            }
        }
    }
}

} // verus!
