use crate::styles::{Newline, Style};
use vstd::prelude::*;

verus! {

/// `unit` written `n` times in a row.
pub open spec fn repeat(unit: Seq<char>, n: nat) -> Seq<char>
    decreases n,
{
    if n == 0 {
        Seq::empty()
    } else {
        repeat(unit, (n - 1) as nat) + unit
    }
}

/// What the indentation primitive writes for `style`: a line break under
/// `Newline::Add`, then the unit once per level.
pub open spec fn indent_text(style: Style) -> Seq<char> {
    let head = if style.newline == Newline::Add {
        seq!['\n']
    } else {
        Seq::empty()
    };
    head + repeat(style.indent@, style.indent_level as nat)
}

/// Appends the text of `style`'s indentation to `buf`.
pub fn push_indent(buf: &mut String, style: Style)
    ensures
        final(buf)@ == old(buf)@ + indent_text(style),
{
    let ghost start = buf@;
    if style.newline == Newline::Add {
        buf.append("\n");
        proof {
            reveal_strlit("\n");
        }
    }
    let ghost head = buf@;
    let mut i: usize = 0;
    while i < style.indent_level
        invariant
            i <= style.indent_level,
            buf@ == head + repeat(style.indent@, i as nat),
        decreases style.indent_level - i,
    {
        buf.append(style.indent);
        proof {
            assert(repeat(style.indent@, (i + 1) as nat) == repeat(style.indent@, i as nat) + style.indent@);
            assert(head + repeat(style.indent@, i as nat) + style.indent@
                =~= head + repeat(style.indent@, (i + 1) as nat));
        }
        i = i + 1;
    }
    proof {
        if style.newline == Newline::Add {
            assert(head =~= start + seq!['\n']);
        } else {
            assert(head =~= start + Seq::<char>::empty());
        }
        assert(buf@ =~= start + indent_text(style));
    }
}

/// The character of a decimal digit.
pub open spec fn digit_char(d: nat) -> char {
    if d == 0 {
        '0'
    } else if d == 1 {
        '1'
    } else if d == 2 {
        '2'
    } else if d == 3 {
        '3'
    } else if d == 4 {
        '4'
    } else if d == 5 {
        '5'
    } else if d == 6 {
        '6'
    } else if d == 7 {
        '7'
    } else if d == 8 {
        '8'
    } else {
        '9'
    }
}

/// The decimal numeral of `n`, without leading zeros.
pub open spec fn decimal(n: nat) -> Seq<char>
    decreases n,
{
    if n < 10 {
        seq![digit_char(n)]
    } else {
        decimal(n / 10) + seq![digit_char(n % 10)]
    }
}

/// The decimal numeral of `n`, with a leading `-` when it is negative.
pub open spec fn signed_decimal(n: int) -> Seq<char> {
    if n < 0 {
        seq!['-'] + decimal((-n) as nat)
    } else {
        decimal(n as nat)
    }
}

fn digit_str(d: u128) -> (r: &'static str)
    requires
        d < 10,
    ensures
        r@ == seq![digit_char(d as nat)],
{
    proof {
        reveal_strlit("0");
        reveal_strlit("1");
        reveal_strlit("2");
        reveal_strlit("3");
        reveal_strlit("4");
        reveal_strlit("5");
        reveal_strlit("6");
        reveal_strlit("7");
        reveal_strlit("8");
        reveal_strlit("9");
    }
    let r = if d == 0 {
        "0"
    } else if d == 1 {
        "1"
    } else if d == 2 {
        "2"
    } else if d == 3 {
        "3"
    } else if d == 4 {
        "4"
    } else if d == 5 {
        "5"
    } else if d == 6 {
        "6"
    } else if d == 7 {
        "7"
    } else if d == 8 {
        "8"
    } else {
        "9"
    };
    assert(r@ =~= seq![digit_char(d as nat)]);
    r
}

/// Appends the decimal numeral of `n` to `buf`.
pub fn push_unsigned(buf: &mut String, n: u128)
    ensures
        final(buf)@ == old(buf)@ + decimal(n as nat),
    decreases n,
{
    let ghost start = buf@;
    if n >= 10 {
        push_unsigned(buf, n / 10);
    }
    buf.append(digit_str(n % 10));
    proof {
        if n >= 10 {
            assert(buf@ =~= start + decimal(n as nat));
        } else {
            assert(buf@ =~= start + decimal(n as nat));
        }
    }
}

/// Appends the decimal numeral of `n`, signed, to `buf`.
pub fn push_signed(buf: &mut String, n: i128)
    ensures
        final(buf)@ == old(buf)@ + signed_decimal(n as int),
{
    let ghost start = buf@;
    if n < 0 {
        buf.append("-");
        proof {
            reveal_strlit("-");
        }
        let magnitude: u128 = (-(n + 1)) as u128 + 1;
        push_unsigned(buf, magnitude);
        assert(buf@ =~= start + signed_decimal(n as int));
    } else {
        push_unsigned(buf, n as u128);
    }
}

} // verus!
