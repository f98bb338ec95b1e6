//! Decimal rendering and indentation, used by the diagnostic
//! formatting layered over the generated code.
use crate::emit::repeat_seq;
use vstd::prelude::*;
use vstd::string::StringExecFns;

verus! {

/// The decimal digit character for `d`, which must be below ten.
pub open spec fn digit_char(d: nat) -> char {
    if d == 0 {
        '0'
    } else if d == 1 {
        '1'
    } else if d == 2 {
        '2'
    } else if d == 3 {
        '3'
    } else if d == 4 {
        '4'
    } else if d == 5 {
        '5'
    } else if d == 6 {
        '6'
    } else if d == 7 {
        '7'
    } else if d == 8 {
        '8'
    } else {
        '9'
    }
}

/// The decimal digits of `n`, most significant first.
pub open spec fn dec_digits(n: nat) -> Seq<char>
    decreases n,
{
    if n < 10 {
        seq![digit_char(n)]
    } else {
        dec_digits(n / 10).push(digit_char(n % 10))
    }
}

/// Appends the decimal digit `d` to `r`.
fn push_digit(r: &mut String, d: usize)
    requires
        d < 10,
    ensures
        final(r)@ == old(r)@.push(digit_char(d as nat)),
{
    let s: &str = if d == 0 {
        "0"
    } else if d == 1 {
        "1"
    } else if d == 2 {
        "2"
    } else if d == 3 {
        "3"
    } else if d == 4 {
        "4"
    } else if d == 5 {
        "5"
    } else if d == 6 {
        "6"
    } else if d == 7 {
        "7"
    } else if d == 8 {
        "8"
    } else {
        "9"
    };
    proof {
        reveal_strlit("0");
        reveal_strlit("1");
        reveal_strlit("2");
        reveal_strlit("3");
        reveal_strlit("4");
        reveal_strlit("5");
        reveal_strlit("6");
        reveal_strlit("7");
        reveal_strlit("8");
        reveal_strlit("9");
    }
    r.append(s);
    proof {
        assert(r@ =~= old(r)@.push(digit_char(d as nat)));
    }
}

/// Renders `n` in decimal.
pub fn usize_to_string(n: usize) -> (r: String)
    ensures
        r@ == dec_digits(n as nat),
    decreases n,
{
    if n < 10 {
        let mut r = String::new();
        push_digit(&mut r, n);
        proof {
            assert(r@ =~= seq![digit_char(n as nat)]);
        }
        r
    } else {
        let mut r = usize_to_string(n / 10);
        push_digit(&mut r, n % 10);
        r
    }
}

/// The indentation for `indent` levels of `indentsize` spaces each;
/// a product too large for the machine yields no indentation.
pub open spec fn indent_seq(indent: nat, indentsize: nat) -> Seq<char> {
    if indent * indentsize > usize::MAX {
        Seq::empty()
    } else {
        repeat_seq(" "@, indent * indentsize)
    }
}

/// Creates a string with `indent * indentsize` spaces.
pub fn make_indent(indent: usize, indentsize: usize) -> (r: String)
    ensures
        r@ == indent_seq(indent as nat, indentsize as nat),
{
    match indent.checked_mul(indentsize) {
        Some(total) => crate::emit::replicate(total, " "),
        None => String::new(),
    }
}

} // verus!
