//! Number formatting and the small texts the editor shows.
use vstd::prelude::*;

verus! {

/// The character of a hexadecimal digit (upper case), or of a decimal digit.
pub open spec fn digit_char(d: nat) -> char {
    if d == 0 {
        '0'
    } else if d == 1 {
        '1'
    } else if d == 2 {
        '2'
    } else if d == 3 {
        '3'
    } else if d == 4 {
        '4'
    } else if d == 5 {
        '5'
    } else if d == 6 {
        '6'
    } else if d == 7 {
        '7'
    } else if d == 8 {
        '8'
    } else if d == 9 {
        '9'
    } else if d == 10 {
        'A'
    } else if d == 11 {
        'B'
    } else if d == 12 {
        'C'
    } else if d == 13 {
        'D'
    } else if d == 14 {
        'E'
    } else {
        'F'
    }
}

/// The digits of `n` in base `base` (2 to 16), most significant first, without
/// leading zeros (a single `0` for zero).
pub open spec fn digits(n: nat, base: nat) -> Seq<char>
    decreases n,
{
    if base < 2 || n < base {
        seq![digit_char(n)]
    } else {
        proof {
            lemma_div_smaller(n, base);
        }
        digits(n / base, base).push(digit_char(n % base))
    }
}

/// Dividing by a base of at least 2 makes a number of at least that base smaller.
pub proof fn lemma_div_smaller(n: nat, base: nat)
    requires
        base >= 2,
        n >= base,
    ensures
        n / base < n,
        n % base < base,
{
    assert(n / base < n) by (nonlinear_arith)
        requires
            base >= 2,
            n >= base,
    ;
    assert(n % base < base) by (nonlinear_arith)
        requires
            base >= 2,
    ;
}

/// The one-character text of digit `d`.
fn digit_str(d: usize) -> (s: &'static str)
    requires
        d < 16,
    ensures
        s@ == seq![digit_char(d as nat)],
{
    if d == 0 {
        proof { reveal_strlit("0"); }
        "0"
    } else if d == 1 {
        proof { reveal_strlit("1"); }
        "1"
    } else if d == 2 {
        proof { reveal_strlit("2"); }
        "2"
    } else if d == 3 {
        proof { reveal_strlit("3"); }
        "3"
    } else if d == 4 {
        proof { reveal_strlit("4"); }
        "4"
    } else if d == 5 {
        proof { reveal_strlit("5"); }
        "5"
    } else if d == 6 {
        proof { reveal_strlit("6"); }
        "6"
    } else if d == 7 {
        proof { reveal_strlit("7"); }
        "7"
    } else if d == 8 {
        proof { reveal_strlit("8"); }
        "8"
    } else if d == 9 {
        proof { reveal_strlit("9"); }
        "9"
    } else if d == 10 {
        proof { reveal_strlit("A"); }
        "A"
    } else if d == 11 {
        proof { reveal_strlit("B"); }
        "B"
    } else if d == 12 {
        proof { reveal_strlit("C"); }
        "C"
    } else if d == 13 {
        proof { reveal_strlit("D"); }
        "D"
    } else if d == 14 {
        proof { reveal_strlit("E"); }
        "E"
    } else {
        proof { reveal_strlit("F"); }
        "F"
    }
}

/// Writes `n` in base `base` (as `format!` does for `{}` and `{:X}`).
pub fn format_radix(n: usize, base: usize) -> (s: String)
    requires
        2 <= base <= 16,
    ensures
        s@ == digits(n as nat, base as nat),
    decreases n,
{
    if n < base {
        String::from_str(digit_str(n))
    } else {
        proof {
            lemma_div_smaller(n as nat, base as nat);
        }
        let mut s = format_radix(n / base, base);
        s.append(digit_str(n % base));
        s
    }
}

/// Writes `n` in decimal.
pub fn format_decimal(n: usize) -> (s: String)
    ensures
        s@ == digits(n as nat, 10),
{
    format_radix(n, 10)
}

/// The prefix of a numbered combo instance name.
pub open spec fn instance_name_prefix() -> Seq<char> {
    seq!['组', '合', ' ']
}

/// The default name of the `n`-th combo instance (counting from 1): "组合 n".
pub open spec fn spec_instance_name(n: nat) -> Seq<char> {
    instance_name_prefix() + digits(n, 10)
}

/// Builds the default name of combo instance number `n`.
pub fn instance_name(n: usize) -> (s: String)
    ensures
        s@ == spec_instance_name(n as nat),
{
    let prefix = "组合 ";
    proof { reveal_strlit("组合 "); }
    let mut s = String::from_str(prefix);
    let d = format_decimal(n);
    s.append(d.as_str());
    s
}

/// The text shown for a key code that no key category names: "VK (0x..)" with the
/// code in upper-case hexadecimal.
pub open spec fn spec_vk_display(vk: u16) -> Seq<char> {
    seq!['V', 'K', ' ', '(', '0', 'x'] + digits(vk as nat, 16) + seq![')']
}

/// Builds the text shown for an unnamed key code.
pub fn vk_display(vk: u16) -> (s: String)
    ensures
        s@ == spec_vk_display(vk),
{
    proof {
        reveal_strlit("VK (0x");
        reveal_strlit(")");
    }
    let mut s = String::from_str("VK (0x");
    let h = format_radix(vk as usize, 16);
    s.append(h.as_str());
    s.append(")");
    s
}

} // verus!
