//! Terminal control sequences and fixed-width text.
//!
//! Every function here builds a `String`; what the string holds is stated
//! over `Seq<char>` by the spec function of the same purpose.

use vstd::prelude::*;
use vstd::std_specs::iter::IteratorSpec;

verus! {

/// Trusted: `String::push` of the standard library appends the one character
/// `ch` to the end of the string and leaves the rest of it alone.
pub assume_specification[ String::push ](s: &mut String, ch: char)
    ensures
        final(s)@ == old(s)@.push(ch),
;

/// The escape character that opens every control sequence.
pub open spec fn escape() -> char {
    0x1b as char
}

/// The character that stands for a single decimal digit.
pub open spec fn digit_char(d: nat) -> char
    recommends
        d < 10,
{
    (0x30 + d) as char
}

/// The decimal numeral of `n`, without leading zeros.
pub open spec fn decimal(n: nat) -> Seq<char>
    decreases n,
{
    if n < 10 {
        seq![digit_char(n)]
    } else {
        decimal(n / 10).push(digit_char(n % 10))
    }
}

/// The sequence that moves the cursor to column `x` of row `y`.
pub open spec fn cursor_to(x: nat, y: nat) -> Seq<char> {
    seq![escape(), '['] + decimal(y) + seq![';'] + decimal(x) + seq!['H']
}

/// The sequence that switches every display attribute off.
pub open spec fn reset_attributes() -> Seq<char> {
    seq![escape(), '[', '0', 'm']
}

/// `s` cut or padded with spaces to exactly `width` characters.
pub open spec fn sized_text(s: Seq<char>, width: nat) -> Seq<char> {
    Seq::new(
        width,
        |i: int|
            if i < s.len() {
                s[i]
            } else {
                ' '
            },
    )
}

/// The number that a decimal numeral stands for.
pub open spec fn numeral_value(s: Seq<char>) -> int
    decreases s.len(),
{
    if s.len() == 0 {
        0
    } else {
        numeral_value(s.drop_last()) * 10 + (s.last() as int - 0x30)
    }
}

/// A numeral is made of digits, has no leading zero unless it is `0` itself,
/// and stands for the number that it was written for.
pub proof fn lemma_decimal_denotes(n: nat)
    ensures
        decimal(n).len() >= 1,
        forall|i: int| 0 <= i < decimal(n).len() ==> 0x30 <= #[trigger] decimal(n)[i] as int <= 0x39,
        n > 0 ==> decimal(n)[0] != '0',
        numeral_value(decimal(n)) == n,
    decreases n,
{
    if n < 10 {
        assert(decimal(n).drop_last() =~= Seq::<char>::empty());
        assert(numeral_value(Seq::<char>::empty()) == 0);
    } else {
        lemma_decimal_denotes(n / 10);
        assert(decimal(n).drop_last() =~= decimal(n / 10));
    }
}

/// A padded or cut text is as long as it was asked to be, begins as the
/// text does and goes on with spaces.
pub proof fn lemma_sized_text(s: Seq<char>, width: nat)
    ensures
        sized_text(s, width).len() == width,
        width <= s.len() ==> sized_text(s, width) == s.take(width as int),
        width >= s.len() ==> sized_text(s, width) == s + Seq::new(
            (width - s.len()) as nat,
            |i: int| ' ',
        ),
{
    if width <= s.len() {
        assert(sized_text(s, width) =~= s.take(width as int));
    }
    if width >= s.len() {
        assert(sized_text(s, width) =~= s + Seq::new((width - s.len()) as nat, |i: int| ' '));
    }
}

fn digit(d: u8) -> (c: char)
    requires
        d < 10,
    ensures
        c == digit_char(d as nat),
{
    (0x30u8 + d) as char
}

/// Appends the decimal numeral of `n` to `out`.
fn push_decimal(out: &mut String, n: u32)
    ensures
        final(out)@ == old(out)@ + decimal(n as nat),
    decreases n,
{
    if n >= 10 {
        push_decimal(out, n / 10);
    }
    out.push(digit((n % 10) as u8));
}

/// The control sequence that moves the cursor to column `x` of row `y`.
pub fn goto_xy(x: u32, y: u32) -> (out: String)
    ensures
        out@ == cursor_to(x as nat, y as nat),
{
    let mut out = String::new();
    out.push('\x1b');
    out.push('[');
    push_decimal(&mut out, y);
    out.push(';');
    push_decimal(&mut out, x);
    out.push('H');
    out
}

/// The control sequence that switches every display attribute off.
pub fn reset() -> (out: String)
    ensures
        out@ == reset_attributes(),
{
    let mut out = String::new();
    out.push('\x1b');
    out.push('[');
    out.push('0');
    out.push('m');
    out
}

/// Cuts `s` after `width` characters, or pads it with spaces up to `width`,
/// so that the result is exactly `width` characters long.
pub fn sized_string(s: &str, width: u16) -> (out: String)
    ensures
        out@ == sized_text(s@, width as nat),
{
    let mut out = String::new();
    let mut chars = s.chars();
    let mut n: u16 = 0;
    while n < width
        invariant
            n <= width,
            out@ == sized_text(s@, n as nat),
            chars.remaining() == s@.skip(
                if n <= s@.len() {
                    n as int
                } else {
                    s@.len() as int
                },
            ),
        decreases width - n,
    {
        let c = match chars.next() {
            Some(c) => c,
            None => ' ',
        };
        out.push(c);
        n += 1;
    }
    out
}

} // verus!
