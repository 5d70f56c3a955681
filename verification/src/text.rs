//! Text forms used on the wire and on the worker's command line: decimal
//! numbers, zero-padded join codes.

use vstd::prelude::*;
use vstd::string::*;

verus! {

/// The character that writes the decimal digit `d`.
pub open spec fn digit_char(d: nat) -> char {
    if d == 0 {
        '0'
    } else if d == 1 {
        '1'
    } else if d == 2 {
        '2'
    } else if d == 3 {
        '3'
    } else if d == 4 {
        '4'
    } else if d == 5 {
        '5'
    } else if d == 6 {
        '6'
    } else if d == 7 {
        '7'
    } else if d == 8 {
        '8'
    } else {
        '9'
    }
}

/// The decimal numeral of `n`, most significant digit first, without leading
/// zeros (`0` is written "0").
pub open spec fn decimal(n: nat) -> Seq<char>
    decreases n,
{
    if n < 10 {
        seq![digit_char(n)]
    } else {
        decimal(n / 10).push(digit_char(n % 10))
    }
}

/// `n` written in decimal and padded with zeros on the left to at least
/// `width` characters. A numeral that is already that long is left as it is.
pub open spec fn zero_padded(n: nat, width: nat) -> Seq<char> {
    let digits = decimal(n);
    if digits.len() >= width {
        digits
    } else {
        Seq::new((width - digits.len()) as nat, |i: int| '0') + digits
    }
}

/// `std::string::String::push` appends one character to the end of the string.
pub assume_specification[ String::push ](s: &mut String, c: char)
    ensures
        final(s)@ == old(s)@.push(c),
;

/// The character of one decimal digit.
pub fn digit(d: u8) -> (c: char)
    requires
        d < 10,
    ensures
        c == digit_char(d as nat),
{
    if d == 0 {
        '0'
    } else if d == 1 {
        '1'
    } else if d == 2 {
        '2'
    } else if d == 3 {
        '3'
    } else if d == 4 {
        '4'
    } else if d == 5 {
        '5'
    } else if d == 6 {
        '6'
    } else if d == 7 {
        '7'
    } else if d == 8 {
        '8'
    } else {
        '9'
    }
}

/// Appends the decimal numeral of `n` to `out`.
pub fn push_decimal(out: &mut String, n: u64)
    ensures
        final(out)@ == old(out)@ + decimal(n as nat),
    decreases n,
{
    if n >= 10 {
        push_decimal(out, n / 10);
    }
    let d: u8 = (n % 10) as u8;
    out.push(digit(d));
}

/// The decimal numeral of `n`.
pub fn decimal_text(n: u64) -> (text: String)
    ensures
        text@ == decimal(n as nat),
{
    let mut text = String::new();
    push_decimal(&mut text, n);
    text
}

/// `n` in decimal, padded with zeros on the left to at least `width`
/// characters.
pub fn zero_padded_text(n: u64, width: usize) -> (text: String)
    ensures
        text@ == zero_padded(n as nat, width as nat),
{
    let digits = decimal_text(n);
    let len = digits.as_str().unicode_len();
    let mut text = String::new();
    if len < width {
        let mut i: usize = len;
        while i < width
            invariant
                len <= i <= width,
                text@ == Seq::new((i - len) as nat, |k: int| '0'),
            decreases width - i,
        {
            text.push('0');
            i += 1;
        }
    }
    text.append(digits.as_str());
    text
}

/// A numeral has at least one digit, and at least two from ten on.
pub proof fn lemma_decimal_len(n: nat)
    ensures
        decimal(n).len() >= 1,
        n >= 10 ==> decimal(n).len() >= 2,
    decreases n,
{
    if n >= 10 {
        lemma_decimal_len(n / 10);
    }
}

/// Only the numeral of zero starts with the digit zero.
pub proof fn lemma_decimal_first_digit(n: nat)
    ensures
        decimal(n)[0] == '0' <==> n == 0,
    decreases n,
{
    if n >= 10 {
        lemma_decimal_first_digit(n / 10);
        lemma_decimal_len(n / 10);
        assert(decimal(n)[0] == decimal(n / 10)[0]);
    }
}

/// Different digits are written with different characters.
pub proof fn lemma_digit_char_injective(a: nat, b: nat)
    requires
        a < 10,
        b < 10,
        digit_char(a) == digit_char(b),
    ensures
        a == b,
{
}

/// Different numbers have different numerals.
pub proof fn lemma_decimal_injective(a: nat, b: nat)
    requires
        decimal(a) == decimal(b),
    ensures
        a == b,
    decreases a,
{
    lemma_decimal_len(a);
    lemma_decimal_len(b);
    if a < 10 {
        assert(decimal(a).len() == 1);
        assert(b < 10);
        assert(decimal(a)[0] == digit_char(a));
        assert(decimal(b)[0] == digit_char(b));
        lemma_digit_char_injective(a, b);
    } else {
        assert(decimal(a).len() >= 2);
        assert(b >= 10);
        assert(decimal(a).drop_last() =~= decimal(a / 10));
        assert(decimal(b).drop_last() =~= decimal(b / 10));
        lemma_decimal_injective(a / 10, b / 10);
        assert(decimal(a).last() == digit_char(a % 10));
        assert(decimal(b).last() == digit_char(b % 10));
        lemma_digit_char_injective(a % 10, b % 10);
        assert(a == 10 * (a / 10) + a % 10);
        assert(b == 10 * (b / 10) + b % 10);
    }
}

/// Different numbers stay different when they are padded to the same
/// width.
pub proof fn lemma_zero_padded_injective(a: nat, b: nat, width: nat)
    requires
        zero_padded(a, width) == zero_padded(b, width),
    ensures
        a == b,
{
    let da = decimal(a);
    let db = decimal(b);
    let pa = zero_padded(a, width);
    let pb = zero_padded(b, width);
    lemma_decimal_len(a);
    lemma_decimal_len(b);
    lemma_decimal_first_digit(a);
    lemma_decimal_first_digit(b);
    if da.len() >= width && db.len() >= width {
        lemma_decimal_injective(a, b);
    } else if da.len() < width && db.len() < width {
        assert(pa.len() == width);
        assert(pb.len() == width);
        if da.len() == db.len() {
            assert(da =~= pa.subrange(width - da.len(), width as int));
            assert(db =~= pb.subrange(width - db.len(), width as int));
            lemma_decimal_injective(a, b);
        } else if da.len() < db.len() {
            assert(pa[width - db.len()] == '0');
            assert(pb[width - db.len()] == db[0]);
            assert(false);
        } else {
            assert(pb[width - da.len()] == '0');
            assert(pa[width - da.len()] == da[0]);
            assert(false);
        }
    } else if da.len() >= width {
        assert(pb.len() == width);
        assert(pb[0] == '0');
        assert(pa[0] == da[0]);
        assert(false);
    } else {
        assert(pa.len() == width);
        assert(pa[0] == '0');
        assert(pb[0] == db[0]);
        assert(false);
    }
}

/// How many characters a join code has at least.
pub const JOIN_CODE_WIDTH: usize = 6;

/// The join code that stands for the counter value `n`.
pub open spec fn join_code(n: u32) -> Seq<char> {
    zero_padded(n as nat, JOIN_CODE_WIDTH as nat)
}

/// Two counter values never give the same join code.
pub proof fn lemma_join_code_injective(a: u32, b: u32)
    requires
        join_code(a) == join_code(b),
    ensures
        a == b,
{
    lemma_zero_padded_injective(a as nat, b as nat, JOIN_CODE_WIDTH as nat);
}

/// The join code for the counter value `n`: `n` in decimal, with zeros in
/// front up to six digits.
pub fn join_code_text(n: u32) -> (code: String)
    ensures
        code@ == join_code(n),
{
    zero_padded_text(n as u64, JOIN_CODE_WIDTH)
}

} // verus!
