//! Whole numbers and their decimal text.

use vstd::prelude::*;

verus! {

/// The character of the digit `d`, for `0 <= d <= 9`.
pub open spec fn digit_char(d: int) -> char {
    ('0' as int + d) as char
}

/// The digits of `n` in base ten, most significant first, with no leading
/// zero; the text of zero is `0`.
pub open spec fn digits(n: nat) -> Seq<char>
    decreases n,
{
    if n < 10 {
        seq![digit_char(n as int)]
    } else {
        digits(n / 10).push(digit_char((n % 10) as int))
    }
}

/// The decimal text of `v`: its digits, behind a minus sign where `v` is
/// below zero. Nothing else is added: no plus sign, no padding, no quotes.
pub open spec fn decimal_text(v: int) -> Seq<char> {
    if v < 0 {
        seq!['-'] + digits((-v) as nat)
    } else {
        digits(v as nat)
    }
}

/// The digits that stand before the last one: those of `n / 10`, or none
/// where `n` has one digit only.
spec fn leading_digits(n: nat) -> Seq<char> {
    if n < 10 {
        Seq::empty()
    } else {
        digits(n / 10)
    }
}

proof fn lemma_digits_split(n: nat)
    ensures
        digits(n) == leading_digits(n).push(digit_char((n % 10) as int)),
{
}

fn digit(d: u8) -> (c: char)
    requires
        d < 10,
    ensures
        c == digit_char(d as int),
{
    (48u8 + d) as char
}

/// The decimal text of `n`.
pub fn unsigned_decimal(n: u128) -> (s: String)
    ensures
        s@ == digits(n as nat),
{
    // Least significant digit first.
    let mut low_first: Vec<char> = Vec::new();
    low_first.push(digit((n % 10) as u8));
    let mut rest: u128 = n / 10;
    proof {
        lemma_digits_split(n as nat);
    }
    while rest > 0
        invariant
            digits(n as nat) == (if rest > 0 {
                digits(rest as nat)
            } else {
                Seq::empty()
            }) + low_first@.reverse(),
        decreases rest,
    {
        low_first.push(digit((rest % 10) as u8));
        proof {
            lemma_digits_split(rest as nat);
        }
        rest = rest / 10;
    }
    let mut s = String::new();
    let mut i: usize = low_first.len();
    while i > 0
        invariant
            i <= low_first.len(),
            s@ == low_first@.reverse().take(low_first.len() - i),
        decreases i,
    {
        i = i - 1;
        s.push(low_first[i]);
    }
    s
}

/// The decimal text of `v`.
pub fn signed_decimal(v: i128) -> (s: String)
    ensures
        s@ == decimal_text(v as int),
{
    if v < 0 {
        let magnitude: u128 = (-(v + 1)) as u128 + 1;
        let body = unsigned_decimal(magnitude);
        let mut s = String::new();
        s.push('-');
        s.append(body.as_str());
        s
    } else {
        unsigned_decimal(v as u128)
    }
}

/// A whole number of fixed width. Its text is its decimal representation.
pub trait Numeric {
    /// The number that the value holds.
    spec fn as_int(&self) -> int;

    /// The decimal text of the number.
    fn to_decimal(&self) -> (s: String)
        ensures
            s@ == decimal_text(self.as_int()),
    ;
}

impl Numeric for i8 {
    open spec fn as_int(&self) -> int {
        *self as int
    }

    fn to_decimal(&self) -> (s: String) {
        signed_decimal(*self as i128)
    }
}

impl Numeric for i16 {
    open spec fn as_int(&self) -> int {
        *self as int
    }

    fn to_decimal(&self) -> (s: String) {
        signed_decimal(*self as i128)
    }
}

impl Numeric for i32 {
    open spec fn as_int(&self) -> int {
        *self as int
    }

    fn to_decimal(&self) -> (s: String) {
        signed_decimal(*self as i128)
    }
}

impl Numeric for i64 {
    open spec fn as_int(&self) -> int {
        *self as int
    }

    fn to_decimal(&self) -> (s: String) {
        signed_decimal(*self as i128)
    }
}

impl Numeric for i128 {
    open spec fn as_int(&self) -> int {
        *self as int
    }

    fn to_decimal(&self) -> (s: String) {
        signed_decimal(*self)
    }
}

impl Numeric for isize {
    open spec fn as_int(&self) -> int {
        *self as int
    }

    fn to_decimal(&self) -> (s: String) {
        signed_decimal(*self as i128)
    }
}

impl Numeric for u8 {
    open spec fn as_int(&self) -> int {
        *self as int
    }

    fn to_decimal(&self) -> (s: String) {
        unsigned_decimal(*self as u128)
    }
}

impl Numeric for u16 {
    open spec fn as_int(&self) -> int {
        *self as int
    }

    fn to_decimal(&self) -> (s: String) {
        unsigned_decimal(*self as u128)
    }
}

impl Numeric for u32 {
    open spec fn as_int(&self) -> int {
        *self as int
    }

    fn to_decimal(&self) -> (s: String) {
        unsigned_decimal(*self as u128)
    }
}

impl Numeric for u64 {
    open spec fn as_int(&self) -> int {
        *self as int
    }

    fn to_decimal(&self) -> (s: String) {
        unsigned_decimal(*self as u128)
    }
}

impl Numeric for u128 {
    open spec fn as_int(&self) -> int {
        *self as int
    }

    fn to_decimal(&self) -> (s: String) {
        unsigned_decimal(*self)
    }
}

impl Numeric for usize {
    open spec fn as_int(&self) -> int {
        *self as int
    }

    fn to_decimal(&self) -> (s: String) {
        unsigned_decimal(*self as u128)
    }
}

} // verus!
