//! Integer subjects and their textual rendering, as `{:?}` writes them.

use vstd::prelude::*;

verus! {

/// A value that an ordering assertion can hold as its subject: it is ordered as the
/// integer `value()` and renders as that integer's decimal text.
pub trait OrderedValue {
    /// The integer this value stands for.
    spec fn value(&self) -> int;

    /// The value widened to `i128`, for comparison and rendering.
    fn wide(&self) -> (r: i128)
        ensures
            r as int == self.value(),
    ;
}

impl OrderedValue for i8 {
    open spec fn value(&self) -> int {
        *self as int
    }

    fn wide(&self) -> (r: i128) {
        *self as i128
    }
}

impl OrderedValue for i16 {
    open spec fn value(&self) -> int {
        *self as int
    }

    fn wide(&self) -> (r: i128) {
        *self as i128
    }
}

impl OrderedValue for i32 {
    open spec fn value(&self) -> int {
        *self as int
    }

    fn wide(&self) -> (r: i128) {
        *self as i128
    }
}

impl OrderedValue for i64 {
    open spec fn value(&self) -> int {
        *self as int
    }

    fn wide(&self) -> (r: i128) {
        *self as i128
    }
}

impl OrderedValue for isize {
    open spec fn value(&self) -> int {
        *self as int
    }

    fn wide(&self) -> (r: i128) {
        *self as i128
    }
}

impl OrderedValue for u8 {
    open spec fn value(&self) -> int {
        *self as int
    }

    fn wide(&self) -> (r: i128) {
        *self as i128
    }
}

impl OrderedValue for u16 {
    open spec fn value(&self) -> int {
        *self as int
    }

    fn wide(&self) -> (r: i128) {
        *self as i128
    }
}

impl OrderedValue for u32 {
    open spec fn value(&self) -> int {
        *self as int
    }

    fn wide(&self) -> (r: i128) {
        *self as i128
    }
}

impl OrderedValue for u64 {
    open spec fn value(&self) -> int {
        *self as int
    }

    fn wide(&self) -> (r: i128) {
        *self as i128
    }
}

impl OrderedValue for usize {
    open spec fn value(&self) -> int {
        *self as int
    }

    fn wide(&self) -> (r: i128) {
        *self as i128
    }
}

impl OrderedValue for i128 {
    open spec fn value(&self) -> int {
        *self as int
    }

    fn wide(&self) -> (r: i128) {
        *self as i128
    }
}

/// The character of the decimal digit `d`.
pub open spec fn digit_char(d: nat) -> char {
    ((d + 48) as u8) as char
}

/// The decimal digits of `n`, most significant first, with no leading zeros.
pub open spec fn digits_of(n: nat) -> Seq<char>
    decreases n,
{
    if n < 10 {
        seq![digit_char(n)]
    } else {
        digits_of(n / 10).push(digit_char(n % 10))
    }
}

/// The decimal text of `v`: a minus sign before the digits of its magnitude when negative.
pub open spec fn decimal_text(v: int) -> Seq<char> {
    if v < 0 {
        seq!['-'] + digits_of((-v) as nat)
    } else {
        digits_of(v as nat)
    }
}

fn digit_str(d: u128) -> (r: &'static str)
    requires
        d < 10,
    ensures
        r@ == seq![digit_char(d as nat)],
{
    proof {
        reveal_strlit("0");
        reveal_strlit("1");
        reveal_strlit("2");
        reveal_strlit("3");
        reveal_strlit("4");
        reveal_strlit("5");
        reveal_strlit("6");
        reveal_strlit("7");
        reveal_strlit("8");
        reveal_strlit("9");
    }
    if d == 0 {
        "0"
    } else if d == 1 {
        "1"
    } else if d == 2 {
        "2"
    } else if d == 3 {
        "3"
    } else if d == 4 {
        "4"
    } else if d == 5 {
        "5"
    } else if d == 6 {
        "6"
    } else if d == 7 {
        "7"
    } else if d == 8 {
        "8"
    } else {
        "9"
    }
}

fn append_digits(s: &mut String, n: u128)
    ensures
        final(s)@ == old(s)@ + digits_of(n as nat),
    decreases n,
{
    if n >= 10 {
        append_digits(s, n / 10);
    }
    s.append(digit_str(n % 10));
    assert(final(s)@ =~= old(s)@ + digits_of(n as nat)) by {
        reveal_with_fuel(digits_of, 1);
    }
}

/// The decimal text of `v`.
pub fn decimal(v: i128) -> (r: String)
    ensures
        r@ == decimal_text(v as int),
{
    let mut s = String::new();
    if v < 0 {
        proof {
            reveal_strlit("-");
        }
        s.append("-");
        let magnitude: u128 = ((-(v + 1)) as u128) + 1;
        append_digits(&mut s, magnitude);
    } else {
        append_digits(&mut s, v as u128);
    }
    assert(s@ =~= decimal_text(v as int));
    s
}

/// The text of `v` as `{:?}` writes it.
pub fn render<T: OrderedValue>(v: &T) -> (r: String)
    ensures
        r@ == decimal_text(v.value()),
{
    decimal(v.wide())
}

} // verus!
