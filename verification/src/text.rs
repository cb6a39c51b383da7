//! Values that can be turned into an owned `String` with a known content.
use vstd::prelude::*;

verus! {

/// A value whose characters are known and that converts into a `String`
/// holding exactly those characters.
///
/// Implemented for `&str`, `String` and `&String`, so that constructors can
/// take any of them, as `impl Into<String>` would.
pub trait TextValue: Sized {
    /// The characters that the value holds.
    spec fn text(&self) -> Seq<char>;

    /// Converts into an owned `String`.
    fn into_string(self) -> (s: String)
        ensures
            s@ == self.text(),
    ;
}

impl<'a> TextValue for &'a str {
    open spec fn text(&self) -> Seq<char> {
        (**self)@
    }

    fn into_string(self) -> (s: String) {
        String::from_str(self)
    }
}

impl TextValue for String {
    open spec fn text(&self) -> Seq<char> {
        self@
    }

    fn into_string(self) -> (s: String) {
        self
    }
}

impl<'a> TextValue for &'a String {
    open spec fn text(&self) -> Seq<char> {
        (**self)@
    }

    fn into_string(self) -> (s: String) {
        self.clone()
    }
}

} // verus!

verus! {

/// The decimal digit character for `d < 10`.
pub open spec fn digit_char(d: nat) -> char {
    if d == 0 {
        '0'
    } else if d == 1 {
        '1'
    } else if d == 2 {
        '2'
    } else if d == 3 {
        '3'
    } else if d == 4 {
        '4'
    } else if d == 5 {
        '5'
    } else if d == 6 {
        '6'
    } else if d == 7 {
        '7'
    } else if d == 8 {
        '8'
    } else {
        '9'
    }
}

/// The decimal representation of `n`, without leading zeros.
pub open spec fn decimal(n: nat) -> Seq<char>
    decreases n,
{
    if n < 10 {
        seq![digit_char(n)]
    } else {
        decimal(n / 10).push(digit_char(n % 10))
    }
}

/// The one-character string of the digit `d`.
fn digit_str(d: u8) -> (s: &'static str)
    requires
        d < 10,
    ensures
        s@ == seq![digit_char(d as nat)],
{
    proof {
        reveal_strlit("0");
        reveal_strlit("1");
        reveal_strlit("2");
        reveal_strlit("3");
        reveal_strlit("4");
        reveal_strlit("5");
        reveal_strlit("6");
        reveal_strlit("7");
        reveal_strlit("8");
        reveal_strlit("9");
    }
    if d == 0 {
        "0"
    } else if d == 1 {
        "1"
    } else if d == 2 {
        "2"
    } else if d == 3 {
        "3"
    } else if d == 4 {
        "4"
    } else if d == 5 {
        "5"
    } else if d == 6 {
        "6"
    } else if d == 7 {
        "7"
    } else if d == 8 {
        "8"
    } else {
        "9"
    }
}

/// Appends the decimal representation of `n` to `s`.
pub fn append_decimal(s: &mut String, n: u8)
    ensures
        final(s)@ == old(s)@ + decimal(n as nat),
    decreases n,
{
    if n >= 10 {
        append_decimal(s, n / 10);
    }
    s.append(digit_str(n % 10));
    assert(n >= 10 ==> decimal(n as nat) == decimal((n / 10) as nat).push(
        digit_char((n % 10) as nat),
    ));
}

} // verus!
