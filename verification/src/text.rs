//! Decimal rendering of integers, as sequences of characters.

use vstd::prelude::*;

verus! {

/// The character of the decimal digit `d`, for `0 <= d < 10`.
pub open spec fn digit_char(d: int) -> char {
    (48 + d) as u8 as char
}

/// `c` is one of `0` to `9`.
pub open spec fn is_digit(c: char) -> bool {
    48 <= c as u32 <= 57
}

/// The value of the decimal digit `c`.
pub open spec fn digit_value(c: char) -> int {
    c as u32 as int - 48
}

/// Every character of `s` is a decimal digit.
pub open spec fn all_digits(s: Seq<char>) -> bool {
    forall|i: int| 0 <= i < s.len() ==> is_digit(#[trigger] s[i])
}

/// `n` in decimal, padded with zeros on the left to at least `width` digits.
pub open spec fn padded_decimal(n: nat, width: nat) -> Seq<char>
    decreases n + width,
{
    if n < 10 && width <= 1 {
        seq![digit_char(n as int)]
    } else {
        padded_decimal(n / 10, one_less(width)).push(digit_char((n % 10) as int))
    }
}

/// `width - 1`, and 0 for 0.
pub open spec fn one_less(width: nat) -> nat {
    if width == 0 {
        0
    } else {
        (width - 1) as nat
    }
}

/// `n` in decimal, without leading zeros.
pub open spec fn decimal(n: nat) -> Seq<char> {
    padded_decimal(n, 1)
}

/// `i` in decimal, with a minus sign in front of a negative number.
pub open spec fn signed_decimal(i: int) -> Seq<char> {
    if i < 0 {
        seq!['-'] + decimal((-i) as nat)
    } else {
        decimal(i as nat)
    }
}

/// The number that the decimal digits `s` denote; 0 for no digits.
pub open spec fn decimal_value(s: Seq<char>) -> nat
    decreases s.len(),
{
    if s.len() == 0 {
        0
    } else {
        (decimal_value(s.drop_last()) * 10 + digit_value(s.last())) as nat
    }
}

/// A padded decimal has at least one digit and at least `width` of them, all
/// digits, and denotes `n`.
pub proof fn lemma_padded_decimal(n: nat, width: nat)
    ensures
        padded_decimal(n, width).len() >= 1,
        padded_decimal(n, width).len() >= width,
        all_digits(padded_decimal(n, width)),
        decimal_value(padded_decimal(n, width)) == n,
        n < 10 && width <= 1 ==> padded_decimal(n, width).len() == 1,
        n < 100 && width == 2 ==> padded_decimal(n, width).len() == 2,
        n < 10000 && width == 4 ==> padded_decimal(n, width).len() == 4,
    decreases n + width,
{
    if n < 10 && width <= 1 {
        let s = seq![digit_char(n as int)];
        assert(s.drop_last() =~= Seq::<char>::empty());
        assert(decimal_value(s.drop_last()) == 0);
        assert(digit_value(s.last()) == n);
        assert(decimal_value(s) == n);
    } else {
        let head = padded_decimal(n / 10, one_less(width));
        lemma_padded_decimal(n / 10, one_less(width));
        let s = head.push(digit_char((n % 10) as int));
        assert(s.drop_last() =~= head);
        assert(s.last() == digit_char((n % 10) as int));
        assert(digit_value(s.last()) == n % 10);
        assert(decimal_value(s) == n);
        if n < 100 && width == 2 {
            lemma_padded_decimal(n / 10, 1);
        }
        if n < 10000 && width == 4 {
            lemma_padded_decimal(n / 10, 3);
            lemma_padded_decimal(n / 100, 2);
            lemma_padded_decimal(n / 1000, 1);
            assert(n / 10 / 10 == n / 100);
            assert(n / 100 / 10 == n / 1000);
        }
    }
}

/// The number that digits denote does not shrink when more digits follow.
pub proof fn lemma_decimal_value_grows(s: Seq<char>, k: int)
    requires
        all_digits(s),
        0 <= k <= s.len(),
    ensures
        decimal_value(s.take(k)) <= decimal_value(s),
    decreases s.len(),
{
    if k == s.len() {
        assert(s.take(k) =~= s);
    } else {
        let shorter = s.drop_last();
        assert(all_digits(shorter));
        lemma_decimal_value_grows(shorter, k);
        assert(shorter.take(k) =~= s.take(k));
        assert(is_digit(s.last()));
    }
}

/// The characters of `text`, in order.
pub fn chars_of(text: &str) -> (chars: Vec<char>)
    ensures
        chars@ == text@,
{
    let mut chars: Vec<char> = Vec::new();
    for c in it: text.chars()
        invariant
            it.seq() == text@,
            chars@ == text@.take(it.index()),
    {
        chars.push(c);
        assert(chars@ =~= text@.take(it.index() + 1));
    }
    assert(chars@ =~= text@);
    chars
}

/// Tells whether `c` is one of `0` to `9`.
pub fn is_digit_char(c: char) -> (b: bool)
    ensures
        b == is_digit(c),
{
    let code: u32 = c as u32;
    48 <= code && code <= 57
}

/// The text of one decimal digit.
fn digit_text(d: u64) -> (t: &'static str)
    requires
        d < 10,
    ensures
        t@ == seq![digit_char(d as int)],
{
    proof {
        reveal_strlit("0");
        reveal_strlit("1");
        reveal_strlit("2");
        reveal_strlit("3");
        reveal_strlit("4");
        reveal_strlit("5");
        reveal_strlit("6");
        reveal_strlit("7");
        reveal_strlit("8");
        reveal_strlit("9");
    }
    let t = if d == 0 {
        "0"
    } else if d == 1 {
        "1"
    } else if d == 2 {
        "2"
    } else if d == 3 {
        "3"
    } else if d == 4 {
        "4"
    } else if d == 5 {
        "5"
    } else if d == 6 {
        "6"
    } else if d == 7 {
        "7"
    } else if d == 8 {
        "8"
    } else {
        "9"
    };
    assert(t@ =~= seq![digit_char(d as int)]);
    t
}

/// Renders `n` in decimal, padded with zeros on the left to at least `width` digits.
pub fn render_padded(n: u64, width: u32) -> (s: String)
    ensures
        s@ == padded_decimal(n as nat, width as nat),
    decreases n + width,
{
    if n < 10 && width <= 1 {
        String::from_str(digit_text(n))
    } else {
        let rest: u32 = if width == 0 { 0 } else { width - 1 };
        let mut s = render_padded(n / 10, rest);
        s.append(digit_text(n % 10));
        s
    }
}

/// Renders `n` in decimal, without leading zeros.
pub fn render_decimal(n: u64) -> (s: String)
    ensures
        s@ == decimal(n as nat),
{
    render_padded(n, 1)
}

/// Renders `i` in decimal, with a minus sign in front of a negative number.
pub fn render_signed(i: i32) -> (s: String)
    ensures
        s@ == signed_decimal(i as int),
{
    if i < 0 {
        proof {
            reveal_strlit("-");
        }
        let magnitude: u64 = (-(i as i64)) as u64;
        let s = String::from_str("-").concat(render_decimal(magnitude).as_str());
        assert(s@ =~= signed_decimal(i as int));
        s
    } else {
        render_decimal(i as u64)
    }
}

} // verus!
