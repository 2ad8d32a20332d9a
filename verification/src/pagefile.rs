//! Names of the temporary page images: where the rasterizer is told to write
//! them, and how a page number is read back out of a name.

use vstd::prelude::*;
use crate::text::{
    all_digits, chars_of, decimal_value, digit_value, is_digit, is_digit_char,
    lemma_decimal_value_grows,
};

verus! {

/// The working directory of the rasterizer, with its separator: `tmp/`.
pub open spec fn temp_dir_text() -> Seq<char> {
    seq!['t', 'm', 'p', '/']
}

/// The extension of a page image, with its dot: `.png`.
pub open spec fn image_suffix() -> Seq<char> {
    seq!['.', 'p', 'n', 'g']
}

/// What every page image of the document with content hash `hash` begins with.
pub open spec fn temp_prefix_of(hash: Seq<char>) -> Seq<char> {
    temp_dir_text() + hash
}

/// The pattern that finds the page images of the document with content hash `hash`.
pub open spec fn image_pattern_of(hash: Seq<char>) -> Seq<char> {
    temp_prefix_of(hash) + seq!['*'] + image_suffix()
}

/// `path` lies in the part of the working directory that belongs to the
/// document with content hash `hash`.
pub open spec fn in_namespace(hash: Seq<char>, path: Seq<char>) -> bool {
    temp_prefix_of(hash).is_prefix_of(path)
}

/// `name` is `stem`, a hyphen, the digits `digits` and the image extension.
pub open spec fn is_page_image_name(name: Seq<char>, stem: Seq<char>, digits: Seq<char>) -> bool {
    &&& name == stem + seq!['-'] + digits + image_suffix()
    &&& digits.len() > 0
    &&& all_digits(digits)
}

/// Where the run of digits that ends just before `end` begins.
pub open spec fn digits_start(name: Seq<char>, end: int) -> int
    decreases end,
{
    if 0 < end <= name.len() && is_digit(name[end - 1]) {
        digits_start(name, end - 1)
    } else {
        end
    }
}

/// The digits that stand just before the extension of `name`.
pub open spec fn page_digits(name: Seq<char>) -> Seq<char> {
    name.subrange(digits_start(name, name.len() - 4), name.len() - 4)
}

/// `name` ends in a hyphen, one or more digits and the image extension.
pub open spec fn matches_page_pattern(name: Seq<char>) -> bool {
    let end = name.len() - 4;
    let start = digits_start(name, end);
    &&& end >= 0
    &&& name.subrange(end, name.len() as int) == image_suffix()
    &&& 1 <= start < end
    &&& name[start - 1] == '-'
}

/// The page number written in `name`.
pub open spec fn page_number_of(name: Seq<char>) -> nat {
    decimal_value(page_digits(name))
}

/// A run of digits that is closed on its left begins where it is closed.
proof fn lemma_digits_start(name: Seq<char>, start: int, end: int)
    requires
        0 <= start <= end <= name.len(),
        forall|i: int| start <= i < end ==> is_digit(#[trigger] name[i]),
        start == 0 || !is_digit(name[start - 1]),
    ensures
        digits_start(name, end) == start,
    decreases end - start,
{
    if start < end {
        lemma_digits_start(name, start, end - 1);
    }
}

/// The run of digits before `end` is made of digits, and is closed on its left.
proof fn lemma_digits_start_run(name: Seq<char>, end: int)
    requires
        0 <= end <= name.len(),
    ensures
        0 <= digits_start(name, end) <= end,
        forall|i: int| digits_start(name, end) <= i < end ==> is_digit(#[trigger] name[i]),
        digits_start(name, end) == 0 || !is_digit(name[digits_start(name, end) - 1]),
    decreases end,
{
    if 0 < end && is_digit(name[end - 1]) {
        lemma_digits_start_run(name, end - 1);
    }
}

/// The names that match are those made of any stem, a hyphen, one or more
/// digits and the image extension; the digits of such a name are the ones
/// that the page number is read from.
pub proof fn lemma_page_pattern_grammar(name: Seq<char>)
    ensures
        matches_page_pattern(name) <==> exists|stem: Seq<char>, digits: Seq<char>|
            is_page_image_name(name, stem, digits),
        forall|stem: Seq<char>, digits: Seq<char>| #[trigger]
            is_page_image_name(name, stem, digits) ==> page_digits(name) == digits,
{
    assert forall|stem: Seq<char>, digits: Seq<char>| #[trigger]
        is_page_image_name(name, stem, digits) implies matches_page_pattern(name) && page_digits(
        name,
    ) == digits by {
        let end = name.len() - 4;
        let start = stem.len() as int + 1;
        assert(name.len() == stem.len() + 1 + digits.len() + 4);
        assert(name[start - 1] == '-');
        assert forall|i: int| start <= i < end implies is_digit(#[trigger] name[i]) by {
            assert(name[i] == digits[i - start]);
        }
        lemma_digits_start(name, start, end);
        assert(name.subrange(end, name.len() as int) =~= image_suffix());
        assert(name.subrange(start, end) =~= digits);
    }
    if matches_page_pattern(name) {
        let end = name.len() - 4;
        let start = digits_start(name, end);
        lemma_digits_start_run(name, end);
        let stem = name.subrange(0, start - 1);
        let digits = name.subrange(start, end);
        assert(name =~= stem + seq!['-'] + digits + name.subrange(end, name.len() as int));
        assert(all_digits(digits));
        assert(is_page_image_name(name, stem, digits));
    }
}

/// Why no page number could be read from a name.
#[derive(Clone, Copy, Debug, PartialEq, Eq, Structural)]
pub enum NameFault {
    /// The name does not end in a hyphen, digits and the image extension.
    Unmatched,
    /// The digits denote a number above `u32::MAX`.
    TooLarge,
}

/// Where the rasterizer is told to write the pages of the document with
/// content hash `hash`.
pub fn temp_prefix(hash: &str) -> (prefix: String)
    ensures
        prefix@ == temp_prefix_of(hash@),
{
    proof {
        reveal_strlit("tmp/");
    }
    let prefix = String::from_str("tmp/").concat(hash);
    assert(prefix@ =~= temp_prefix_of(hash@));
    prefix
}

/// The pattern by which the page images of the document with content hash
/// `hash` are found again.
pub fn image_pattern(hash: &str) -> (pattern: String)
    ensures
        pattern@ == image_pattern_of(hash@),
{
    proof {
        reveal_strlit("*.png");
    }
    let pattern = temp_prefix(hash).concat("*.png");
    assert(pattern@ =~= image_pattern_of(hash@));
    pattern
}

/// Tells whether `path` lies in the part of the working directory that
/// belongs to the document with content hash `hash`.
pub fn is_in_namespace(hash: &str, path: &str) -> (b: bool)
    ensures
        b == in_namespace(hash@, path@),
{
    let prefix = temp_prefix(hash);
    let want = chars_of(prefix.as_str());
    let have = chars_of(path);
    if have.len() < want.len() {
        return false;
    }
    let mut i: usize = 0;
    while i < want.len()
        invariant
            i <= want.len() <= have.len(),
            want@ == temp_prefix_of(hash@),
            have@ == path@,
            forall|k: int| 0 <= k < i ==> want@[k] == have@[k],
        decreases want.len() - i,
    {
        if want[i] != have[i] {
            assert(path@.subrange(0, want@.len() as int)[i as int] != want@[i as int]);
            return false;
        }
        i += 1;
    }
    assert(path@.subrange(0, want@.len() as int) =~= want@);
    true
}

/// Reads the page number out of the name of a page image.
pub fn page_number(name: &str) -> (r: Result<u32, NameFault>)
    ensures
        match r {
            Ok(number) => matches_page_pattern(name@) && page_number_of(name@) == number,
            Err(NameFault::Unmatched) => !matches_page_pattern(name@),
            Err(NameFault::TooLarge) => matches_page_pattern(name@) && page_number_of(name@)
                > u32::MAX,
        },
{
    let chars = chars_of(name);
    let len = chars.len();
    if len < 4 {
        return Err(NameFault::Unmatched);
    }
    let end: usize = len - 4;
    if chars[end] != '.' || chars[end + 1] != 'p' || chars[end + 2] != 'n' || chars[end + 3]
        != 'g' {
        assert(name@.subrange(end as int, len as int)[0] == name@[end as int]);
        assert(name@.subrange(end as int, len as int)[1] == name@[end + 1]);
        assert(name@.subrange(end as int, len as int)[2] == name@[end + 2]);
        assert(name@.subrange(end as int, len as int)[3] == name@[end + 3]);
        return Err(NameFault::Unmatched);
    }
    assert(name@.subrange(end as int, len as int) =~= image_suffix());
    let mut start: usize = end;
    while start > 0 && is_digit_char(chars[start - 1])
        invariant
            start <= end <= chars.len(),
            chars@ == name@,
            digits_start(name@, end as int) == digits_start(name@, start as int),
        decreases start,
    {
        start -= 1;
    }
    assert(digits_start(name@, end as int) == start);
    if start == end || start == 0 {
        return Err(NameFault::Unmatched);
    }
    if chars[start - 1] != '-' {
        return Err(NameFault::Unmatched);
    }
    proof {
        lemma_digits_start_run(name@, end as int);
    }
    let ghost digits = page_digits(name@);
    assert(all_digits(digits));
    assert(matches_page_pattern(name@));
    let mut value: u64 = 0;
    let mut i: usize = start;
    while i < end
        invariant
            start <= i <= end <= chars.len(),
            chars@ == name@,
            matches_page_pattern(name@),
            digits == page_digits(name@),
            digits == name@.subrange(start as int, end as int),
            all_digits(digits),
            value == decimal_value(digits.take(i - start)),
            value <= u32::MAX,
        decreases end - i,
    {
        let c = chars[i];
        assert(c == digits[i - start]);
        assert(is_digit(c));
        let d: u64 = (c as u32 - 48) as u64;
        assert(d == digit_value(c));
        assert(digits.take(i - start + 1).drop_last() =~= digits.take(i - start));
        assert(digits.take(i - start + 1).last() == c);
        let next: u64 = value * 10 + d;
        assert(next == decimal_value(digits.take(i - start + 1)));
        if next > 0xffff_ffff {
            proof {
                lemma_decimal_value_grows(digits, i - start + 1);
            }
            return Err(NameFault::TooLarge);
        }
        value = next;
        i += 1;
    }
    assert(digits.take(end - start) =~= digits);
    Ok(value as u32)
}

} // verus!
