//! Text-presence inspection: whether the text layer of a document is usable.

use vstd::prelude::*;

verus! {

/// `c` has the Unicode property White_Space, as `char::is_whitespace` decides it.
pub uninterp spec fn white_space(c: char) -> bool;

/// Calls `char::is_whitespace` of the standard library. Claimed: the result
/// depends on the character alone.
#[verifier::external_body]
fn char_is_whitespace(c: char) -> (b: bool)
    ensures
        b == white_space(c),
{
    c.is_whitespace()
}

/// Nothing is left of `text` once white space is trimmed from both ends:
/// every character of it is white space.
pub open spec fn blank(text: Seq<char>) -> bool {
    forall|i: int| 0 <= i < text.len() ==> white_space(#[trigger] text[i])
}

/// `text` without the white space at its start.
pub open spec fn trimmed_start(text: Seq<char>) -> Seq<char>
    decreases text.len(),
{
    if text.len() > 0 && white_space(text.first()) {
        trimmed_start(text.drop_first())
    } else {
        text
    }
}

/// `text` without the white space at its end.
pub open spec fn trimmed_end(text: Seq<char>) -> Seq<char>
    decreases text.len(),
{
    if text.len() > 0 && white_space(text.last()) {
        trimmed_end(text.drop_last())
    } else {
        text
    }
}

/// `text` without the white space at its start and at its end.
pub open spec fn trimmed(text: Seq<char>) -> Seq<char> {
    trimmed_end(trimmed_start(text))
}

/// Trimming at the start leaves nothing exactly of blank text, and leaves
/// text that begins with a character that is no white space otherwise.
proof fn lemma_trimmed_start(text: Seq<char>)
    ensures
        blank(text) <==> trimmed_start(text).len() == 0,
        trimmed_start(text).len() > 0 ==> !white_space(trimmed_start(text).first()),
    decreases text.len(),
{
    if text.len() > 0 && white_space(text.first()) {
        let rest = text.drop_first();
        lemma_trimmed_start(rest);
        if blank(text) {
            assert forall|i: int| 0 <= i < rest.len() implies white_space(#[trigger] rest[i]) by {
                assert(rest[i] == text[i + 1]);
            }
        }
        if blank(rest) {
            assert forall|i: int| 0 <= i < text.len() implies white_space(#[trigger] text[i]) by {
                if i > 0 {
                    assert(text[i] == rest[i - 1]);
                }
            }
        }
    } else if text.len() > 0 {
        assert(!white_space(text[0]));
    }
}

/// Trimming at the end leaves something of text that holds a character
/// that is no white space.
proof fn lemma_trimmed_end(text: Seq<char>, at: int)
    requires
        0 <= at < text.len(),
        !white_space(text[at]),
    ensures
        trimmed_end(text).len() > at,
    decreases text.len(),
{
    if white_space(text.last()) {
        lemma_trimmed_end(text.drop_last(), at);
    }
}

/// A text is blank exactly when nothing is left of it after trimming.
pub proof fn lemma_blank_is_empty_after_trimming(text: Seq<char>)
    ensures
        blank(text) <==> trimmed(text).len() == 0,
{
    lemma_trimmed_start(text);
    let start = trimmed_start(text);
    if start.len() > 0 {
        lemma_trimmed_end(start, 0);
    }
}

/// At least one of `pages` is not blank.
pub open spec fn any_text(pages: Seq<Seq<char>>) -> bool {
    exists|i: int| 0 <= i < pages.len() && !blank(#[trigger] pages[i])
}

/// Tells whether a page's text is empty after trimming.
pub fn is_blank(text: &str) -> (b: bool)
    ensures
        b == blank(text@),
{
    for c in it: text.chars()
        invariant
            it.seq() == text@,
            forall|i: int| 0 <= i < it.index() ==> white_space(#[trigger] text@[i]),
    {
        if !char_is_whitespace(c) {
            assert(!white_space(text@[it.index()]));
            return false;
        }
    }
    true
}

/// Tells whether a document has a usable text layer: whether the text of at
/// least one page is not empty after trimming.
pub fn has_text(pages: &Vec<String>) -> (b: bool)
    ensures
        b == any_text(pages.deep_view()),
{
    let mut i: usize = 0;
    while i < pages.len()
        invariant
            i <= pages.len(),
            forall|k: int| 0 <= k < i ==> blank(#[trigger] pages.deep_view()[k]),
        decreases pages.len() - i,
    {
        if !is_blank(pages[i].as_str()) {
            assert(!blank(pages.deep_view()[i as int]));
            return true;
        }
        i += 1;
    }
    false
}

/// What the inspection of a document found: the text of each page, in
/// document order, and whether any of it is usable.
#[derive(Debug, PartialEq, Eq)]
pub struct Inspection {
    pub pages: Vec<String>,
    pub has_text: bool,
}

impl Inspection {
    /// The flag says what the pages hold.
    pub open spec fn wf(&self) -> bool {
        self.has_text == any_text(self.pages.deep_view())
    }

    /// Tells whether the recognition fallback is needed: exactly when no
    /// page has text.
    pub fn needs_ocr(&self) -> (needed: bool)
        ensures
            needed == !self.has_text,
            self.wf() ==> needed == !any_text(self.pages.deep_view()),
    {
        !self.has_text
    }

    /// Records the text extracted from each page of a document, in document
    /// order, together with the verdict on its text layer.
    pub fn of_pages(pages: Vec<String>) -> (found: Inspection)
        ensures
            found.wf(),
            found.pages == pages,
    {
        let has_text = has_text(&pages);
        Inspection { pages, has_text }
    }
}

} // verus!
