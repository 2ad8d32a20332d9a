//! Language tagging: the language of each page, detected from its text alone.

use vstd::prelude::*;

verus! {

/// The ISO 639-3 code of the language that `whatlang` detects in `text`, or
/// `None` where it detects none.
pub uninterp spec fn detected_language(text: Seq<char>) -> Option<Seq<char>>;

/// Calls `whatlang::detect_lang` and turns the language that it returns into
/// its three-letter code with `whatlang::Lang::code`. Claimed: the result
/// depends on the text alone.
#[verifier::external_body]
fn detect_language_code(text: &str) -> (code: Option<String>)
    ensures
        code.deep_view() == detected_language(text@),
{
    match whatlang::detect_lang(text) {
        Some(lang) => Some(lang.code().to_string()),
        None => None,
    }
}

/// The tag of a page whose language could not be told: `unknown`.
pub open spec fn unknown_label() -> Seq<char> {
    seq!['u', 'n', 'k', 'n', 'o', 'w', 'n']
}

/// The tag that stands for a detection: the code, or `unknown` for none.
pub open spec fn label_of(detected: Option<Seq<char>>) -> Seq<char> {
    match detected {
        Some(code) => code,
        None => unknown_label(),
    }
}

/// Detects the language of a page from its text. An inconclusive detection
/// is `None`.
pub fn detect(text: &str) -> (language: Option<String>)
    ensures
        language.deep_view() == detected_language(text@),
{
    detect_language_code(text)
}

/// The tag that stands for a detection: the code, or `unknown` for none.
pub fn label(detected: &Option<String>) -> (tag: String)
    ensures
        tag@ == label_of(detected.deep_view()),
{
    match detected {
        Some(code) => code.clone(),
        None => {
            proof {
                reveal_strlit("unknown");
            }
            let tag = String::from_str("unknown");
            assert(tag@ =~= unknown_label());
            tag
        },
    }
}

/// The language tag of a page: its detected language, or `unknown`.
pub fn language_tag(text: &str) -> (tag: String)
    ensures
        tag@ == label_of(detected_language(text@)),
{
    let detected = detect(text);
    label(&detected)
}

} // verus!
