//! Documents and their pages.

use vstd::prelude::*;
use crate::digest::is_content_hash;
use crate::language::{detect, detected_language};

verus! {

/// One page of a document: its text and the language detected in it.
#[derive(Debug, PartialEq, Eq)]
pub struct Page {
    /// Position of the page in the source document, counted from 1.
    pub number: usize,
    /// The text of the page; empty for a blank page.
    pub text: String,
    /// The detected language; `None` where detection was inconclusive.
    pub language: Option<String>,
}

/// What a page is, as plain values.
pub struct PageView {
    pub number: nat,
    pub text: Seq<char>,
    pub language: Option<Seq<char>>,
}

impl DeepView for Page {
    type V = PageView;

    open spec fn deep_view(&self) -> PageView {
        PageView {
            number: self.number as nat,
            text: self.text@,
            language: self.language.deep_view(),
        }
    }
}

/// The page with number `number` and text `text`, tagged with its language.
pub open spec fn tagged_page(number: nat, text: Seq<char>) -> PageView {
    PageView { number, text, language: detected_language(text) }
}

/// One page for each text, numbered from 1 in the order of the texts, each
/// tagged on its own.
pub open spec fn tagged_pages(texts: Seq<Seq<char>>) -> Seq<PageView> {
    Seq::new(texts.len(), |i: int| tagged_page((i + 1) as nat, texts[i]))
}

/// The texts of `pages`, in order.
pub open spec fn texts_of(pages: Seq<PageView>) -> Seq<Seq<char>> {
    Seq::new(pages.len(), |i: int| pages[i].text)
}

/// Each page carries its position, counted from 1, as its number.
pub open spec fn numbered_in_order(pages: Seq<PageView>) -> bool {
    forall|i: int| 0 <= i < pages.len() ==> (#[trigger] pages[i]).number == i + 1
}

impl Page {
    /// Makes the page with number `number` and text `text`, and detects its language.
    pub fn tagged(number: usize, text: String) -> (page: Page)
        ensures
            page.deep_view() == tagged_page(number as nat, text@),
    {
        let language = detect(text.as_str());
        Page { number, text, language }
    }

    /// A copy of the page.
    pub fn duplicate(&self) -> (copy: Page)
        ensures
            copy.deep_view() == self.deep_view(),
    {
        let language = match &self.language {
            Some(code) => Some(code.clone()),
            None => None,
        };
        Page { number: self.number, text: self.text.clone(), language }
    }
}

/// Numbers the texts of a document from 1, in their order, and tags each
/// page with its language. No text is dropped, an empty one neither.
pub fn tag_pages(texts: &Vec<String>) -> (pages: Vec<Page>)
    ensures
        pages.deep_view() == tagged_pages(texts.deep_view()),
        numbered_in_order(pages.deep_view()),
        texts_of(pages.deep_view()) == texts.deep_view(),
{
    let mut pages: Vec<Page> = Vec::new();
    let mut i: usize = 0;
    while i < texts.len()
        invariant
            i <= texts.len(),
            pages.len() == i,
            forall|k: int| 0 <= k < i ==> (#[trigger] pages[k]).deep_view() == tagged_page(
                (k + 1) as nat,
                texts[k]@,
            ),
        decreases texts.len() - i,
    {
        pages.push(Page::tagged(i + 1, texts[i].clone()));
        i += 1;
    }
    assert(pages.deep_view() =~= tagged_pages(texts.deep_view()));
    assert(texts_of(pages.deep_view()) =~= texts.deep_view());
    pages
}

/// One ingested document.
#[derive(Debug, PartialEq, Eq)]
pub struct Document {
    /// The content hash of the source file.
    pub content_hash: String,
    /// The pages, in the order of the source document.
    pub pages: Vec<Page>,
    /// Where the source file was found.
    pub source_path: String,
    /// The identifier that persistence assigned; `None` before that.
    pub assigned_id: Option<i32>,
}

/// What a document is, as plain values.
pub struct DocumentView {
    pub content_hash: Seq<char>,
    pub pages: Seq<PageView>,
    pub source_path: Seq<char>,
    pub assigned_id: Option<int>,
}

impl DeepView for Document {
    type V = DocumentView;

    open spec fn deep_view(&self) -> DocumentView {
        DocumentView {
            content_hash: self.content_hash@,
            pages: self.pages.deep_view(),
            source_path: self.source_path@,
            assigned_id: match self.assigned_id {
                Some(id) => Some(id as int),
                None => None,
            },
        }
    }
}

impl DocumentView {
    /// The pages are numbered from 1 in their order.
    pub open spec fn wf(self) -> bool {
        numbered_in_order(self.pages)
    }

    /// The hash has the shape of a content hash.
    pub open spec fn identified(self) -> bool {
        is_content_hash(self.content_hash)
    }

    /// The document before persistence: the pages of `texts`, tagged, and no
    /// identifier yet.
    pub open spec fn fresh(
        content_hash: Seq<char>,
        source_path: Seq<char>,
        texts: Seq<Seq<char>>,
    ) -> DocumentView {
        DocumentView { content_hash, pages: tagged_pages(texts), source_path, assigned_id: None }
    }

    /// The document once persistence has assigned `id` to it.
    pub open spec fn with_id(self, id: int) -> DocumentView {
        DocumentView { assigned_id: Some(id), ..self }
    }
}

impl Document {
    /// Makes the document of a source file from the texts of its pages, in
    /// page order: tags each page, and leaves the identifier open.
    pub fn fresh(content_hash: String, source_path: String, texts: &Vec<String>) -> (document: Document)
        ensures
            document.deep_view() == DocumentView::fresh(content_hash@, source_path@, texts.deep_view()),
            document.deep_view().wf(),
    {
        let pages = tag_pages(texts);
        Document { content_hash, pages, source_path, assigned_id: None }
    }
}

} // verus!
