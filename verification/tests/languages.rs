use doc_ingest::document::{tag_pages, Document, Page};
use doc_ingest::language::{detect, label, language_tag};

fn texts(pages: &[&str]) -> Vec<String> {
    pages.iter().map(|page| String::from(*page)).collect()
}

const ENGLISH: &str = "There is no reason not to learn Esperanto, said the teacher to the children of the village.";
const UKRAINIAN: &str = "Та нічого, все нормально. А в тебе як?";
const SPANISH: &str = "Además de todo lo anteriormente dicho, también encontramos muchas otras cosas en la casa.";

#[test]
fn english_text_is_tagged_eng() {
    assert_eq!(detect(ENGLISH), Some(String::from("eng")));
}

#[test]
fn ukrainian_text_is_tagged_ukr() {
    assert_eq!(detect(UKRAINIAN), Some(String::from("ukr")));
}

#[test]
fn spanish_text_is_tagged_spa() {
    assert_eq!(detect(SPANISH), Some(String::from("spa")));
}

#[test]
fn empty_text_has_no_language() {
    assert_eq!(detect(""), None);
    assert_eq!(detect("   "), None);
    assert_eq!(detect("12345 67890"), None);
}

#[test]
fn detection_is_not_the_text_itself() {
    assert_ne!(detect(ENGLISH), Some(String::from(ENGLISH)));
}

#[test]
fn label_of_a_code_is_the_code() {
    assert_eq!(label(&Some(String::from("deu"))), "deu");
}

#[test]
fn label_of_no_detection_is_unknown() {
    assert_eq!(label(&None), "unknown");
}

#[test]
fn tag_of_a_text_is_its_code_or_unknown() {
    assert_eq!(language_tag(ENGLISH), "eng");
    assert_eq!(language_tag(""), "unknown");
}

#[test]
fn tagged_page_carries_number_text_and_language() {
    let page = Page::tagged(4, String::from(UKRAINIAN));
    assert_eq!(page.number, 4);
    assert_eq!(page.text, UKRAINIAN);
    assert_eq!(page.language, Some(String::from("ukr")));
    assert_eq!(page.duplicate(), page);
}

#[test]
fn pages_are_numbered_from_one_in_order() {
    let pages = tag_pages(&texts(&[ENGLISH, "", UKRAINIAN]));
    assert_eq!(pages.len(), 3);
    for (at, page) in pages.iter().enumerate() {
        assert_eq!(page.number, at + 1);
    }
    assert_eq!(pages[0].text, ENGLISH);
    assert_eq!(pages[1].text, "");
    assert_eq!(pages[2].text, UKRAINIAN);
}

#[test]
fn each_page_is_tagged_on_its_own() {
    let pages = tag_pages(&texts(&[ENGLISH, "", UKRAINIAN, SPANISH]));
    assert_eq!(pages[0].language, Some(String::from("eng")));
    assert_eq!(pages[1].language, None);
    assert_eq!(pages[2].language, Some(String::from("ukr")));
    assert_eq!(pages[3].language, Some(String::from("spa")));
}

#[test]
fn no_texts_give_no_pages() {
    assert_eq!(tag_pages(&Vec::new()), Vec::<Page>::new());
}

#[test]
fn fresh_document_has_tagged_pages_and_no_identifier() {
    let hash = String::from("ba7816bf8f01cfea414140de5dae2223b00361a396177a9cb410ff61f20015ad");
    let document = Document::fresh(hash.clone(), String::from("/inbox/a.pdf"), &texts(&[ENGLISH, ""]));
    assert_eq!(document.content_hash, hash);
    assert_eq!(document.source_path, "/inbox/a.pdf");
    assert_eq!(document.assigned_id, None);
    assert_eq!(document.pages, tag_pages(&texts(&[ENGLISH, ""])));
}
