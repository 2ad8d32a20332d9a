use doc_ingest::config::Config;
use doc_ingest::coordinator::Ingestion;
use doc_ingest::date::CalendarDate;
use doc_ingest::digest::content_hash;
use doc_ingest::document::tag_pages;
use doc_ingest::job::Job;
use doc_ingest::protocol::{Action, Event, FileEvent, IngestError, Stage, TextOrigin};

const SOURCE: &str = "/inbox/scan.pdf";
const BYTES: &[u8] = b"%PDF-1.4 three scanned pages";

fn job() -> Job {
    let mut config = Config::new();
    config.paths.data = String::from("/data");
    config.paths.consumption = String::from("/inbox");
    Job::new(&config, CalendarDate { year: 2024, month: 3, day: 9 })
}

fn texts(pages: &[&str]) -> Vec<String> {
    pages.iter().map(|page| String::from(*page)).collect()
}

fn image(number: &str) -> String {
    format!("tmp/{}-{}.png", content_hash(BYTES), number)
}

fn images(numbers: &[&str]) -> Vec<String> {
    numbers.iter().map(|number| image(number)).collect()
}

/// Feeds the events to a fresh ingestion. Returns the state reached, every
/// action that was pending on the way (the last one included), and every
/// file that was to be removed.
fn drive(events: Vec<Event>) -> (Ingestion, Vec<Action>, Vec<String>) {
    let (state, asked, removed, _) = trace(events);
    (state, asked, removed)
}

/// As `drive`, and the stages that were entered on the way, in order.
fn trace(events: Vec<Event>) -> (Ingestion, Vec<Action>, Vec<String>, Vec<Stage>) {
    let mut state = Ingestion::receive(job(), String::from(SOURCE));
    let mut asked = vec![state.pending()];
    let mut removed = Vec::new();
    let mut entered = Vec::new();
    for event in events {
        let outcome = state.step(event);
        state = outcome.state;
        asked.push(state.pending());
        removed.extend(outcome.discard);
        entered.extend(outcome.entered);
    }
    (state, asked, removed, entered)
}

fn up_to_listing(pages: usize) -> Vec<Event> {
    vec![
        Event::SourceRead { bytes: BYTES.to_vec() },
        Event::Inspected { pages: vec![String::new(); pages] },
        Event::Rasterized,
    ]
}

fn is_database_write(action: &Action) -> bool {
    matches!(action, Action::InsertDocument { .. } | Action::InsertPage { .. })
}

fn is_recognition_work(action: &Action) -> bool {
    matches!(action, Action::Rasterize { .. } | Action::ListImages { .. } | Action::Recognize { .. })
}

#[test]
fn fresh_ingestion_asks_for_the_source_bytes() {
    let state = Ingestion::receive(job(), String::from(SOURCE));
    assert_eq!(state.stage(), Stage::Received);
    assert!(!state.is_terminal());
    assert_eq!(state.pending(), Action::ReadSource { path: String::from(SOURCE) });
    assert_eq!(state.document(), None);
    assert_eq!(state.origin(), None);
    assert_eq!(state.abandonment(), None);
    assert_eq!(state.stored_at(), None);
}

#[test]
fn created_file_begins_an_ingestion() {
    let begun = Ingestion::on_file_event(job(), FileEvent::Created { path: String::from(SOURCE) }).unwrap();
    assert_eq!(begun.stage(), Stage::Received);
    assert_eq!(begun.pending(), Action::ReadSource { path: String::from(SOURCE) });
}

#[test]
fn other_notifications_begin_nothing() {
    assert!(Ingestion::on_file_event(job(), FileEvent::Other).is_none());
}

#[test]
fn unreadable_source_is_abandoned_without_side_effects() {
    let (state, asked, removed) = drive(vec![Event::SourceUnreadable]);
    assert_eq!(state.stage(), Stage::Abandoned);
    assert!(state.is_terminal());
    let record = state.abandonment().unwrap();
    assert_eq!(record.source, SOURCE);
    assert_eq!(record.hash, None);
    assert_eq!(record.reached, Stage::Received);
    assert_eq!(record.failure, IngestError::Input);
    assert_eq!(record.document_id, None);
    assert_eq!(record.rejected_pages, Vec::<usize>::new());
    assert_eq!(asked, vec![Action::ReadSource { path: String::from(SOURCE) }, Action::Stop]);
    assert!(removed.is_empty());
}

#[test]
fn abandonment_is_reported_with_failure_stage_source_and_hash() {
    let (state, _, _) = drive(vec![Event::SourceUnreadable]);
    assert_eq!(state.abandonment().unwrap().report(), "InputError at Received: /inbox/scan.pdf");
    let mut events = up_to_listing(1);
    events[2] = Event::RasterFailed;
    let (state, _, _) = drive(events);
    assert_eq!(
        state.abandonment().unwrap().report(),
        format!("ConversionError at NeedsOcr: /inbox/scan.pdf ({})", content_hash(BYTES))
    );
}

#[test]
fn read_source_is_identified_by_its_hash() {
    let (state, asked, _) = drive(vec![Event::SourceRead { bytes: BYTES.to_vec() }]);
    assert_eq!(state.stage(), Stage::Identified);
    assert_eq!(asked[1], Action::Inspect { path: String::from(SOURCE) });
}

#[test]
fn unparsable_source_is_abandoned_and_never_rasterized() {
    let (state, asked, removed) = drive(vec![Event::SourceRead { bytes: BYTES.to_vec() }, Event::Unparsable]);
    let record = state.abandonment().unwrap();
    assert_eq!(record.failure, IngestError::Parse);
    assert_eq!(record.reached, Stage::Identified);
    assert_eq!(record.hash, Some(content_hash(BYTES)));
    assert_eq!(record.source, SOURCE);
    assert!(!asked.iter().any(is_recognition_work));
    assert!(!asked.iter().any(is_database_write));
    assert_eq!(asked.last(), Some(&Action::Stop));
    assert!(removed.is_empty());
}

#[test]
fn scanned_document_of_three_pages_is_recognized_stored_and_relocated() {
    let hash = content_hash(BYTES);
    let mut events = up_to_listing(3);
    events.push(Event::ImagesListed { names: images(&["3", "1", "2"]) });
    events.push(Event::PageRecognized { text: String::from("first page") });
    events.push(Event::PageRecognized { text: String::from("second page") });
    events.push(Event::PageRecognized { text: String::from("third page") });
    events.push(Event::DocumentInserted { id: 7 });
    events.push(Event::PageInserted);
    events.push(Event::PageInserted);
    events.push(Event::PageInserted);
    events.push(Event::Moved);
    let (state, asked, removed) = drive(events);

    assert_eq!(
        asked,
        vec![
            Action::ReadSource { path: String::from(SOURCE) },
            Action::Inspect { path: String::from(SOURCE) },
            Action::Rasterize { source: String::from(SOURCE), dpi: 300, prefix: format!("tmp/{}", hash) },
            Action::ListImages { pattern: format!("tmp/{}*.png", hash) },
            Action::Recognize { image: image("1"), lang: String::from("eng") },
            Action::Recognize { image: image("2"), lang: String::from("eng") },
            Action::Recognize { image: image("3"), lang: String::from("eng") },
            Action::InsertDocument {
                title: String::from("2024-03-09"),
                added_on: CalendarDate { year: 2024, month: 3, day: 9 },
                content_hash: hash.clone(),
            },
            Action::InsertPage { document_id: 7, number: 1, text: String::from("first page") },
            Action::InsertPage { document_id: 7, number: 2, text: String::from("second page") },
            Action::InsertPage { document_id: 7, number: 3, text: String::from("third page") },
            Action::Relocate { from: String::from(SOURCE), to: String::from("/data/7.pdf") },
            Action::Stop,
        ]
    );
    assert_eq!(removed, images(&["1", "2", "3"]));
    assert_eq!(state.stage(), Stage::Relocated);
    assert!(state.is_terminal());
    assert_eq!(state.stored_at(), Some(&String::from("/data/7.pdf")));
    assert_eq!(state.origin(), Some(TextOrigin::Recognized));
    assert_eq!(state.abandonment(), None);
    let document = state.document().unwrap();
    assert_eq!(document.assigned_id, Some(7));
    assert_eq!(document.content_hash, hash);
    assert_eq!(document.source_path, SOURCE);
    assert_eq!(document.pages, tag_pages(&texts(&["first page", "second page", "third page"])));
    assert_eq!(asked.iter().filter(|action| matches!(action, Action::InsertDocument { .. })).count(), 1);
    assert_eq!(asked.iter().filter(|action| matches!(action, Action::InsertPage { .. })).count(), 3);
}

#[test]
fn document_with_embedded_text_skips_recognition() {
    let events = vec![
        Event::SourceRead { bytes: BYTES.to_vec() },
        Event::Inspected { pages: texts(&["Invoice", ""]) },
        Event::DocumentInserted { id: 12 },
        Event::PageInserted,
        Event::PageInserted,
        Event::Moved,
    ];
    let (state, asked, removed) = drive(events);
    assert!(!asked.iter().any(is_recognition_work));
    assert!(removed.is_empty());
    assert_eq!(asked[3], Action::InsertPage { document_id: 12, number: 1, text: String::from("Invoice") });
    assert_eq!(asked[4], Action::InsertPage { document_id: 12, number: 2, text: String::new() });
    assert_eq!(asked[5], Action::Relocate { from: String::from(SOURCE), to: String::from("/data/12.pdf") });
    assert_eq!(state.stage(), Stage::Relocated);
    assert_eq!(state.origin(), Some(TextOrigin::Embedded));
    let document = state.document().unwrap();
    let stored: Vec<&str> = document.pages.iter().map(|page| page.text.as_str()).collect();
    assert_eq!(stored, vec!["Invoice", ""]);
    let numbers: Vec<usize> = document.pages.iter().map(|page| page.number).collect();
    assert_eq!(numbers, vec![1, 2]);
}

#[test]
fn embedded_text_is_tagged_right_after_inspection() {
    let events = vec![
        Event::SourceRead { bytes: BYTES.to_vec() },
        Event::Inspected { pages: texts(&["Invoice", ""]) },
    ];
    let (state, asked, _) = drive(events);
    assert_eq!(state.stage(), Stage::Tagged);
    assert_eq!(state.origin(), Some(TextOrigin::Embedded));
    assert_eq!(state.document().unwrap().assigned_id, None);
    assert_eq!(
        asked[2],
        Action::InsertDocument {
            title: String::from("2024-03-09"),
            added_on: CalendarDate { year: 2024, month: 3, day: 9 },
            content_hash: content_hash(BYTES),
        }
    );
}

#[test]
fn failed_rasterizer_abandons_without_writes_and_keeps_the_source() {
    let mut events = up_to_listing(3);
    events[2] = Event::RasterFailed;
    let (state, asked, removed) = drive(events);
    assert_eq!(state.stage(), Stage::Abandoned);
    let record = state.abandonment().unwrap();
    assert_eq!(record.failure, IngestError::Conversion);
    assert_eq!(record.reached, Stage::NeedsOcr);
    assert_eq!(record.source, SOURCE);
    assert_eq!(record.hash, Some(content_hash(BYTES)));
    assert_eq!(record.document_id, None);
    assert!(!asked.iter().any(is_database_write));
    assert!(!asked.iter().any(|action| matches!(action, Action::Relocate { .. })));
    assert_eq!(asked.last(), Some(&Action::Stop));
    assert!(removed.is_empty());
    assert_eq!(state.document(), None);
}

#[test]
fn rasterizer_out_of_time_abandons_like_a_failure() {
    let mut events = up_to_listing(3);
    events[2] = Event::RasterTimedOut;
    let (state, asked, _) = drive(events);
    let record = state.abandonment().unwrap();
    assert_eq!(record.failure, IngestError::Conversion);
    assert_eq!(record.reached, Stage::NeedsOcr);
    assert!(!asked.iter().any(is_database_write));
}

#[test]
fn abandoned_ingestion_stays_abandoned() {
    let mut events = up_to_listing(3);
    events[2] = Event::RasterFailed;
    events.push(Event::Rasterized);
    events.push(Event::ImagesListed { names: images(&["1", "2", "3"]) });
    events.push(Event::DocumentInserted { id: 1 });
    events.push(Event::Moved);
    let (state, asked, removed) = drive(events);
    assert_eq!(state.stage(), Stage::Abandoned);
    assert_eq!(state.abandonment().unwrap().failure, IngestError::Conversion);
    assert_eq!(asked.iter().filter(|action| **action == Action::Stop).count(), 5);
    assert!(removed.is_empty());
}

#[test]
fn wrong_number_of_images_abandons_and_removes_them() {
    let mut events = up_to_listing(3);
    events.push(Event::ImagesListed { names: images(&["1", "2"]) });
    let (state, asked, removed) = drive(events);
    let record = state.abandonment().unwrap();
    assert_eq!(record.failure, IngestError::Conversion);
    assert_eq!(record.reached, Stage::NeedsOcr);
    assert_eq!(removed, images(&["1", "2"]));
    assert!(!asked.iter().any(|action| matches!(action, Action::Recognize { .. })));
    assert!(!asked.iter().any(is_database_write));
}

#[test]
fn image_with_an_unreadable_name_abandons_the_document() {
    let mut events = up_to_listing(2);
    let listed = vec![image("1"), format!("tmp/{}-two.png", content_hash(BYTES))];
    events.push(Event::ImagesListed { names: listed.clone() });
    let (state, asked, removed) = drive(events);
    assert_eq!(state.abandonment().unwrap().failure, IngestError::Conversion);
    assert_eq!(removed, listed);
    assert!(!asked.iter().any(|action| matches!(action, Action::Recognize { .. })));
}

#[test]
fn images_of_other_documents_are_never_removed() {
    let mut events = up_to_listing(2);
    let foreign = String::from("tmp/e3b0c44298fc1c149afbf4c8996fb92427ae41e4649b934ca495991b7852b855-1.png");
    events.push(Event::ImagesListed { names: vec![image("1"), foreign, String::from(SOURCE)] });
    let (state, _, removed) = drive(events);
    assert_eq!(state.stage(), Stage::Abandoned);
    assert_eq!(removed, images(&["1"]));
}

#[test]
fn repeated_page_number_abandons_the_document() {
    let mut events = up_to_listing(3);
    events.push(Event::ImagesListed { names: images(&["1", "2", "02"]) });
    let (state, _, removed) = drive(events);
    assert_eq!(state.abandonment().unwrap().failure, IngestError::Conversion);
    assert_eq!(removed, images(&["1", "2", "02"]));
}

#[test]
fn unrecognized_page_abandons_and_removes_the_remaining_images() {
    let mut events = up_to_listing(3);
    events.push(Event::ImagesListed { names: images(&["2", "3", "1"]) });
    events.push(Event::PageRecognized { text: String::from("first page") });
    events.push(Event::PageUnrecognized);
    let (state, asked, removed) = drive(events);
    let record = state.abandonment().unwrap();
    assert_eq!(record.failure, IngestError::Recognition);
    assert_eq!(record.reached, Stage::NeedsOcr);
    assert_eq!(record.source, SOURCE);
    assert_eq!(record.document_id, None);
    assert_eq!(removed, images(&["1", "2", "3"]));
    assert!(!asked.iter().any(is_database_write));
    assert!(!asked.iter().any(|action| matches!(action, Action::Relocate { .. })));
    assert_eq!(state.document(), None);
}

#[test]
fn blank_recognized_page_keeps_its_place() {
    let mut events = up_to_listing(3);
    events.push(Event::ImagesListed { names: images(&["1", "2", "3"]) });
    events.push(Event::PageRecognized { text: String::from("a") });
    events.push(Event::PageRecognized { text: String::new() });
    events.push(Event::PageRecognized { text: String::from("c") });
    let (state, _, _) = drive(events);
    assert_eq!(state.stage(), Stage::Tagged);
    let document = state.document().unwrap();
    let stored: Vec<(usize, &str)> = document.pages.iter().map(|page| (page.number, page.text.as_str())).collect();
    assert_eq!(stored, vec![(1, "a"), (2, ""), (3, "c")]);
}

#[test]
fn page_count_is_the_same_on_both_paths() {
    let embedded = vec![
        Event::SourceRead { bytes: BYTES.to_vec() },
        Event::Inspected { pages: texts(&["a", "", "c"]) },
    ];
    let (with_text, _, _) = drive(embedded);
    let mut recognized = up_to_listing(3);
    recognized.push(Event::ImagesListed { names: images(&["1", "2", "3"]) });
    recognized.push(Event::PageRecognized { text: String::from("a") });
    recognized.push(Event::PageRecognized { text: String::new() });
    recognized.push(Event::PageRecognized { text: String::from("c") });
    let (scanned, _, _) = drive(recognized);
    assert_eq!(with_text.document().unwrap().pages.len(), 3);
    assert_eq!(scanned.document().unwrap().pages.len(), 3);
    assert_eq!(with_text.document().unwrap().pages, scanned.document().unwrap().pages);
    assert_eq!(with_text.origin(), Some(TextOrigin::Embedded));
    assert_eq!(scanned.origin(), Some(TextOrigin::Recognized));
}

#[test]
fn rejected_document_row_abandons_and_keeps_the_source() {
    let events = vec![
        Event::SourceRead { bytes: BYTES.to_vec() },
        Event::Inspected { pages: texts(&["Invoice"]) },
        Event::DocumentRejected,
    ];
    let (state, asked, _) = drive(events);
    let record = state.abandonment().unwrap();
    assert_eq!(record.failure, IngestError::Persistence);
    assert_eq!(record.reached, Stage::Tagged);
    assert_eq!(record.document_id, None);
    assert_eq!(record.source, SOURCE);
    assert!(!asked.iter().any(|action| matches!(action, Action::InsertPage { .. })));
    assert!(!asked.iter().any(|action| matches!(action, Action::Relocate { .. })));
}

#[test]
fn rejected_page_row_is_reported_and_the_source_is_kept() {
    let events = vec![
        Event::SourceRead { bytes: BYTES.to_vec() },
        Event::Inspected { pages: texts(&["one", "two", "three"]) },
        Event::DocumentInserted { id: 5 },
        Event::PageInserted,
        Event::PageRejected,
        Event::PageInserted,
    ];
    let (state, asked, _) = drive(events);
    let record = state.abandonment().unwrap();
    assert_eq!(record.failure, IngestError::Persistence);
    assert_eq!(record.reached, Stage::Tagged);
    assert_eq!(record.document_id, Some(5));
    assert_eq!(record.rejected_pages, vec![2]);
    assert_eq!(record.source, SOURCE);
    assert_eq!(asked.iter().filter(|action| matches!(action, Action::InsertPage { .. })).count(), 3);
    assert!(!asked.iter().any(|action| matches!(action, Action::Relocate { .. })));
    assert_eq!(asked.last(), Some(&Action::Stop));
}

#[test]
fn every_rejected_page_is_reported() {
    let events = vec![
        Event::SourceRead { bytes: BYTES.to_vec() },
        Event::Inspected { pages: texts(&["one", "two", "three"]) },
        Event::DocumentInserted { id: 5 },
        Event::PageRejected,
        Event::PageInserted,
        Event::PageRejected,
    ];
    let (state, _, _) = drive(events);
    assert_eq!(state.abandonment().unwrap().rejected_pages, vec![1, 3]);
}

#[test]
fn source_is_asked_to_move_only_after_the_last_row() {
    let events = vec![
        Event::SourceRead { bytes: BYTES.to_vec() },
        Event::Inspected { pages: texts(&["one", "two"]) },
        Event::DocumentInserted { id: 5 },
        Event::PageInserted,
    ];
    let (state, asked, _) = drive(events);
    assert_eq!(state.stage(), Stage::Tagged);
    assert!(!asked.iter().any(|action| matches!(action, Action::Relocate { .. })));
    let state = state.step(Event::PageInserted).state;
    assert_eq!(state.stage(), Stage::Persisted);
    assert_eq!(state.pending(), Action::Relocate { from: String::from(SOURCE), to: String::from("/data/5.pdf") });
}

#[test]
fn failed_move_leaves_the_document_stored_and_the_source_in_place() {
    let events = vec![
        Event::SourceRead { bytes: BYTES.to_vec() },
        Event::Inspected { pages: texts(&["one"]) },
        Event::DocumentInserted { id: 9 },
        Event::PageInserted,
        Event::MoveFailed,
    ];
    let (state, asked, _) = drive(events);
    let record = state.abandonment().unwrap();
    assert_eq!(record.failure, IngestError::Relocation);
    assert_eq!(record.reached, Stage::Persisted);
    assert_eq!(record.document_id, Some(9));
    assert_eq!(record.source, SOURCE);
    assert_eq!(state.stored_at(), None);
    assert_eq!(asked.last(), Some(&Action::Stop));
}

#[test]
fn relocated_ingestion_stays_relocated() {
    let events = vec![
        Event::SourceRead { bytes: BYTES.to_vec() },
        Event::Inspected { pages: texts(&["one"]) },
        Event::DocumentInserted { id: 9 },
        Event::PageInserted,
        Event::Moved,
        Event::MoveFailed,
        Event::SourceUnreadable,
        Event::PageRejected,
    ];
    let (state, _, _) = drive(events);
    assert_eq!(state.stage(), Stage::Relocated);
    assert_eq!(state.stored_at(), Some(&String::from("/data/9.pdf")));
}

#[test]
fn events_that_are_not_awaited_change_nothing() {
    let unexpected = vec![
        Event::Inspected { pages: texts(&["x"]) },
        Event::Unparsable,
        Event::Rasterized,
        Event::RasterFailed,
        Event::RasterTimedOut,
        Event::ImagesListed { names: images(&["1"]) },
        Event::PageRecognized { text: String::from("x") },
        Event::PageUnrecognized,
        Event::DocumentInserted { id: 1 },
        Event::DocumentRejected,
        Event::PageInserted,
        Event::PageRejected,
        Event::Moved,
        Event::MoveFailed,
    ];
    let (state, asked, removed) = drive(unexpected);
    assert_eq!(state.stage(), Stage::Received);
    assert!(asked.iter().all(|action| *action == Action::ReadSource { path: String::from(SOURCE) }));
    assert!(removed.is_empty());
}

#[test]
fn move_reported_too_early_does_not_relocate() {
    let events = vec![
        Event::SourceRead { bytes: BYTES.to_vec() },
        Event::Inspected { pages: texts(&["one", "two"]) },
        Event::Moved,
        Event::DocumentInserted { id: 5 },
        Event::Moved,
        Event::PageInserted,
        Event::Moved,
    ];
    let (state, _, _) = drive(events);
    assert_eq!(state.stage(), Stage::Tagged);
    assert_eq!(state.pending(), Action::InsertPage { document_id: 5, number: 2, text: String::from("two") });
}

#[test]
fn document_without_pages_is_stored_without_page_rows() {
    let mut events = up_to_listing(0);
    events.push(Event::ImagesListed { names: Vec::new() });
    events.push(Event::DocumentInserted { id: 3 });
    let (state, asked, _) = drive(events);
    assert_eq!(state.stage(), Stage::Persisted);
    assert!(!asked.iter().any(|action| matches!(action, Action::InsertPage { .. })));
    assert!(!asked.iter().any(|action| matches!(action, Action::Recognize { .. })));
    assert_eq!(state.document().unwrap().pages.len(), 0);
}

#[test]
fn two_documents_work_in_separate_namespaces() {
    let other_bytes: &[u8] = b"%PDF-1.4 another document";
    let one = Ingestion::receive(job(), String::from("/inbox/a.pdf"));
    let other = Ingestion::receive(job(), String::from("/inbox/b.pdf"));
    let one = one.step(Event::SourceRead { bytes: BYTES.to_vec() }).state;
    let other = other.step(Event::SourceRead { bytes: other_bytes.to_vec() }).state;
    let one = one.step(Event::Inspected { pages: texts(&[""]) }).state;
    let other = other.step(Event::Inspected { pages: texts(&[""]) }).state;
    let (one_prefix, other_prefix) = match (one.pending(), other.pending()) {
        (Action::Rasterize { prefix: a, .. }, Action::Rasterize { prefix: b, .. }) => (a, b),
        _ => panic!("both documents need recognition"),
    };
    assert_ne!(one_prefix, other_prefix);
    assert!(!one_prefix.starts_with(&other_prefix));
    assert!(!other_prefix.starts_with(&one_prefix));
    let one = one.step(Event::RasterFailed).state;
    assert_eq!(one.stage(), Stage::Abandoned);
    let other = other.step(Event::Rasterized).state;
    assert_eq!(other.pending(), Action::ListImages { pattern: format!("tmp/{}*.png", content_hash(other_bytes)) });
}

#[test]
fn scanned_document_passes_through_recognition() {
    let mut events = up_to_listing(2);
    events.push(Event::ImagesListed { names: images(&["2", "1"]) });
    events.push(Event::PageRecognized { text: String::from("a") });
    events.push(Event::PageRecognized { text: String::from("b") });
    events.push(Event::DocumentInserted { id: 1 });
    events.push(Event::PageInserted);
    events.push(Event::PageInserted);
    events.push(Event::Moved);
    let (_, _, _, entered) = trace(events);
    assert_eq!(
        entered,
        vec![
            Stage::Identified,
            Stage::Inspected,
            Stage::NeedsOcr,
            Stage::Recognized,
            Stage::Tagged,
            Stage::Persisted,
            Stage::Relocated,
        ]
    );
}

#[test]
fn document_with_text_passes_through_the_embedded_text() {
    let events = vec![
        Event::SourceRead { bytes: BYTES.to_vec() },
        Event::Inspected { pages: texts(&["Invoice", ""]) },
        Event::DocumentInserted { id: 1 },
        Event::PageInserted,
        Event::PageInserted,
        Event::Moved,
    ];
    let (_, _, _, entered) = trace(events);
    assert_eq!(
        entered,
        vec![
            Stage::Identified,
            Stage::Inspected,
            Stage::HasEmbeddedText,
            Stage::Tagged,
            Stage::Persisted,
            Stage::Relocated,
        ]
    );
}

#[test]
fn abandoned_ingestion_enters_no_stage_but_abandoned() {
    let (_, _, _, entered) = trace(vec![
        Event::SourceRead { bytes: BYTES.to_vec() },
        Event::Unparsable,
        Event::Inspected { pages: texts(&["late"]) },
        Event::Moved,
    ]);
    assert_eq!(entered, vec![Stage::Identified, Stage::Abandoned]);
}

#[test]
fn events_that_are_not_awaited_enter_no_stage() {
    let (_, _, _, entered) = trace(vec![Event::Moved, Event::PageInserted, Event::Rasterized]);
    assert_eq!(entered, Vec::<Stage>::new());
}
