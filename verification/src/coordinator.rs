//! The coordinator of one ingestion: it is told what the world reports and
//! answers with what to do next.

use vstd::prelude::*;
use crate::digest::content_hash;
use crate::document::Document;
use crate::inspect::Inspection;
use crate::job::Job;
use crate::laws::{lemma_next_keeps_identity, lemma_next_keeps_wf};
use crate::ocr::{paths_after, plan_pages, select_own_images, PageImage};
use crate::pagefile::{image_pattern, temp_prefix};
use crate::protocol::{
    failure_name, stage_name, Action, Event, FileEvent, IngestError, Stage, TextOrigin,
};
use crate::state::{
    next, received, stages_entered, storage_target, AbandonmentView, IngestionView,
};
use crate::text::render_signed;

verus! {

/// The page numbers of `numbers`, as natural numbers.
pub open spec fn naturals(numbers: Seq<usize>) -> Seq<nat> {
    Seq::new(numbers.len(), |i: int| numbers[i] as nat)
}

/// What is known of an abandoned ingestion.
#[derive(Debug, PartialEq, Eq)]
pub struct Abandonment {
    /// Where the source file is; it is still there.
    pub source: String,
    /// The content hash, where the file could be read.
    pub hash: Option<String>,
    /// The stage that the ingestion had reached.
    pub reached: Stage,
    /// Why it was abandoned.
    pub failure: IngestError,
    /// The identifier of the document row, where one was stored.
    pub document_id: Option<i32>,
    /// The numbers of the pages whose rows could not be stored.
    pub rejected_pages: Vec<usize>,
}

impl DeepView for Abandonment {
    type V = AbandonmentView;

    open spec fn deep_view(&self) -> AbandonmentView {
        AbandonmentView {
            source: self.source@,
            hash: self.hash.deep_view(),
            reached: self.reached,
            failure: self.failure,
            document_id: match self.document_id {
                Some(id) => Some(id as int),
                None => None,
            },
            rejected_pages: naturals(self.rejected_pages@),
        }
    }
}

/// The line that reports an abandonment: the failure, the stage reached,
/// the source and, where it is known, the content hash.
pub open spec fn report_of(record: AbandonmentView) -> Seq<char> {
    let head = failure_name(record.failure) + seq![' ', 'a', 't', ' '] + stage_name(record.reached)
        + seq![':', ' '] + record.source;
    match record.hash {
        Some(hash) => head + seq![' ', '('] + hash + seq![')'],
        None => head,
    }
}

impl Abandonment {
    /// The line that reports the abandonment.
    pub fn report(&self) -> (line: String)
        ensures
            line@ == report_of(self.deep_view()),
    {
        proof {
            reveal_strlit(" at ");
            reveal_strlit(": ");
            reveal_strlit(" (");
            reveal_strlit(")");
        }
        let mut line = self.failure.name();
        line.append(" at ");
        line.append(self.reached.name().as_str());
        line.append(": ");
        line.append(self.source.as_str());
        match &self.hash {
            Some(hash) => {
                line.append(" (");
                line.append(hash.as_str());
                line.append(")");
                assert(line@ =~= report_of(self.deep_view()));
            },
            None => {
                assert(line@ =~= report_of(self.deep_view()));
            },
        }
        line
    }
}

#[derive(Debug)]
enum Phase {
    Received { job: Job, source: String },
    Identified { job: Job, source: String, hash: String },
    Rasterizing { job: Job, source: String, hash: String, source_pages: usize },
    Listing { job: Job, source: String, hash: String, source_pages: usize },
    Recognizing { job: Job, source: String, hash: String, plan: Vec<PageImage>, texts: Vec<String> },
    Tagged { job: Job, document: Document, origin: TextOrigin, source_pages: usize },
    Storing {
        job: Job,
        document: Document,
        origin: TextOrigin,
        source_pages: usize,
        answered: usize,
        rejected: Vec<usize>,
    },
    Persisted { job: Job, document: Document, origin: TextOrigin, source_pages: usize },
    Relocated { document: Document, origin: TextOrigin, source_pages: usize, stored_at: String },
    Abandoned { record: Abandonment },
}

impl DeepView for Phase {
    type V = IngestionView;

    closed spec fn deep_view(&self) -> IngestionView {
        match self {
            Phase::Received { job, source } => IngestionView::Received {
                job: job.deep_view(),
                source: source@,
            },
            Phase::Identified { job, source, hash } => IngestionView::Identified {
                job: job.deep_view(),
                source: source@,
                hash: hash@,
            },
            Phase::Rasterizing { job, source, hash, source_pages } => IngestionView::Rasterizing {
                job: job.deep_view(),
                source: source@,
                hash: hash@,
                source_pages: *source_pages as nat,
            },
            Phase::Listing { job, source, hash, source_pages } => IngestionView::Listing {
                job: job.deep_view(),
                source: source@,
                hash: hash@,
                source_pages: *source_pages as nat,
            },
            Phase::Recognizing { job, source, hash, plan, texts } => IngestionView::Recognizing {
                job: job.deep_view(),
                source: source@,
                hash: hash@,
                plan: plan.deep_view(),
                texts: texts.deep_view(),
            },
            Phase::Tagged { job, document, origin, source_pages } => IngestionView::Tagged {
                job: job.deep_view(),
                document: document.deep_view(),
                origin: *origin,
                source_pages: *source_pages as nat,
            },
            Phase::Storing { job, document, origin, source_pages, answered, rejected } => {
                IngestionView::Storing {
                    job: job.deep_view(),
                    document: document.deep_view(),
                    origin: *origin,
                    source_pages: *source_pages as nat,
                    answered: *answered as nat,
                    rejected: naturals(rejected@),
                }
            },
            Phase::Persisted { job, document, origin, source_pages } => IngestionView::Persisted {
                job: job.deep_view(),
                document: document.deep_view(),
                origin: *origin,
                source_pages: *source_pages as nat,
            },
            Phase::Relocated { document, origin, source_pages, stored_at } => {
                IngestionView::Relocated {
                    document: document.deep_view(),
                    origin: *origin,
                    source_pages: *source_pages as nat,
                    stored_at: stored_at@,
                }
            },
            Phase::Abandoned { record } => IngestionView::Abandoned { record: record.deep_view() },
        }
    }
}

/// One ingestion, from the announcement of a file to its end.
#[derive(Debug)]
pub struct Ingestion {
    phase: Phase,
}

impl DeepView for Ingestion {
    type V = IngestionView;

    closed spec fn deep_view(&self) -> IngestionView {
        self.phase.deep_view()
    }
}

/// What one step of an ingestion brings.
#[derive(Debug)]
pub struct Outcome {
    /// The state that follows.
    pub state: Ingestion,
    /// The temporary files that are to be removed now.
    pub discard: Vec<String>,
    /// The stages that were entered, in their order.
    pub entered: Vec<Stage>,
}

/// Where the document with identifier `id` is kept under `root`.
pub fn storage_path(root: &str, id: i32) -> (path: String)
    ensures
        path@ == storage_target(root@, id as int),
{
    proof {
        reveal_strlit("/");
        reveal_strlit(".pdf");
    }
    let mut path = String::from_str(root);
    path.append("/");
    path.append(render_signed(id).as_str());
    path.append(".pdf");
    assert(path@ =~= storage_target(root@, id as int));
    path
}

/// The state of an ingestion that was given up before any row was stored.
fn give_up(source: String, hash: Option<String>, reached: Stage, failure: IngestError) -> (phase:
    Phase)
    ensures
        phase.deep_view() == crate::state::given_up(source@, hash.deep_view(), reached, failure),
{
    let record = Abandonment {
        source,
        hash,
        reached,
        failure,
        document_id: None,
        rejected_pages: Vec::new(),
    };
    assert(naturals(record.rejected_pages@) =~= Seq::<nat>::empty());
    Phase::Abandoned { record }
}

/// The state after the row of the next page was stored (`accepted`) or not.
fn page_row_answered(
    job: Job,
    document: Document,
    origin: TextOrigin,
    source_pages: usize,
    answered: usize,
    rejected: Vec<usize>,
    accepted: bool,
) -> (phase: Phase)
    requires
        answered < document.pages.len(),
    ensures
        phase.deep_view() == crate::state::after_page_row(
            job.deep_view(),
            document.deep_view(),
            origin,
            source_pages as nat,
            answered as nat,
            naturals(rejected@),
            accepted,
        ),
{
    let mut rejected = rejected;
    let ghost before = naturals(rejected@);
    if !accepted {
        rejected.push(document.pages[answered].number);
        assert(naturals(rejected@) =~= before.push(
            document.deep_view().pages[answered as int].number,
        ));
    }
    if answered + 1 < document.pages.len() {
        Phase::Storing { job, document, origin, source_pages, answered: answered + 1, rejected }
    } else if rejected.len() == 0 {
        Phase::Persisted { job, document, origin, source_pages }
    } else {
        let Document { content_hash, pages, source_path, assigned_id } = document;
        Phase::Abandoned {
            record: Abandonment {
                source: source_path,
                hash: Some(content_hash),
                reached: Stage::Tagged,
                failure: IngestError::Persistence,
                document_id: assigned_id,
                rejected_pages: rejected,
            },
        }
    }
}

impl Ingestion {
    /// Begins the ingestion of the file at `source`.
    pub fn receive(job: Job, source: String) -> (ingestion: Ingestion)
        ensures
            ingestion.deep_view() == received(job.deep_view(), source@),
            ingestion.deep_view().wf(),
            ingestion.deep_view().identified(),
    {
        Ingestion { phase: Phase::Received { job, source } }
    }

    /// Begins the ingestion of a file that the watcher saw appear. Any other
    /// notification begins nothing.
    pub fn on_file_event(job: Job, event: FileEvent) -> (ingestion: Option<Ingestion>)
        ensures
            match event {
                FileEvent::Created { path } => {
                    &&& ingestion matches Some(begun)
                    &&& begun.deep_view() == received(job.deep_view(), path@)
                    &&& begun.deep_view().wf()
                },
                FileEvent::Other => ingestion is None,
            },
    {
        match event {
            FileEvent::Created { path } => Some(Ingestion::receive(job, path)),
            FileEvent::Other => None,
        }
    }

    /// How far the ingestion has come.
    pub fn stage(&self) -> (stage: Stage)
        ensures
            stage == self.deep_view().stage(),
    {
        match &self.phase {
            Phase::Received { .. } => Stage::Received,
            Phase::Identified { .. } => Stage::Identified,
            Phase::Rasterizing { .. } => Stage::NeedsOcr,
            Phase::Listing { .. } => Stage::NeedsOcr,
            Phase::Recognizing { .. } => Stage::NeedsOcr,
            Phase::Tagged { .. } => Stage::Tagged,
            Phase::Storing { .. } => Stage::Tagged,
            Phase::Persisted { .. } => Stage::Persisted,
            Phase::Relocated { .. } => Stage::Relocated,
            Phase::Abandoned { .. } => Stage::Abandoned,
        }
    }

    /// Tells whether the ingestion has ended.
    pub fn is_terminal(&self) -> (ended: bool)
        ensures
            ended == self.deep_view().is_terminal(),
    {
        match &self.phase {
            Phase::Relocated { .. } => true,
            Phase::Abandoned { .. } => true,
            _ => false,
        }
    }

    /// The document, once every page has its text.
    pub fn document(&self) -> (document: Option<&Document>)
        ensures
            document.deep_view() == self.deep_view().document(),
    {
        match &self.phase {
            Phase::Tagged { document, .. } => Some(document),
            Phase::Storing { document, .. } => Some(document),
            Phase::Persisted { document, .. } => Some(document),
            Phase::Relocated { document, .. } => Some(document),
            _ => None,
        }
    }

    /// Where the page texts of the document come from, once it has them.
    pub fn origin(&self) -> (origin: Option<TextOrigin>)
        ensures
            origin == self.deep_view().origin(),
    {
        match &self.phase {
            Phase::Tagged { origin, .. } => Some(*origin),
            Phase::Storing { origin, .. } => Some(*origin),
            Phase::Persisted { origin, .. } => Some(*origin),
            Phase::Relocated { origin, .. } => Some(*origin),
            _ => None,
        }
    }

    /// What is known of the ingestion, if it was abandoned.
    pub fn abandonment(&self) -> (record: Option<&Abandonment>)
        ensures
            record.deep_view() == self.deep_view().abandonment(),
    {
        match &self.phase {
            Phase::Abandoned { record } => Some(record),
            _ => None,
        }
    }

    /// Where the source file lies in permanent storage, once it does.
    pub fn stored_at(&self) -> (path: Option<&String>)
        ensures
            path.deep_view() == self.deep_view().stored_at(),
    {
        match &self.phase {
            Phase::Relocated { stored_at, .. } => Some(stored_at),
            _ => None,
        }
    }

    /// What the world is asked to do now.
    pub fn pending(&self) -> (action: Action)
        requires
            self.deep_view().wf(),
        ensures
            action.deep_view() == self.deep_view().pending(),
    {
        match &self.phase {
            Phase::Received { source, .. } => Action::ReadSource { path: source.clone() },
            Phase::Identified { source, .. } => Action::Inspect { path: source.clone() },
            Phase::Rasterizing { job, source, hash, .. } => Action::Rasterize {
                source: source.clone(),
                dpi: job.dpi,
                prefix: temp_prefix(hash.as_str()),
            },
            Phase::Listing { hash, .. } => Action::ListImages { pattern: image_pattern(hash.as_str()) },
            Phase::Recognizing { job, plan, texts, .. } => Action::Recognize {
                image: plan[texts.len()].path.clone(),
                lang: job.lang.clone(),
            },
            Phase::Tagged { job, document, .. } => Action::InsertDocument {
                title: job.received_on.iso_text(),
                added_on: job.received_on,
                content_hash: document.content_hash.clone(),
            },
            Phase::Storing { document, answered, .. } => Action::InsertPage {
                document_id: document.assigned_id.unwrap(),
                number: document.pages[*answered].number,
                text: document.pages[*answered].text.clone(),
            },
            Phase::Persisted { job, document, .. } => Action::Relocate {
                from: document.source_path.clone(),
                to: storage_path(job.storage_root.as_str(), document.assigned_id.unwrap()),
            },
            Phase::Relocated { .. } => Action::Stop,
            Phase::Abandoned { .. } => Action::Stop,
        }
    }

    /// The stages that are entered on the way from a state of stage `from`
    /// to this state.
    fn entered_from(&self, from: Stage) -> (entered: Vec<Stage>)
        ensures
            entered@ == stages_entered(from, self.deep_view()),
    {
        let stage = self.stage();
        let mut entered: Vec<Stage> = Vec::new();
        if stage == from {
            return entered;
        }
        match &self.phase {
            Phase::Rasterizing { .. } => {
                entered.push(Stage::Inspected);
                entered.push(Stage::NeedsOcr);
            },
            Phase::Tagged { origin, .. } => match origin {
                TextOrigin::Embedded => {
                    entered.push(Stage::Inspected);
                    entered.push(Stage::HasEmbeddedText);
                    entered.push(Stage::Tagged);
                },
                TextOrigin::Recognized => {
                    entered.push(Stage::Recognized);
                    entered.push(Stage::Tagged);
                },
            },
            _ => {
                entered.push(stage);
            },
        }
        assert(entered@ =~= stages_entered(from, self.deep_view()));
        entered
    }

    /// Takes in what the world reports and moves to the state that follows.
    /// Returns that state, the temporary files that are to be removed now,
    /// and the stages that were entered. An event that the state does not
    /// await changes nothing.
    pub fn step(self, event: Event) -> (r: Outcome)
        requires
            self.deep_view().wf(),
        ensures
            r.state.deep_view() == next(self.deep_view(), event.deep_view()).0,
            r.discard.deep_view() == next(self.deep_view(), event.deep_view()).1,
            r.entered@ == stages_entered(self.deep_view().stage(), r.state.deep_view()),
            r.state.deep_view().wf(),
            self.deep_view().identified() ==> r.state.deep_view().identified(),
    {
        let from = self.stage();
        let ghost before = self.deep_view();
        let ghost reported = event.deep_view();
        let mut discard: Vec<String> = Vec::new();
        assert(discard.deep_view() =~= Seq::<Seq<char>>::empty());
        let phase = match (self.phase, event) {
            (Phase::Received { job, source }, Event::SourceRead { bytes }) => {
                let hash = content_hash(bytes.as_slice());
                Phase::Identified { job, source, hash }
            },
            (Phase::Received { job, source }, Event::SourceUnreadable) => give_up(
                source,
                None,
                Stage::Received,
                IngestError::Input,
            ),
            (Phase::Identified { job, source, hash }, Event::Inspected { pages }) => {
                let source_pages = pages.len();
                let found = Inspection::of_pages(pages);
                if !found.needs_ocr() {
                    let document = Document::fresh(hash, source, &found.pages);
                    Phase::Tagged { job, document, origin: TextOrigin::Embedded, source_pages }
                } else {
                    Phase::Rasterizing { job, source, hash, source_pages }
                }
            },
            (Phase::Identified { job, source, hash }, Event::Unparsable) => give_up(
                source,
                Some(hash),
                Stage::Identified,
                IngestError::Parse,
            ),
            (Phase::Rasterizing { job, source, hash, source_pages }, Event::Rasterized) => {
                Phase::Listing { job, source, hash, source_pages }
            },
            (Phase::Rasterizing { job, source, hash, source_pages }, Event::RasterFailed) => give_up(
                source,
                Some(hash),
                Stage::NeedsOcr,
                IngestError::Conversion,
            ),
            (Phase::Rasterizing { job, source, hash, source_pages }, Event::RasterTimedOut) => {
                give_up(source, Some(hash), Stage::NeedsOcr, IngestError::Conversion)
            },
            (Phase::Listing { job, source, hash, source_pages }, Event::ImagesListed { names }) => {
                match plan_pages(hash.as_str(), &names, source_pages) {
                    Ok(plan) => {
                        if names.len() == 0 {
                            let texts: Vec<String> = Vec::new();
                            assert(texts.deep_view() =~= Seq::<Seq<char>>::empty());
                            let document = Document::fresh(hash, source, &texts);
                            Phase::Tagged {
                                job,
                                document,
                                origin: TextOrigin::Recognized,
                                source_pages,
                            }
                        } else {
                            let texts: Vec<String> = Vec::new();
                            assert(texts.deep_view() =~= Seq::<Seq<char>>::empty());
                            Phase::Recognizing { job, source, hash, plan, texts }
                        }
                    },
                    Err(_) => {
                        discard = select_own_images(hash.as_str(), &names);
                        give_up(source, Some(hash), Stage::NeedsOcr, IngestError::Conversion)
                    },
                }
            },
            (
                Phase::Recognizing { job, source, hash, plan, texts },
                Event::PageRecognized { text },
            ) => {
                let mut texts = texts;
                let ghost earlier = texts.deep_view();
                discard.push(plan[texts.len()].path.clone());
                assert(discard.deep_view() =~= seq![plan.deep_view()[earlier.len() as int].path]);
                texts.push(text);
                assert(texts.deep_view() =~= earlier.push(text@));
                if texts.len() == plan.len() {
                    let source_pages = plan.len();
                    let document = Document::fresh(hash, source, &texts);
                    Phase::Tagged { job, document, origin: TextOrigin::Recognized, source_pages }
                } else {
                    Phase::Recognizing { job, source, hash, plan, texts }
                }
            },
            (Phase::Recognizing { job, source, hash, plan, texts }, Event::PageUnrecognized) => {
                discard = paths_after(&plan, texts.len());
                give_up(source, Some(hash), Stage::NeedsOcr, IngestError::Recognition)
            },
            (
                Phase::Tagged { job, document, origin, source_pages },
                Event::DocumentInserted { id },
            ) => {
                let mut document = document;
                document.assigned_id = Some(id);
                if document.pages.len() == 0 {
                    Phase::Persisted { job, document, origin, source_pages }
                } else {
                    let rejected: Vec<usize> = Vec::new();
                    assert(naturals(rejected@) =~= Seq::<nat>::empty());
                    Phase::Storing { job, document, origin, source_pages, answered: 0, rejected }
                }
            },
            (Phase::Tagged { job, document, origin, source_pages }, Event::DocumentRejected) => {
                let Document { content_hash, pages, source_path, assigned_id } = document;
                give_up(source_path, Some(content_hash), Stage::Tagged, IngestError::Persistence)
            },
            (
                Phase::Storing { job, document, origin, source_pages, answered, rejected },
                Event::PageInserted,
            ) => page_row_answered(job, document, origin, source_pages, answered, rejected, true),
            (
                Phase::Storing { job, document, origin, source_pages, answered, rejected },
                Event::PageRejected,
            ) => page_row_answered(job, document, origin, source_pages, answered, rejected, false),
            (Phase::Persisted { job, document, origin, source_pages }, Event::Moved) => {
                let stored_at = storage_path(
                    job.storage_root.as_str(),
                    document.assigned_id.unwrap(),
                );
                Phase::Relocated { document, origin, source_pages, stored_at }
            },
            (Phase::Persisted { job, document, origin, source_pages }, Event::MoveFailed) => {
                let Document { content_hash, pages, source_path, assigned_id } = document;
                let rejected_pages: Vec<usize> = Vec::new();
                assert(naturals(rejected_pages@) =~= Seq::<nat>::empty());
                Phase::Abandoned {
                    record: Abandonment {
                        source: source_path,
                        hash: Some(content_hash),
                        reached: Stage::Persisted,
                        failure: IngestError::Relocation,
                        document_id: assigned_id,
                        rejected_pages,
                    },
                }
            },
            (phase, _) => phase,
        };
        proof {
            lemma_next_keeps_wf(before, reported);
            if before.identified() {
                lemma_next_keeps_identity(before, reported);
            }
        }
        let state = Ingestion { phase };
        let entered = state.entered_from(from);
        Outcome { state, discard, entered }
    }
}

} // verus!
