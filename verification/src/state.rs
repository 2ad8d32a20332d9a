//! The states of one ingestion and the rules by which it moves between
//! them, over plain values.

use vstd::prelude::*;
use crate::digest::{content_hash_of, is_content_hash};
use crate::document::{texts_of, DocumentView};
use crate::inspect::any_text;
use crate::job::JobView;
use crate::ocr::{arranged, images_of, is_complete_listing, own_images, paths_from, PageImageView};
use crate::pagefile::{image_pattern_of, in_namespace, temp_prefix_of};
use crate::protocol::{ActionView, EventView, IngestError, Stage, TextOrigin};
use crate::text::signed_decimal;

verus! {

/// What is known of an abandoned ingestion.
pub struct AbandonmentView {
    /// Where the source file is; it is still there.
    pub source: Seq<char>,
    /// The content hash, where the file could be read.
    pub hash: Option<Seq<char>>,
    /// The stage that the ingestion had reached.
    pub reached: Stage,
    /// Why it was abandoned.
    pub failure: IngestError,
    /// The identifier of the document row, where one was stored.
    pub document_id: Option<int>,
    /// The numbers of the pages whose rows could not be stored.
    pub rejected_pages: Seq<nat>,
}

/// The state of one ingestion.
pub enum IngestionView {
    /// The file was announced; its bytes are awaited.
    Received { job: JobView, source: Seq<char> },
    /// The file has its content hash; its inspection is awaited.
    Identified { job: JobView, source: Seq<char>, hash: Seq<char> },
    /// The document has no usable text layer; the rasterizer is awaited.
    Rasterizing { job: JobView, source: Seq<char>, hash: Seq<char>, source_pages: nat },
    /// The rasterizer is done; the list of its images is awaited.
    Listing { job: JobView, source: Seq<char>, hash: Seq<char>, source_pages: nat },
    /// The images are in page order; the text of the next one is awaited.
    Recognizing {
        job: JobView,
        source: Seq<char>,
        hash: Seq<char>,
        plan: Seq<PageImageView>,
        texts: Seq<Seq<char>>,
    },
    /// Every page has its text and its language; the document row is awaited.
    Tagged { job: JobView, document: DocumentView, origin: TextOrigin, source_pages: nat },
    /// The document row is stored; the row of the next page is awaited.
    Storing {
        job: JobView,
        document: DocumentView,
        origin: TextOrigin,
        source_pages: nat,
        answered: nat,
        rejected: Seq<nat>,
    },
    /// All rows are stored; the move of the source file is awaited.
    Persisted { job: JobView, document: DocumentView, origin: TextOrigin, source_pages: nat },
    /// The source file lies in permanent storage.
    Relocated {
        document: DocumentView,
        origin: TextOrigin,
        source_pages: nat,
        stored_at: Seq<char>,
    },
    /// The ingestion was given up; the source file is where it was.
    Abandoned { record: AbandonmentView },
}

/// The extension of a stored document, with its dot: `.pdf`.
pub open spec fn pdf_suffix() -> Seq<char> {
    seq!['.', 'p', 'd', 'f']
}

/// Where the document with identifier `id` is kept under `root`.
pub open spec fn storage_target(root: Seq<char>, id: int) -> Seq<char> {
    root + seq!['/'] + signed_decimal(id) + pdf_suffix()
}

/// The state of an ingestion that was given up before any row was stored.
pub open spec fn given_up(
    source: Seq<char>,
    hash: Option<Seq<char>>,
    reached: Stage,
    failure: IngestError,
) -> IngestionView {
    IngestionView::Abandoned {
        record: AbandonmentView {
            source,
            hash,
            reached,
            failure,
            document_id: None,
            rejected_pages: Seq::empty(),
        },
    }
}

/// The state after inspection found `pages`.
pub open spec fn after_inspection(
    job: JobView,
    source: Seq<char>,
    hash: Seq<char>,
    pages: Seq<Seq<char>>,
) -> IngestionView {
    if any_text(pages) {
        IngestionView::Tagged {
            job,
            document: DocumentView::fresh(hash, source, pages),
            origin: TextOrigin::Embedded,
            source_pages: pages.len(),
        }
    } else {
        IngestionView::Rasterizing { job, source, hash, source_pages: pages.len() }
    }
}

/// The state after the images `names` were found, and the files to remove.
pub open spec fn after_listing(
    job: JobView,
    source: Seq<char>,
    hash: Seq<char>,
    source_pages: nat,
    names: Seq<Seq<char>>,
) -> (IngestionView, Seq<Seq<char>>) {
    if !is_complete_listing(hash, names, source_pages) {
        (
            given_up(source, Some(hash), Stage::NeedsOcr, IngestError::Conversion),
            own_images(hash, names),
        )
    } else if names.len() == 0 {
        (
            IngestionView::Tagged {
                job,
                document: DocumentView::fresh(hash, source, Seq::empty()),
                origin: TextOrigin::Recognized,
                source_pages,
            },
            Seq::empty(),
        )
    } else {
        (
            IngestionView::Recognizing {
                job,
                source,
                hash,
                plan: arranged(images_of(names)),
                texts: Seq::empty(),
            },
            Seq::empty(),
        )
    }
}

/// The state after the next page image was recognized as `text`, and the
/// file to remove: that image.
pub open spec fn after_page_text(
    job: JobView,
    source: Seq<char>,
    hash: Seq<char>,
    plan: Seq<PageImageView>,
    texts: Seq<Seq<char>>,
    text: Seq<char>,
) -> (IngestionView, Seq<Seq<char>>) {
    let consumed = seq![plan[texts.len() as int].path];
    if texts.len() + 1 == plan.len() {
        (
            IngestionView::Tagged {
                job,
                document: DocumentView::fresh(hash, source, texts.push(text)),
                origin: TextOrigin::Recognized,
                source_pages: plan.len(),
            },
            consumed,
        )
    } else {
        (IngestionView::Recognizing { job, source, hash, plan, texts: texts.push(text) }, consumed)
    }
}

/// The state after the document row was stored under `id`.
pub open spec fn after_document_row(
    job: JobView,
    document: DocumentView,
    origin: TextOrigin,
    source_pages: nat,
    id: int,
) -> IngestionView {
    if document.pages.len() == 0 {
        IngestionView::Persisted { job, document: document.with_id(id), origin, source_pages }
    } else {
        IngestionView::Storing {
            job,
            document: document.with_id(id),
            origin,
            source_pages,
            answered: 0,
            rejected: Seq::empty(),
        }
    }
}

/// The state after the row of the next page was stored (`accepted`) or not.
pub open spec fn after_page_row(
    job: JobView,
    document: DocumentView,
    origin: TextOrigin,
    source_pages: nat,
    answered: nat,
    rejected: Seq<nat>,
    accepted: bool,
) -> IngestionView {
    let rejected = if accepted {
        rejected
    } else {
        rejected.push(document.pages[answered as int].number)
    };
    if answered + 1 < document.pages.len() {
        IngestionView::Storing {
            job,
            document,
            origin,
            source_pages,
            answered: answered + 1,
            rejected,
        }
    } else if rejected.len() == 0 {
        IngestionView::Persisted { job, document, origin, source_pages }
    } else {
        IngestionView::Abandoned {
            record: AbandonmentView {
                source: document.source_path,
                hash: Some(document.content_hash),
                reached: Stage::Tagged,
                failure: IngestError::Persistence,
                document_id: document.assigned_id,
                rejected_pages: rejected,
            },
        }
    }
}

/// The state that follows `state` on `event`, and the temporary files that
/// are to be removed on the way. An event that the state does not await
/// changes nothing.
pub open spec fn next(state: IngestionView, event: EventView) -> (IngestionView, Seq<Seq<char>>) {
    match (state, event) {
        (IngestionView::Received { job, source }, EventView::SourceRead { bytes }) => (
            IngestionView::Identified { job, source, hash: content_hash_of(bytes) },
            Seq::empty(),
        ),
        (IngestionView::Received { job, source }, EventView::SourceUnreadable) => (
            given_up(source, None, Stage::Received, IngestError::Input),
            Seq::empty(),
        ),
        (IngestionView::Identified { job, source, hash }, EventView::Inspected { pages }) => (
            after_inspection(job, source, hash, pages),
            Seq::empty(),
        ),
        (IngestionView::Identified { job, source, hash }, EventView::Unparsable) => (
            given_up(source, Some(hash), Stage::Identified, IngestError::Parse),
            Seq::empty(),
        ),
        (
            IngestionView::Rasterizing { job, source, hash, source_pages },
            EventView::Rasterized,
        ) => (IngestionView::Listing { job, source, hash, source_pages }, Seq::empty()),
        (
            IngestionView::Rasterizing { job, source, hash, source_pages },
            EventView::RasterFailed,
        ) => (
            given_up(source, Some(hash), Stage::NeedsOcr, IngestError::Conversion),
            Seq::empty(),
        ),
        (
            IngestionView::Rasterizing { job, source, hash, source_pages },
            EventView::RasterTimedOut,
        ) => (
            given_up(source, Some(hash), Stage::NeedsOcr, IngestError::Conversion),
            Seq::empty(),
        ),
        (
            IngestionView::Listing { job, source, hash, source_pages },
            EventView::ImagesListed { names },
        ) => after_listing(job, source, hash, source_pages, names),
        (
            IngestionView::Recognizing { job, source, hash, plan, texts },
            EventView::PageRecognized { text },
        ) => after_page_text(job, source, hash, plan, texts, text),
        (
            IngestionView::Recognizing { job, source, hash, plan, texts },
            EventView::PageUnrecognized,
        ) => (
            given_up(source, Some(hash), Stage::NeedsOcr, IngestError::Recognition),
            paths_from(plan, texts.len() as int),
        ),
        (
            IngestionView::Tagged { job, document, origin, source_pages },
            EventView::DocumentInserted { id },
        ) => (after_document_row(job, document, origin, source_pages, id), Seq::empty()),
        (
            IngestionView::Tagged { job, document, origin, source_pages },
            EventView::DocumentRejected,
        ) => (
            given_up(
                document.source_path,
                Some(document.content_hash),
                Stage::Tagged,
                IngestError::Persistence,
            ),
            Seq::empty(),
        ),
        (
            IngestionView::Storing { job, document, origin, source_pages, answered, rejected },
            EventView::PageInserted,
        ) => (
            after_page_row(job, document, origin, source_pages, answered, rejected, true),
            Seq::empty(),
        ),
        (
            IngestionView::Storing { job, document, origin, source_pages, answered, rejected },
            EventView::PageRejected,
        ) => (
            after_page_row(job, document, origin, source_pages, answered, rejected, false),
            Seq::empty(),
        ),
        (IngestionView::Persisted { job, document, origin, source_pages }, EventView::Moved) => (
            IngestionView::Relocated {
                document,
                origin,
                source_pages,
                stored_at: storage_target(job.storage_root, document.assigned_id.unwrap()),
            },
            Seq::empty(),
        ),
        (
            IngestionView::Persisted { job, document, origin, source_pages },
            EventView::MoveFailed,
        ) => (
            IngestionView::Abandoned {
                record: AbandonmentView {
                    source: document.source_path,
                    hash: Some(document.content_hash),
                    reached: Stage::Persisted,
                    failure: IngestError::Relocation,
                    document_id: document.assigned_id,
                    rejected_pages: Seq::empty(),
                },
            },
            Seq::empty(),
        ),
        _ => (state, Seq::empty()),
    }
}

impl IngestionView {
    /// How far the ingestion has come.
    pub open spec fn stage(self) -> Stage {
        match self {
            IngestionView::Received { .. } => Stage::Received,
            IngestionView::Identified { .. } => Stage::Identified,
            IngestionView::Rasterizing { .. } => Stage::NeedsOcr,
            IngestionView::Listing { .. } => Stage::NeedsOcr,
            IngestionView::Recognizing { .. } => Stage::NeedsOcr,
            IngestionView::Tagged { .. } => Stage::Tagged,
            IngestionView::Storing { .. } => Stage::Tagged,
            IngestionView::Persisted { .. } => Stage::Persisted,
            IngestionView::Relocated { .. } => Stage::Relocated,
            IngestionView::Abandoned { .. } => Stage::Abandoned,
        }
    }

    /// The ingestion has ended.
    pub open spec fn is_terminal(self) -> bool {
        self is Relocated || self is Abandoned
    }

    /// The document, once every page has its text.
    pub open spec fn document(self) -> Option<DocumentView> {
        match self {
            IngestionView::Tagged { document, .. } => Some(document),
            IngestionView::Storing { document, .. } => Some(document),
            IngestionView::Persisted { document, .. } => Some(document),
            IngestionView::Relocated { document, .. } => Some(document),
            _ => None,
        }
    }

    /// Where the page texts of the document come from, once it has them.
    pub open spec fn origin(self) -> Option<TextOrigin> {
        match self {
            IngestionView::Tagged { origin, .. } => Some(origin),
            IngestionView::Storing { origin, .. } => Some(origin),
            IngestionView::Persisted { origin, .. } => Some(origin),
            IngestionView::Relocated { origin, .. } => Some(origin),
            _ => None,
        }
    }

    /// The content hash of the source file, once it was read.
    pub open spec fn content_hash(self) -> Option<Seq<char>> {
        match self {
            IngestionView::Received { .. } => None,
            IngestionView::Identified { hash, .. } => Some(hash),
            IngestionView::Rasterizing { hash, .. } => Some(hash),
            IngestionView::Listing { hash, .. } => Some(hash),
            IngestionView::Recognizing { hash, .. } => Some(hash),
            IngestionView::Tagged { document, .. } => Some(document.content_hash),
            IngestionView::Storing { document, .. } => Some(document.content_hash),
            IngestionView::Persisted { document, .. } => Some(document.content_hash),
            IngestionView::Relocated { document, .. } => Some(document.content_hash),
            IngestionView::Abandoned { record } => record.hash,
        }
    }

    /// The number of pages that inspection found in the source, once it is
    /// known, as long as the ingestion goes on.
    pub open spec fn source_pages(self) -> Option<nat> {
        match self {
            IngestionView::Rasterizing { source_pages, .. } => Some(source_pages),
            IngestionView::Listing { source_pages, .. } => Some(source_pages),
            IngestionView::Recognizing { plan, .. } => Some(plan.len()),
            IngestionView::Tagged { source_pages, .. } => Some(source_pages),
            IngestionView::Storing { source_pages, .. } => Some(source_pages),
            IngestionView::Persisted { source_pages, .. } => Some(source_pages),
            IngestionView::Relocated { source_pages, .. } => Some(source_pages),
            _ => None,
        }
    }

    /// What is known of the ingestion, if it was abandoned.
    pub open spec fn abandonment(self) -> Option<AbandonmentView> {
        match self {
            IngestionView::Abandoned { record } => Some(record),
            _ => None,
        }
    }

    /// Where the source file lies in permanent storage, once it does.
    pub open spec fn stored_at(self) -> Option<Seq<char>> {
        match self {
            IngestionView::Relocated { stored_at, .. } => Some(stored_at),
            _ => None,
        }
    }

    /// What the state holds fits together.
    pub open spec fn wf(self) -> bool {
        match self {
            IngestionView::Received { .. } => true,
            IngestionView::Identified { .. } => true,
            IngestionView::Rasterizing { .. } => true,
            IngestionView::Listing { .. } => true,
            IngestionView::Recognizing { hash, plan, texts, .. } => {
                &&& texts.len() < plan.len()
                &&& forall|k: int| 0 <= k < plan.len() ==> (#[trigger] plan[k]).number == k + 1
                &&& forall|k: int| 0 <= k < plan.len() ==> in_namespace(hash, (#[trigger] plan[k]).path)
            },
            IngestionView::Tagged { document, source_pages, .. } => {
                &&& document.wf()
                &&& document.assigned_id is None
                &&& document.pages.len() == source_pages
            },
            IngestionView::Storing { document, source_pages, answered, rejected, .. } => {
                &&& document.wf()
                &&& document.assigned_id is Some
                &&& document.pages.len() == source_pages
                &&& answered < document.pages.len()
                &&& rejected.len() <= answered
            },
            IngestionView::Persisted { document, source_pages, .. } => {
                &&& document.wf()
                &&& document.assigned_id is Some
                &&& document.pages.len() == source_pages
            },
            IngestionView::Relocated { document, source_pages, .. } => {
                &&& document.wf()
                &&& document.assigned_id is Some
                &&& document.pages.len() == source_pages
            },
            IngestionView::Abandoned { record } => {
                &&& record.reached != Stage::Relocated
                &&& record.reached != Stage::Abandoned
            },
        }
    }

    /// Embedded texts are used only where they hold text: a document made
    /// of embedded texts has a page that is not blank.
    pub open spec fn origin_is_justified(self) -> bool {
        self.origin() == Some(TextOrigin::Embedded) ==> any_text(
            texts_of(self.document().unwrap().pages),
        )
    }

    /// The content hash, where the state holds one, has the shape of a
    /// content hash.
    pub open spec fn identified(self) -> bool {
        self.content_hash() matches Some(hash) ==> is_content_hash(hash)
    }

    /// What the world is asked to do in this state.
    pub open spec fn pending(self) -> ActionView {
        match self {
            IngestionView::Received { source, .. } => ActionView::ReadSource { path: source },
            IngestionView::Identified { source, .. } => ActionView::Inspect { path: source },
            IngestionView::Rasterizing { job, source, hash, .. } => ActionView::Rasterize {
                source,
                dpi: job.dpi,
                prefix: temp_prefix_of(hash),
            },
            IngestionView::Listing { hash, .. } => ActionView::ListImages {
                pattern: image_pattern_of(hash),
            },
            IngestionView::Recognizing { job, plan, texts, .. } => ActionView::Recognize {
                image: plan[texts.len() as int].path,
                lang: job.lang,
            },
            IngestionView::Tagged { job, document, .. } => ActionView::InsertDocument {
                title: job.received_on.iso_text_spec(),
                added_on: job.received_on,
                content_hash: document.content_hash,
            },
            IngestionView::Storing { document, answered, .. } => ActionView::InsertPage {
                document_id: document.assigned_id.unwrap(),
                number: document.pages[answered as int].number,
                text: document.pages[answered as int].text,
            },
            IngestionView::Persisted { job, document, .. } => ActionView::Relocate {
                from: document.source_path,
                to: storage_target(job.storage_root, document.assigned_id.unwrap()),
            },
            IngestionView::Relocated { .. } => ActionView::Stop,
            IngestionView::Abandoned { .. } => ActionView::Stop,
        }
    }
}

/// The stages that an ingestion enters, in their order, when it comes from
/// a state of stage `from` to the state `after`. Inspection is passed on
/// the way from identification to either the embedded text or the
/// recognition fallback, and recognition on the way from the fallback to
/// tagging; a state of the same stage enters none.
pub open spec fn stages_entered(from: Stage, after: IngestionView) -> Seq<Stage> {
    if after.stage() == from {
        Seq::empty()
    } else {
        match after {
            IngestionView::Rasterizing { .. } => seq![Stage::Inspected, Stage::NeedsOcr],
            IngestionView::Tagged { origin, .. } => match origin {
                TextOrigin::Embedded => seq![
                    Stage::Inspected,
                    Stage::HasEmbeddedText,
                    Stage::Tagged,
                ],
                TextOrigin::Recognized => seq![Stage::Recognized, Stage::Tagged],
            },
            _ => seq![after.stage()],
        }
    }
}

/// The state that `state` has come to after the events `events`, in their order.
pub open spec fn run(state: IngestionView, events: Seq<EventView>) -> IngestionView
    decreases events.len(),
{
    if events.len() == 0 {
        state
    } else {
        next(run(state, events.drop_last()), events.last()).0
    }
}

/// The state of an ingestion that has just been announced.
pub open spec fn received(job: JobView, source: Seq<char>) -> IngestionView {
    IngestionView::Received { job, source }
}

} // verus!
