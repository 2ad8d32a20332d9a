//! What passes between the coordinator and the world around it: the events
//! that the world reports and the actions that the coordinator asks for.

use vstd::prelude::*;
use crate::date::CalendarDate;

verus! {

/// How far an ingestion has come.
#[derive(Clone, Copy, Debug, PartialEq, Eq, Structural)]
pub enum Stage {
    Received,
    Identified,
    Inspected,
    NeedsOcr,
    Recognized,
    HasEmbeddedText,
    Tagged,
    Persisted,
    Relocated,
    Abandoned,
}

/// Why an ingestion was abandoned.
#[derive(Clone, Copy, Debug, PartialEq, Eq, Structural)]
pub enum IngestError {
    /// The source file is missing or cannot be read.
    Input,
    /// The source file cannot be read as a PDF.
    Parse,
    /// The rasterizer failed, ran out of time, or left the wrong images.
    Conversion,
    /// A page could not be recognized.
    Recognition,
    /// A row could not be stored.
    Persistence,
    /// The source file could not be moved into permanent storage.
    Relocation,
}

/// How far along a stage lies: a later stage has a greater number. The
/// embedded text and the recognition fallback lie equally far, as either
/// one or the other follows inspection; abandonment lies behind all.
pub open spec fn stage_rank(stage: Stage) -> int {
    match stage {
        Stage::Received => 0,
        Stage::Identified => 1,
        Stage::Inspected => 2,
        Stage::NeedsOcr => 3,
        Stage::HasEmbeddedText => 3,
        Stage::Recognized => 4,
        Stage::Tagged => 5,
        Stage::Persisted => 6,
        Stage::Relocated => 7,
        Stage::Abandoned => 8,
    }
}

/// The name of a failure, as reports give it.
pub open spec fn failure_name(failure: IngestError) -> Seq<char> {
    match failure {
        IngestError::Input => "InputError"@,
        IngestError::Parse => "ParseError"@,
        IngestError::Conversion => "ConversionError"@,
        IngestError::Recognition => "RecognitionError"@,
        IngestError::Persistence => "PersistenceError"@,
        IngestError::Relocation => "RelocationError"@,
    }
}

/// The name of a stage, as reports give it.
pub open spec fn stage_name(stage: Stage) -> Seq<char> {
    match stage {
        Stage::Received => "Received"@,
        Stage::Identified => "Identified"@,
        Stage::Inspected => "Inspected"@,
        Stage::NeedsOcr => "NeedsOcr"@,
        Stage::Recognized => "Recognized"@,
        Stage::HasEmbeddedText => "HasEmbeddedText"@,
        Stage::Tagged => "Tagged"@,
        Stage::Persisted => "Persisted"@,
        Stage::Relocated => "Relocated"@,
        Stage::Abandoned => "Abandoned"@,
    }
}

impl IngestError {
    /// The name of the failure, as reports give it.
    pub fn name(&self) -> (name: String)
        ensures
            name@ == failure_name(*self),
    {
        match self {
            IngestError::Input => String::from_str("InputError"),
            IngestError::Parse => String::from_str("ParseError"),
            IngestError::Conversion => String::from_str("ConversionError"),
            IngestError::Recognition => String::from_str("RecognitionError"),
            IngestError::Persistence => String::from_str("PersistenceError"),
            IngestError::Relocation => String::from_str("RelocationError"),
        }
    }
}

impl Stage {
    /// The name of the stage, as reports give it.
    pub fn name(&self) -> (name: String)
        ensures
            name@ == stage_name(*self),
    {
        match self {
            Stage::Received => String::from_str("Received"),
            Stage::Identified => String::from_str("Identified"),
            Stage::Inspected => String::from_str("Inspected"),
            Stage::NeedsOcr => String::from_str("NeedsOcr"),
            Stage::Recognized => String::from_str("Recognized"),
            Stage::HasEmbeddedText => String::from_str("HasEmbeddedText"),
            Stage::Tagged => String::from_str("Tagged"),
            Stage::Persisted => String::from_str("Persisted"),
            Stage::Relocated => String::from_str("Relocated"),
            Stage::Abandoned => String::from_str("Abandoned"),
        }
    }
}

impl TextOrigin {
    /// The stage through which texts of this origin come to be tagged.
    pub fn stage(&self) -> (stage: Stage)
        ensures
            stage == (match *self {
                TextOrigin::Embedded => Stage::HasEmbeddedText,
                TextOrigin::Recognized => Stage::Recognized,
            }),
    {
        match self {
            TextOrigin::Embedded => Stage::HasEmbeddedText,
            TextOrigin::Recognized => Stage::Recognized,
        }
    }
}

/// Where the page texts of a document come from.
#[derive(Clone, Copy, Debug, PartialEq, Eq, Structural)]
pub enum TextOrigin {
    /// From the text layer of the document.
    Embedded,
    /// From optical recognition of the rasterized pages.
    Recognized,
}

/// A notification of the file watcher.
#[derive(Debug, PartialEq, Eq)]
pub enum FileEvent {
    /// A file appeared at `path`.
    Created { path: String },
    /// Anything else.
    Other,
}

/// What the world reports back after an action.
#[derive(Debug, PartialEq, Eq)]
pub enum Event {
    /// The source file was read; these are its bytes.
    SourceRead { bytes: Vec<u8> },
    /// The source file is missing or cannot be read.
    SourceUnreadable,
    /// The document was parsed; this is the embedded text of each page, in
    /// document order.
    Inspected { pages: Vec<String> },
    /// The source file cannot be parsed as a PDF.
    Unparsable,
    /// The rasterizer ended with success.
    Rasterized,
    /// The rasterizer could not be run or ended with a failure.
    RasterFailed,
    /// The rasterizer did not end in time.
    RasterTimedOut,
    /// These files match the document's image pattern, in no particular order.
    ImagesListed { names: Vec<String> },
    /// The page image was recognized; this is its text.
    PageRecognized { text: String },
    /// The page image could not be recognized.
    PageUnrecognized,
    /// The document row was stored under this identifier.
    DocumentInserted { id: i32 },
    /// The document row could not be stored.
    DocumentRejected,
    /// The page row was stored.
    PageInserted,
    /// The page row could not be stored.
    PageRejected,
    /// The source file was moved into permanent storage.
    Moved,
    /// The source file could not be moved.
    MoveFailed,
}

/// What an event is, as plain values.
pub enum EventView {
    SourceRead { bytes: Seq<u8> },
    SourceUnreadable,
    Inspected { pages: Seq<Seq<char>> },
    Unparsable,
    Rasterized,
    RasterFailed,
    RasterTimedOut,
    ImagesListed { names: Seq<Seq<char>> },
    PageRecognized { text: Seq<char> },
    PageUnrecognized,
    DocumentInserted { id: int },
    DocumentRejected,
    PageInserted,
    PageRejected,
    Moved,
    MoveFailed,
}

impl DeepView for Event {
    type V = EventView;

    open spec fn deep_view(&self) -> EventView {
        match self {
            Event::SourceRead { bytes } => EventView::SourceRead { bytes: bytes@ },
            Event::SourceUnreadable => EventView::SourceUnreadable,
            Event::Inspected { pages } => EventView::Inspected { pages: pages.deep_view() },
            Event::Unparsable => EventView::Unparsable,
            Event::Rasterized => EventView::Rasterized,
            Event::RasterFailed => EventView::RasterFailed,
            Event::RasterTimedOut => EventView::RasterTimedOut,
            Event::ImagesListed { names } => EventView::ImagesListed { names: names.deep_view() },
            Event::PageRecognized { text } => EventView::PageRecognized { text: text@ },
            Event::PageUnrecognized => EventView::PageUnrecognized,
            Event::DocumentInserted { id } => EventView::DocumentInserted { id: *id as int },
            Event::DocumentRejected => EventView::DocumentRejected,
            Event::PageInserted => EventView::PageInserted,
            Event::PageRejected => EventView::PageRejected,
            Event::Moved => EventView::Moved,
            Event::MoveFailed => EventView::MoveFailed,
        }
    }
}

/// What the coordinator asks the world to do next.
#[derive(Debug, PartialEq, Eq)]
pub enum Action {
    /// Read the bytes of the source file.
    ReadSource { path: String },
    /// Parse the source file and extract the embedded text of each page.
    Inspect { path: String },
    /// Rasterize every page of `source` at `dpi` dots per inch into one image
    /// per page, named `prefix`, a hyphen, the page number and the image
    /// extension.
    Rasterize { source: String, dpi: i32, prefix: String },
    /// List the files that match `pattern`.
    ListImages { pattern: String },
    /// Recognize the text of the page image `image`, with `lang` as the
    /// language hint.
    Recognize { image: String, lang: String },
    /// Store the document row.
    InsertDocument { title: String, added_on: CalendarDate, content_hash: String },
    /// Store the row of one page.
    InsertPage { document_id: i32, number: usize, text: String },
    /// Move the source file from `from` to `to`.
    Relocate { from: String, to: String },
    /// Nothing is left to do.
    Stop,
}

/// What an action is, as plain values.
pub enum ActionView {
    ReadSource { path: Seq<char> },
    Inspect { path: Seq<char> },
    Rasterize { source: Seq<char>, dpi: int, prefix: Seq<char> },
    ListImages { pattern: Seq<char> },
    Recognize { image: Seq<char>, lang: Seq<char> },
    InsertDocument { title: Seq<char>, added_on: CalendarDate, content_hash: Seq<char> },
    InsertPage { document_id: int, number: nat, text: Seq<char> },
    Relocate { from: Seq<char>, to: Seq<char> },
    Stop,
}

impl DeepView for Action {
    type V = ActionView;

    open spec fn deep_view(&self) -> ActionView {
        match self {
            Action::ReadSource { path } => ActionView::ReadSource { path: path@ },
            Action::Inspect { path } => ActionView::Inspect { path: path@ },
            Action::Rasterize { source, dpi, prefix } => ActionView::Rasterize {
                source: source@,
                dpi: *dpi as int,
                prefix: prefix@,
            },
            Action::ListImages { pattern } => ActionView::ListImages { pattern: pattern@ },
            Action::Recognize { image, lang } => ActionView::Recognize { image: image@, lang: lang@ },
            Action::InsertDocument { title, added_on, content_hash } => ActionView::InsertDocument {
                title: title@,
                added_on: *added_on,
                content_hash: content_hash@,
            },
            Action::InsertPage { document_id, number, text } => ActionView::InsertPage {
                document_id: *document_id as int,
                number: *number as nat,
                text: text@,
            },
            Action::Relocate { from, to } => ActionView::Relocate { from: from@, to: to@ },
            Action::Stop => ActionView::Stop,
        }
    }
}

} // verus!
