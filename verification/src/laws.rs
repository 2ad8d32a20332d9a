//! What holds of every ingestion, whatever the world reports.

use vstd::prelude::*;
use vstd::seq_lib::{to_multiset_contains, to_multiset_len};
use crate::digest::{content_hash_of, is_content_hash};
use crate::document::{numbered_in_order, tagged_pages, texts_of};
use crate::inspect::any_text;
use crate::ocr::{
    arranged, images_of, index_of_page, is_complete_listing, is_page_sequence, lemma_arranged,
    lemma_every_page_present, own_images, PageImageView,
};
use crate::pagefile::{in_namespace, temp_prefix_of};
use crate::protocol::{stage_rank, ActionView, EventView, IngestError, Stage, TextOrigin};
use crate::state::{next, run, stages_entered, IngestionView};

verus! {

/// The texts of freshly tagged pages are the texts that they were made from.
pub proof fn lemma_tagging_keeps_texts(texts: Seq<Seq<char>>)
    ensures
        texts_of(tagged_pages(texts)) == texts,
        tagged_pages(texts).len() == texts.len(),
{
    assert(texts_of(tagged_pages(texts)) =~= texts);
}

/// Where `event` brings the bytes of the source file to `state`, which awaits
/// them, their digest has the length of a SHA-256 digest, so that their
/// content hash has the shape of one.
pub open spec fn digest_is_whole(state: IngestionView, event: EventView) -> bool {
    state is Received ==> (event matches EventView::SourceRead { bytes } ==> is_content_hash(
        content_hash_of(bytes),
    ))
}

/// The content hash of an ingestion keeps the shape of a content hash.
pub proof fn lemma_next_keeps_identity(state: IngestionView, event: EventView)
    requires
        state.identified(),
        digest_is_whole(state, event),
    ensures
        next(state, event).0.identified(),
{
}

/// A state that fits together is followed by one that does.
pub proof fn lemma_next_keeps_wf(state: IngestionView, event: EventView)
    requires
        state.wf(),
    ensures
        next(state, event).0.wf(),
{
    match (state, event) {
        (IngestionView::Identified { job, source, hash }, EventView::Inspected { pages }) => {
            lemma_tagging_keeps_texts(pages);
        },
        (
            IngestionView::Listing { job, source, hash, source_pages },
            EventView::ImagesListed { names },
        ) => {
            if is_complete_listing(hash, names, source_pages) {
                let images = images_of(names);
                let plan = arranged(images);
                lemma_arranged(images);
                lemma_tagging_keeps_texts(Seq::<Seq<char>>::empty());
                assert forall|k: int| 0 <= k < plan.len() implies in_namespace(
                    hash,
                    (#[trigger] plan[k]).path,
                ) by {
                    let j = index_of_page(images, k + 1);
                    lemma_every_page_present(images, k + 1);
                    assert(plan[k] == images[j]);
                    assert(images[j].path == names[j]);
                }
            }
        },
        (
            IngestionView::Recognizing { job, source, hash, plan, texts },
            EventView::PageRecognized { text },
        ) => {
            lemma_tagging_keeps_texts(texts.push(text));
        },
        _ => {},
    }
}

/// After one more event the ingestion is where the events before it had
/// brought it, moved on by that event.
pub proof fn lemma_run_step(state: IngestionView, events: Seq<EventView>, k: int)
    requires
        0 <= k < events.len(),
    ensures
        run(state, events.take(k + 1)) == next(run(state, events.take(k)), events[k]).0,
{
    assert(events.take(k + 1).drop_last() =~= events.take(k));
    assert(events.take(k + 1).last() == events[k]);
}

/// Running all events is running the first `k` of them and then the rest.
pub proof fn lemma_run_split(state: IngestionView, events: Seq<EventView>, k: int)
    requires
        0 <= k <= events.len(),
    ensures
        run(state, events) == run(run(state, events.take(k)), events.skip(k)),
    decreases events.len(),
{
    if k == events.len() {
        assert(events.take(k) =~= events);
        assert(events.skip(k) =~= Seq::<EventView>::empty());
    } else {
        let shorter = events.drop_last();
        lemma_run_split(state, shorter, k);
        assert(shorter.take(k) =~= events.take(k));
        assert(shorter.skip(k) =~= events.skip(k).drop_last());
        assert(events.skip(k).last() == events.last());
    }
}

/// Whatever the world reports, the state of an ingestion fits together.
pub proof fn lemma_run_keeps_wf(state: IngestionView, events: Seq<EventView>)
    requires
        state.wf(),
    ensures
        run(state, events).wf(),
    decreases events.len(),
{
    if events.len() > 0 {
        let shorter = events.drop_last();
        lemma_run_keeps_wf(state, shorter);
        lemma_next_keeps_wf(run(state, shorter), events.last());
    }
}

/// An ingestion that has ended stays as it is.
pub proof fn lemma_end_is_final(state: IngestionView, events: Seq<EventView>)
    requires
        state.is_terminal(),
    ensures
        run(state, events) == state,
    decreases events.len(),
{
    if events.len() > 0 {
        lemma_end_is_final(state, events.drop_last());
    }
}

/// `state` holds `count` pages wherever it holds pages: as many images are
/// planned, and the document has as many pages. An abandoned ingestion
/// holds none.
pub open spec fn holds_pages(state: IngestionView, count: nat) -> bool {
    ||| state is Abandoned
    ||| {
        &&& state.source_pages() == Some(count)
        &&& state.document() matches Some(document) ==> document.pages.len() == count
    }
}

/// Inspection settles the number of pages: whichever way the ingestion goes
/// on from it, it holds as many pages as inspection found.
pub proof fn lemma_inspection_settles_page_count(state: IngestionView, pages: Seq<Seq<char>>)
    requires
        state is Identified,
    ensures
        holds_pages(next(state, EventView::Inspected { pages }).0, pages.len()),
{
    lemma_tagging_keeps_texts(pages);
}

/// The number of pages, once settled, stays: the document that comes out has
/// as many pages as inspection found in the source, whether their texts
/// were embedded or recognized.
pub proof fn lemma_page_count_is_kept(state: IngestionView, events: Seq<EventView>, count: nat)
    requires
        state.wf(),
        holds_pages(state, count),
    ensures
        holds_pages(run(state, events), count),
    decreases events.len(),
{
    if events.len() > 0 {
        let shorter = events.drop_last();
        lemma_page_count_is_kept(state, shorter, count);
        lemma_run_keeps_wf(state, shorter);
        let before = run(state, shorter);
        let event = events.last();
        match (before, event) {
            (
                IngestionView::Listing { job, source, hash, source_pages },
                EventView::ImagesListed { names },
            ) => {
                lemma_tagging_keeps_texts(Seq::<Seq<char>>::empty());
            },
            (
                IngestionView::Recognizing { job, source, hash, plan, texts },
                EventView::PageRecognized { text },
            ) => {
                lemma_tagging_keeps_texts(texts.push(text));
            },
            _ => {},
        }
    }
}

/// Exactly one way leads on from inspection. Where a page has text, the
/// document is made of the embedded texts as they are, and recognition is
/// not begun. Where none has, recognition is begun, and no document is made
/// of the embedded texts.
pub proof fn lemma_one_path_is_taken(state: IngestionView, pages: Seq<Seq<char>>)
    requires
        state is Identified,
    ensures
        ({
            let after = next(state, EventView::Inspected { pages }).0;
            let entered = stages_entered(state.stage(), after);
            &&& any_text(pages) ==> {
                &&& after.origin() == Some(TextOrigin::Embedded)
                &&& after.document() is Some
                &&& texts_of(after.document().unwrap().pages) == pages
                &&& after.stage() != Stage::NeedsOcr
                &&& entered == seq![Stage::Inspected, Stage::HasEmbeddedText, Stage::Tagged]
            }
            &&& !any_text(pages) ==> {
                &&& after is Rasterizing
                &&& after.stage() == Stage::NeedsOcr
                &&& after.document() is None
                &&& entered == seq![Stage::Inspected, Stage::NeedsOcr]
            }
            &&& entered.contains(Stage::HasEmbeddedText) != entered.contains(Stage::NeedsOcr)
        }),
{
    lemma_tagging_keeps_texts(pages);
    let after = next(state, EventView::Inspected { pages }).0;
    let entered = stages_entered(state.stage(), after);
    if any_text(pages) {
        assert(entered[1] == Stage::HasEmbeddedText);
    } else {
        assert(entered[1] == Stage::NeedsOcr);
    }
}

/// Embedded texts are used only where they hold text: whatever the world
/// reports, a document made of embedded texts has a page that is not blank.
pub proof fn lemma_embedded_texts_hold_text(state: IngestionView, events: Seq<EventView>)
    requires
        state.origin_is_justified(),
    ensures
        run(state, events).origin_is_justified(),
    decreases events.len(),
{
    if events.len() > 0 {
        let shorter = events.drop_last();
        lemma_embedded_texts_hold_text(state, shorter);
        match (run(state, shorter), events.last()) {
            (IngestionView::Identified { job, source, hash }, EventView::Inspected { pages }) => {
                lemma_tagging_keeps_texts(pages);
            },
            _ => {},
        }
    }
}

/// `state` is on the way that leads to texts of origin `origin`: with
/// embedded texts it holds a document made of them; with recognized texts
/// it is at recognition or holds a document made of recognized texts. An
/// abandoned ingestion is on either way.
pub open spec fn follows_path(state: IngestionView, origin: TextOrigin) -> bool {
    match origin {
        TextOrigin::Embedded => state.origin() == Some(TextOrigin::Embedded) || state is Abandoned,
        TextOrigin::Recognized => {
            ||| state.stage() == Stage::NeedsOcr
            ||| state.origin() == Some(TextOrigin::Recognized)
            ||| state is Abandoned
        },
    }
}

/// The world is asked for work of the recognition fallback.
pub open spec fn asks_for_recognition(state: IngestionView) -> bool {
    ||| state.pending() is Rasterize
    ||| state.pending() is ListImages
    ||| state.pending() is Recognize
}

/// The way taken after inspection is never left: an ingestion with embedded
/// texts never asks for recognition, and one that fell back to recognition
/// never comes to hold embedded texts. The pages of a document, once made,
/// stay as they are.
pub proof fn lemma_path_is_kept(state: IngestionView, events: Seq<EventView>, origin: TextOrigin)
    requires
        follows_path(state, origin),
    ensures
        follows_path(run(state, events), origin),
        origin == TextOrigin::Embedded ==> !asks_for_recognition(run(state, events)),
        asks_for_recognition(run(state, events)) <==> run(state, events).stage() == Stage::NeedsOcr,
        state.document() is Some ==> run(state, events).document() is Some || run(state, events) is Abandoned,
        state.document() matches Some(document) ==> (run(state, events).document() matches Some(
            later,
        ) ==> later.pages == document.pages),
    decreases events.len(),
{
    if events.len() > 0 {
        lemma_path_is_kept(state, events.drop_last(), origin);
    }
}

/// The content hash of a document is computed once: whatever the world
/// reports afterwards, the ingestion holds the same hash. The identifier
/// that persistence assigns is kept in the same way.
pub proof fn lemma_identity_is_kept(state: IngestionView, events: Seq<EventView>)
    requires
        state.wf(),
    ensures
        state.content_hash() is Some ==> run(state, events).content_hash() == state.content_hash(),
        state.document() matches Some(document) ==> (document.assigned_id is Some ==> (run(
            state,
            events,
        ).document() matches Some(later) ==> later.assigned_id == document.assigned_id)),
    decreases events.len(),
{
    if events.len() > 0 {
        let shorter = events.drop_last();
        lemma_identity_is_kept(state, shorter);
        lemma_run_keeps_wf(state, shorter);
        if state.origin() is Some {
            lemma_path_is_kept(state, shorter, state.origin().unwrap());
        }
    }
}

/// The texts that recognition yields are kept in the order in which they
/// come, which is page order: the text of the next page is put behind those
/// of the pages before it, and the document is made of them all.
pub proof fn lemma_recognized_texts_are_kept(state: IngestionView, text: Seq<char>)
    requires
        state is Recognizing,
    ensures
        ({
            let after = next(state, EventView::PageRecognized { text }).0;
            let texts = state->Recognizing_texts.push(text);
            &&& after is Recognizing ==> after->Recognizing_texts == texts
            &&& after.document() matches Some(document) ==> {
                &&& texts_of(document.pages) == texts
                &&& after.origin() == Some(TextOrigin::Recognized)
            }
            &&& after is Recognizing || after.document() is Some
        }),
{
    lemma_tagging_keeps_texts(state->Recognizing_texts.push(text));
}

/// Whatever the world reports, the pages of the document carry their
/// positions, counted from 1, as their numbers.
pub proof fn lemma_pages_are_numbered_in_order(state: IngestionView, events: Seq<EventView>)
    requires
        state.wf(),
    ensures
        run(state, events).document() matches Some(document) ==> numbered_in_order(document.pages),
{
    lemma_run_keeps_wf(state, events);
}

/// The order in which the page images are found does not matter: the same
/// images, found in another order, are put in the same page order.
pub proof fn lemma_discovery_order_is_immaterial(
    found: Seq<PageImageView>,
    shuffled: Seq<PageImageView>,
)
    requires
        found.to_multiset() == shuffled.to_multiset(),
        is_page_sequence(found),
    ensures
        is_page_sequence(shuffled),
        arranged(shuffled) == arranged(found),
{
    to_multiset_len(found);
    to_multiset_len(shuffled);
    assert(found.len() == shuffled.len());
    assert forall|j: int| 0 <= j < shuffled.len() implies found.contains(#[trigger] shuffled[j]) by {
        assert(shuffled.contains(shuffled[j]));
        to_multiset_contains(shuffled, shuffled[j]);
        to_multiset_contains(found, shuffled[j]);
    }
    assert(found.no_duplicates()) by {
        assert forall|i: int, j: int|
            0 <= i < found.len() && 0 <= j < found.len() && i != j implies found[i] != found[j] by {
            if i < j {
                assert(found[i].number != found[j].number);
            } else {
                assert(found[j].number != found[i].number);
            }
        }
    }
    found.lemma_multiset_has_no_duplicates();
    shuffled.lemma_multiset_has_no_duplicates_conv();
    assert forall|i: int, j: int| 0 <= i < j < shuffled.len() implies (#[trigger] shuffled[i]).number
        != (#[trigger] shuffled[j]).number by {
        let p = choose|p: int| 0 <= p < found.len() && found[p] == shuffled[i];
        let q = choose|q: int| 0 <= q < found.len() && found[q] == shuffled[j];
        assert(shuffled[i] != shuffled[j]);
        if p < q {
            assert(found[p].number != found[q].number);
        } else if q < p {
            assert(found[q].number != found[p].number);
        }
    }
    assert forall|j: int| 0 <= j < shuffled.len() implies 1 <= (#[trigger] shuffled[j]).number
        <= shuffled.len() by {
        let p = choose|p: int| 0 <= p < found.len() && found[p] == shuffled[j];
        assert(1 <= found[p].number <= found.len());
    }
    assert(is_page_sequence(shuffled));
    assert forall|k: int| 0 <= k < found.len() implies arranged(shuffled)[k] == arranged(found)[k] by {
        lemma_every_page_present(found, k + 1);
        lemma_every_page_present(shuffled, k + 1);
        let a = index_of_page(found, k + 1);
        let b = index_of_page(shuffled, k + 1);
        let p = choose|p: int| 0 <= p < found.len() && found[p] == shuffled[b];
        if p < a {
            assert(found[p].number != found[a].number);
        } else if a < p {
            assert(found[a].number != found[p].number);
        }
    }
    assert(arranged(shuffled) =~= arranged(found));
}

/// Documents with different content hashes have different parts of the
/// working directory: no path lies in both.
pub proof fn lemma_namespaces_are_disjoint(one: Seq<char>, other: Seq<char>, path: Seq<char>)
    requires
        is_content_hash(one),
        is_content_hash(other),
        in_namespace(one, path),
        in_namespace(other, path),
    ensures
        one == other,
{
    let a = temp_prefix_of(one);
    let b = temp_prefix_of(other);
    assert(a.len() == b.len());
    assert(a =~= path.subrange(0, a.len() as int));
    assert(b =~= path.subrange(0, b.len() as int));
    assert forall|i: int| 0 <= i < one.len() implies one[i] == other[i] by {
        assert(a[4 + i] == one[i]);
        assert(b[4 + i] == other[i]);
    }
    assert(one =~= other);
}

/// An ingestion touches temporary files of its own document only: every
/// file that it has removed, and every image that it has recognized, lies
/// in the part of the working directory that belongs to its content hash.
/// Before the hash is known it touches none.
pub proof fn lemma_temporary_files_are_own(state: IngestionView, event: EventView)
    requires
        state.wf(),
    ensures
        state.content_hash() is None ==> next(state, event).1.len() == 0,
        state.content_hash() matches Some(hash) ==> forall|i: int|
            0 <= i < next(state, event).1.len() ==> in_namespace(hash, #[trigger] next(state, event).1[i]),
        state.content_hash() matches Some(hash) ==> (state.pending() matches ActionView::Recognize {
            image,
            ..
        } ==> in_namespace(hash, image)),
{
    match (state, event) {
        (
            IngestionView::Listing { job, source, hash, source_pages },
            EventView::ImagesListed { names },
        ) => {
            let mine = |name: Seq<char>| in_namespace(hash, name);
            assert forall|i: int| 0 <= i < own_images(hash, names).len() implies in_namespace(
                hash,
                #[trigger] own_images(hash, names)[i],
            ) by {
                names.lemma_filter_pred(mine, i);
            }
        },
        _ => {},
    }
}

/// Ingestions of documents with different content hashes never touch the
/// same temporary file: no file that one has removed or recognized is a
/// file that the other has removed or recognized.
pub proof fn lemma_documents_do_not_collide(
    one: IngestionView,
    other: IngestionView,
    reported_to_one: EventView,
    reported_to_other: EventView,
)
    requires
        one.wf(),
        other.wf(),
        one.identified(),
        other.identified(),
        one.content_hash() is Some,
        other.content_hash() is Some,
        one.content_hash() != other.content_hash(),
    ensures
        forall|i: int, j: int|
            0 <= i < next(one, reported_to_one).1.len() && 0 <= j < next(
                other,
                reported_to_other,
            ).1.len() ==> #[trigger] next(one, reported_to_one).1[i] != #[trigger] next(
                other,
                reported_to_other,
            ).1[j],
        forall|i: int|
            0 <= i < next(one, reported_to_one).1.len() ==> (other.pending() matches ActionView::Recognize {
                image,
                ..
            } ==> image != #[trigger] next(one, reported_to_one).1[i]),
        one.pending() matches ActionView::Recognize { image, .. } ==> (
            other.pending() matches ActionView::Recognize { image: theirs, .. } ==> image != theirs
        ),
{
    let a = one.content_hash().unwrap();
    let b = other.content_hash().unwrap();
    lemma_temporary_files_are_own(one, reported_to_one);
    lemma_temporary_files_are_own(other, reported_to_other);
    assert forall|path: Seq<char>| in_namespace(a, path) implies !in_namespace(b, path) by {
        if in_namespace(b, path) {
            lemma_namespaces_are_disjoint(a, b, path);
        }
    }
}

/// An ingestion only moves forward: the stages that a step enters lie
/// behind the stage that it leaves, each behind the one before it, and the
/// last of them is the stage of the state that follows.
pub proof fn lemma_stages_advance(state: IngestionView, event: EventView)
    requires
        state.wf(),
    ensures
        ({
            let after = next(state, event).0;
            let entered = stages_entered(state.stage(), after);
            &&& stage_rank(after.stage()) >= stage_rank(state.stage())
            &&& forall|i: int|
                0 <= i < entered.len() ==> stage_rank(#[trigger] entered[i]) > stage_rank(
                    state.stage(),
                )
            &&& forall|i: int, j: int|
                0 <= i < j < entered.len() ==> stage_rank(#[trigger] entered[i]) < stage_rank(
                    #[trigger] entered[j],
                )
            &&& entered.len() > 0 ==> entered.last() == after.stage()
            &&& entered.len() == 0 <==> after.stage() == state.stage()
        }),
{
}

/// The world is asked for nothing more exactly when the ingestion has ended.
pub proof fn lemma_stop_means_ended(state: IngestionView)
    requires
        state.wf(),
    ensures
        state.pending() is Stop <==> state.is_terminal(),
{
}

/// A failure of conversion or recognition ends the ingestion of its own
/// document and nothing else: the ingestion is abandoned with that failure,
/// asks for nothing more, so that no row is stored and the source file is
/// left where it is, and has only temporary files of its own document removed.
pub proof fn lemma_failure_is_contained(state: IngestionView, event: EventView)
    requires
        state.wf(),
        (state is Rasterizing && (event is RasterFailed || event is RasterTimedOut)) || (state is Recognizing
            && event is PageUnrecognized),
    ensures
        ({
            let after = next(state, event).0;
            &&& after.abandonment() matches Some(record) && {
                &&& record.reached == Stage::NeedsOcr
                &&& record.failure == (if state is Rasterizing {
                    IngestError::Conversion
                } else {
                    IngestError::Recognition
                })
                &&& record.document_id is None
                &&& Some(record.source) == source_of(state)
            }
            &&& after.pending() is Stop
            &&& forall|i: int|
                0 <= i < next(state, event).1.len() ==> in_namespace(
                    state.content_hash().unwrap(),
                    #[trigger] next(state, event).1[i],
                )
        }),
{
    lemma_temporary_files_are_own(state, event);
}

/// Where the source file of an ingestion is, as long as the ingestion
/// has not moved it.
pub open spec fn source_of(state: IngestionView) -> Option<Seq<char>> {
    match state {
        IngestionView::Received { source, .. } => Some(source),
        IngestionView::Identified { source, .. } => Some(source),
        IngestionView::Rasterizing { source, .. } => Some(source),
        IngestionView::Listing { source, .. } => Some(source),
        IngestionView::Recognizing { source, .. } => Some(source),
        IngestionView::Tagged { document, .. } => Some(document.source_path),
        IngestionView::Storing { document, .. } => Some(document.source_path),
        IngestionView::Persisted { document, .. } => Some(document.source_path),
        IngestionView::Relocated { .. } => None,
        IngestionView::Abandoned { record } => Some(record.source),
    }
}

/// The source file is moved last. The move is asked for only once all rows
/// are stored, it is the only action that touches the source file, and only
/// its success makes the ingestion relocated. Until then the source file is
/// where it was, and the state says where.
pub proof fn lemma_source_moves_last(state: IngestionView, event: EventView)
    requires
        state.wf(),
    ensures
        state.pending() is Relocate <==> state is Persisted,
        state.pending() matches ActionView::Relocate { from, .. } ==> Some(from)
            == source_of(state),
        state is Persisted ==> state.document().unwrap().assigned_id is Some,
        next(state, event).0 is Relocated ==> state is Relocated || (state is Persisted && event is Moved),
        next(state, event).0 is Persisted ==> state is Persisted || (state is Tagged && event is DocumentInserted
            && state.document().unwrap().pages.len() == 0) || (state matches IngestionView::Storing {
            document,
            answered,
            rejected,
            ..
        } && event is PageInserted && answered + 1 == document.pages.len() && rejected.len() == 0),
        !(next(state, event).0 is Relocated) && !(state is Relocated) ==> source_of(next(state, event).0)
            == source_of(state),
{
}

/// The source file is moved by the event at place `k`: the move was asked
/// for, and the world reports its success.
pub open spec fn source_moved_at(state: IngestionView, events: Seq<EventView>, k: int) -> bool {
    &&& 0 <= k < events.len()
    &&& run(state, events.take(k)) is Persisted
    &&& events[k] is Moved
}

/// An ingestion whose source file was moved ends relocated. So wherever an
/// ingestion stands that is not relocated, however it got there, its source
/// file was not moved.
pub proof fn lemma_source_stays_until_relocated(
    state: IngestionView,
    events: Seq<EventView>,
    k: int,
)
    requires
        source_moved_at(state, events, k),
    ensures
        run(state, events) is Relocated,
{
    lemma_run_step(state, events, k);
    lemma_run_split(state, events, k + 1);
    lemma_end_is_final(run(state, events.take(k + 1)), events.skip(k + 1));
}

} // verus!
