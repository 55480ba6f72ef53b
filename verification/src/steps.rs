use crate::frame::{Image, Timestamp};
use crate::grabber::grabbed;
use crate::model::{Model, Phase, Stage};
use crate::order::{lemma_empty_is_subsequence, lemma_push_both, lemma_remove};
use crate::writer::stamp_of;
use vstd::prelude::*;

verus! {

/// The pipeline starts in a state in which the invariant holds.
pub proof fn lemma_initial(capacity: nat, reference: Seq<u8>, overlay: bool)
    ensures
        Model::initial(capacity, reference, overlay).inv(),
{
    let start = Model::initial(capacity, reference, overlay);
    assert(start.flow() =~= Seq::empty());
    lemma_empty_is_subsequence(start.fed);
}

/// A source that stops with nothing in its hands keeps the invariant.
proof fn lemma_source_stopped(before: Model)
    requires
        before.inv(),
        before.source == Stage::Running,
        before.outgoing is None,
    ensures
        before.source_stopped().inv(),
{
    assert(before.source_stopped().flow() =~= before.flow());
}

/// Whatever the source worker is told to do, the invariant holds after.
pub proof fn lemma_source_poll(before: Model, shutdown: bool)
    requires
        before.inv(),
    ensures
        before.source_poll(shutdown).0.inv(),
{
    if before.source == Stage::Running {
        if before.detector == Stage::Terminated {
            // The detector does not exit before the source.
        } else if before.outgoing is Some && before.raw.len() >= before.capacity {
        } else {
            let sent = match before.outgoing {
                Some(frame) => Model { raw: before.raw.push(frame), outgoing: None, ..before },
                None => before,
            };
            assert(sent.flow() =~= before.flow());
            assert(sent.inv());
            if shutdown {
                lemma_source_stopped(sent);
            }
        }
    }
}

/// Whatever the source worker reports of a read, the invariant holds after.
pub proof fn lemma_source_read(before: Model, read: Option<Image>, now: Timestamp)
    requires
        before.inv(),
    ensures
        before.source_read(read, now).inv(),
{
    let after = before.source_read(read, now);
    if before.grabbing() {
        match grabbed(read, now) {
            Ok(frame) => {
                if before.detector == Stage::Terminated {
                    // The detector does not exit before the source.
                } else {
                    assert(after.flow() =~= before.flow().push(frame));
                    lemma_push_both(before.flow(), before.fed, frame);
                }
            },
            Err(_) => {
                lemma_source_stopped(before);
            },
        }
    }
}

/// The release of the capture handle keeps the invariant.
pub proof fn lemma_source_release(before: Model)
    requires
        before.inv(),
    ensures
        before.source_release().0.inv(),
{
    assert(before.source_release().0.flow() =~= before.flow());
}

/// The detector that takes the next frame keeps the invariant.
proof fn lemma_detector_take(before: Model)
    requires
        before.inv(),
        before.detector != Stage::Terminated,
        before.forward is None,
        before.phase == Phase::Idle,
    ensures
        before.detector_take().0.inv(),
{
    let after = before.detector_take().0;
    if before.raw.len() > 0 {
        let frame = before.raw[0];
        if frame.blank() {
            let place = before.handed.len() + before.processed.len();
            assert(after.flow() =~= before.flow().remove(place as int));
            lemma_remove(before.flow(), before.fed, place as int);
        } else {
            assert(after.flow() =~= before.flow());
        }
    } else {
        assert(after.flow() =~= before.flow());
    }
}

/// Whatever the detector worker is told to do, the invariant holds after.
pub proof fn lemma_detector_poll(before: Model)
    requires
        before.inv(),
    ensures
        before.detector_poll().0.inv(),
{
    if before.detector == Stage::Terminated {
    } else if before.forward is Some {
        if before.processed.len() < before.capacity {
            let moved = Model {
                processed: before.processed.push(before.forward->0),
                forward: None,
                ..before
            };
            assert(moved.flow() =~= before.flow());
            assert(moved.inv());
            lemma_detector_take(moved);
        }
    } else if before.phase == Phase::Scaling {
    } else if before.phase == Phase::Counting {
    } else {
        lemma_detector_take(before);
    }
}

/// A frame scaled down keeps the invariant.
pub proof fn lemma_detector_scaled(before: Model, analysis: Image)
    requires
        before.inv(),
    ensures
        before.detector_scaled(analysis).0.inv(),
{
    assert(before.detector_scaled(analysis).0.flow() =~= before.flow());
}

/// A frame classified keeps the invariant.
pub proof fn lemma_detector_counted(before: Model, regions: usize)
    requires
        before.inv(),
    ensures
        before.detector_counted(regions).inv(),
{
    let after = before.detector_counted(regions);
    if before.phase != Phase::Counting {
    } else if regions == 0 {
        let place = before.handed.len() + before.processed.len();
        assert(after.flow() =~= before.flow().remove(place as int));
        lemma_remove(before.flow(), before.fed, place as int);
    } else {
        assert(after.flow() =~= before.flow());
    }
}

/// Whatever the sink worker is told to do, the invariant holds after.
pub proof fn lemma_sink_poll(before: Model)
    requires
        before.inv(),
    ensures
        before.sink_poll().0.inv(),
{
    let after = before.sink_poll().0;
    if before.sink == Stage::Terminated {
    } else if before.processed.len() > 0 {
        let frame = before.processed[0];
        match stamp_of(before.overlay, frame) {
            Ok(caption) => {
                assert(after.flow() =~= before.flow());
            },
            Err(error) => {
                let place = before.handed.len();
                assert(after.flow() =~= before.flow().remove(place as int));
                lemma_remove(before.flow(), before.fed, place as int);
            },
        }
    } else {
        assert(after.flow() =~= before.flow());
    }
}

/// The release of the output handle keeps the invariant.
pub proof fn lemma_sink_release(before: Model)
    requires
        before.inv(),
    ensures
        before.sink_release().0.inv(),
{
    assert(before.sink_release().0.flow() =~= before.flow());
}

} // verus!
