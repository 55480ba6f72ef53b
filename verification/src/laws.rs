use crate::frame::{Frame, Image, Timestamp};
use crate::model::{Model, Stage};
use crate::order::{is_subsequence, lemma_keys_grow, lemma_take};
use crate::steps::{
    lemma_detector_counted, lemma_detector_poll, lemma_detector_scaled, lemma_initial,
    lemma_sink_poll, lemma_sink_release, lemma_source_poll, lemma_source_read,
    lemma_source_release,
};
use vstd::prelude::*;

verus! {

/// One call of a worker into the pipeline, with what the worker hands in.
pub enum Event {
    SourcePoll(bool),
    SourceRead(Option<Image>, Timestamp),
    SourceRelease,
    DetectorPoll,
    DetectorScaled(Image),
    DetectorCounted(usize),
    SinkPoll,
    SinkRelease,
}

/// How far a worker has come: it never goes back.
pub open spec fn rank(stage: Stage) -> int {
    match stage {
        Stage::Running => 0,
        Stage::Draining => 1,
        Stage::Terminated => 2,
    }
}

/// The key by which frames are ordered in time.
pub open spec fn instant_of(frame: Frame) -> int {
    frame.datetime.instant()
}

/// The keys grow from each frame to the next.
pub open spec fn increasing(frames: Seq<Frame>) -> bool {
    forall|i: int, j: int| 0 <= i < j < frames.len() ==> instant_of(frames[i]) < instant_of(frames[j])
}

/// No frame has a smaller key than one before it.
pub open spec fn non_decreasing(frames: Seq<Frame>) -> bool {
    forall|i: int, j: int|
        0 <= i <= j < frames.len() ==> instant_of(frames[i]) <= instant_of(frames[j])
}

impl Model {
    /// The pipeline after one call of a worker.
    pub open spec fn step(self, event: Event) -> Model {
        match event {
            Event::SourcePoll(shutdown) => self.source_poll(shutdown).0,
            Event::SourceRead(read, now) => self.source_read(read, now),
            Event::SourceRelease => self.source_release().0,
            Event::DetectorPoll => self.detector_poll().0,
            Event::DetectorScaled(analysis) => self.detector_scaled(analysis).0,
            Event::DetectorCounted(regions) => self.detector_counted(regions),
            Event::SinkPoll => self.sink_poll().0,
            Event::SinkRelease => self.sink_release().0,
        }
    }

    /// The pipeline after the calls `events`, in whatever order the three
    /// workers made them.
    pub open spec fn run(self, events: Seq<Event>) -> Model
        decreases events.len(),
    {
        if events.len() == 0 {
            self
        } else {
            self.run(events.drop_last()).step(events.last())
        }
    }

    /// The analysis image that the detector took in last in the calls
    /// `events`, or the frame that it retained before them where it took none.
    pub open spec fn last_scaled(self, events: Seq<Event>) -> Seq<u8>
        decreases events.len(),
    {
        if events.len() == 0 {
            self.reference
        } else {
            match events.last() {
                Event::DetectorScaled(analysis) => if self.run(events.drop_last()).scaling(
                    analysis,
                ) {
                    analysis@
                } else {
                    self.last_scaled(events.drop_last())
                },
                _ => self.last_scaled(events.drop_last()),
            }
        }
    }

    /// How often, in the calls `events`, the source worker was told to
    /// release the capture handle.
    pub open spec fn source_releases(self, events: Seq<Event>) -> nat
        decreases events.len(),
    {
        if events.len() == 0 {
            0
        } else {
            let before = self.run(events.drop_last());
            let told: nat = if events.last() is SourceRelease && before.source_release().1 {
                1
            } else {
                0
            };
            self.source_releases(events.drop_last()) + told
        }
    }

    /// How often, in the calls `events`, the sink worker was told to release
    /// the output handle.
    pub open spec fn sink_releases(self, events: Seq<Event>) -> nat
        decreases events.len(),
    {
        if events.len() == 0 {
            0
        } else {
            let before = self.run(events.drop_last());
            let told: nat = if events.last() is SinkRelease && before.sink_release().1 {
                1
            } else {
                0
            };
            self.sink_releases(events.drop_last()) + told
        }
    }
}

/// One call of a worker keeps the invariant, and no worker goes back to a
/// stage that it has left.
pub proof fn lemma_step(before: Model, event: Event)
    requires
        before.inv(),
    ensures
        before.step(event).inv(),
        before.step(event).capacity == before.capacity,
        rank(before.source) <= rank(before.step(event).source),
        rank(before.detector) <= rank(before.step(event).detector),
        rank(before.sink) <= rank(before.step(event).sink),
{
    match event {
        Event::SourcePoll(shutdown) => lemma_source_poll(before, shutdown),
        Event::SourceRead(read, now) => lemma_source_read(before, read, now),
        Event::SourceRelease => lemma_source_release(before),
        Event::DetectorPoll => lemma_detector_poll(before),
        Event::DetectorScaled(analysis) => lemma_detector_scaled(before, analysis),
        Event::DetectorCounted(regions) => lemma_detector_counted(before, regions),
        Event::SinkPoll => lemma_sink_poll(before),
        Event::SinkRelease => lemma_sink_release(before),
    }
}

/// Whatever the workers do, and in whatever order, the invariant holds.
pub proof fn lemma_run(start: Model, events: Seq<Event>)
    requires
        start.inv(),
    ensures
        start.run(events).inv(),
        start.run(events).capacity == start.capacity,
    decreases events.len(),
{
    if events.len() > 0 {
        lemma_run(start, events.drop_last());
        lemma_step(start.run(events.drop_last()), events.last());
    }
}

/// Temporal-state advance: after every call the detector retains the scaled
/// form of the frame that it took in last, whatever was found in that frame or
/// in any other, and whatever else the workers did.
pub proof fn lemma_reference_advances(start: Model, events: Seq<Event>)
    ensures
        start.run(events).reference == start.last_scaled(events),
    decreases events.len(),
{
    if events.len() > 0 {
        lemma_reference_advances(start, events.drop_last());
    }
}

/// Backpressure bound: at no point does either hand-off queue hold more than
/// its capacity.
pub proof fn lemma_backpressure_bound(
    capacity: nat,
    reference: Seq<u8>,
    overlay: bool,
    events: Seq<Event>,
)
    ensures
        Model::initial(capacity, reference, overlay).run(events).raw.len() <= capacity,
        Model::initial(capacity, reference, overlay).run(events).processed.len() <= capacity,
{
    lemma_initial(capacity, reference, overlay);
    lemma_run(Model::initial(capacity, reference, overlay), events);
}

/// Order preservation: the frames handed to the sink are among the frames
/// that the source took in, in the order in which it took them in. So where
/// the timestamps of those grow from frame to frame, the frames reach the
/// output in non-decreasing order of their timestamps.
pub proof fn lemma_order_preserved(
    capacity: nat,
    reference: Seq<u8>,
    overlay: bool,
    events: Seq<Event>,
)
    ensures
        is_subsequence(
            Model::initial(capacity, reference, overlay).run(events).handed,
            Model::initial(capacity, reference, overlay).run(events).fed,
        ),
        increasing(Model::initial(capacity, reference, overlay).run(events).fed) ==> increasing(
            Model::initial(capacity, reference, overlay).run(events).handed,
        ) && non_decreasing(Model::initial(capacity, reference, overlay).run(events).handed),
{
    lemma_initial(capacity, reference, overlay);
    lemma_run(Model::initial(capacity, reference, overlay), events);
    let end = Model::initial(capacity, reference, overlay).run(events);
    lemma_take(end.flow(), end.fed, end.handed.len() as int);
    assert(end.flow().take(end.handed.len() as int) =~= end.handed);
    if increasing(end.fed) {
        lemma_keys_grow(end.handed, end.fed, |frame: Frame| instant_of(frame));
    }
}

/// Each handle is released as often as it is marked released: not at all, or
/// once.
proof fn lemma_releases_counted(capacity: nat, reference: Seq<u8>, overlay: bool, events: Seq<Event>)
    ensures
        ({
            let start = Model::initial(capacity, reference, overlay);
            &&& start.run(events).inv()
            &&& start.source_releases(events) == if start.run(events).source_released {
                1nat
            } else {
                0nat
            }
            &&& start.sink_releases(events) == if start.run(events).sink_released {
                1nat
            } else {
                0nat
            }
        }),
    decreases events.len(),
{
    let start = Model::initial(capacity, reference, overlay);
    lemma_initial(capacity, reference, overlay);
    if events.len() > 0 {
        lemma_releases_counted(capacity, reference, overlay, events.drop_last());
        let before = start.run(events.drop_last());
        lemma_step(before, events.last());
    }
}

/// Resource release: in any run the workers are told at most once to release
/// the capture handle and at most once to release the output handle, and
/// after shutdown each of the two was released exactly once.
pub proof fn lemma_released_once(
    capacity: nat,
    reference: Seq<u8>,
    overlay: bool,
    events: Seq<Event>,
)
    ensures
        Model::initial(capacity, reference, overlay).source_releases(events) <= 1,
        Model::initial(capacity, reference, overlay).sink_releases(events) <= 1,
        Model::initial(capacity, reference, overlay).run(events).shut_down() ==> Model::initial(
            capacity,
            reference,
            overlay,
        ).source_releases(events) == 1 && Model::initial(capacity, reference, overlay).sink_releases(
            events,
        ) == 1,
{
    lemma_releases_counted(capacity, reference, overlay, events);
}

/// Drain before exit: the sink exits last, and once it has exited nothing is
/// left in either queue or in a worker's hands. Every frame that the source
/// took in was handed to the sink, discarded by the detector or skipped for
/// want of its caption: the three counts add up to the number of frames taken
/// in.
pub proof fn lemma_drained(capacity: nat, reference: Seq<u8>, overlay: bool, events: Seq<Event>)
    ensures
        Model::initial(capacity, reference, overlay).run(events).sink == Stage::Terminated ==> ({
            let end = Model::initial(capacity, reference, overlay).run(events);
            &&& end.shut_down()
            &&& end.raw.len() == 0
            &&& end.processed.len() == 0
            &&& end.outgoing is None
            &&& end.examined is None
            &&& end.forward is None
            &&& end.flow() == end.handed
            &&& end.fed.len() == end.handed.len() + end.discarded + end.skipped
        }),
{
    lemma_initial(capacity, reference, overlay);
    lemma_run(Model::initial(capacity, reference, overlay), events);
    let end = Model::initial(capacity, reference, overlay).run(events);
    if end.sink == Stage::Terminated {
        assert(end.flow() =~= end.handed);
    }
}

} // verus!
