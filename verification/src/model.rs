use crate::detector::analysis_sized;
use crate::error::ErrorKind;
use crate::frame::{difference, Frame, Image, Timestamp};
use crate::grabber::grabbed;
use crate::order::is_subsequence;
use crate::writer::stamp_of;
use vstd::prelude::*;

verus! {

/// Where a worker stands: it takes new work, it finishes what is left after
/// its input has ended, or it has exited.
#[derive(Debug, Clone, Copy, PartialEq, Eq, Structural)]
pub enum Stage {
    Running,
    Draining,
    Terminated,
}

/// What the detector is waiting for.
#[derive(Debug, Clone, Copy, PartialEq, Eq, Structural)]
pub enum Phase {
    /// No frame is under examination.
    Idle,
    /// The frame under examination is being scaled down.
    Scaling,
    /// The regions of the difference are being counted.
    Counting,
}

/// What the source worker does next.
#[derive(Debug, Clone, Copy, PartialEq, Eq, Structural)]
pub enum SourceAction {
    /// Read the next frame and report it.
    Grab,
    /// The queue to the detector is full: wait until it has room.
    Wait,
    /// Acquisition has ended: release the capture handle.
    Release,
    /// The worker has exited.
    Done,
}

/// What the detector worker does next.
#[derive(Debug, Clone, Copy, PartialEq, Eq, Structural)]
pub enum DetectorAction {
    /// Scale the frame under examination down to the analysis resolution.
    Downscale,
    /// Count the regions of the difference that was handed out.
    Count,
    /// Nothing to examine, or no room to forward: wait.
    Wait,
    /// The worker has exited.
    Done,
}

/// What the sink worker does next, in terms of plain text.
pub enum SinkStep {
    /// Stamp the caption, if any, on the frame, encode it and append it.
    Write(Frame, Option<Seq<char>>),
    /// The frame was skipped for the reason given: log it and go on.
    Skip(ErrorKind),
    /// Nothing to write yet: wait.
    Wait,
    /// The stream has ended and is drained: release the output handle.
    Release,
    /// The worker has exited.
    Done,
}

/// The frames that a slot holds: one or none.
pub open spec fn slot(held: Option<Frame>) -> Seq<Frame> {
    match held {
        Some(frame) => seq![frame],
        None => Seq::empty(),
    }
}

/// The pipeline as a mathematical value.
pub struct Model {
    /// Capacity of each of the two hand-off queues.
    pub capacity: nat,
    /// Frames on their way from the source to the detector.
    pub raw: Seq<Frame>,
    /// Frames on their way from the detector to the sink.
    pub processed: Seq<Frame>,
    pub source: Stage,
    pub detector: Stage,
    pub sink: Stage,
    /// The frame that the source could not send yet, the queue being full.
    pub outgoing: Option<Frame>,
    /// The frame that the detector examines.
    pub examined: Option<Frame>,
    /// The frame that the detector could not forward yet.
    pub forward: Option<Frame>,
    pub phase: Phase,
    /// The frame that the detector retains, at the analysis resolution.
    pub reference: Seq<u8>,
    /// Whether the sink stamps each frame with its time of capture.
    pub overlay: bool,
    /// Whether the capture handle has been released.
    pub source_released: bool,
    /// Whether the output handle has been released.
    pub sink_released: bool,
    /// Every frame that the source has taken in, in the order of capture.
    pub fed: Seq<Frame>,
    /// Every frame that was handed to the sink to be written, in that order.
    pub handed: Seq<Frame>,
    /// Number of frames that the detector has discarded.
    pub discarded: nat,
    /// Number of frames that the sink has skipped for want of their caption.
    pub skipped: nat,
}

impl Model {
    /// The frames that were handed to the sink or are still on their way to
    /// it, those nearest to the output first.
    pub open spec fn flow(self) -> Seq<Frame> {
        self.handed + self.processed + slot(self.forward) + slot(self.examined) + self.raw + slot(
            self.outgoing,
        )
    }

    /// What holds of the pipeline in every state.
    pub open spec fn inv(self) -> bool {
        &&& self.raw.len() <= self.capacity
        &&& self.processed.len() <= self.capacity
        &&& (self.examined is Some) == (self.phase != Phase::Idle)
        &&& self.forward is Some ==> self.examined is None
        &&& self.source != Stage::Running ==> self.outgoing is None
        &&& self.source_released == (self.source == Stage::Terminated)
        &&& self.sink_released == (self.sink == Stage::Terminated)
        &&& self.detector == Stage::Terminated ==> self.examined is None && self.forward is None
        &&& self.detector == Stage::Draining ==> self.source == Stage::Terminated
        &&& self.sink != Stage::Running ==> self.detector == Stage::Terminated
        &&& self.sink == Stage::Terminated ==> self.processed.len() == 0
        &&& self.detector == Stage::Terminated ==> self.source == Stage::Terminated
            && self.raw.len() == 0
        &&& forall|i: int| 0 <= i < self.raw.len() ==> !(#[trigger] self.raw[i]).blank()
        &&& self.outgoing is Some ==> !self.outgoing->0.blank()
        &&& is_subsequence(self.flow(), self.fed)
        &&& self.fed.len() == self.flow().len() + self.discarded + self.skipped
    }

    /// All three workers have exited.
    pub open spec fn shut_down(self) -> bool {
        &&& self.source == Stage::Terminated
        &&& self.detector == Stage::Terminated
        &&& self.sink == Stage::Terminated
    }

    /// The pipeline at its start.
    pub open spec fn initial(capacity: nat, reference: Seq<u8>, overlay: bool) -> Model {
        Model {
            capacity,
            raw: Seq::empty(),
            processed: Seq::empty(),
            source: Stage::Running,
            detector: Stage::Running,
            sink: Stage::Running,
            outgoing: None,
            examined: None,
            forward: None,
            phase: Phase::Idle,
            reference,
            overlay,
            source_released: false,
            sink_released: false,
            fed: Seq::empty(),
            handed: Seq::empty(),
            discarded: 0,
            skipped: 0,
        }
    }

    /// The source has decided to stop: whatever it still held is dropped and
    /// its handle is due for release.
    pub open spec fn source_stopped(self) -> Model {
        Model { source: Stage::Draining, outgoing: None, ..self }
    }

    /// The source worker asks what to do, `shutdown` telling whether the
    /// interrupt signal was raised. A frame that waits to be sent goes first:
    /// cancellation is not seen while the send blocks. The worker stops when
    /// the detector has gone or the signal was raised.
    pub open spec fn source_poll(self, shutdown: bool) -> (Model, SourceAction) {
        match self.source {
            Stage::Terminated => (self, SourceAction::Done),
            Stage::Draining => (self, SourceAction::Release),
            Stage::Running => {
                if self.detector == Stage::Terminated {
                    (self.source_stopped(), SourceAction::Release)
                } else if self.outgoing is Some && self.raw.len() >= self.capacity {
                    (self, SourceAction::Wait)
                } else {
                    let sent = match self.outgoing {
                        Some(frame) => Model { raw: self.raw.push(frame), outgoing: None, ..self },
                        None => self,
                    };
                    if shutdown {
                        (sent.source_stopped(), SourceAction::Release)
                    } else {
                        (sent, SourceAction::Grab)
                    }
                }
            },
        }
    }

    /// Whether the source worker is in a state to take a frame in.
    pub open spec fn grabbing(self) -> bool {
        self.source == Stage::Running && self.outgoing is None
    }

    /// The source worker reports a read of the capture device. A dropped
    /// frame changes nothing; an empty one ends acquisition; a frame is sent
    /// to the detector, or held until the queue has room. Where the detector
    /// has gone the frame is lost and acquisition ends.
    pub open spec fn source_read(self, read: Option<Image>, now: Timestamp) -> Model {
        if !self.grabbing() {
            self
        } else {
            match grabbed(read, now) {
                Err(ErrorKind::EmptyFrame) => self.source_stopped(),
                Err(_) => self,
                Ok(frame) => {
                    if self.detector == Stage::Terminated {
                        self.source_stopped()
                    } else if self.raw.len() < self.capacity {
                        Model { raw: self.raw.push(frame), fed: self.fed.push(frame), ..self }
                    } else {
                        Model { outgoing: Some(frame), fed: self.fed.push(frame), ..self }
                    }
                },
            }
        }
    }

    /// The source worker asks whether to release the capture handle now: it
    /// does once acquisition has ended, and exits.
    pub open spec fn source_release(self) -> (Model, bool) {
        if self.source == Stage::Draining {
            (Model { source: Stage::Terminated, source_released: true, ..self }, true)
        } else {
            (self, false)
        }
    }

    /// The detector worker takes the next frame from the source, nothing
    /// being under way. A frame without content ends the stream for this
    /// worker; so does the queue once the source has exited and nothing is
    /// left in it.
    pub open spec fn detector_take(self) -> (Model, DetectorAction) {
        if self.raw.len() > 0 {
            let frame = self.raw[0];
            if frame.blank() {
                (
                    Model {
                        raw: self.raw.skip(1),
                        detector: Stage::Terminated,
                        discarded: self.discarded + 1,
                        ..self
                    },
                    DetectorAction::Done,
                )
            } else {
                (
                    Model {
                        raw: self.raw.skip(1),
                        examined: Some(frame),
                        phase: Phase::Scaling,
                        detector: if self.source == Stage::Terminated {
                            Stage::Draining
                        } else {
                            self.detector
                        },
                        ..self
                    },
                    DetectorAction::Downscale,
                )
            }
        } else if self.source == Stage::Terminated {
            (Model { detector: Stage::Terminated, ..self }, DetectorAction::Done)
        } else {
            (self, DetectorAction::Wait)
        }
    }

    /// The detector worker asks what to do. A frame that waits to be
    /// forwarded goes first; a frame under examination is finished before the
    /// next is taken.
    pub open spec fn detector_poll(self) -> (Model, DetectorAction) {
        if self.detector == Stage::Terminated {
            (self, DetectorAction::Done)
        } else if self.forward is Some {
            if self.processed.len() < self.capacity {
                Model {
                    processed: self.processed.push(self.forward->0),
                    forward: None,
                    ..self
                }.detector_take()
            } else {
                (self, DetectorAction::Wait)
            }
        } else if self.phase == Phase::Scaling {
            (self, DetectorAction::Downscale)
        } else if self.phase == Phase::Counting {
            (self, DetectorAction::Count)
        } else {
            self.detector_take()
        }
    }

    /// Whether the detector worker is in a state to take `analysis` as the
    /// scaled form of the frame under examination.
    pub open spec fn scaling(self, analysis: Image) -> bool {
        self.phase == Phase::Scaling && analysis_sized(&analysis)
    }

    /// The detector worker reports the frame under examination scaled down to
    /// the analysis resolution. The difference from the retained frame is
    /// handed out, and the scaled frame is retained in its place whatever the
    /// difference will show.
    pub open spec fn detector_scaled(self, analysis: Image) -> (Model, Option<Seq<u8>>) {
        if self.scaling(analysis) {
            (
                Model { reference: analysis@, phase: Phase::Counting, ..self },
                Some(difference(self.reference, analysis@)),
            )
        } else {
            (self, None)
        }
    }

    /// The detector worker reports the number of connected regions in the
    /// mask made of the difference. With at least one the frame under
    /// examination goes on to the sink as it came in, or waits for room in
    /// the queue; with none it is discarded.
    pub open spec fn detector_counted(self, regions: usize) -> Model {
        if self.phase != Phase::Counting {
            self
        } else if regions == 0 {
            Model { examined: None, phase: Phase::Idle, discarded: self.discarded + 1, ..self }
        } else if self.processed.len() < self.capacity {
            Model {
                processed: self.processed.push(self.examined->0),
                examined: None,
                phase: Phase::Idle,
                ..self
            }
        } else {
            Model { forward: self.examined, examined: None, phase: Phase::Idle, ..self }
        }
    }

    /// The sink worker asks what to do. Frames are written in the order of
    /// their arrival; one whose caption cannot be made is skipped. Once the
    /// detector has exited and the queue is empty the output handle is due
    /// for release.
    pub open spec fn sink_poll(self) -> (Model, SinkStep) {
        if self.sink == Stage::Terminated {
            (self, SinkStep::Done)
        } else if self.processed.len() > 0 {
            let frame = self.processed[0];
            let taken = Model {
                processed: self.processed.skip(1),
                sink: if self.detector == Stage::Terminated {
                    Stage::Draining
                } else {
                    self.sink
                },
                ..self
            };
            match stamp_of(self.overlay, frame) {
                Ok(caption) => (
                    Model { handed: self.handed.push(frame), ..taken },
                    SinkStep::Write(frame, caption),
                ),
                Err(error) => (
                    Model { skipped: self.skipped + 1, ..taken },
                    SinkStep::Skip(error),
                ),
            }
        } else if self.detector == Stage::Terminated {
            (Model { sink: Stage::Draining, ..self }, SinkStep::Release)
        } else {
            (self, SinkStep::Wait)
        }
    }

    /// The sink worker asks whether to release the output handle now: it does
    /// once the stream has ended and every queued frame was taken, and exits.
    pub open spec fn sink_release(self) -> (Model, bool) {
        if self.sink == Stage::Draining && self.processed.len() == 0 {
            (Model { sink: Stage::Terminated, sink_released: true, ..self }, true)
        } else {
            (self, false)
        }
    }
}

} // verus!
