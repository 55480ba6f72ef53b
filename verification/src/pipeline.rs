use crate::detector::{analysis_sized, MotionDetector, ANALYSIS_COLS, ANALYSIS_ROWS};
use crate::error::ErrorKind;
use crate::frame::{Frame, Image, Timestamp};
use crate::grabber::{grabbed, Grabber};
use crate::model::{DetectorAction, Model, Phase, SinkStep, SourceAction, Stage};
use crate::paths::text_of;
use crate::queue::Channel;
use crate::steps::{
    lemma_detector_counted, lemma_detector_poll, lemma_detector_scaled, lemma_initial,
    lemma_sink_poll, lemma_sink_release, lemma_source_poll, lemma_source_read,
    lemma_source_release,
};
use crate::writer::Writer;
use vstd::prelude::*;

verus! {

/// Number of frames that each hand-off queue holds at most in a recording.
pub const QUEUE_CAPACITY: usize = 100;

/// What the sink worker does next.
#[derive(Debug)]
pub enum SinkAction {
    /// Stamp the caption, if any, on the frame, encode it and append it.
    Write(Frame, Option<String>),
    /// The frame was skipped for the reason given: log it and go on.
    Skip(ErrorKind),
    /// Nothing to write yet: wait.
    Wait,
    /// The stream has ended and is drained: release the output handle.
    Release,
    /// The worker has exited.
    Done,
}

impl View for SinkAction {
    type V = SinkStep;

    open spec fn view(&self) -> SinkStep {
        match *self {
            SinkAction::Write(frame, caption) => SinkStep::Write(frame, text_of(caption)),
            SinkAction::Skip(error) => SinkStep::Skip(error),
            SinkAction::Wait => SinkStep::Wait,
            SinkAction::Release => SinkStep::Release,
            SinkAction::Done => SinkStep::Done,
        }
    }
}

/// The three workers' shared state: the two bounded hand-off queues, where
/// each worker stands, and what each of them holds. Every decision of the
/// workers is taken here; the workers perform what they are told and report
/// what came of it.
pub struct Pipeline {
    raw: Channel<Frame>,
    processed: Channel<Frame>,
    source: Stage,
    detector: Stage,
    sink: Stage,
    outgoing: Option<Frame>,
    examined: Option<Frame>,
    forward: Option<Frame>,
    phase: Phase,
    grabber: Grabber,
    motion: MotionDetector,
    writer: Writer,
    fed: Ghost<Seq<Frame>>,
    handed: Ghost<Seq<Frame>>,
    discarded: Ghost<nat>,
    skipped: Ghost<nat>,
}

impl View for Pipeline {
    type V = Model;

    closed spec fn view(&self) -> Model {
        Model {
            capacity: self.raw.limit(),
            raw: self.raw@,
            processed: self.processed@,
            source: self.source,
            detector: self.detector,
            sink: self.sink,
            outgoing: self.outgoing,
            examined: self.examined,
            forward: self.forward,
            phase: self.phase,
            reference: self.motion.reference(),
            overlay: self.writer.overlay(),
            source_released: self.grabber.released(),
            sink_released: self.writer.released(),
            fed: self.fed@,
            handed: self.handed@,
            discarded: self.discarded@,
            skipped: self.skipped@,
        }
    }
}

impl Pipeline {
    /// The parts of the pipeline fit together.
    pub closed spec fn sound(&self) -> bool {
        &&& self.raw.wf()
        &&& self.processed.wf()
        &&& self.raw.limit() == self.processed.limit()
        &&& self.motion.wf()
    }

    /// The parts fit together and the invariant of the pipeline holds.
    pub open spec fn wf(&self) -> bool {
        self.sound() && self@.inv()
    }

    /// Wires source, detector and sink across two hand-off queues of the
    /// given capacity. Both handles are open.
    pub fn new(capacity: usize, grabber: Grabber, detector: MotionDetector, writer: Writer) -> (pipeline:
        Self)
        requires
            !grabber.released(),
            !writer.released(),
            detector.wf(),
        ensures
            pipeline.wf(),
            pipeline@ == Model::initial(capacity as nat, detector.reference(), writer.overlay()),
    {
        proof {
            lemma_initial(capacity as nat, detector.reference(), writer.overlay());
        }
        Pipeline {
            raw: Channel::new(capacity),
            processed: Channel::new(capacity),
            source: Stage::Running,
            detector: Stage::Running,
            sink: Stage::Running,
            outgoing: None,
            examined: None,
            forward: None,
            phase: Phase::Idle,
            grabber,
            motion: detector,
            writer,
            fed: Ghost(Seq::empty()),
            handed: Ghost(Seq::empty()),
            discarded: Ghost(0),
            skipped: Ghost(0),
        }
    }

    /// Tells the source worker what to do next, given whether the interrupt
    /// signal was raised.
    pub fn source_poll(&mut self, shutdown: bool) -> (action: SourceAction)
        requires
            old(self).wf(),
        ensures
            final(self).wf(),
            (final(self)@, action) == old(self)@.source_poll(shutdown),
    {
        proof {
            lemma_source_poll(self@, shutdown);
        }
        match self.source {
            Stage::Terminated => SourceAction::Done,
            Stage::Draining => SourceAction::Release,
            Stage::Running => {
                if self.detector == Stage::Terminated {
                    self.source = Stage::Draining;
                    self.outgoing = None;
                    return SourceAction::Release;
                }
                if self.outgoing.is_some() && self.raw.is_full() {
                    return SourceAction::Wait;
                }
                match self.outgoing.take() {
                    Some(frame) => {
                        let sent = self.raw.send(frame);
                        assert(sent is Ok);
                    },
                    None => {},
                }
                if shutdown {
                    self.source = Stage::Draining;
                    SourceAction::Release
                } else {
                    SourceAction::Grab
                }
            },
        }
    }

    /// Takes what one read of the capture device returned, and the time of
    /// the read. Returns the error to log, if the read gave no frame.
    pub fn source_read(&mut self, read: Option<Image>, now: Timestamp) -> (outcome: Result<
        (),
        ErrorKind,
    >)
        requires
            old(self).wf(),
        ensures
            final(self).wf(),
            final(self)@ == old(self)@.source_read(read, now),
            match grabbed(read, now) {
                Ok(frame) => outcome is Ok,
                Err(error) => outcome == Err::<(), ErrorKind>(error),
            },
    {
        proof {
            lemma_source_read(self@, read, now);
        }
        let taking = self.source == Stage::Running && self.outgoing.is_none();
        match self.grabber.grab(read, now) {
            Ok(frame) => {
                if taking {
                    if self.detector == Stage::Terminated {
                        self.source = Stage::Draining;
                    } else {
                        self.fed = Ghost(self.fed@.push(frame));
                        match self.raw.send(frame) {
                            Ok(()) => {},
                            Err(back) => {
                                self.outgoing = Some(back);
                            },
                        }
                    }
                }
                Ok(())
            },
            Err(error) => {
                if taking {
                    match error {
                        ErrorKind::EmptyFrame => {
                            self.source = Stage::Draining;
                        },
                        _ => {},
                    }
                }
                Err(error)
            },
        }
    }

    /// Tells the source worker whether to release the capture handle now. It
    /// is told so once, when acquisition has ended, and exits with it.
    pub fn source_release(&mut self) -> (now: bool)
        requires
            old(self).wf(),
        ensures
            final(self).wf(),
            (final(self)@, now) == old(self)@.source_release(),
    {
        proof {
            lemma_source_release(self@);
        }
        if self.source == Stage::Draining {
            self.source = Stage::Terminated;
            self.grabber.release()
        } else {
            false
        }
    }

    /// The next frame from the source comes under examination.
    fn detector_take(&mut self) -> (action: DetectorAction)
        requires
            old(self).sound(),
            old(self)@.detector_take().0.inv(),
            old(self).examined is None,
        ensures
            final(self).wf(),
            (final(self)@, action) == old(self)@.detector_take(),
    {
        match self.raw.receive() {
            Some(frame) => {
                match MotionDetector::accept(&frame) {
                    Err(_) => {
                        self.detector = Stage::Terminated;
                        self.discarded = Ghost(self.discarded@ + 1);
                        DetectorAction::Done
                    },
                    Ok(()) => {
                        self.examined = Some(frame);
                        self.phase = Phase::Scaling;
                        if self.source == Stage::Terminated {
                            self.detector = Stage::Draining;
                        }
                        DetectorAction::Downscale
                    },
                }
            },
            None => {
                if self.source == Stage::Terminated {
                    self.detector = Stage::Terminated;
                    DetectorAction::Done
                } else {
                    DetectorAction::Wait
                }
            },
        }
    }

    /// Tells the detector worker what to do next.
    pub fn detector_poll(&mut self) -> (action: DetectorAction)
        requires
            old(self).wf(),
        ensures
            final(self).wf(),
            (final(self)@, action) == old(self)@.detector_poll(),
    {
        proof {
            lemma_detector_poll(self@);
        }
        if self.detector == Stage::Terminated {
            return DetectorAction::Done;
        }
        if self.forward.is_some() {
            if self.processed.is_full() {
                return DetectorAction::Wait;
            }
            match self.forward.take() {
                Some(frame) => {
                    let sent = self.processed.send(frame);
                    assert(sent is Ok);
                },
                None => {},
            }
            return self.detector_take();
        }
        match self.phase {
            Phase::Scaling => DetectorAction::Downscale,
            Phase::Counting => DetectorAction::Count,
            Phase::Idle => self.detector_take(),
        }
    }

    /// The frame under examination, to be scaled down.
    pub fn detector_frame(&self) -> (frame: Option<&Frame>)
        ensures
            match frame {
                Some(examined) => self@.examined == Some(*examined),
                None => self@.examined is None,
            },
    {
        self.examined.as_ref()
    }

    /// Takes the frame under examination scaled down to the analysis
    /// resolution and returns the difference of which the regions are to be
    /// counted. Returns nothing, and changes nothing, where no frame waits to
    /// be scaled or `analysis` is of another size.
    pub fn detector_scaled(&mut self, analysis: Image) -> (apart: Option<Image>)
        requires
            old(self).wf(),
        ensures
            final(self).wf(),
            final(self)@ == old(self)@.detector_scaled(analysis).0,
            match apart {
                Some(image) => analysis_sized(&image) && old(self)@.detector_scaled(analysis).1
                    == Some(image@),
                None => old(self)@.detector_scaled(analysis).1 is None,
            },
    {
        proof {
            lemma_detector_scaled(self@, analysis);
        }
        if self.phase == Phase::Scaling && analysis.has_size(ANALYSIS_ROWS, ANALYSIS_COLS) {
            let apart = self.motion.advance(analysis);
            self.phase = Phase::Counting;
            Some(apart)
        } else {
            None
        }
    }

    /// Takes the number of connected regions in the mask made of the
    /// difference and classifies the frame under examination.
    pub fn detector_counted(&mut self, regions: usize)
        requires
            old(self).wf(),
        ensures
            final(self).wf(),
            final(self)@ == old(self)@.detector_counted(regions),
    {
        proof {
            lemma_detector_counted(self@, regions);
        }
        if self.phase == Phase::Counting {
            self.phase = Phase::Idle;
            match self.examined.take() {
                Some(frame) => {
                    match MotionDetector::classify(frame, regions) {
                        Some(moved) => {
                            match self.processed.send(moved) {
                                Ok(()) => {},
                                Err(back) => {
                                    self.forward = Some(back);
                                },
                            }
                        },
                        None => {
                            self.discarded = Ghost(self.discarded@ + 1);
                        },
                    }
                },
                None => {},
            }
        }
    }

    /// Tells the sink worker what to do next.
    pub fn sink_poll(&mut self) -> (action: SinkAction)
        requires
            old(self).wf(),
        ensures
            final(self).wf(),
            (final(self)@, action@) == old(self)@.sink_poll(),
    {
        proof {
            lemma_sink_poll(self@);
        }
        if self.sink == Stage::Terminated {
            return SinkAction::Done;
        }
        match self.processed.receive() {
            Some(frame) => {
                if self.detector == Stage::Terminated {
                    self.sink = Stage::Draining;
                }
                match self.writer.caption(&frame) {
                    Ok(caption) => {
                        self.handed = Ghost(self.handed@.push(frame));
                        SinkAction::Write(frame, caption)
                    },
                    Err(error) => {
                        self.skipped = Ghost(self.skipped@ + 1);
                        SinkAction::Skip(error)
                    },
                }
            },
            None => {
                if self.detector == Stage::Terminated {
                    self.sink = Stage::Draining;
                    SinkAction::Release
                } else {
                    SinkAction::Wait
                }
            },
        }
    }

    /// Tells the sink worker whether to release the output handle now. It is
    /// told so once, when the stream has ended and is drained, and exits with
    /// it.
    pub fn sink_release(&mut self) -> (now: bool)
        requires
            old(self).wf(),
        ensures
            final(self).wf(),
            (final(self)@, now) == old(self)@.sink_release(),
    {
        proof {
            lemma_sink_release(self@);
        }
        if self.sink == Stage::Draining && self.processed.is_empty() {
            self.sink = Stage::Terminated;
            self.writer.release()
        } else {
            false
        }
    }

    /// Where the source worker stands.
    pub fn source_stage(&self) -> (stage: Stage)
        ensures
            stage == self@.source,
    {
        self.source
    }

    /// Where the detector worker stands.
    pub fn detector_stage(&self) -> (stage: Stage)
        ensures
            stage == self@.detector,
    {
        self.detector
    }

    /// Where the sink worker stands.
    pub fn sink_stage(&self) -> (stage: Stage)
        ensures
            stage == self@.sink,
    {
        self.sink
    }

    /// Whether all three workers have exited.
    pub fn is_shut_down(&self) -> (done: bool)
        ensures
            done == self@.shut_down(),
    {
        self.source == Stage::Terminated && self.detector == Stage::Terminated && self.sink
            == Stage::Terminated
    }

    /// Number of frames that wait between source and detector.
    pub fn raw_len(&self) -> (len: usize)
        ensures
            len == self@.raw.len(),
    {
        self.raw.len()
    }

    /// Number of frames that wait between detector and sink.
    pub fn processed_len(&self) -> (len: usize)
        ensures
            len == self@.processed.len(),
    {
        self.processed.len()
    }

    /// Capacity of each of the two hand-off queues.
    pub fn capacity(&self) -> (capacity: usize)
        ensures
            capacity == self@.capacity,
    {
        self.raw.capacity()
    }

    /// Whether the capture handle has been released.
    pub fn source_released(&self) -> (released: bool)
        ensures
            released == self@.source_released,
    {
        self.grabber.is_released()
    }

    /// Whether the output handle has been released.
    pub fn sink_released(&self) -> (released: bool)
        ensures
            released == self@.sink_released,
    {
        self.writer.is_released()
    }
}

} // verus!
