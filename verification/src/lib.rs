//! Motion detection and recording for unattended camera deployments.
//!
//! Frames flow one way through three stages: a source that grabs them, a
//! detector that compares each frame with the one before it, and a sink that
//! persists the frames in which something moved. The stages hand frames over
//! through two bounded queues. This crate holds the decisions of every stage
//! and of the pipeline that joins them; the devices and the image operations
//! are driven by the program around it, which reports what they returned.

pub mod args;
pub mod codec;
pub mod color;
pub mod config;
pub mod detector;
pub mod error;
pub mod frame;
pub mod grabber;
pub mod laws;
pub mod model;
pub mod order;
pub mod paths;
pub mod pipeline;
pub mod queue;
pub mod steps;
pub mod writer;

pub use crate::codec::Codec;
pub use crate::detector::MotionDetector;
pub use crate::error::ErrorKind;
pub use crate::frame::Frame;
pub use crate::grabber::Grabber;
pub use crate::pipeline::Pipeline;
pub use crate::writer::Writer;
