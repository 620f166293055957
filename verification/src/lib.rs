//! Real-time audio-to-light visualisation: capture windows of stereo audio
//! are reduced to nine lamp commands that describe the energy in four
//! frequency bands per channel.
//!
//! The crate holds the parts that can be stated exactly: the capture buffer,
//! the hand-off between the capture callback and the control loop, the
//! book-keeping of missed deadlines, the four-band effect and the decisions
//! of one control-loop step.  Levels are integers in hundredths of a decibel;
//! the transform from samples to levels, and every device, live with the
//! caller.

use vstd::prelude::*;

pub mod audio;
pub mod control;
pub mod flat_stack;
pub mod jack_src;
pub mod midi;

verus! {

/// Why a step of the pipeline could not be completed.
#[derive(Debug)]
pub enum Error {
    /// The producer of samples is gone for good.
    Unrecoverable(String),
    /// A bounded wait ended without data; the producer may still deliver.
    Timeout(String),
    /// The audio engine refused a request; the text is the engine's own.
    Jack(String),
    /// A sender could not deliver its commands; the text is the sender's own.
    Lecp(String),
}

} // verus!
