//! The shape of a MIDI source.  No backend exists and nothing in the
//! pipeline consumes these types yet.

use vstd::prelude::*;
use crate::Error;

verus! {

/// A MIDI source that is not yet delivering.
pub trait InactiveMidiSource: Sized {
    type ActiveType: ActiveMidiSource;

    fn activate(self) -> Result<Self::ActiveType, Error>;
}

/// A MIDI source that delivers messages.
pub trait ActiveMidiSource: Iterator<Item = MidiMessage> + Sized {
    type InactiveType;

    fn deactivate(self) -> Result<Self::InactiveType, Error>;

    fn cur_time(&self) -> u64;
}

/// One event with the source's time stamp.
#[derive(Debug)]
pub struct MidiMessage {
    pub time: u64,
    pub event: MidiEvent,
}

/// The events a source can report, each with its data bytes.
#[derive(Debug)]
pub enum MidiEvent {
    NoteOn(u8, u8),
    NoteOff(u8, u8),
    PlyPrs(u8, u8),
    CtrlChg(u8, u8),
    ProgChg(u8),
    ChnlPrs(u8),
    PitchWheel(u16),
    RealTime(u8),
    Unrecongized,
}

} // verus!
