//! The recording flag.

use vstd::prelude::*;

verus! {

/// Whether a recording is under way. The flag starts out `false` and lives
/// as long as its owner; nothing persists it.
///
/// A shared borrow reads, an exclusive borrow writes: no reader ever sees a
/// write half done.
#[derive(Debug)]
pub struct RecordingFlag {
    recording: bool,
}

impl View for RecordingFlag {
    type V = bool;

    closed spec fn view(&self) -> bool {
        self.recording
    }
}

impl RecordingFlag {
    /// A flag that says "not recording".
    pub fn new() -> (flag: RecordingFlag)
        ensures
            !flag@,
    {
        RecordingFlag { recording: false }
    }

    /// The value of the flag.
    pub fn read(&self) -> (recording: bool)
        ensures
            recording == self@,
    {
        self.recording
    }

    /// Overwrites the flag, whatever it held.
    pub fn write(&mut self, recording: bool)
        ensures
            final(self)@ == recording,
    {
        self.recording = recording;
    }
}

} // verus!
