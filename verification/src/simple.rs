//! A minimal stand-in capture source: it keeps the capturing flag of a
//! simulated session, whose frames the surrounding shell fabricates. Useful
//! where no hardware capture path is available.

use vstd::prelude::*;

verus! {

/// The stand-in capture source: a capturing flag and nothing else.
pub struct SimpleAudioCapture {
    capturing: bool,
}

impl SimpleAudioCapture {
    /// Whether a simulated session is running.
    pub closed spec fn capturing_spec(self) -> bool {
        self.capturing
    }

    /// Creates a stand-in capture source that is not capturing.
    pub fn new() -> (c: SimpleAudioCapture)
        ensures
            !c.capturing_spec(),
    {
        SimpleAudioCapture { capturing: false }
    }

    /// Begins a simulated session; always succeeds.
    pub fn start_capture(&mut self) -> (r: Result<(), String>)
        ensures
            final(self).capturing_spec(),
            r is Ok,
    {
        self.capturing = true;
        Ok(())
    }

    /// Ends the simulated session; always succeeds.
    pub fn stop_capture(&mut self) -> (r: Result<(), String>)
        ensures
            !final(self).capturing_spec(),
            r is Ok,
    {
        self.capturing = false;
        Ok(())
    }

    /// Whether a simulated session is running.
    pub fn is_capturing(&self) -> (r: bool)
        ensures
            r == self.capturing_spec(),
    {
        self.capturing
    }
}

} // verus!
