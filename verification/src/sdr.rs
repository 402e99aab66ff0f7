//! Messages for the tuner-control task.
//!
//! The whole tuner interface is serialized in one task; everything other
//! tasks may ask of it travels through this message type.

use vstd::prelude::*;

verus! {

/// Messages for the control task.
#[derive(Copy, Clone, PartialEq, Eq, Structural, Debug)]
pub enum ControlTaskEvent {
    /// Set the center frequency to the contained value (Hz).
    SetFreq(u32),
}

impl ControlTaskEvent {
    /// The frequency (Hz) the message asks the tuner to move to.
    pub fn freq(&self) -> (r: u32)
        ensures
            *self == ControlTaskEvent::SetFreq(r),
    {
        match *self {
            ControlTaskEvent::SetFreq(f) => f,
        }
    }
}

} // verus!
