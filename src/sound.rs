use vstd::prelude::*;

verus! {

/// The sound effects played around a recording.
#[derive(Clone, Copy, Debug, PartialEq, Eq, Structural)]
pub enum SoundType {
    RecordingStart,
    RecordingStop,
}

} // verus!
