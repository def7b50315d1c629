//! The ways a sound block can fail. Every one of them ends the block.
use vstd::prelude::*;

verus! {

#[derive(Clone, Copy, Debug, PartialEq, Eq, Structural)]
pub enum SoundError {
    /// The block configuration could not be read.
    Config,
    /// The mixer or the change monitor could not be run.
    Spawn,
    /// The query printed nothing but whitespace.
    NoOutput,
    /// The last line holds no bracketed reading.
    NoVolume,
    /// The first bracketed reading is not a percentage in `0..=100`.
    BadVolume,
    /// The rendered widget could not be handed to the bar.
    Delivery,
}

} // verus!
