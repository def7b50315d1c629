//! A status-bar block that shows the volume and mute state of a mixer control
//! and changes them on clicks, by running the `amixer` tool and reading what it
//! prints.
pub mod config;
pub mod device;
pub mod display;
pub mod error;
pub mod machine;
pub mod parse;
pub mod text;

pub use config::SoundConfig;
pub use device::AlsaSoundDevice;
pub use display::{DisplayPayload, WidgetState};
pub use error::SoundError;
pub use machine::{Action, Event, MouseButton, Mutation, Phase, SoundBlock};

use vstd::prelude::*;

verus! {

/// Which side of the audio path a device sits on.
#[derive(Clone, Copy, Debug, PartialEq, Eq, Hash, Structural)]
pub enum DeviceKind {
    Sink,
    Source,
}

impl Default for DeviceKind {
    fn default() -> (r: Self)
        ensures
            r == DeviceKind::Sink,
    {
        DeviceKind::Sink
    }
}

} // verus!
