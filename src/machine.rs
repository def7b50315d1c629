//! The block's control loop as a state machine. The caller runs the mixer,
//! delivers what the block shows, and waits for the next change notice or
//! click; each step takes what happened and says what to do next.
use vstd::prelude::*;
use crate::config::{SoundConfig, clamp_step, display_name};
use crate::device::{AlsaSoundDevice, base_args, refreshed, stepped_volume, texts};
use crate::display::{
    DisplayPayload, WidgetState, icon, icon_key, percent_text, render, render_text, shown_text,
    template_of,
    format_percent,
};
use crate::error::SoundError;
use crate::parse::info_of;

verus! {

/// A pointer button, as the bar reports a click.
#[derive(Clone, Copy, Debug, PartialEq, Eq, Structural)]
pub enum MouseButton {
    Left,
    Middle,
    Right,
    WheelUp,
    WheelDown,
    Forward,
    Back,
    Unknown,
}

/// A change the block asks the mixer to make.
#[derive(Clone, Copy, Debug, PartialEq, Eq, Structural)]
pub enum Mutation {
    Toggle,
    Volume(u32),
}

/// Where the loop stands.
#[derive(Clone, Copy, Debug, PartialEq, Eq, Structural)]
pub enum Phase {
    /// A query of the mixer is under way.
    Refreshing,
    /// The state was shown; waiting for a change notice or a click.
    Awaiting,
    /// The mixer is making this change.
    Mutating(Mutation),
    /// The block failed and does nothing more.
    Stopped(SoundError),
}

/// What happened since the last step.
pub enum Event {
    /// The query ran and printed this.
    Queried(String),
    /// The requested change ran.
    Applied,
    /// The change monitor woke up.
    Changed,
    Clicked(MouseButton),
    /// Running the mixer or delivering the display failed.
    Failed(SoundError),
}

/// What the caller does next.
pub enum Action {
    /// Run the mixer with these arguments and report back.
    Run(Vec<String>),
    /// Hand this to the bar, then wait for a change notice or a click.
    Show(DisplayPayload),
    /// End the block with this error.
    Stop(SoundError),
    /// The event does not fit the phase: nothing to do.
    Wait,
}

pub struct SoundBlock {
    pub config: SoundConfig,
    pub device: AlsaSoundDevice,
    pub phase: Phase,
}

pub open spec fn query_line(d: AlsaSoundDevice) -> Seq<Seq<char>> {
    base_args(d.natural_mapping, d.device@) + seq!["get"@, d.name@]
}

pub open spec fn mutation_line(d: AlsaSoundDevice, m: Mutation) -> Seq<Seq<char>> {
    base_args(d.natural_mapping, d.device@) + match m {
        Mutation::Toggle => seq!["set"@, d.name@, "toggle"@],
        Mutation::Volume(v) => seq!["set"@, d.name@, percent_text(v as nat)],
    }
}

/// The device state once the mixer made `m`, taken on trust.
pub open spec fn applied(d: AlsaSoundDevice, m: Mutation) -> AlsaSoundDevice {
    match m {
        Mutation::Toggle => AlsaSoundDevice { muted: !d.muted, ..d },
        Mutation::Volume(v) => AlsaSoundDevice { volume: v, ..d },
    }
}

/// What a click asks of the mixer: right flips the switch, the wheel steps
/// the volume, other buttons ask nothing.
pub open spec fn reaction_to(config: SoundConfig, d: AlsaSoundDevice, b: MouseButton) -> Option<
    Mutation,
> {
    let w = clamp_step(config.step_width) as int;
    match b {
        MouseButton::Right => Some(Mutation::Toggle),
        MouseButton::WheelUp => Some(Mutation::Volume(stepped_volume(d.volume, w, config.max_vol))),
        MouseButton::WheelDown => Some(
            Mutation::Volume(stepped_volume(d.volume, -w, config.max_vol)),
        ),
        _ => None,
    }
}

/// `p` shows device `d` under `config`.
pub open spec fn shows(p: DisplayPayload, config: SoundConfig, d: AlsaSoundDevice) -> bool {
    &&& p.text@ == shown_text(config, d.volume as nat, d.muted, d.name@)
    &&& p.icon@ == icon_key(
        config.device_kind,
        if d.muted {
            0
        } else {
            d.volume as nat
        },
    )
    &&& p.state == if d.muted {
        WidgetState::Warning
    } else {
        WidgetState::Idle
    }
}

pub open spec fn runs(a: Action, line: Seq<Seq<char>>) -> bool {
    a matches Action::Run(v) && texts(v@) == line
}

impl SoundBlock {
    /// A block for `config`, about to query the mixer for the first time.
    pub fn new(config: SoundConfig) -> (r: Self)
        ensures
            r.config == config,
            r.device.name@ == match config.name {
                Some(n) => n@,
                None => "Master"@,
            },
            r.device.device@ == match config.device {
                Some(d) => d@,
                None => "default"@,
            },
            r.device.natural_mapping == config.natural_mapping,
            r.device.volume == 0,
            !r.device.muted,
            r.phase == Phase::Refreshing,
    {
        let name = match &config.name {
            Some(n) => n.clone(),
            None => String::from_str("Master"),
        };
        let device = match &config.device {
            Some(d) => d.clone(),
            None => String::from_str("default"),
        };
        let natural_mapping = config.natural_mapping;
        SoundBlock {
            config,
            device: AlsaSoundDevice::new(name, device, natural_mapping),
            phase: Phase::Refreshing,
        }
    }

    /// Mixer arguments of the query that starts the loop.
    pub fn start(&self) -> (r: Vec<String>)
        ensures
            texts(r@) == query_line(self.device),
    {
        self.device.query_args()
    }

    /// What the block shows for its current state.
    pub fn payload(&self) -> (r: DisplayPayload)
        ensures
            shows(r, self.config, self.device),
    {
        let d = &self.device;
        let text = if d.muted && !self.config.show_volume_when_muted {
            String::new()
        } else {
            let name = self.config.map_name(&d.name);
            let volume = format_percent(d.volume);
            match &self.config.format {
                Some(f) => render_text(f.as_str(), volume.as_str(), name.as_str()),
                None => render_text("{volume}", volume.as_str(), name.as_str()),
            }
        };
        if d.muted {
            DisplayPayload { text, icon: icon(self.config.device_kind, 0), state: WidgetState::Warning }
        } else {
            DisplayPayload {
                text,
                icon: icon(self.config.device_kind, d.volume),
                state: WidgetState::Idle,
            }
        }
    }

    /// The mixer change a click of `b` asks for, if any.
    pub fn reaction(&self, b: MouseButton) -> (r: Option<Mutation>)
        ensures
            r == reaction_to(self.config, self.device, b),
    {
        let w = self.config.clamped_step_width() as i32;
        match b {
            MouseButton::Right => Some(Mutation::Toggle),
            MouseButton::WheelUp => Some(
                Mutation::Volume(self.device.volume_target(w, self.config.max_vol)),
            ),
            MouseButton::WheelDown => Some(
                Mutation::Volume(self.device.volume_target(-w, self.config.max_vol)),
            ),
            _ => None,
        }
    }

    fn mutation_args(&self, m: Mutation) -> (r: Vec<String>)
        ensures
            texts(r@) == mutation_line(self.device, m),
    {
        match m {
            Mutation::Toggle => self.device.toggle_args(),
            Mutation::Volume(v) => self.device.set_volume_args(v),
        }
    }

    /// Takes one event and says what to do next.
    ///
    /// A failure, or a query output that does not parse, stops the block for
    /// good: from then on every event answers with the same error. A query
    /// output that parses updates the state and shows it. A change notice, or a
    /// click that asks nothing of the mixer, leads to a new query; a click that
    /// asks for a change runs it, and once it ran the state records it and a
    /// new query follows. An event that does not fit the phase changes nothing.
    pub fn step(&mut self, event: Event) -> (r: Action)
        ensures
            final(self).config == old(self).config,
            match (old(self).phase, event) {
                (Phase::Stopped(e), _) => *final(self) == *old(self) && r == Action::Stop(e),
                (_, Event::Failed(e)) => final(self).device == old(self).device
                    && final(self).phase == Phase::Stopped(e) && r == Action::Stop(e),
                (Phase::Refreshing, Event::Queried(out)) => final(self).device == refreshed(
                    old(self).device,
                    out@,
                ) && match info_of(out@) {
                    Ok(_) => final(self).phase == Phase::Awaiting && (r matches Action::Show(p)
                        && shows(p, final(self).config, final(self).device)),
                    Err(e) => final(self).phase == Phase::Stopped(e) && r == Action::Stop(e),
                },
                (Phase::Awaiting, Event::Changed) => final(self).device == old(self).device
                    && final(self).phase == Phase::Refreshing && runs(r, query_line(old(self).device)),
                (Phase::Awaiting, Event::Clicked(b)) => final(self).device == old(self).device
                    && match reaction_to(old(self).config, old(self).device, b) {
                    None => final(self).phase == Phase::Refreshing && runs(
                        r,
                        query_line(old(self).device),
                    ),
                    Some(m) => final(self).phase == Phase::Mutating(m) && runs(
                        r,
                        mutation_line(old(self).device, m),
                    ),
                },
                (Phase::Mutating(m), Event::Applied) => final(self).device == applied(
                    old(self).device,
                    m,
                ) && final(self).phase == Phase::Refreshing && runs(r, query_line(final(self).device)),
                _ => *final(self) == *old(self) && r == Action::Wait,
            },
    {
        match (self.phase, event) {
            (Phase::Stopped(e), _) => Action::Stop(e),
            (_, Event::Failed(e)) => {
                self.phase = Phase::Stopped(e);
                Action::Stop(e)
            },
            (Phase::Refreshing, Event::Queried(out)) => match self.device.get_info(out.as_str()) {
                Ok(()) => {
                    self.phase = Phase::Awaiting;
                    Action::Show(self.payload())
                },
                Err(e) => {
                    self.phase = Phase::Stopped(e);
                    Action::Stop(e)
                },
            },
            (Phase::Awaiting, Event::Changed) => {
                self.phase = Phase::Refreshing;
                Action::Run(self.device.query_args())
            },
            (Phase::Awaiting, Event::Clicked(b)) => match self.reaction(b) {
                None => {
                    self.phase = Phase::Refreshing;
                    Action::Run(self.device.query_args())
                },
                Some(m) => {
                    self.phase = Phase::Mutating(m);
                    Action::Run(self.mutation_args(m))
                },
            },
            (Phase::Mutating(m), Event::Applied) => {
                match m {
                    Mutation::Toggle => self.device.toggled(),
                    Mutation::Volume(v) => self.device.volume_set(v),
                }
                self.phase = Phase::Refreshing;
                Action::Run(self.device.query_args())
            },
            _ => Action::Wait,
        }
    }
}

/// A muted device shows no text unless the configuration asks for the volume
/// while muted; then the text is the template rendered with the current
/// volume. Either way the icon is the level-0 icon and the state a warning.
pub proof fn muted_display(p: DisplayPayload, config: SoundConfig, d: AlsaSoundDevice)
    requires
        shows(p, config, d),
        d.muted,
    ensures
        !config.show_volume_when_muted ==> p.text@ == Seq::<char>::empty(),
        config.show_volume_when_muted ==> p.text@ == render(
            template_of(config),
            percent_text(d.volume as nat),
            display_name(config.mappings, d.name@),
        ),
        p.icon@ == icon_key(config.device_kind, 0),
        p.state == WidgetState::Warning,
{
}

} // verus!
