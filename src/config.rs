//! The block's configuration, as the bar hands it over.
use vstd::prelude::*;
use crate::DeviceKind;

verus! {

/// Largest accepted step width, in percent.
pub const MAX_STEP: u32 = 50;

#[derive(Clone, Debug)]
pub struct SoundConfig {
    /// Mixer control; `Master` when absent.
    pub name: Option<String>,
    /// Mixer device; `default` when absent.
    pub device: Option<String>,
    pub device_kind: DeviceKind,
    /// Pass `-M` to the mixer, for volumes on a perceptual scale.
    pub natural_mapping: bool,
    /// Percent added or removed per wheel notch, clamped to `0..=50` when used.
    pub step_width: u32,
    /// Text template with `{volume}` and `{output_name}` placeholders;
    /// `{volume}` when absent.
    pub format: Option<String>,
    pub show_volume_when_muted: bool,
    /// Display names for control names, looked up by exact match.
    pub mappings: Option<Vec<(String, String)>>,
    /// Highest volume a wheel step may set.
    pub max_vol: Option<u32>,
}

impl Default for SoundConfig {
    fn default() -> (r: Self)
        ensures
            r.name is None,
            r.device is None,
            r.device_kind == DeviceKind::Sink,
            !r.natural_mapping,
            r.step_width == 5,
            r.format is None,
            !r.show_volume_when_muted,
            r.mappings is None,
            r.max_vol is None,
    {
        SoundConfig {
            name: None,
            device: None,
            device_kind: DeviceKind::Sink,
            natural_mapping: false,
            step_width: 5,
            format: None,
            show_volume_when_muted: false,
            mappings: None,
            max_vol: None,
        }
    }
}

pub open spec fn clamp_step(w: u32) -> u32 {
    if w > MAX_STEP {
        MAX_STEP
    } else {
        w
    }
}

/// The display name configured for `name` among `entries`: the first match.
pub open spec fn lookup(entries: Seq<(String, String)>, name: Seq<char>) -> Option<Seq<char>>
    decreases entries.len(),
{
    if entries.len() == 0 {
        None
    } else if entries[0].0@ == name {
        Some(entries[0].1@)
    } else {
        lookup(entries.drop_first(), name)
    }
}

/// `name`, replaced by its mapping when one exists.
pub open spec fn display_name(mappings: Option<Vec<(String, String)>>, name: Seq<char>) -> Seq<
    char,
> {
    match mappings {
        None => name,
        Some(m) => match lookup(m@, name) {
            None => name,
            Some(n) => n,
        },
    }
}

impl SoundConfig {
    /// The step width actually used: at most 50.
    pub fn clamped_step_width(&self) -> (r: u32)
        ensures
            r == clamp_step(self.step_width),
            r <= MAX_STEP,
    {
        if self.step_width > MAX_STEP {
            MAX_STEP
        } else {
            self.step_width
        }
    }

    /// The name shown for control `name`.
    pub fn map_name(&self, name: &String) -> (r: String)
        ensures
            r@ == display_name(self.mappings, name@),
    {
        match &self.mappings {
            None => name.clone(),
            Some(m) => {
                let mut i: usize = 0;
                assert(m@.subrange(0, m@.len() as int) =~= m@);
                while i < m.len()
                    invariant
                        i <= m@.len(),
                        self.mappings == Some(*m),
                        lookup(m@, name@) == lookup(m@.subrange(i as int, m@.len() as int), name@),
                    decreases m@.len() - i,
                {
                    let ghost rest = m@.subrange(i as int, m@.len() as int);
                    assert(rest.drop_first() =~= m@.subrange(i + 1, m@.len() as int));
                    if m[i].0 == *name {
                        return m[i].1.clone();
                    }
                    i = i + 1;
                }
                name.clone()
            },
        }
    }
}

} // verus!
