//! The mixer control the block watches: its identity, its cached state, the
//! mixer arguments that query or change it, and how each answer updates it.
use vstd::prelude::*;
use crate::error::SoundError;
use crate::parse::{info_of, parse_info};
use crate::display::{percent_text, format_percent};

verus! {

pub struct AlsaSoundDevice {
    /// Mixer control name.
    pub name: String,
    /// Mixer device.
    pub device: String,
    pub natural_mapping: bool,
    /// Volume in percent, as last read or set.
    pub volume: u32,
    pub muted: bool,
}

/// The contents of each string of `v`.
pub open spec fn texts(v: Seq<String>) -> Seq<Seq<char>> {
    v.map_values(|s: String| s@)
}

/// The leading mixer arguments: `-M` when natural mapping is on, then `-D <device>`.
pub open spec fn base_args(natural_mapping: bool, device: Seq<char>) -> Seq<Seq<char>> {
    if natural_mapping {
        seq!["-M"@, "-D"@, device]
    } else {
        seq!["-D"@, device]
    }
}

/// The state after a query printed `out`: the reading when it parses, else unchanged.
pub open spec fn refreshed(d: AlsaSoundDevice, out: Seq<char>) -> AlsaSoundDevice {
    match info_of(out) {
        Ok((v, m)) => AlsaSoundDevice { volume: v, muted: m, ..d },
        Err(_) => d,
    }
}

/// The volume a step of `delta` leads to from `current`: never below 0, never
/// above `cap` when there is one, and never past what a `u32` holds.
pub open spec fn stepped_volume(current: u32, delta: int, cap: Option<u32>) -> u32 {
    let raw = current + delta;
    let n: int = if raw < 0 {
        0
    } else if raw > u32::MAX {
        u32::MAX as int
    } else {
        raw
    };
    match cap {
        Some(c) => if n < c {
            n as u32
        } else {
            c
        },
        None => n as u32,
    }
}

fn push_str(v: &mut Vec<String>, s: &str)
    ensures
        texts(final(v)@) == texts(old(v)@).push(s@),
{
    let ghost before = texts(v@);
    v.push(String::from_str(s));
    assert(texts(v@) =~= before.push(s@));
}

impl AlsaSoundDevice {
    /// A handle on control `name` of `device`; nothing is read yet.
    pub fn new(name: String, device: String, natural_mapping: bool) -> (r: Self)
        ensures
            r.name == name,
            r.device == device,
            r.natural_mapping == natural_mapping,
            r.volume == 0,
            !r.muted,
    {
        AlsaSoundDevice { name, device, natural_mapping, volume: 0, muted: false }
    }

    pub fn volume(&self) -> (r: u32)
        ensures
            r == self.volume,
    {
        self.volume
    }

    pub fn muted(&self) -> (r: bool)
        ensures
            r == self.muted,
    {
        self.muted
    }

    pub fn output_name(&self) -> (r: String)
        ensures
            r@ == self.name@,
    {
        self.name.clone()
    }

    fn base(&self) -> (r: Vec<String>)
        ensures
            texts(r@) == base_args(self.natural_mapping, self.device@),
    {
        let mut r: Vec<String> = Vec::new();
        if self.natural_mapping {
            push_str(&mut r, "-M");
        }
        push_str(&mut r, "-D");
        push_str(&mut r, self.device.as_str());
        assert(texts(r@) =~= base_args(self.natural_mapping, self.device@));
        r
    }

    /// Mixer arguments that print the control's state.
    pub fn query_args(&self) -> (r: Vec<String>)
        ensures
            texts(r@) == base_args(self.natural_mapping, self.device@) + seq!["get"@, self.name@],
    {
        let mut r = self.base();
        let ghost b = texts(r@);
        push_str(&mut r, "get");
        push_str(&mut r, self.name.as_str());
        assert(texts(r@) =~= b + seq!["get"@, self.name@]);
        r
    }

    /// Takes in what the query printed: on success the volume and switch state
    /// are those of the reading; on failure nothing changes.
    pub fn get_info(&mut self, output: &str) -> (r: Result<(), SoundError>)
        ensures
            *final(self) == refreshed(*old(self), output@),
            r == match info_of(output@) {
                Ok(_) => Ok::<(), SoundError>(()),
                Err(e) => Err(e),
            },
    {
        match parse_info(output) {
            Ok((v, m)) => {
                self.volume = v;
                self.muted = m;
                Ok(())
            },
            Err(e) => Err(e),
        }
    }

    /// The volume a wheel step of `step` would set.
    pub fn volume_target(&self, step: i32, max_vol: Option<u32>) -> (r: u32)
        ensures
            r == stepped_volume(self.volume, step as int, max_vol),
    {
        let raw: i64 = self.volume as i64 + step as i64;
        let n: u32 = if raw < 0 {
            0
        } else if raw > u32::MAX as i64 {
            u32::MAX
        } else {
            raw as u32
        };
        match max_vol {
            Some(c) => if n < c {
                n
            } else {
                c
            },
            None => n,
        }
    }

    /// Mixer arguments that set the volume to `target` percent.
    pub fn set_volume_args(&self, target: u32) -> (r: Vec<String>)
        ensures
            texts(r@) == base_args(self.natural_mapping, self.device@) + seq![
                "set"@,
                self.name@,
                percent_text(target as nat),
            ],
    {
        let mut r = self.base();
        let ghost b = texts(r@);
        push_str(&mut r, "set");
        push_str(&mut r, self.name.as_str());
        let p = format_percent(target);
        push_str(&mut r, p.as_str());
        assert(texts(r@) =~= b + seq!["set"@, self.name@, percent_text(target as nat)]);
        r
    }

    /// Mixer arguments that flip the control's switch.
    pub fn toggle_args(&self) -> (r: Vec<String>)
        ensures
            texts(r@) == base_args(self.natural_mapping, self.device@) + seq![
                "set"@,
                self.name@,
                "toggle"@,
            ],
    {
        let mut r = self.base();
        let ghost b = texts(r@);
        push_str(&mut r, "set");
        push_str(&mut r, self.name.as_str());
        push_str(&mut r, "toggle");
        assert(texts(r@) =~= b + seq!["set"@, self.name@, "toggle"@]);
        r
    }

    /// Records that the mixer accepted a new volume, without asking it again.
    pub fn volume_set(&mut self, target: u32)
        ensures
            *final(self) == (AlsaSoundDevice { volume: target, ..*old(self) }),
    {
        self.volume = target;
    }

    /// Records that the mixer flipped the switch, without asking it again.
    pub fn toggled(&mut self)
        ensures
            *final(self) == (AlsaSoundDevice { muted: !old(self).muted, ..*old(self) }),
    {
        self.muted = !self.muted;
    }
}

/// Within the mixer's range (volume and cap at most 100, a step of at most 50
/// either way) a step gives `min(max(0, current + delta), cap)`, with no cap
/// meaning no bound.
pub proof fn volume_arithmetic(current: u32, delta: int, cap: Option<u32>)
    requires
        current <= 100,
        -50 <= delta <= 50,
        cap matches Some(c) ==> c <= 100,
    ensures
        ({
            let n = if current + delta < 0 {
                0
            } else {
                current + delta
            };
            stepped_volume(current, delta, cap) == match cap {
                Some(c) => if n < c {
                    n
                } else {
                    c as int
                },
                None => n,
            }
        }),
        stepped_volume(current, delta, cap) <= 150,
{
}

/// Taking in the same query output twice leaves the state as once did.
pub proof fn refresh_idempotent(d: AlsaSoundDevice, out: Seq<char>)
    ensures
        refreshed(refreshed(d, out), out) == refreshed(d, out),
{
}

} // verus!
