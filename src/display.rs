//! What the block shows: icon, visual state and text, from the device state.
use vstd::prelude::*;
use crate::DeviceKind;
use crate::config::{SoundConfig, display_name};
use crate::text::{decimal, push_decimal, chars_of, string_of};

verus! {

/// Visual state of the widget.
#[derive(Clone, Copy, Debug, PartialEq, Eq, Structural)]
pub enum WidgetState {
    Idle,
    Warning,
}

/// One rendering of the block, handed to the bar.
#[derive(Clone, Debug)]
pub struct DisplayPayload {
    pub text: String,
    pub icon: String,
    pub state: WidgetState,
}

pub open spec fn icon_prefix(kind: DeviceKind) -> Seq<char> {
    match kind {
        DeviceKind::Source => "microphone"@,
        DeviceKind::Sink => "volume"@,
    }
}

pub open spec fn icon_suffix(volume: nat) -> Seq<char> {
    if volume == 0 {
        "muted"@
    } else if volume <= 20 {
        "empty"@
    } else if volume <= 70 {
        "half"@
    } else {
        "full"@
    }
}

pub open spec fn icon_key(kind: DeviceKind, volume: nat) -> Seq<char> {
    icon_prefix(kind) + "_"@ + icon_suffix(volume)
}

/// The icon key for a device of `kind` at `volume`.
pub fn icon(kind: DeviceKind, volume: u32) -> (r: String)
    ensures
        r@ == icon_key(kind, volume as nat),
{
    let prefix = match kind {
        DeviceKind::Source => "microphone",
        DeviceKind::Sink => "volume",
    };
    let suffix = if volume == 0 {
        "muted"
    } else if volume <= 20 {
        "empty"
    } else if volume <= 70 {
        "half"
    } else {
        "full"
    };
    let mut r = String::from_str(prefix);
    r.append("_");
    r.append(suffix);
    r
}

pub open spec fn volume_key() -> Seq<char> {
    seq!['{', 'v', 'o', 'l', 'u', 'm', 'e', '}']
}

pub open spec fn name_key() -> Seq<char> {
    seq!['{', 'o', 'u', 't', 'p', 'u', 't', '_', 'n', 'a', 'm', 'e', '}']
}

pub open spec fn starts_with(s: Seq<char>, k: Seq<char>) -> bool {
    k.len() <= s.len() && s.subrange(0, k.len() as int) == k
}

/// `template` with each `{volume}` replaced by `volume` and each
/// `{output_name}` by `name`; every other character is kept.
pub open spec fn render(template: Seq<char>, volume: Seq<char>, name: Seq<char>) -> Seq<char>
    decreases template.len(),
{
    if template.len() == 0 {
        seq![]
    } else if starts_with(template, volume_key()) {
        volume + render(template.subrange(volume_key().len() as int, template.len() as int), volume, name)
    } else if starts_with(template, name_key()) {
        name + render(template.subrange(name_key().len() as int, template.len() as int), volume, name)
    } else {
        seq![template[0]] + render(template.drop_first(), volume, name)
    }
}

/// A volume as the text shows it: the number followed by `%`.
pub open spec fn percent_text(volume: nat) -> Seq<char> {
    decimal(volume).push('%')
}

pub open spec fn template_of(config: SoundConfig) -> Seq<char> {
    match config.format {
        Some(f) => f@,
        None => "{volume}"@,
    }
}

/// The text shown for a device named `name` at `volume`.
pub open spec fn shown_text(config: SoundConfig, volume: nat, muted: bool, name: Seq<char>) -> Seq<
    char,
> {
    if muted && !config.show_volume_when_muted {
        seq![]
    } else {
        render(template_of(config), percent_text(volume), display_name(config.mappings, name))
    }
}

fn key_at(s: &Vec<char>, i: usize, k: &Vec<char>) -> (r: bool)
    requires
        i <= s@.len(),
    ensures
        r == starts_with(s@.subrange(i as int, s@.len() as int), k@),
{
    let n = s.len();
    if k.len() > n - i {
        return false;
    }
    let mut j: usize = 0;
    while j < k.len()
        invariant
            i <= s@.len() == n,
            j <= k@.len(),
            i + k@.len() <= s@.len(),
            forall|t: int| 0 <= t < j ==> s@[i + t] == #[trigger] k@[t],
        decreases k@.len() - j,
    {
        if s[i + j] != k[j] {
            assert(s@.subrange(i as int, s@.len() as int).subrange(0, k@.len() as int)[j as int]
                != k@[j as int]);
            return false;
        }
        j = j + 1;
    }
    assert(s@.subrange(i as int, s@.len() as int).subrange(0, k@.len() as int) =~= k@);
    true
}

fn extend(out: &mut Vec<char>, w: &Vec<char>)
    ensures
        final(out)@ == old(out)@ + w@,
{
    let mut j: usize = 0;
    while j < w.len()
        invariant
            j <= w@.len(),
            out@ == old(out)@ + w@.subrange(0, j as int),
        decreases w@.len() - j,
    {
        out.push(w[j]);
        assert(out@ =~= old(out)@ + w@.subrange(0, j + 1));
        j = j + 1;
    }
    assert(w@.subrange(0, w@.len() as int) =~= w@);
}

/// Expands the placeholders of `template`.
pub fn render_text(template: &str, volume: &str, name: &str) -> (r: String)
    ensures
        r@ == render(template@, volume@, name@),
{
    let t = chars_of(template);
    let v = chars_of(volume);
    let n = chars_of(name);
    let vk: Vec<char> = vec!['{', 'v', 'o', 'l', 'u', 'm', 'e', '}'];
    let nk: Vec<char> = vec!['{', 'o', 'u', 't', 'p', 'u', 't', '_', 'n', 'a', 'm', 'e', '}'];
    assert(vk@ =~= volume_key());
    assert(nk@ =~= name_key());
    let mut out: Vec<char> = Vec::new();
    let mut i: usize = 0;
    assert(t@.subrange(0, t@.len() as int) =~= t@);
    while i < t.len()
        invariant
            i <= t@.len(),
            vk@ == volume_key(),
            nk@ == name_key(),
            render(t@, v@, n@) == out@ + render(t@.subrange(i as int, t@.len() as int), v@, n@),
        decreases t@.len() - i,
    {
        let ghost rest = t@.subrange(i as int, t@.len() as int);
        if key_at(&t, i, &vk) {
            assert(rest.subrange(8, rest.len() as int) =~= t@.subrange(i + 8, t@.len() as int));
            extend(&mut out, &v);
            assert(render(t@, v@, n@) =~= out@ + render(t@.subrange(i + 8, t@.len() as int), v@, n@));
            i = i + 8;
        } else if key_at(&t, i, &nk) {
            assert(rest.subrange(13, rest.len() as int) =~= t@.subrange(i + 13, t@.len() as int));
            extend(&mut out, &n);
            assert(render(t@, v@, n@) =~= out@ + render(t@.subrange(i + 13, t@.len() as int), v@, n@));
            i = i + 13;
        } else {
            assert(rest.drop_first() =~= t@.subrange(i + 1, t@.len() as int));
            let ghost before = out@;
            out.push(t[i]);
            assert(out@ =~= before + seq![rest[0]]);
            assert(render(t@, v@, n@) =~= out@ + render(t@.subrange(i + 1, t@.len() as int), v@, n@));
            i = i + 1;
        }
    }
    assert(render(t@.subrange(i as int, t@.len() as int), v@, n@) =~= Seq::<char>::empty());
    assert(out@ =~= render(t@, v@, n@));
    string_of(&out)
}

/// The number followed by `%`.
pub fn format_percent(volume: u32) -> (r: String)
    ensures
        r@ == percent_text(volume as nat),
{
    let mut v: Vec<char> = Vec::new();
    push_decimal(volume, &mut v);
    v.push('%');
    assert(v@ =~= percent_text(volume as nat));
    string_of(&v)
}

/// Every volume up to 100 gets exactly one of the four icon levels: `muted`
/// for 0, `empty` for 1 to 20, `half` for 21 to 70 and `full` above.
pub proof fn icon_levels(kind: DeviceKind, volume: nat)
    requires
        volume <= 100,
    ensures
        icon_key(kind, volume) == icon_prefix(kind) + "_"@ + icon_suffix(volume),
        icon_suffix(volume) == "muted"@ || icon_suffix(volume) == "empty"@ || icon_suffix(volume)
            == "half"@ || icon_suffix(volume) == "full"@,
        (icon_suffix(volume) == "muted"@) == (volume == 0),
        (icon_suffix(volume) == "empty"@) == (1 <= volume <= 20),
        (icon_suffix(volume) == "half"@) == (21 <= volume <= 70),
        (icon_suffix(volume) == "full"@) == (71 <= volume <= 100),
{
    reveal_strlit("muted");
    reveal_strlit("empty");
    reveal_strlit("half");
    reveal_strlit("full");
    assert("muted"@ != "empty"@) by {
        assert("muted"@[0] != "empty"@[0]);
    }
    assert("muted"@ != "half"@) by {
        assert("muted"@.len() != "half"@.len());
    }
    assert("muted"@ != "full"@) by {
        assert("muted"@.len() != "full"@.len());
    }
    assert("empty"@ != "half"@) by {
        assert("empty"@.len() != "half"@.len());
    }
    assert("empty"@ != "full"@) by {
        assert("empty"@.len() != "full"@.len());
    }
    assert("half"@ != "full"@) by {
        assert("half"@[0] != "full"@[0]);
    }
}

} // verus!
