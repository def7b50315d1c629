use sound_block::display::{format_percent, icon, render_text};
use sound_block::{
    Action, AlsaSoundDevice, DeviceKind, DisplayPayload, Event, MouseButton, Mutation, Phase,
    SoundBlock, SoundConfig, SoundError, WidgetState,
};

fn strs(v: &[&str]) -> Vec<String> {
    v.iter().map(|s| s.to_string()).collect()
}

fn shown(a: Action) -> DisplayPayload {
    match a {
        Action::Show(p) => p,
        _ => panic!("expected a display"),
    }
}

fn run_args(a: Action) -> Vec<String> {
    match a {
        Action::Run(v) => v,
        _ => panic!("expected a mixer run"),
    }
}

fn stopped(a: Action) -> SoundError {
    match a {
        Action::Stop(e) => e,
        _ => panic!("expected a stop"),
    }
}

fn block_at(config: SoundConfig, line: &str) -> (SoundBlock, DisplayPayload) {
    let mut b = SoundBlock::new(config);
    let p = shown(b.step(Event::Queried(line.to_string())));
    (b, p)
}

#[test]
fn icon_boundaries() {
    assert_eq!(icon(DeviceKind::Sink, 0), "volume_muted");
    assert_eq!(icon(DeviceKind::Sink, 1), "volume_empty");
    assert_eq!(icon(DeviceKind::Sink, 20), "volume_empty");
    assert_eq!(icon(DeviceKind::Sink, 21), "volume_half");
    assert_eq!(icon(DeviceKind::Sink, 70), "volume_half");
    assert_eq!(icon(DeviceKind::Sink, 71), "volume_full");
    assert_eq!(icon(DeviceKind::Sink, 100), "volume_full");
    assert_eq!(icon(DeviceKind::Source, 0), "microphone_muted");
    assert_eq!(icon(DeviceKind::Source, 50), "microphone_half");
    assert_eq!(icon(DeviceKind::Source, 90), "microphone_full");
}

#[test]
fn percent_text() {
    assert_eq!(format_percent(0), "0%");
    assert_eq!(format_percent(7), "7%");
    assert_eq!(format_percent(100), "100%");
    assert_eq!(format_percent(4294967295), "4294967295%");
}

#[test]
fn template_rendering() {
    assert_eq!(render_text("{volume}", "37%", "Master"), "37%");
    assert_eq!(render_text("{output_name}: {volume}!", "5%", "Speakers"), "Speakers: 5%!");
    assert_eq!(render_text("{vol} {}", "5%", "x"), "{vol} {}");
    assert_eq!(render_text("", "5%", "x"), "");
}

#[test]
fn config_defaults() {
    let c = SoundConfig::default();
    assert_eq!(c.step_width, 5);
    assert_eq!(c.device_kind, DeviceKind::Sink);
    assert!(c.name.is_none() && c.device.is_none() && c.max_vol.is_none());
    assert!(!c.natural_mapping && !c.show_volume_when_muted);
    assert_eq!(DeviceKind::default(), DeviceKind::Sink);
}

#[test]
fn step_width_is_clamped() {
    let mut c = SoundConfig::default();
    c.step_width = 80;
    assert_eq!(c.clamped_step_width(), 50);
    c.step_width = 50;
    assert_eq!(c.clamped_step_width(), 50);
    c.step_width = 0;
    assert_eq!(c.clamped_step_width(), 0);
}

#[test]
fn new_device_is_silent_and_unmuted() {
    let d = AlsaSoundDevice::new("Master".to_string(), "default".to_string(), false);
    assert_eq!(d.volume(), 0);
    assert!(!d.muted());
    assert_eq!(d.output_name(), "Master");
}

#[test]
fn mixer_arguments() {
    let d = AlsaSoundDevice::new("Capture".to_string(), "hw:1".to_string(), false);
    assert_eq!(d.query_args(), strs(&["-D", "hw:1", "get", "Capture"]));
    let n = AlsaSoundDevice::new("Master".to_string(), "default".to_string(), true);
    assert_eq!(n.query_args(), strs(&["-M", "-D", "default", "get", "Master"]));
    assert_eq!(n.set_volume_args(55), strs(&["-M", "-D", "default", "set", "Master", "55%"]));
    assert_eq!(n.toggle_args(), strs(&["-M", "-D", "default", "set", "Master", "toggle"]));
}

#[test]
fn volume_steps() {
    let mut d = AlsaSoundDevice::new("Master".to_string(), "default".to_string(), false);
    d.volume_set(50);
    assert_eq!(d.volume_target(5, None), 55);
    assert_eq!(d.volume_target(-5, None), 45);
    assert_eq!(d.volume_target(-50, None), 0);
    assert_eq!(d.volume_target(50, Some(90)), 90);
    assert_eq!(d.volume_target(5, Some(90)), 55);
    d.volume_set(98);
    assert_eq!(d.volume_target(5, None), 103);
    assert_eq!(d.volume_target(5, Some(100)), 100);
    d.volume_set(3);
    assert_eq!(d.volume_target(-5, Some(90)), 0);
    d.volume_set(4294967290);
    assert_eq!(d.volume_target(50, None), 4294967295);
}

#[test]
fn toggle_flips_cached_switch() {
    let mut d = AlsaSoundDevice::new("Master".to_string(), "default".to_string(), false);
    d.toggled();
    assert!(d.muted());
    d.toggled();
    assert!(!d.muted());
}

#[test]
fn refresh_twice_is_refresh_once() {
    let mut d = AlsaSoundDevice::new("Master".to_string(), "default".to_string(), false);
    assert_eq!(d.get_info("Mono: [37%] [off]"), Ok(()));
    let (v, m) = (d.volume(), d.muted());
    assert_eq!(d.get_info("Mono: [37%] [off]"), Ok(()));
    assert_eq!((d.volume(), d.muted()), (v, m));
    assert_eq!((v, m), (37, true));
}

#[test]
fn failed_refresh_keeps_state() {
    let mut d = AlsaSoundDevice::new("Master".to_string(), "default".to_string(), false);
    assert_eq!(d.get_info("Mono: [37%] [off]"), Ok(()));
    assert_eq!(d.get_info("Mono: [-3.00dB]"), Err(SoundError::NoVolume));
    assert_eq!((d.volume(), d.muted()), (37, true));
}

#[test]
fn unmuted_display() {
    let (_, p) = block_at(SoundConfig::default(), "Mono: [37%] [on]");
    assert_eq!(p.text, "37%");
    assert_eq!(p.icon, "volume_half");
    assert_eq!(p.state, WidgetState::Idle);
}

#[test]
fn muted_display_hides_text() {
    let (_, p) = block_at(SoundConfig::default(), "Mono: [80%] [off]");
    assert_eq!(p.text, "");
    assert_eq!(p.icon, "volume_muted");
    assert_eq!(p.state, WidgetState::Warning);
}

#[test]
fn muted_display_can_show_volume() {
    let mut c = SoundConfig::default();
    c.show_volume_when_muted = true;
    c.device_kind = DeviceKind::Source;
    let (_, p) = block_at(c, "Mono: [80%] [off]");
    assert_eq!(p.text, "80%");
    assert_eq!(p.icon, "microphone_muted");
    assert_eq!(p.state, WidgetState::Warning);
}

#[test]
fn name_is_remapped() {
    let mut c = SoundConfig::default();
    c.format = Some("{output_name} {volume}".to_string());
    c.mappings = Some(vec![("Master".to_string(), "Speakers".to_string())]);
    let (b, p) = block_at(c, "Mono: [10%] [on]");
    assert_eq!(p.text, "Speakers 10%");
    assert_eq!(b.config.map_name(&"Master".to_string()), "Speakers");
    assert_eq!(b.config.map_name(&"Headphone".to_string()), "Headphone");
}

#[test]
fn name_without_mapping_is_kept() {
    let mut c = SoundConfig::default();
    c.format = Some("{output_name}".to_string());
    let (_, p) = block_at(c, "Mono: [10%] [on]");
    assert_eq!(p.text, "Master");
    let mut c = SoundConfig::default();
    c.format = Some("{output_name}".to_string());
    c.mappings = Some(vec![("PCM".to_string(), "Speakers".to_string())]);
    let (_, p) = block_at(c, "Mono: [10%] [on]");
    assert_eq!(p.text, "Master");
}

#[test]
fn block_starts_with_query() {
    let mut c = SoundConfig::default();
    c.name = Some("Capture".to_string());
    c.device = Some("hw:0".to_string());
    let b = SoundBlock::new(c);
    assert_eq!(b.phase, Phase::Refreshing);
    assert_eq!(b.start(), strs(&["-D", "hw:0", "get", "Capture"]));
    let d = SoundBlock::new(SoundConfig::default());
    assert_eq!(d.start(), strs(&["-D", "default", "get", "Master"]));
}

#[test]
fn wheel_up_then_failed_refresh_stops() {
    let mut c = SoundConfig::default();
    c.step_width = 5;
    c.max_vol = Some(90);
    let (mut b, _) = block_at(c, "Mono: [50%] [on]");
    assert_eq!(b.phase, Phase::Awaiting);
    let a = run_args(b.step(Event::Clicked(MouseButton::WheelUp)));
    assert_eq!(a, strs(&["-D", "default", "set", "Master", "55%"]));
    assert_eq!(b.phase, Phase::Mutating(Mutation::Volume(55)));
    let q = run_args(b.step(Event::Applied));
    assert_eq!(q, strs(&["-D", "default", "get", "Master"]));
    assert_eq!(b.device.volume(), 55);
    let e = stopped(b.step(Event::Queried("amixer: Unable to find simple control".to_string())));
    assert_eq!(e, SoundError::NoVolume);
    assert_eq!(b.phase, Phase::Stopped(SoundError::NoVolume));
    assert_eq!(stopped(b.step(Event::Changed)), SoundError::NoVolume);
    assert_eq!(stopped(b.step(Event::Queried("Mono: [50%]".to_string()))), SoundError::NoVolume);
    assert_eq!(b.device.volume(), 55);
}

#[test]
fn wheel_steps_respect_cap() {
    let mut c = SoundConfig::default();
    c.step_width = 20;
    c.max_vol = Some(90);
    let (mut b, _) = block_at(c, "Mono: [85%] [on]");
    assert_eq!(b.reaction(MouseButton::WheelUp), Some(Mutation::Volume(90)));
    assert_eq!(b.reaction(MouseButton::WheelDown), Some(Mutation::Volume(65)));
    assert_eq!(b.reaction(MouseButton::Right), Some(Mutation::Toggle));
    assert_eq!(b.reaction(MouseButton::Left), None);
    run_args(b.step(Event::Clicked(MouseButton::WheelDown)));
    run_args(b.step(Event::Applied));
    assert_eq!(b.device.volume(), 65);
}

#[test]
fn right_click_toggles() {
    let (mut b, _) = block_at(SoundConfig::default(), "Mono: [40%] [on]");
    let a = run_args(b.step(Event::Clicked(MouseButton::Right)));
    assert_eq!(a, strs(&["-D", "default", "set", "Master", "toggle"]));
    run_args(b.step(Event::Applied));
    assert!(b.device.muted());
    assert_eq!(b.phase, Phase::Refreshing);
}

#[test]
fn other_click_refreshes() {
    let (mut b, _) = block_at(SoundConfig::default(), "Mono: [40%] [on]");
    let a = run_args(b.step(Event::Clicked(MouseButton::Middle)));
    assert_eq!(a, strs(&["-D", "default", "get", "Master"]));
    assert_eq!(b.phase, Phase::Refreshing);
    assert_eq!(b.device.volume(), 40);
}

#[test]
fn change_notice_refreshes() {
    let (mut b, _) = block_at(SoundConfig::default(), "Mono: [40%] [on]");
    let a = run_args(b.step(Event::Changed));
    assert_eq!(a, strs(&["-D", "default", "get", "Master"]));
    let p = shown(b.step(Event::Queried("Mono: [60%] [on]".to_string())));
    assert_eq!(p.text, "60%");
}

#[test]
fn spawn_failure_stops() {
    let mut b = SoundBlock::new(SoundConfig::default());
    assert_eq!(stopped(b.step(Event::Failed(SoundError::Spawn))), SoundError::Spawn);
    assert_eq!(b.phase, Phase::Stopped(SoundError::Spawn));
}

#[test]
fn delivery_failure_stops() {
    let (mut b, _) = block_at(SoundConfig::default(), "Mono: [40%] [on]");
    assert_eq!(stopped(b.step(Event::Failed(SoundError::Delivery))), SoundError::Delivery);
    assert_eq!(stopped(b.step(Event::Clicked(MouseButton::Right))), SoundError::Delivery);
}

#[test]
fn config_error_stops() {
    let mut b = SoundBlock::new(SoundConfig::default());
    assert_eq!(stopped(b.step(Event::Failed(SoundError::Config))), SoundError::Config);
}

#[test]
fn bad_output_stops() {
    let mut b = SoundBlock::new(SoundConfig::default());
    assert_eq!(stopped(b.step(Event::Queried("   ".to_string()))), SoundError::NoOutput);
    let mut b = SoundBlock::new(SoundConfig::default());
    assert_eq!(stopped(b.step(Event::Queried("Mono: [x%]".to_string()))), SoundError::BadVolume);
}

#[test]
fn out_of_phase_event_waits() {
    let mut b = SoundBlock::new(SoundConfig::default());
    assert!(matches!(b.step(Event::Changed), Action::Wait));
    assert!(matches!(b.step(Event::Applied), Action::Wait));
    assert_eq!(b.phase, Phase::Refreshing);
}
