use laptop_lights::control::{Controller, Output, Phase, Request, Signal};
use laptop_lights::types::{build_device, Message, Preferences};

fn prefs() -> Preferences {
    Preferences { idle_timeout: 60, tick_time: 5, dim_percent: 60, keyboard_steps: 10, display_steps: 10 }
}

/// Display max 255 (step 25), keyboard max 100 (step 10), ambient 297, so the
/// display starts at 100 and the keyboard at 0.
fn start() -> Controller {
    let p = prefs();
    let kbd = build_device("/k", 100, p.keyboard_steps);
    let dsp = build_device("/d", 255, p.display_steps);
    Controller::new(&p, &kbd, &dsp, 297)
}

fn quiet() -> Output {
    Output { display: None, keyboard: None, request: Request::Nothing }
}

fn event(c: &mut Controller, m: Message) -> Output {
    c.step(Signal::Event(m))
}

/// One full tick: answer whatever the machine asks with `als` and `playing`.
fn tick(c: &mut Controller, als: u32, playing: bool) -> Vec<Output> {
    let mut outs = vec![c.step(Signal::Event(Message::Tick))];
    loop {
        let next = match outs.last().unwrap().request {
            Request::Nothing => break,
            Request::MediaStatus => Signal::MediaPlaying(playing),
            Request::AmbientReading => Signal::AmbientReading(als),
        };
        outs.push(c.step(next));
    }
    outs
}

fn written(outs: &[Output]) -> Vec<(Option<u32>, Option<u32>)> {
    outs.iter().filter(|o| o.display.is_some() || o.keyboard.is_some()).map(|o| (o.display, o.keyboard)).collect()
}

#[test]
fn startup_state_and_writes() {
    let c = start();
    assert_eq!((c.dsp_val, c.kbd_val, c.als_value), (100, 0, 297));
    assert!(!c.idle && !c.dsp_override && !c.kbd_override);
    assert_eq!(c.idle_time, 0);
    assert_eq!(c.phase, Phase::Ready);
    assert_eq!(c.initial_output(), Output { display: Some(100), keyboard: Some(0), request: Request::Nothing });
}

#[test]
fn display_up_from_hundred_writes_125() {
    let mut c = start();
    assert_eq!(c.dsp_step, 25);
    let out = event(&mut c, Message::DspUp);
    assert_eq!(out, Output { display: Some(125), keyboard: None, request: Request::Nothing });
    assert_eq!(c.dsp_val, 125);
    assert!(c.dsp_override);
    assert!(!c.kbd_override);
}

#[test]
fn manual_steps_cap_and_floor() {
    let mut c = start();
    for _ in 0..10 {
        event(&mut c, Message::DspUp);
    }
    assert_eq!(c.dsp_val, 255);
    for _ in 0..20 {
        event(&mut c, Message::KbdDown);
    }
    assert_eq!(c.kbd_val, 0);
    assert_eq!(event(&mut c, Message::KbdUp).keyboard, Some(10));
    assert_eq!(event(&mut c, Message::DspDown).display, Some(230));
}

#[test]
fn activity_while_active_changes_nothing() {
    let mut c = start();
    let before = c;
    assert_eq!(event(&mut c, Message::Input), quiet());
    assert_eq!(format!("{:?}", c), format!("{:?}", before));
}

#[test]
fn idle_after_timeout_then_restore() {
    let mut c = start();
    for n in 1..=13 {
        let outs = tick(&mut c, 297, false);
        assert!(written(&outs).is_empty(), "tick {}", n);
        assert!(!c.idle, "tick {}", n);
    }
    assert_eq!(c.idle_time, 65);
    let outs = tick(&mut c, 297, false);
    assert_eq!(written(&outs), vec![(Some(60), Some(0))]);
    assert!(c.idle);
    assert_eq!((c.dsp_val, c.kbd_val), (100, 0));
    for _ in 0..5 {
        assert!(written(&tick(&mut c, 3, false)).is_empty());
        assert!(c.idle);
    }
    let out = event(&mut c, Message::Input);
    assert_eq!(out, Output { display: Some(100), keyboard: Some(0), request: Request::Nothing });
    assert!(!c.idle);
    assert_eq!(c.idle_time, 0);
}

#[test]
fn media_playing_keeps_active() {
    let mut c = start();
    for _ in 0..13 {
        tick(&mut c, 297, true);
    }
    let outs = tick(&mut c, 0, true);
    assert_eq!(outs[0].request, Request::MediaStatus);
    assert_eq!(outs[1].request, Request::AmbientReading);
    assert!(!c.idle);
    assert_eq!(written(&outs), vec![(Some(22), Some(10))]);
}

#[test]
fn ambient_change_retargets_channels() {
    let mut c = start();
    let outs = tick(&mut c, 0, false);
    assert_eq!(written(&outs), vec![(Some(22), Some(10))]);
    assert_eq!((c.dsp_val, c.kbd_val, c.als_value), (22, 10, 0));
    // only the channel whose target moved is written
    assert_eq!(written(&tick(&mut c, 1, false)), vec![(Some(23), None)]);
    assert_eq!(c.als_value, 1);
    assert_eq!(c.idle_time, 10);
}

#[test]
fn override_pins_channel() {
    let mut c = start();
    event(&mut c, Message::DspUp);
    event(&mut c, Message::KbdUp);
    for als in [0u32, 1000, 3, 500, 0] {
        assert!(written(&tick(&mut c, als, false)).is_empty());
        assert_eq!((c.dsp_val, c.kbd_val), (125, 10));
    }
    assert!(c.dsp_override && c.kbd_override);
}

#[test]
fn override_of_one_channel_leaves_other_automatic() {
    let mut c = start();
    event(&mut c, Message::DspDown);
    let outs = tick(&mut c, 0, false);
    assert_eq!(written(&outs), vec![(None, Some(10))]);
    assert_eq!(c.dsp_val, 75);
}

#[test]
fn manual_step_while_idle_wakes_without_restoring() {
    let mut c = start();
    for _ in 0..14 {
        tick(&mut c, 297, false);
    }
    assert!(c.idle);
    let out = event(&mut c, Message::KbdUp);
    assert_eq!(out, Output { display: None, keyboard: Some(10), request: Request::Nothing });
    assert!(!c.idle);
    assert_eq!(c.idle_time, 0);
}

#[test]
fn signal_out_of_phase_is_ignored() {
    let mut c = start();
    assert_eq!(c.step(Signal::AmbientReading(0)), quiet());
    assert_eq!(c.step(Signal::MediaPlaying(false)), quiet());
    assert_eq!(c.dsp_val, 100);
    assert_eq!(event(&mut c, Message::Tick).request, Request::AmbientReading);
    assert_eq!(event(&mut c, Message::DspUp), quiet());
    assert_eq!(c.phase, Phase::AwaitingAmbient);
}
