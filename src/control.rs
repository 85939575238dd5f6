//! The state machine that owns every brightness decision. It consumes one
//! signal at a time and answers with the writes to perform and, during a
//! tick, the one reading it still needs from the outside world.

use crate::policy::{
    als_to_dsp, als_to_kb, dimmed, dsp_target, kbd_target, level_limit, mult, step_down, step_up,
    stepped_down, stepped_up,
};
use crate::types::{BacklightDevice, Message, Preferences};
use vstd::prelude::*;

verus! {

/// Where the machine stands within the handling of one tick.
#[derive(Clone, Copy, Debug, PartialEq, Eq, Structural)]
pub enum Phase {
    /// Waiting for the next event.
    Ready,
    /// A tick found the idle timeout passed: is media playing?
    AwaitingMedia,
    /// A tick wants a fresh ambient light reading.
    AwaitingAmbient,
}

/// What the machine is handed: an event, or the reading it asked for.
#[derive(Clone, Copy, Debug, PartialEq, Eq, Structural)]
pub enum Signal {
    Event(Message),
    MediaPlaying(bool),
    AmbientReading(u32),
}

/// What the machine needs next from the outside world.
#[derive(Clone, Copy, Debug, PartialEq, Eq, Structural)]
pub enum Request {
    Nothing,
    MediaStatus,
    AmbientReading,
}

/// The writes to perform, display first, then what to read next.
#[derive(Clone, Copy, Debug, PartialEq, Eq)]
pub struct Output {
    pub display: Option<u32>,
    pub keyboard: Option<u32>,
    pub request: Request,
}

/// An output with the given writes and no request.
pub open spec fn writes(display: Option<u32>, keyboard: Option<u32>) -> Output {
    Output { display, keyboard, request: Request::Nothing }
}

/// An output that writes nothing and asks for `request`.
pub open spec fn asks(request: Request) -> Output {
    Output { display: None, keyboard: None, request }
}

/// `a + b`, held at the largest `u64`.
pub open spec fn sat_add(a: u64, b: u64) -> u64 {
    if a + b > u64::MAX {
        u64::MAX
    } else {
        (a + b) as u64
    }
}

/// A level as the policy computes it, held at the largest `u32`.
pub open spec fn capped(v: int) -> u32 {
    if v > level_limit() {
        u32::MAX
    } else {
        v as u32
    }
}

/// The whole state of the daemon: its fixed preferences and channel sizes,
/// and the levels, flags and timer that events change.
#[derive(Clone, Copy, Debug)]
pub struct Controller {
    pub idle_timeout: u64,
    pub tick_time: u64,
    pub dim_percent: u32,
    pub dsp_max: u32,
    pub dsp_step: u32,
    pub kbd_max: u32,
    pub kbd_step: u32,
    pub als_value: u32,
    pub dsp_val: u32,
    pub kbd_val: u32,
    pub dsp_override: bool,
    pub kbd_override: bool,
    pub idle: bool,
    pub idle_time: u64,
    pub phase: Phase,
}

impl Controller {
    pub open spec fn wf(&self) -> bool {
        self.dim_percent <= 100
    }

    /// The same fixed preferences and channel sizes.
    pub open spec fn same_setup(&self, o: Controller) -> bool {
        &&& self.idle_timeout == o.idle_timeout
        &&& self.tick_time == o.tick_time
        &&& self.dim_percent == o.dim_percent
        &&& self.dsp_max == o.dsp_max
        &&& self.dsp_step == o.dsp_step
        &&& self.kbd_max == o.kbd_max
        &&& self.kbd_step == o.kbd_step
    }

    /// A manual step on the display channel.
    pub open spec fn after_display_step(self, level: u32) -> (Controller, Output) {
        (
            Controller { dsp_val: level, idle: false, idle_time: 0, dsp_override: true, ..self },
            writes(Some(level), None),
        )
    }

    /// A manual step on the keyboard channel.
    pub open spec fn after_keyboard_step(self, level: u32) -> (Controller, Output) {
        (
            Controller { kbd_val: level, idle: false, idle_time: 0, kbd_override: true, ..self },
            writes(None, Some(level)),
        )
    }

    /// What an event does while the machine is ready for one.
    pub open spec fn on_event(self, m: Message) -> (Controller, Output) {
        match m {
            Message::DspDown => self.after_display_step(
                stepped_down(self.dsp_val as int, self.dsp_step as int) as u32,
            ),
            Message::DspUp => self.after_display_step(
                stepped_up(self.dsp_val as int, self.dsp_step as int, self.dsp_max as int) as u32,
            ),
            Message::KbdDown => self.after_keyboard_step(
                stepped_down(self.kbd_val as int, self.kbd_step as int) as u32,
            ),
            Message::KbdUp => self.after_keyboard_step(
                stepped_up(self.kbd_val as int, self.kbd_step as int, self.kbd_max as int) as u32,
            ),
            Message::Input => if self.idle {
                (
                    Controller { idle: false, idle_time: 0, ..self },
                    writes(Some(self.dsp_val), Some(self.kbd_val)),
                )
            } else {
                (Controller { idle_time: 0, ..self }, writes(None, None))
            },
            Message::Tick => if self.idle {
                (
                    Controller { idle_time: sat_add(self.idle_time, self.tick_time), ..self },
                    writes(None, None),
                )
            } else if self.idle_time > self.idle_timeout {
                (Controller { phase: Phase::AwaitingMedia, ..self }, asks(Request::MediaStatus))
            } else {
                (
                    Controller { phase: Phase::AwaitingAmbient, ..self },
                    asks(Request::AmbientReading),
                )
            },
        }
    }

    /// The display level that a fresh ambient reading `als` leads to.
    pub open spec fn display_after(self, als: u32) -> u32 {
        if self.dsp_override {
            self.dsp_val
        } else {
            capped(dsp_target(als as int, self.dsp_max as int))
        }
    }

    /// The keyboard level that a fresh ambient reading `als` leads to.
    pub open spec fn keyboard_after(self, als: u32) -> u32 {
        if self.kbd_override {
            self.kbd_val
        } else {
            kbd_target(als as int, self.kbd_max as int) as u32
        }
    }

    /// The end of a tick that read the ambient sensor: channels that were not
    /// stepped by hand follow a changed reading, and only changed levels are
    /// written.
    pub open spec fn on_ambient(self, als: u32) -> (Controller, Output) {
        let timed = Controller {
            idle_time: sat_add(self.idle_time, self.tick_time),
            phase: Phase::Ready,
            ..self
        };
        if als == self.als_value {
            (timed, writes(None, None))
        } else {
            let d = self.display_after(als);
            let k = self.keyboard_after(als);
            (
                Controller { als_value: als, dsp_val: d, kbd_val: k, ..timed },
                writes(
                    if d != self.dsp_val { Some(d) } else { None },
                    if k != self.kbd_val { Some(k) } else { None },
                ),
            )
        }
    }

    /// The end of a tick that passed the idle timeout: unless media plays,
    /// dim the display, switch the keyboard off and go idle, keeping the
    /// tracked levels; if media plays, read the ambient sensor instead.
    pub open spec fn on_media(self, playing: bool) -> (Controller, Output) {
        if playing {
            (Controller { phase: Phase::AwaitingAmbient, ..self }, asks(Request::AmbientReading))
        } else {
            (
                Controller {
                    idle: true,
                    idle_time: sat_add(self.idle_time, self.tick_time),
                    phase: Phase::Ready,
                    ..self
                },
                writes(Some(dimmed(self.dim_percent as int, self.dsp_val as int) as u32), Some(0)),
            )
        }
    }

    /// The state and output after one signal. A signal that does not fit the
    /// phase changes nothing.
    pub open spec fn next(self, sig: Signal) -> (Controller, Output) {
        match (self.phase, sig) {
            (Phase::Ready, Signal::Event(m)) => self.on_event(m),
            (Phase::AwaitingMedia, Signal::MediaPlaying(p)) => self.on_media(p),
            (Phase::AwaitingAmbient, Signal::AmbientReading(v)) => self.on_ambient(v),
            _ => (self, writes(None, None)),
        }
    }

    /// The state after a sequence of signals.
    pub open spec fn run(self, sigs: Seq<Signal>) -> Controller
        decreases sigs.len(),
    {
        if sigs.len() == 0 {
            self
        } else {
            self.next(sigs[0]).0.run(sigs.drop_first())
        }
    }

    /// The state at startup, from one ambient reading. Both levels are written
    /// once, whatever they are.
    pub fn new(prefs: &Preferences, kbd: &BacklightDevice, dsp: &BacklightDevice, als: u32) -> (r:
        Controller)
        requires
            prefs.dim_percent <= 100,
        ensures
            r.wf(),
            r.idle_timeout == prefs.idle_timeout,
            r.tick_time == prefs.tick_time,
            r.dim_percent == prefs.dim_percent,
            r.dsp_max == dsp.max,
            r.dsp_step == dsp.step,
            r.kbd_max == kbd.max,
            r.kbd_step == kbd.step,
            r.als_value == als,
            r.dsp_val == capped(dsp_target(als as int, dsp.max as int)),
            r.kbd_val == kbd_target(als as int, kbd.max as int),
            !r.dsp_override,
            !r.kbd_override,
            !r.idle,
            r.idle_time == 0,
            r.phase == Phase::Ready,
    {
        Controller {
            idle_timeout: prefs.idle_timeout,
            tick_time: prefs.tick_time,
            dim_percent: prefs.dim_percent,
            dsp_max: dsp.max,
            dsp_step: dsp.step,
            kbd_max: kbd.max,
            kbd_step: kbd.step,
            als_value: als,
            dsp_val: als_to_dsp(als, dsp.max),
            kbd_val: als_to_kb(als, kbd.max),
            dsp_override: false,
            kbd_override: false,
            idle: false,
            idle_time: 0,
            phase: Phase::Ready,
        }
    }

    /// The writes that the startup state owes: both levels.
    pub fn initial_output(&self) -> (r: Output)
        ensures
            r == writes(Some(self.dsp_val), Some(self.kbd_val)),
    {
        Output { display: Some(self.dsp_val), keyboard: Some(self.kbd_val), request: Request::Nothing }
    }

    fn tick_done(&mut self)
        ensures
            *final(self) == (Controller {
                idle_time: sat_add(old(self).idle_time, old(self).tick_time),
                ..*old(self)
            }),
    {
        self.idle_time = self.idle_time.saturating_add(self.tick_time);
    }

    /// Consume one signal: update the state and say what to write and what
    /// to read next.
    pub fn step(&mut self, sig: Signal) -> (r: Output)
        requires
            old(self).wf(),
        ensures
            final(self).wf(),
            (*final(self), r) == old(self).next(sig),
    {
        let quiet = Output { display: None, keyboard: None, request: Request::Nothing };
        match (self.phase, sig) {
            (Phase::Ready, Signal::Event(m)) => match m {
                Message::DspDown => {
                    self.dsp_val = step_down(self.dsp_val, self.dsp_step);
                    self.idle = false;
                    self.idle_time = 0;
                    self.dsp_override = true;
                    Output { display: Some(self.dsp_val), keyboard: None, request: Request::Nothing }
                },
                Message::DspUp => {
                    self.dsp_val = step_up(self.dsp_val, self.dsp_step, self.dsp_max);
                    self.idle = false;
                    self.idle_time = 0;
                    self.dsp_override = true;
                    Output { display: Some(self.dsp_val), keyboard: None, request: Request::Nothing }
                },
                Message::KbdDown => {
                    self.kbd_val = step_down(self.kbd_val, self.kbd_step);
                    self.idle = false;
                    self.idle_time = 0;
                    self.kbd_override = true;
                    Output { display: None, keyboard: Some(self.kbd_val), request: Request::Nothing }
                },
                Message::KbdUp => {
                    self.kbd_val = step_up(self.kbd_val, self.kbd_step, self.kbd_max);
                    self.idle = false;
                    self.idle_time = 0;
                    self.kbd_override = true;
                    Output { display: None, keyboard: Some(self.kbd_val), request: Request::Nothing }
                },
                Message::Input => {
                    self.idle_time = 0;
                    if self.idle {
                        self.idle = false;
                        Output {
                            display: Some(self.dsp_val),
                            keyboard: Some(self.kbd_val),
                            request: Request::Nothing,
                        }
                    } else {
                        quiet
                    }
                },
                Message::Tick => {
                    if self.idle {
                        self.tick_done();
                        quiet
                    } else if self.idle_time > self.idle_timeout {
                        self.phase = Phase::AwaitingMedia;
                        Output { display: None, keyboard: None, request: Request::MediaStatus }
                    } else {
                        self.phase = Phase::AwaitingAmbient;
                        Output { display: None, keyboard: None, request: Request::AmbientReading }
                    }
                },
            },
            (Phase::AwaitingMedia, Signal::MediaPlaying(playing)) => {
                if playing {
                    self.phase = Phase::AwaitingAmbient;
                    Output { display: None, keyboard: None, request: Request::AmbientReading }
                } else {
                    self.idle = true;
                    self.phase = Phase::Ready;
                    self.tick_done();
                    Output {
                        display: Some(mult(self.dim_percent, self.dsp_val)),
                        keyboard: Some(0),
                        request: Request::Nothing,
                    }
                }
            },
            (Phase::AwaitingAmbient, Signal::AmbientReading(als)) => {
                self.phase = Phase::Ready;
                self.tick_done();
                if als == self.als_value {
                    quiet
                } else {
                    self.als_value = als;
                    let mut display: Option<u32> = None;
                    let mut keyboard: Option<u32> = None;
                    if !self.dsp_override {
                        let d = als_to_dsp(als, self.dsp_max);
                        if d != self.dsp_val {
                            self.dsp_val = d;
                            display = Some(d);
                        }
                    }
                    if !self.kbd_override {
                        let k = als_to_kb(als, self.kbd_max);
                        if k != self.kbd_val {
                            self.kbd_val = k;
                            keyboard = Some(k);
                        }
                    }
                    Output { display, keyboard, request: Request::Nothing }
                }
            },
            _ => quiet,
        }
    }
}

} // verus!
