//! Properties of the state machine over one or many signals.

use crate::control::{asks, sat_add, writes, Controller, Phase, Request, Signal};
use crate::policy::dimmed;
use crate::types::Message;
use vstd::prelude::*;

verus! {

/// Activity while already active, with the idle timer at zero, changes no
/// level, no flag and writes nothing.
pub proof fn lemma_activity_while_active_is_noop(c: Controller)
    requires
        c.phase == Phase::Ready,
        !c.idle,
        c.idle_time == 0,
    ensures
        c.next(Signal::Event(Message::Input)) == (c, writes(None, None)),
{
}

/// Activity while idle rewrites both tracked (undimmed) levels, makes the
/// machine active and resets the idle timer; nothing else changes.
pub proof fn lemma_activity_restores_levels(c: Controller)
    requires
        c.phase == Phase::Ready,
        c.idle,
    ensures
        c.next(Signal::Event(Message::Input)) == (
            Controller { idle: false, idle_time: 0, ..c },
            writes(Some(c.dsp_val), Some(c.kbd_val)),
        ),
{
}

/// A tick that finds the timer past the idle timeout asks whether media
/// plays; if not, the display is dimmed, the keyboard switched off and the
/// machine goes idle with its tracked levels kept. Once idle, a tick writes
/// nothing and the machine stays idle.
pub proof fn lemma_idle_transition(c: Controller)
    requires
        c.phase == Phase::Ready,
    ensures
        !c.idle && c.idle_time > c.idle_timeout ==> {
            let (m, out) = c.next(Signal::Event(Message::Tick));
            &&& out == asks(Request::MediaStatus)
            &&& m.next(Signal::MediaPlaying(false)) == (
                Controller {
                    idle: true,
                    idle_time: sat_add(c.idle_time, c.tick_time),
                    ..c
                },
                writes(Some(dimmed(c.dim_percent as int, c.dsp_val as int) as u32), Some(0)),
            )
        },
        c.idle ==> c.next(Signal::Event(Message::Tick)) == (
            Controller { idle_time: sat_add(c.idle_time, c.tick_time), ..c },
            writes(None, None),
        ),
{
}

/// Whether a signal is a manual step of the display.
pub open spec fn steps_display(s: Signal) -> bool {
    s == Signal::Event(Message::DspUp) || s == Signal::Event(Message::DspDown)
}

/// Whether a signal is a manual step of the keyboard.
pub open spec fn steps_keyboard(s: Signal) -> bool {
    s == Signal::Event(Message::KbdUp) || s == Signal::Event(Message::KbdDown)
}

/// A manual step marks its channel as overridden.
pub proof fn lemma_manual_step_overrides(c: Controller, s: Signal)
    requires
        c.phase == Phase::Ready,
    ensures
        steps_display(s) ==> c.next(s).0.dsp_override,
        steps_keyboard(s) ==> c.next(s).0.kbd_override,
{
}

/// An override is never lifted, and after it no signal but a manual step of
/// the same channel changes that channel's level: ticks with new ambient
/// readings leave it where it is.
pub proof fn lemma_override_pins_level(c: Controller, sigs: Seq<Signal>)
    ensures
        c.dsp_override ==> c.run(sigs).dsp_override,
        c.kbd_override ==> c.run(sigs).kbd_override,
        c.dsp_override && (forall|i: int| 0 <= i < sigs.len() ==> !steps_display(#[trigger] sigs[i]))
            ==> c.run(sigs).dsp_val == c.dsp_val,
        c.kbd_override && (forall|i: int| 0 <= i < sigs.len() ==> !steps_keyboard(#[trigger] sigs[i]))
            ==> c.run(sigs).kbd_val == c.kbd_val,
    decreases sigs.len(),
{
    if sigs.len() > 0 {
        let n = c.next(sigs[0]).0;
        let rest = sigs.drop_first();
        lemma_override_pins_level(n, rest);
        assert forall|i: int| 0 <= i < rest.len() implies #[trigger] rest[i] == sigs[i + 1] by {}
        if c.dsp_override && (forall|i: int| 0 <= i < sigs.len() ==> !steps_display(#[trigger] sigs[i])) {
            assert(!steps_display(sigs[0]));
            assert(forall|i: int| 0 <= i < rest.len() ==> !steps_display(#[trigger] rest[i])) by {
                assert forall|i: int| 0 <= i < rest.len() implies !steps_display(#[trigger] rest[i]) by {
                    assert(rest[i] == sigs[i + 1]);
                }
            }
        }
        if c.kbd_override && (forall|i: int| 0 <= i < sigs.len() ==> !steps_keyboard(#[trigger] sigs[i])) {
            assert(!steps_keyboard(sigs[0]));
            assert(forall|i: int| 0 <= i < rest.len() ==> !steps_keyboard(#[trigger] rest[i])) by {
                assert forall|i: int| 0 <= i < rest.len() implies !steps_keyboard(#[trigger] rest[i]) by {
                    assert(rest[i] == sigs[i + 1]);
                }
            }
        }
    }
}

} // verus!
