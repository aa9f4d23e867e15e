//! The per-session event loop core: the UI/Raw mode state machine and the
//! decision logic that turns each message from the merged ticker/input
//! stream into a loop action. The surrounding tasks — the ticker, the
//! input reader and the terminal itself — live outside the library and
//! only call into these functions.

use vstd::prelude::*;

use crate::errors::Error;
use crate::events::{decode, decoded, Broadcast, Event, Keypress};
use crate::widget::{widget_next, widget_out, widget_wf, RawWidget, Widget, WidgetView};

verus! {

/// The rendering mode of a session: structured UI, or raw byte
/// passthrough with the previous UI widget suspended for restoration.
#[derive(PartialEq, Eq, Debug)]
pub enum Mode {
    UI(Widget),
    Raw(RawWidget, Widget),
}

/// The structured widget a mode carries: the active one in UI mode, the
/// suspended one in raw mode.
pub open spec fn mode_widget(m: Mode) -> Widget {
    match m {
        Mode::UI(w) => w,
        Mode::Raw(_, w) => w,
    }
}

/// Well-formedness of the carried widget.
pub open spec fn mode_wf(m: Mode) -> bool {
    widget_wf(mode_widget(m)@)
}

/// The mode after a widget requests the raw hand-off: the current
/// widget, whichever variant carried it, is suspended behind the raw
/// widget.
pub open spec fn mode_raw_next(m: Mode, raw: RawWidget) -> Mode {
    Mode::Raw(raw, mode_widget(m))
}

/// The mode after the raw widget reports completion: the suspended
/// widget is restored; in UI mode nothing changes.
pub open spec fn mode_ui_next(m: Mode) -> Mode {
    match m {
        Mode::Raw(_, previous) => Mode::UI(previous),
        Mode::UI(w) => Mode::UI(w),
    }
}

impl Mode {
    /// Hand off to raw rendering, suspending the current widget. The
    /// suspended widget is kept exactly as it was, so that leaving raw
    /// mode can restore it without substitution.
    pub fn raw(&mut self, raw: RawWidget)
        ensures
            *final(self) == mode_raw_next(*old(self), raw),
    {
        let mut tmp = Mode::UI(Widget::Text(Default::default()));
        core::mem::swap(self, &mut tmp);
        let previous = match tmp {
            Mode::UI(previous) => previous,
            Mode::Raw(_, previous) => previous,
        };
        *self = Mode::Raw(raw, previous);
    }

    /// Leave raw rendering, restoring the exact suspended widget. In UI
    /// mode this changes nothing.
    pub fn ui(&mut self)
        ensures
            *final(self) == mode_ui_next(*old(self)),
    {
        let mut tmp = Mode::UI(Widget::Text(Default::default()));
        core::mem::swap(self, &mut tmp);
        *self = match tmp {
            Mode::Raw(_, previous) => Mode::UI(previous),
            other => other,
        };
    }
}

/// The broadcast that dispatching an event in UI mode yields: the
/// termination keypress exits no matter which widget is active, a render
/// tick never reaches the widget, and every other event is handed to it.
pub open spec fn ui_out(w: WidgetView, ev: Event) -> Broadcast {
    match ev {
        Event::Render => Broadcast::Ignored,
        Event::Keypress(Keypress::EndOfTransmission) => Broadcast::Exited,
        _ => widget_out(w, ev),
    }
}

/// The active widget after dispatching an event in UI mode.
pub open spec fn ui_next(w: WidgetView, ev: Event) -> WidgetView {
    match ev {
        Event::Render => w,
        Event::Keypress(Keypress::EndOfTransmission) => w,
        _ => widget_next(w, ev),
    }
}

/// Whether dispatching an event in UI mode asks for a redraw: on every
/// render tick, and whenever the widget consumed the event.
pub open spec fn ui_draws(w: WidgetView, ev: Event) -> bool {
    ev is Render || ui_out(w, ev) == Broadcast::Consumed
}

/// Dispatch one structured event in UI mode. Returns the resulting
/// broadcast and whether a redraw is due. Raw mode is a protocol
/// violation here: raw forwarding is checked before generic dispatch.
pub fn dispatch(mode: &mut Mode, ev: &Event) -> (r: Result<(Broadcast, bool), Error>)
    requires
        mode_wf(*old(mode)),
    ensures
        mode_wf(*final(mode)),
        (*old(mode)) is Raw ==> r == Err::<(Broadcast, bool), Error>(Error::ProtocolViolation)
            && *final(mode) == *old(mode),
        (*old(mode)) matches Mode::UI(w0) ==> {
            &&& ((*final(mode)) matches Mode::UI(w1) && w1@ == ui_next(w0@, *ev))
            &&& (r matches Ok(p) && p.0 == ui_out(w0@, *ev) && p.1 == ui_draws(w0@, *ev))
        },
{
    let widget = match mode {
        Mode::UI(widget) => widget,
        Mode::Raw(..) => {
            return Err(Error::ProtocolViolation);
        },
    };
    match ev {
        Event::Render => Ok((Broadcast::Ignored, true)),
        Event::Keypress(Keypress::EndOfTransmission) => Ok((Broadcast::Exited, false)),
        _ => {
            let b = widget.dispatch(ev)?;
            let draws = matches!(b, Broadcast::Consumed);
            Ok((b, draws))
        },
    }
}

/// What the event loop must do with one received message.
#[derive(PartialEq, Eq, Structural, Debug)]
pub enum Step {
    /// Raw mode: hand the message's bytes verbatim to the raw widget;
    /// when it reports completion, call `Mode::ui` and clear the screen.
    Forward,
    /// Redraw the active UI widget.
    Redraw,
    /// Nothing to render.
    Idle,
    /// Stop the loop and tear the session down.
    Exit,
}

/// The step one message asks for.
pub open spec fn loop_out(m: Mode, bytes: Seq<u8>) -> Step {
    match m {
        Mode::Raw(..) => Step::Forward,
        Mode::UI(w0) => {
            let ev = decoded(bytes);
            match ui_out(w0@, ev) {
                Broadcast::Exited => Step::Exit,
                _ => if ui_draws(w0@, ev) {
                    Step::Redraw
                } else {
                    Step::Idle
                },
            }
        },
    }
}

/// Absorb one message from the merged ticker/input stream: raw bytes are
/// forwarded while in raw mode; otherwise the message is decoded and
/// dispatched, and the caller is told whether to redraw, exit, or do
/// nothing.
pub fn loop_step(mode: &mut Mode, bytes: &Vec<u8>) -> (r: Step)
    requires
        mode_wf(*old(mode)),
    ensures
        mode_wf(*final(mode)),
        r == loop_out(*old(mode), bytes@),
        (*old(mode)) is Raw ==> *final(mode) == *old(mode),
        (*old(mode)) matches Mode::UI(w0) ==> {
            let ev = decoded(bytes@);
            let out = ui_out(w0@, ev);
            &&& (out matches Broadcast::Raw(rw) ==> ((*final(mode)) matches Mode::Raw(rw1, w1)
                && rw1 == rw && w1@ == ui_next(w0@, ev)))
            &&& (!(out is Raw) ==> ((*final(mode)) matches Mode::UI(w1) && w1@ == ui_next(w0@, ev)))
        },
{
    if matches!(mode, Mode::Raw(..)) {
        return Step::Forward;
    }
    let ev = decode(bytes);
    let result = match dispatch(mode, &ev) {
        Ok((b, _)) => b,
        Err(_) => {
            proof {
                assert(false);
            }
            Broadcast::Ignored
        },
    };
    match result {
        Broadcast::Exited => Step::Exit,
        Broadcast::Raw(widget) => {
            mode.raw(widget);
            Step::Idle
        },
        Broadcast::Consumed => Step::Redraw,
        _ => {
            if matches!(ev, Event::Render) {
                Step::Redraw
            } else {
                Step::Idle
            }
        },
    }
}

/// Law: the raw hand-off round-trip restores the exact widget value
/// that was suspended — entering raw mode and leaving it again is the
/// identity on a UI mode, with no substitution.
pub proof fn lemma_mode_round_trip(m: Mode, raw: RawWidget)
    ensures
        mode_raw_next(m, raw) == Mode::Raw(raw, mode_widget(m)),
        mode_ui_next(mode_raw_next(m, raw)) == Mode::UI(mode_widget(m)),
        m is UI ==> mode_ui_next(mode_raw_next(m, raw)) == m,
{
}

/// Law: in UI mode the termination keypress yields `Exited`, and stops
/// the loop, no matter which widget is active and whatever its state.
pub proof fn lemma_termination_exits(m: Mode, bytes: Seq<u8>)
    ensures
        m matches Mode::UI(w) ==> ui_out(w@, Event::Keypress(Keypress::EndOfTransmission))
            == Broadcast::Exited,
        m is UI && decoded(bytes) == Event::Keypress(Keypress::EndOfTransmission) ==> loop_out(
            m,
            bytes,
        ) == Step::Exit,
{
}

} // verus!
