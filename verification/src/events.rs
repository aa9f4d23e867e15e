//! The shared event vocabulary: messages on a dashboard's sink, keypresses
//! decoded from raw input bytes, and the broadcast results that widget
//! dispatch hands back to the event loop.

use vstd::prelude::*;

verus! {

/// A single decoded keypress.
#[derive(Clone, Copy, PartialEq, Eq, Structural, Debug)]
pub enum Keypress {
    /// The designated termination keypress (end-of-transmission, 0x04).
    EndOfTransmission,
    Escape,
    Backspace,
    CursorLeft,
    CursorRight,
    Enter,
    Printable(char),
    Unknown,
}

/// Terminal size carried by resize events: character cells and pixels.
#[derive(Clone, Copy, PartialEq, Eq, Structural, Debug)]
pub struct WindowSize {
    pub columns: u16,
    pub rows: u16,
    pub pixel_width: u16,
    pub pixel_height: u16,
}

/// A resource entry shown by the tunnel widget; a domain broadcast payload.
#[derive(Clone, Copy, PartialEq, Eq, Structural, Debug)]
pub struct TunnelEntry {
    pub id: u64,
    pub failed: bool,
}

/// A failed tunnel update, still carrying the entry it concerns.
#[derive(Clone, Copy, PartialEq, Eq, Structural, Debug)]
pub struct TunnelError {
    pub tunnel: TunnelEntry,
}

impl TunnelError {
    /// The entry this failure concerns, marked as failed.
    pub fn into_error(self) -> (r: TunnelEntry)
        ensures
            r == (TunnelEntry { failed: true, ..self.tunnel }),
    {
        TunnelEntry { id: self.tunnel.id, failed: true }
    }
}

/// One message on a dashboard's internal channel.
#[derive(Clone, Copy, PartialEq, Eq, Debug)]
pub enum Event {
    /// A render tick: redraw the active widget.
    Render,
    /// A decoded keypress.
    Keypress(Keypress),
    /// A window-change notification.
    Resize(WindowSize),
    /// A domain broadcast: a tunnel came up or failed.
    Tunnel(Result<TunnelEntry, TunnelError>),
}

/// The result of dispatching an event: drives redraw, termination and
/// mode switching in the event loop.
#[derive(PartialEq, Eq, Structural, Debug)]
pub enum Broadcast {
    /// The widget did nothing with the event.
    Ignored,
    /// The widget consumed the event; a redraw is due.
    Consumed,
    /// The session is over; the loop must stop.
    Exited,
    /// The widget requests a hand-off to raw byte passthrough.
    Raw(crate::widget::RawWidget),
}

/// What a sequence of raw input bytes decodes to.
pub open spec fn decoded(bytes: Seq<u8>) -> Event {
    if bytes.len() == 0 {
        Event::Render
    } else {
        Event::Keypress(decoded_key(bytes))
    }
}

/// The keypress a non-empty byte sequence decodes to.
pub open spec fn decoded_key(bytes: Seq<u8>) -> Keypress {
    if bytes =~= seq![4u8] {
        Keypress::EndOfTransmission
    } else if bytes =~= seq![27u8] {
        Keypress::Escape
    } else if bytes =~= seq![127u8] {
        Keypress::Backspace
    } else if bytes =~= seq![13u8] {
        Keypress::Enter
    } else if bytes =~= seq![27u8, 91u8, 68u8] {
        Keypress::CursorLeft
    } else if bytes =~= seq![27u8, 91u8, 67u8] {
        Keypress::CursorRight
    } else if bytes.len() == 1 && 32 <= bytes[0] < 127 {
        Keypress::Printable(bytes[0] as char)
    } else {
        Keypress::Unknown
    }
}

/// Decode one raw message into a structured event: an empty payload is a
/// render tick, anything else is a keypress.
pub fn decode(bytes: &Vec<u8>) -> (r: Event)
    ensures
        r == decoded(bytes@),
{
    if bytes.len() == 0 {
        return Event::Render;
    }
    let b0 = bytes[0];
    if bytes.len() == 1 {
        if b0 == 4 {
            assert(bytes@ =~= seq![4u8]);
            Event::Keypress(Keypress::EndOfTransmission)
        } else if b0 == 27 {
            assert(bytes@ =~= seq![27u8]);
            Event::Keypress(Keypress::Escape)
        } else if b0 == 127 {
            assert(bytes@ =~= seq![127u8]);
            Event::Keypress(Keypress::Backspace)
        } else if b0 == 13 {
            assert(bytes@ =~= seq![13u8]);
            Event::Keypress(Keypress::Enter)
        } else if 32 <= b0 && b0 < 127 {
            Event::Keypress(Keypress::Printable(b0 as char))
        } else {
            Event::Keypress(Keypress::Unknown)
        }
    } else if bytes.len() == 3 && b0 == 27 && bytes[1] == 91 && bytes[2] == 68 {
        assert(bytes@ =~= seq![27u8, 91u8, 68u8]);
        Event::Keypress(Keypress::CursorLeft)
    } else if bytes.len() == 3 && b0 == 27 && bytes[1] == 91 && bytes[2] == 67 {
        assert(bytes@ =~= seq![27u8, 91u8, 67u8]);
        Event::Keypress(Keypress::CursorRight)
    } else {
        Event::Keypress(Keypress::Unknown)
    }
}

} // verus!
