//! A single-line text input widget: an editable character buffer with a
//! cursor, driven entirely by keypress events.

use vstd::prelude::*;
use vstd::string::StrSliceExecFns;

use crate::errors::Error;
use crate::events::{Broadcast, Event, Keypress};

verus! {

/// The cursor position is capped at this many characters.
pub const MAX_POS: u16 = 65535;

/// An editable text line with a title and a cursor.
#[derive(PartialEq, Eq, Debug)]
pub struct Text {
    pub title: String,
    pub content: Vec<char>,
    pub pos: u16,
}

/// The mathematical model of a `Text` widget.
pub struct TextView {
    pub title: Seq<char>,
    pub content: Seq<char>,
    pub pos: u16,
}

impl View for Text {
    type V = TextView;

    open spec fn view(&self) -> TextView {
        TextView { title: self.title@, content: self.content@, pos: self.pos }
    }
}

/// Well-formedness: the cursor never points past the end of the content.
pub open spec fn text_wf(t: TextView) -> bool {
    t.pos as nat <= t.content.len()
}

/// The position the cursor moves to on a right arrow: one step right,
/// clamped to the end of the content and to the cursor's own range.
pub open spec fn pos_right(t: TextView) -> u16 {
    let cap: nat = if t.content.len() < MAX_POS as nat {
        t.content.len()
    } else {
        MAX_POS as nat
    };
    if t.pos as nat + 1 <= cap {
        (t.pos + 1) as u16
    } else {
        cap as u16
    }
}

/// The widget after dispatching one event.
pub open spec fn text_next(t: TextView, ev: Event) -> TextView {
    match ev {
        Event::Keypress(Keypress::Printable(c)) => TextView {
            content: t.content.insert(t.pos as int, c),
            pos: if t.pos < MAX_POS {
                (t.pos + 1) as u16
            } else {
                t.pos
            },
            ..t
        },
        Event::Keypress(Keypress::Backspace) => {
            if t.content.len() == 0 || t.pos == 0 {
                t
            } else {
                TextView {
                    content: t.content.remove(t.pos as int - 1),
                    pos: (t.pos - 1) as u16,
                    ..t
                }
            }
        },
        Event::Keypress(Keypress::CursorLeft) => TextView {
            pos: if t.pos == 0 {
                0u16
            } else {
                (t.pos - 1) as u16
            },
            ..t
        },
        Event::Keypress(Keypress::CursorRight) => TextView { pos: pos_right(t), ..t },
        _ => t,
    }
}

/// The broadcast dispatching one event yields.
pub open spec fn text_out(t: TextView, ev: Event) -> Broadcast {
    match ev {
        Event::Keypress(Keypress::Escape) => Broadcast::Exited,
        Event::Keypress(Keypress::Printable(_)) => Broadcast::Consumed,
        Event::Keypress(Keypress::Backspace) => Broadcast::Consumed,
        Event::Keypress(Keypress::CursorLeft) => Broadcast::Consumed,
        Event::Keypress(Keypress::CursorRight) => Broadcast::Consumed,
        _ => Broadcast::Ignored,
    }
}

/// Relies on String::push: appends exactly one character.
#[verifier::external_body]
fn push_char(s: &mut String, c: char)
    ensures
        final(s)@ == old(s)@.push(c),
{
    s.push(c)
}

impl Default for Text {
    fn default() -> (r: Self)
        ensures
            r@.title == Seq::<char>::empty(),
            r@.content == Seq::<char>::empty(),
            r@.pos == 0,
    {
        Text { title: String::new(), content: Vec::new(), pos: 0 }
    }
}

impl Text {
    pub fn with_title(self, title: &str) -> (r: Self)
        ensures
            r@.title == title@,
            r@.content == self@.content,
            r@.pos == self@.pos,
    {
        Text { title: title.to_owned(), ..self }
    }

    /// Replace the content and put the cursor at its end.
    pub fn with_content(self, content: &str) -> (r: Self)
        requires
            content@.len() <= MAX_POS as nat,
        ensures
            r@.content == content@,
            r@.pos as nat == content@.len(),
            r@.title == self@.title,
    {
        let n = content.unicode_len();
        let mut chars: Vec<char> = Vec::new();
        let mut i: usize = 0;
        while i < n
            invariant
                n == content@.len(),
                i <= n,
                chars@ == content@.subrange(0, i as int),
            decreases n - i,
        {
            chars.push(content.get_char(i));
            i = i + 1;
            assert(chars@ =~= content@.subrange(0, i as int));
        }
        assert(chars@ =~= content@);
        Text { content: chars, pos: n as u16, ..self }
    }

    /// The current content as a string.
    pub fn content(&self) -> (r: String)
        ensures
            r@ == self@.content,
    {
        let mut s = String::new();
        let mut i: usize = 0;
        while i < self.content.len()
            invariant
                i <= self.content@.len(),
                s@ == self.content@.subrange(0, i as int),
            decreases self.content@.len() - i,
        {
            push_char(&mut s, self.content[i]);
            i = i + 1;
            assert(s@ =~= self.content@.subrange(0, i as int));
        }
        assert(s@ =~= self.content@);
        s
    }

    /// Edit the buffer according to one event. Escape exits; printable
    /// characters insert at the cursor; backspace, and the arrow keys,
    /// edit and move the cursor; anything else is ignored.
    pub fn dispatch(&mut self, event: &Event) -> (r: Result<Broadcast, Error>)
        requires
            text_wf(old(self)@),
        ensures
            text_wf(final(self)@),
            final(self)@ == text_next(old(self)@, *event),
            r == Ok::<Broadcast, Error>(text_out(old(self)@, *event)),
    {
        match event {
            Event::Keypress(Keypress::Escape) => {
                return Ok(Broadcast::Exited);
            },
            Event::Keypress(Keypress::Printable(x)) => {
                self.content.insert(self.pos as usize, *x);
                if self.pos < MAX_POS {
                    self.pos = self.pos + 1;
                }
            },
            Event::Keypress(Keypress::Backspace) => {
                if self.content.len() > 0 && self.pos > 0 {
                    self.content.remove(self.pos as usize - 1);
                    self.pos = self.pos - 1;
                }
            },
            Event::Keypress(Keypress::CursorLeft) => {
                if self.pos > 0 {
                    self.pos = self.pos - 1;
                }
            },
            Event::Keypress(Keypress::CursorRight) => {
                let cap: u16 = if self.content.len() < MAX_POS as usize {
                    self.content.len() as u16
                } else {
                    MAX_POS
                };
                if self.pos < cap {
                    self.pos = self.pos + 1;
                }
            },
            _ => {
                return Ok(Broadcast::Ignored);
            },
        }
        Ok(Broadcast::Consumed)
    }
}

} // verus!
